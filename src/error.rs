use vstd::prelude::*;

use crate::value::{DynValue, Value};

verus! {

/// Why a decode stopped. Every failure is final: it aborts the whole decode.
#[derive(Debug)]
pub enum Error {
    /// The value has no shape that can be decoded (a function, a symbol).
    Undecodable(Value),
    /// Normalization left nothing of this property name to use as a key.
    InvalidKey(String),
    /// Tagged unions are deliberately not decoded.
    EnumUnsupported,
}

/// The mathematical model of an [`Error`].
pub enum ErrorModel {
    Undecodable(DynValue),
    InvalidKey(Seq<char>),
    EnumUnsupported,
}

impl View for Error {
    type V = ErrorModel;

    open spec fn view(&self) -> ErrorModel {
        match self {
            Error::Undecodable(v) => ErrorModel::Undecodable(v@),
            Error::InvalidKey(k) => ErrorModel::InvalidKey(k@),
            Error::EnumUnsupported => ErrorModel::EnumUnsupported,
        }
    }
}

} // verus!
