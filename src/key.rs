use convert_case::Casing;
use vstd::prelude::*;

use crate::error::{Error, ErrorModel};

verus! {

/// What convert_case makes of a text when it rewrites it in snake case.
pub uninterp spec fn snake_of(s: Seq<char>) -> Seq<char>;

/// Relies on convert_case's `Casing::to_case` with `Case::Snake`: the text is
/// split into words and rejoined in lower case with underscores, and the result
/// depends on the text alone.
#[verifier::external_body]
fn to_snake_case(s: &str) -> (r: String)
    ensures
        r@ == snake_of(s@),
{
    s.to_case(convert_case::Case::Snake)
}

/// The key that a property named `raw` is presented under, given what
/// normalization made of the name; `None` where it left nothing.
pub open spec fn key_from(raw: Seq<char>, normalized: Seq<char>) -> Option<Seq<char>> {
    if normalized.len() == 0 {
        None
    } else {
        Some(normalized)
    }
}

/// The key that a property named `raw` is presented under.
pub open spec fn normalized_key(raw: Seq<char>) -> Option<Seq<char>> {
    key_from(raw, snake_of(raw))
}

/// Accepts `normalized`, the snake-case form of the property name `raw`, as a
/// key, or reports `raw` as unusable when nothing is left of it.
pub fn accept_key(raw: &str, normalized: String) -> (r: Result<String, Error>)
    ensures
        match r {
            Ok(k) => key_from(raw@, normalized@) == Some(k@),
            Err(e) => key_from(raw@, normalized@) is None && e@ == ErrorModel::InvalidKey(raw@),
        },
{
    if normalized.as_str().is_empty() {
        Err(Error::InvalidKey(raw.to_owned()))
    } else {
        Ok(normalized)
    }
}

/// Rewrites a property name into the lower-case, underscore-separated key
/// that the decoder presents.
pub fn sanitize_key(raw: &str) -> (r: Result<String, Error>)
    ensures
        match r {
            Ok(k) => normalized_key(raw@) == Some(k@),
            Err(e) => normalized_key(raw@) is None && e@ == ErrorModel::InvalidKey(raw@),
        },
{
    let normalized = to_snake_case(raw);
    accept_key(raw, normalized)
}

} // verus!
