//! Decodes the dynamically typed values of an embedded scripting runtime
//! into the shapes of a visitor-driven decoding protocol.
//!
//! The shape of a value alone decides what is presented: [`de::Deserializer`]
//! classifies the value in its slot, [`de::SeqAccess`] and [`de::MapAccess`]
//! walk arrays and objects, and [`key`] normalizes property names into
//! snake-case keys. [`lemmas`] states the laws that the decoder obeys.

pub mod de;
pub mod error;
pub mod key;
pub mod lemmas;
pub mod value;
