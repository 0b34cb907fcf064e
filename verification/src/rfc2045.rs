//! The character set of RFC 2045, under the name of the variant of
//! `Charset`.

pub use crate::charset::Charset::Token;
