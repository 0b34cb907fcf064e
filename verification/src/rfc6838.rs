//! The character set of RFC 6838, under the name of the variant of
//! `Charset`.

pub use crate::charset::Charset::RestrictedToken;
