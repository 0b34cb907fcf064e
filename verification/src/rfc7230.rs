//! The character sets of RFC 7230.
//!
//! `QDText` is `QTextWs` of RFC 5322: with the obsolete parts of both
//! grammars left out, `qdtext` and `qtext` with `WSP` are the same
//! characters.

pub use crate::charset::Charset::{QTextWs as QDText, Rfc7230Token as Token};
