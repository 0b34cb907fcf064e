//! The character sets of RFC 5322, under the names of the variants of
//! `Charset`.

pub use crate::charset::Charset::{AText, CTextWs, DTextWs, ObsNoWsCtl, QTextWs};
