//! Classifies single characters against the character sets of the grammars
//! of mail: which characters can stand in an atom, in a quoted string, in a
//! comment, in a domain literal, in a token.
//!
//! `Charset` names the character sets. `Charset::contains` tests one
//! character against one of them; so does `ch.is(charset)`, which the trait
//! `CharMatchExt` gives to `char`. To test one character against several
//! character sets, look it up once with `Charset::lookup` and put the
//! questions to the result.
//!
//! Every test is one probe of a table of 128 bytes. The module `grammar`
//! holds the productions of the RFCs as predicates, the module `lookup` the
//! table and the proof that the two say the same, and the module `laws` what
//! follows for the tests.
//!
//! # Why whitespace is part of `CTextWs`, `DTextWs` and `QTextWs`
//!
//! Wherever the grammar uses `qtext`, `ctext` or `dtext`, it repeats it with
//! optional folding whitespace in front, as in `*([FWS] dtext) [FWS]`. A
//! parser of such a part accepts the characters that are `dtext` or `WSP`,
//! and on a carriage return, which is in none of the sets, it makes sure
//! that a line feed and a space or tab follow. So the three sets hold `WSP`
//! from the start, and one test per character is enough.
//!
//! # The character sets by RFC
//!
//! The modules `rfc5322`, `rfc2045`, `rfc6838` and `rfc7230` give the
//! variants of `Charset` again, each under the RFC that defines it.

use vstd::prelude::*;

pub mod charset;
pub mod grammar;
pub mod laws;
pub mod lookup;
pub mod rfc2045;
pub mod rfc5322;
pub mod rfc6838;
pub mod rfc7230;
mod sealed;

pub use crate::charset::{CharMatchExt, Charset, LookupResult};
pub use crate::sealed::Seal;

verus! {

/// Returns true if `ch` is whitespace: a space or a horizontal tab.
#[inline]
pub fn is_ws(ch: char) -> (r: bool)
    ensures
        r == crate::grammar::is_wsp(ch),
{
    ch == ' ' || ch == '\t'
}

/// Returns true if `ch` is a visible character: above the space and not
/// above `~`.
#[inline]
pub fn is_vchar(ch: char) -> (r: bool)
    ensures
        r == crate::grammar::is_visible(ch),
        r == (' ' < ch && ch <= '~'),
{
    ' ' < ch && ch <= '~'
}

} // verus!
