//! The character sets, and the tests of a character against them.

use vstd::prelude::*;
use crate::grammar::{
    is_atext, is_ctext, is_dtext, is_mime_token_char, is_obs_no_ws_ctl, is_qtext,
    is_restricted_name_char, is_tchar, is_us_ascii, is_wsp,
};
use crate::lookup::{
    has_bit, lemma_table_is_faithful, AT, CT, DT, HT, NC, QC, RT, TO, US_ASCII_LOOKUP,
};
use crate::sealed::Seal;

verus! {

/// The character sets that the lookup table knows.
#[derive(Copy, Clone, Ord, PartialOrd, Eq, PartialEq, Structural, Hash, Debug)]
pub enum Charset {
    /// `qtext` and `WSP`: what can stand in a quoted string without being
    /// part of a quoted pair. The obsolete part of the grammar is left out.
    ///
    /// RFC 5322. The same characters are `qdtext` of RFC 7230.
    QTextWs,
    /// `ctext` and `WSP`. The obsolete part of the grammar is left out.
    ///
    /// RFC 5322.
    CTextWs,
    /// `dtext` and `WSP`.
    ///
    /// RFC 5322.
    DTextWs,
    /// `atext`.
    ///
    /// RFC 5322.
    AText,
    /// `restricted-name-chars`: the part of the MIME `token` that the names
    /// of registered media types are made of.
    ///
    /// RFC 6838.
    RestrictedToken,
    /// `token` as MIME defines it.
    ///
    /// RFC 2045.
    Token,
    /// `obs-NO-WS-CTL`. Test for it beside `CTextWs` or `QTextWs` to accept
    /// the obsolete part of the grammar.
    ///
    /// RFC 5322.
    ObsNoWsCtl,
    /// `token` as HTTP/1.1 defines it. It differs from the MIME `token` in
    /// `{` and `}`, which it leaves out.
    ///
    /// RFC 7230.
    Rfc7230Token,
}

/// The character sets that hold `ch`.
pub open spec fn charsets_of(ch: char) -> Set<Charset> {
    Set::new(|charset: Charset| charset.spec_contains(ch))
}

/// What a lookup of `ch` finds: for a US-ASCII character the character sets
/// that hold it, for any other character nothing.
pub open spec fn classification(ch: char) -> Option<Set<Charset>> {
    if is_us_ascii(ch) {
        Some(charsets_of(ch))
    } else {
        None
    }
}

/// The answer to the question whether `charset` holds the character that
/// was classified as `found`, where `default` is the answer for a character
/// outside US-ASCII.
pub open spec fn answer(found: Option<Set<Charset>>, charset: Charset, default: bool) -> bool {
    match found {
        Some(charsets) => charsets.contains(charset),
        None => default,
    }
}

impl Charset {
    /// The bit that stands for this character set in an entry of the lookup
    /// table.
    pub open spec fn spec_bit(self) -> u8 {
        match self {
            Charset::QTextWs => QC,
            Charset::CTextWs => CT,
            Charset::DTextWs => DT,
            Charset::AText => AT,
            Charset::RestrictedToken => RT,
            Charset::Token => TO,
            Charset::ObsNoWsCtl => NC,
            Charset::Rfc7230Token => HT,
        }
    }

    /// Whether `ch` is in this character set, as the grammar defines it.
    pub open spec fn spec_contains(self, ch: char) -> bool {
        match self {
            Charset::QTextWs => is_qtext(ch) || is_wsp(ch),
            Charset::CTextWs => is_ctext(ch) || is_wsp(ch),
            Charset::DTextWs => is_dtext(ch) || is_wsp(ch),
            Charset::AText => is_atext(ch),
            Charset::RestrictedToken => is_restricted_name_char(ch),
            Charset::Token => is_mime_token_char(ch),
            Charset::ObsNoWsCtl => is_obs_no_ws_ctl(ch),
            Charset::Rfc7230Token => is_tchar(ch),
        }
    }

    /// The bit that stands for this character set in an entry of the lookup
    /// table.
    pub fn bit(self) -> (bit: u8)
        ensures
            bit == self.spec_bit(),
    {
        match self {
            Charset::QTextWs => QC,
            Charset::CTextWs => CT,
            Charset::DTextWs => DT,
            Charset::AText => AT,
            Charset::RestrictedToken => RT,
            Charset::Token => TO,
            Charset::ObsNoWsCtl => NC,
            Charset::Rfc7230Token => HT,
        }
    }

    /// Returns true if `ch` is in this character set.
    #[inline]
    pub fn contains(&self, ch: char) -> (r: bool)
        ensures
            r == self.spec_contains(ch),
            !is_us_ascii(ch) ==> !r,
    {
        self.contains_lookup(ch, false)
    }

    /// Returns true if `ch` is in this character set or is no US-ASCII
    /// character.
    ///
    /// This is for use with RFC 6532, which widens every `*text` production
    /// by all characters outside US-ASCII.
    #[inline]
    pub fn contains_or_non_ascii(&self, ch: char) -> (r: bool)
        ensures
            r == (self.spec_contains(ch) || !is_us_ascii(ch)),
            !is_us_ascii(ch) ==> r,
    {
        self.contains_lookup(ch, true)
    }

    /// Tests `ch` against this character set by one probe of the table;
    /// for a character that the table does not cover the answer is
    /// `out_of_table_value`.
    pub fn contains_lookup(&self, ch: char, out_of_table_value: bool) -> (r: bool)
        ensures
            r == if is_us_ascii(ch) {
                self.spec_contains(ch)
            } else {
                out_of_table_value
            },
            r == answer(classification(ch), *self, out_of_table_value),
    {
        let index: u32 = ch as u32;
        if index < 0x80 {
            proof {
                lemma_table_is_faithful(ch);
            }
            US_ASCII_LOOKUP[index as usize] & self.bit() != 0
        } else {
            out_of_table_value
        }
    }

    /// Classifies `ch` by one probe of the table. The result can then be
    /// tested against any number of character sets.
    pub fn lookup(ch: char) -> (res: LookupResult)
        ensures
            res@ == classification(ch),
    {
        let index: u32 = ch as u32;
        if index < 0x80 {
            let res = LookupResult(Some(US_ASCII_LOOKUP[index as usize]));
            proof {
                lemma_table_is_faithful(ch);
                assert(res@->0 =~= charsets_of(ch));
            }
            res
        } else {
            LookupResult(None)
        }
    }
}

/// The tests of a classified character against a character set.
///
/// It is implemented for `char`, where each test probes the table, and for
/// `LookupResult`, where the table has been probed already.
pub trait CharMatchExt: Seal + Copy {
    /// What is known of the character: for a US-ASCII character the
    /// character sets that hold it, for any other character nothing.
    spec fn found(self) -> Option<Set<Charset>>;

    /// Returns true if the character is in `charset`.
    fn is(self, charset: Charset) -> (r: bool)
        ensures
            r == answer(self.found(), charset, false),
    ;

    /// Returns true if the character is in `charset` or is no US-ASCII
    /// character.
    fn is_inkl_non_ascii(self, charset: Charset) -> (r: bool)
        ensures
            r == answer(self.found(), charset, true),
    ;
}

impl Seal for char {

}

impl CharMatchExt for char {
    open spec fn found(self) -> Option<Set<Charset>> {
        classification(self)
    }

    #[inline]
    fn is(self, charset: Charset) -> (r: bool) {
        charset.contains(self)
    }

    #[inline]
    fn is_inkl_non_ascii(self, charset: Charset) -> (r: bool) {
        charset.contains_or_non_ascii(self)
    }
}

/// The result of looking a character up.
///
/// It holds a copy of the character's entry of the table, or the fact that
/// the table has no entry for the character.
#[derive(Copy, Clone, Debug, PartialEq, Eq, Hash)]
pub struct LookupResult(Option<u8>);

impl View for LookupResult {
    type V = Option<Set<Charset>>;

    /// For a US-ASCII character the character sets whose bit the entry has,
    /// for any other character nothing.
    closed spec fn view(&self) -> Option<Set<Charset>> {
        match self.0 {
            Some(mask) => Some(Set::new(|charset: Charset| has_bit(mask, charset.spec_bit()))),
            None => None,
        }
    }
}

impl LookupResult {
    /// Returns true if the character that was looked up is a US-ASCII
    /// character.
    pub fn is_ascii(&self) -> (r: bool)
        ensures
            r == self@.is_some(),
    {
        self.0.is_some()
    }

    /// Tests the character that was looked up against `charset`; for a
    /// character outside US-ASCII the answer is `default`.
    pub fn lookup_contains(&self, charset: Charset, default: bool) -> (r: bool)
        ensures
            r == answer(self@, charset, default),
    {
        match self.0 {
            Some(res) => res & charset.bit() != 0,
            None => default,
        }
    }
}

impl Seal for LookupResult {

}

impl CharMatchExt for LookupResult {
    open spec fn found(self) -> Option<Set<Charset>> {
        self@
    }

    #[inline]
    fn is(self, charset: Charset) -> (r: bool) {
        self.lookup_contains(charset, false)
    }

    #[inline]
    fn is_inkl_non_ascii(self, charset: Charset) -> (r: bool) {
        self.lookup_contains(charset, true)
    }
}

} // verus!
