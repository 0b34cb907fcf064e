//! What holds of the classification as a whole, proved from the grammar and
//! from the contracts of the functions.

use vstd::prelude::*;
use crate::charset::{answer, classification, Charset, LookupResult};
use crate::grammar::{code, is_us_ascii, is_wsp};
use crate::lookup::{has_bit, lemma_bits};

verus! {

/// Testing a character directly and testing the result of its lookup give
/// the same answer, in the strict test and in the test that lets every
/// character outside US-ASCII pass.
pub proof fn law_direct_and_lookup_agree(ch: char, charset: Charset)
    ensures
        answer(classification(ch), charset, false) == charset.spec_contains(ch),
        answer(classification(ch), charset, true) == (charset.spec_contains(ch) || !is_us_ascii(
            ch,
        )),
{
}

/// No character set holds a character outside US-ASCII: the strict test of
/// such a character fails for every character set, and the test that lets
/// those characters pass succeeds for every character set.
pub proof fn law_outside_us_ascii(ch: char, charset: Charset)
    requires
        !is_us_ascii(ch),
    ensures
        !charset.spec_contains(ch),
        classification(ch) is None,
        !answer(classification(ch), charset, false),
        answer(classification(ch), charset, true),
{
}

/// A lookup finds an entry exactly for the characters whose code point is
/// below 128.
pub proof fn law_found_iff_us_ascii(ch: char)
    ensures
        classification(ch) is Some <==> code(ch) < 128,
{
}

/// The answers depend on the character and the character set alone: two
/// lookups of one character answer every question alike.
pub proof fn law_same_question_same_answer(
    first: LookupResult,
    second: LookupResult,
    ch: char,
    charset: Charset,
    default: bool,
)
    requires
        first@ == classification(ch),
        second@ == classification(ch),
    ensures
        answer(first@, charset, default) == answer(second@, charset, default),
        answer(first@, charset, default) == if is_us_ascii(ch) {
            charset.spec_contains(ch)
        } else {
            default
        },
{
}

/// Each character set has a bit of its own: the bit of one is not in the
/// bit of another.
pub proof fn law_bits_are_disjoint(a: Charset, b: Charset)
    ensures
        has_bit(a.spec_bit(), b.spec_bit()) <==> a == b,
{
    lemma_bits(a.spec_bit());
}

/// The space and the horizontal tab are in the three character sets that
/// take whitespace in, and in none of the others.
pub proof fn law_whitespace_is_merged_in(ch: char, charset: Charset)
    requires
        is_wsp(ch),
    ensures
        charset.spec_contains(ch) <==> (charset == Charset::QTextWs || charset == Charset::CTextWs
            || charset == Charset::DTextWs),
{
}

/// The names of registered media types are MIME tokens, and so are the
/// tokens of HTTP/1.1: a MIME token character is an HTTP/1.1 token
/// character, `{` or `}`.
pub proof fn law_tokens(ch: char)
    ensures
        Charset::RestrictedToken.spec_contains(ch) ==> Charset::Token.spec_contains(ch),
        Charset::Token.spec_contains(ch) <==> (Charset::Rfc7230Token.spec_contains(ch) || ch == '{'
            || ch == '}'),
{
}

} // verus!
