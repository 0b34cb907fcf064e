//! The character classes of the grammars, written down production by
//! production.
//!
//! Each predicate follows the ABNF of the RFC that defines the class. Where
//! a production gives code points (`%d33-39`) the predicate gives the same
//! numbers; where it lists characters the predicate lists them too. Nothing
//! here is executable: these predicates are what the lookup table is proved
//! against and what the contracts of the crate speak of.

use vstd::prelude::*;

verus! {

/// The code point of a character.
pub open spec fn code(ch: char) -> int {
    ch as int
}

/// `CHAR` of US-ASCII: a code point below 128.
pub open spec fn is_us_ascii(ch: char) -> bool {
    code(ch) < 128
}

/// `ALPHA`: `A`-`Z` and `a`-`z`.
pub open spec fn is_alpha(ch: char) -> bool {
    0x41 <= code(ch) <= 0x5a || 0x61 <= code(ch) <= 0x7a
}

/// `DIGIT`: `0`-`9`.
pub open spec fn is_digit(ch: char) -> bool {
    0x30 <= code(ch) <= 0x39
}

/// `WSP`: the space and the horizontal tab.
pub open spec fn is_wsp(ch: char) -> bool {
    ch == ' ' || ch == '\t'
}

/// `VCHAR`: the visible characters, `!` up to and including `~`.
pub open spec fn is_visible(ch: char) -> bool {
    0x21 <= code(ch) <= 0x7e
}

/// `CTL`: the control characters, code points 0 to 31 and 127.
pub open spec fn is_ctl(ch: char) -> bool {
    code(ch) <= 31 || code(ch) == 127
}

/// `qtext` of RFC 5322: `%d33 / %d35-91 / %d93-126`, that is the visible
/// characters but `"` and `\`.
pub open spec fn is_qtext(ch: char) -> bool {
    code(ch) == 33 || 35 <= code(ch) <= 91 || 93 <= code(ch) <= 126
}

/// `ctext` of RFC 5322: `%d33-39 / %d42-91 / %d93-126`, that is the visible
/// characters but `(`, `)` and `\`.
pub open spec fn is_ctext(ch: char) -> bool {
    33 <= code(ch) <= 39 || 42 <= code(ch) <= 91 || 93 <= code(ch) <= 126
}

/// `dtext` of RFC 5322: `%d33-90 / %d94-126`, that is the visible
/// characters but `[`, `\` and `]`.
pub open spec fn is_dtext(ch: char) -> bool {
    33 <= code(ch) <= 90 || 94 <= code(ch) <= 126
}

/// `atext` of RFC 5322: letters, digits and nineteen marks.
pub open spec fn is_atext(ch: char) -> bool {
    ||| is_alpha(ch)
    ||| is_digit(ch)
    ||| ch == '!'
    ||| ch == '#'
    ||| ch == '$'
    ||| ch == '%'
    ||| ch == '&'
    ||| ch == '\''
    ||| ch == '*'
    ||| ch == '+'
    ||| ch == '-'
    ||| ch == '/'
    ||| ch == '='
    ||| ch == '?'
    ||| ch == '^'
    ||| ch == '_'
    ||| ch == '`'
    ||| ch == '{'
    ||| ch == '|'
    ||| ch == '}'
    ||| ch == '~'
}

/// `obs-NO-WS-CTL` of RFC 5322: `%d1-8 / %d11 / %d12 / %d14-31 / %d127`, the
/// control characters but NUL, tab, line feed and carriage return.
pub open spec fn is_obs_no_ws_ctl(ch: char) -> bool {
    ||| 1 <= code(ch) <= 8
    ||| code(ch) == 11
    ||| code(ch) == 12
    ||| 14 <= code(ch) <= 31
    ||| code(ch) == 127
}

/// `tspecials` of RFC 2045: the fifteen marks that must stand in a quoted
/// string to be part of a parameter value.
pub open spec fn is_tspecial(ch: char) -> bool {
    ||| ch == '('
    ||| ch == ')'
    ||| ch == '<'
    ||| ch == '>'
    ||| ch == '@'
    ||| ch == ','
    ||| ch == ';'
    ||| ch == ':'
    ||| ch == '\\'
    ||| ch == '"'
    ||| ch == '/'
    ||| ch == '['
    ||| ch == ']'
    ||| ch == '?'
    ||| ch == '='
}

/// A character of a `token` of RFC 2045: any US-ASCII character except the
/// space, the control characters and `tspecials`.
pub open spec fn is_mime_token_char(ch: char) -> bool {
    is_us_ascii(ch) && ch != ' ' && !is_ctl(ch) && !is_tspecial(ch)
}

/// `restricted-name-chars` of RFC 6838: letters, digits and nine marks.
pub open spec fn is_restricted_name_char(ch: char) -> bool {
    ||| is_alpha(ch)
    ||| is_digit(ch)
    ||| ch == '!'
    ||| ch == '#'
    ||| ch == '$'
    ||| ch == '&'
    ||| ch == '-'
    ||| ch == '^'
    ||| ch == '_'
    ||| ch == '.'
    ||| ch == '+'
}

/// `tchar` of RFC 7230: fifteen marks, digits and letters.
pub open spec fn is_tchar(ch: char) -> bool {
    ||| ch == '!'
    ||| ch == '#'
    ||| ch == '$'
    ||| ch == '%'
    ||| ch == '&'
    ||| ch == '\''
    ||| ch == '*'
    ||| ch == '+'
    ||| ch == '-'
    ||| ch == '.'
    ||| ch == '^'
    ||| ch == '_'
    ||| ch == '`'
    ||| ch == '|'
    ||| ch == '~'
    ||| is_digit(ch)
    ||| is_alpha(ch)
}

} // verus!
