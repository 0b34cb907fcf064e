use mail_chars::lookup::US_ASCII_LOOKUP;
use mail_chars::{CharMatchExt, Charset};

const ALL: [Charset; 8] = [
    Charset::QTextWs,
    Charset::CTextWs,
    Charset::DTextWs,
    Charset::AText,
    Charset::RestrictedToken,
    Charset::Token,
    Charset::ObsNoWsCtl,
    Charset::Rfc7230Token,
];

const LETTERS_AND_DIGITS: &str = "ABCDEFGHIJKLMNOPQRSTUVWXYZabcdefghijklmnopqrstuvwxyz0123456789";

fn ascii() -> Vec<char> {
    (0u8..128).map(char::from).collect()
}

fn assert_members(charset: Charset, members: &str) {
    for ch in ascii() {
        assert_eq!(charset.contains(ch), members.contains(ch), "{:?} in {:?}", ch, charset);
    }
}

#[test]
fn members_of_qtext_ws() {
    let marks = " \t!#$%&'()*+,-./:;<=>?@[]^_`{|}~";
    assert_members(Charset::QTextWs, &format!("{}{}", LETTERS_AND_DIGITS, marks));
}

#[test]
fn members_of_ctext_ws() {
    let marks = " \t!\"#$%&'*+,-./:;<=>?@[]^_`{|}~";
    assert_members(Charset::CTextWs, &format!("{}{}", LETTERS_AND_DIGITS, marks));
}

#[test]
fn members_of_dtext_ws() {
    let marks = " \t!\"#$%&'()*+,-./:;<=>?@^_`{|}~";
    assert_members(Charset::DTextWs, &format!("{}{}", LETTERS_AND_DIGITS, marks));
}

#[test]
fn members_of_atext() {
    let marks = "!#$%&'*+-/=?^_`{|}~";
    assert_members(Charset::AText, &format!("{}{}", LETTERS_AND_DIGITS, marks));
}

#[test]
fn members_of_restricted_token() {
    let marks = "!#$&-^_.+";
    assert_members(Charset::RestrictedToken, &format!("{}{}", LETTERS_AND_DIGITS, marks));
}

#[test]
fn members_of_token() {
    let marks = "!#$%&'*+-.^_`{|}~";
    assert_members(Charset::Token, &format!("{}{}", LETTERS_AND_DIGITS, marks));
}

#[test]
fn members_of_obs_no_ws_ctl() {
    let mut members = String::new();
    for code in (1u8..=8).chain(11..=12).chain(14..=31).chain(127..=127) {
        members.push(char::from(code));
    }
    assert_eq!(members.chars().count(), 29);
    assert_members(Charset::ObsNoWsCtl, &members);
}

#[test]
fn members_of_rfc7230_token() {
    let marks = "!#$%&'*+-.^_`|~";
    assert_members(Charset::Rfc7230Token, &format!("{}{}", LETTERS_AND_DIGITS, marks));
}

#[test]
fn entries_of_the_table() {
    assert_eq!(US_ASCII_LOOKUP.len(), 128);
    assert_eq!(US_ASCII_LOOKUP[0], 0x00);
    assert_eq!(US_ASCII_LOOKUP[0x01], 0x40);
    assert_eq!(US_ASCII_LOOKUP[0x09], 0x07);
    assert_eq!(US_ASCII_LOOKUP[0x0a], 0x00);
    assert_eq!(US_ASCII_LOOKUP[0x0d], 0x00);
    assert_eq!(US_ASCII_LOOKUP[0x20], 0x07);
    assert_eq!(US_ASCII_LOOKUP[0x22], 0x06);
    assert_eq!(US_ASCII_LOOKUP[0x28], 0x05);
    assert_eq!(US_ASCII_LOOKUP[0x2e], 0xb7);
    assert_eq!(US_ASCII_LOOKUP[0x2f], 0x0f);
    assert_eq!(US_ASCII_LOOKUP[0x41], 0xbf);
    assert_eq!(US_ASCII_LOOKUP[0x5b], 0x03);
    assert_eq!(US_ASCII_LOOKUP[0x5c], 0x00);
    assert_eq!(US_ASCII_LOOKUP[0x7b], 0x2f);
    assert_eq!(US_ASCII_LOOKUP[0x7c], 0xaf);
    assert_eq!(US_ASCII_LOOKUP[0x7f], 0x40);
}

#[test]
fn the_table_has_the_bit_of_each_set_that_holds_the_character() {
    for ch in ascii() {
        let entry = US_ASCII_LOOKUP[ch as usize];
        for charset in ALL {
            assert_eq!(entry & charset.bit() != 0, charset.contains(ch), "{:?} {:?}", ch, charset);
        }
    }
}

#[test]
fn direct_test_and_lookup_agree() {
    let beyond = ['\u{80}', '\u{ff}', '↓', '\u{d7ff}', '\u{e000}', '\u{10ffff}'];
    for ch in ascii().into_iter().chain(beyond) {
        let res = Charset::lookup(ch);
        for charset in ALL {
            assert_eq!(charset.contains(ch), res.is(charset));
            assert_eq!(ch.is(charset), res.is(charset));
            assert_eq!(charset.contains_or_non_ascii(ch), res.is_inkl_non_ascii(charset));
            assert_eq!(ch.is_inkl_non_ascii(charset), res.is_inkl_non_ascii(charset));
            assert_eq!(charset.contains_lookup(ch, false), res.lookup_contains(charset, false));
            assert_eq!(charset.contains_lookup(ch, true), res.lookup_contains(charset, true));
        }
    }
}

#[test]
fn outside_us_ascii_the_default_decides() {
    for ch in ['\u{80}', '\u{81}', '\u{ff}', '\u{100}', '↓', '\u{ffff}', '\u{10ffff}'] {
        for charset in ALL {
            assert!(!charset.contains(ch));
            assert!(charset.contains_or_non_ascii(ch));
            assert!(!ch.is(charset));
            assert!(ch.is_inkl_non_ascii(charset));
            assert!(!Charset::lookup(ch).is(charset));
            assert!(Charset::lookup(ch).is_inkl_non_ascii(charset));
        }
    }
}

#[test]
fn inside_us_ascii_both_tests_agree() {
    for ch in ascii() {
        for charset in ALL {
            assert_eq!(charset.contains(ch), charset.contains_or_non_ascii(ch));
        }
    }
}

#[test]
fn is_ascii_tells_whether_the_code_point_is_below_128() {
    for code in 0u32..0x2000 {
        let ch = char::from_u32(code).unwrap();
        assert_eq!(Charset::lookup(ch).is_ascii(), code < 128);
    }
    assert!(Charset::lookup('\u{7f}').is_ascii());
    assert!(!Charset::lookup('\u{80}').is_ascii());
    assert!(!Charset::lookup('\u{10ffff}').is_ascii());
}

#[test]
fn asking_again_gives_the_same_answer() {
    for ch in ['a', '<', '\t', '\u{0}', '\u{7f}', '\u{80}', '↓'] {
        let first = Charset::lookup(ch);
        let second = Charset::lookup(ch);
        assert_eq!(first, second);
        for charset in ALL {
            assert_eq!(charset.contains(ch), charset.contains(ch));
            assert_eq!(first.is(charset), second.is(charset));
            assert_eq!(first.is(charset), first.is(charset));
            assert_eq!(first.is_inkl_non_ascii(charset), second.is_inkl_non_ascii(charset));
        }
    }
}

#[test]
fn whitespace_is_in_the_three_text_sets_only() {
    for ch in [' ', '\t'] {
        let res = Charset::lookup(ch);
        assert!(res.is(Charset::QTextWs));
        assert!(res.is(Charset::CTextWs));
        assert!(res.is(Charset::DTextWs));
        assert!(!res.is(Charset::AText));
        assert!(!res.is(Charset::RestrictedToken));
        assert!(!res.is(Charset::Token));
        assert!(!res.is(Charset::ObsNoWsCtl));
        assert!(!res.is(Charset::Rfc7230Token));
    }
}

#[test]
fn line_ends_and_nul_are_in_no_set() {
    for ch in ['\r', '\n', '\u{0}', '\\'] {
        for charset in ALL {
            assert!(!charset.contains(ch), "{:?} {:?}", ch, charset);
        }
    }
}

#[test]
fn the_two_tokens_differ_in_braces() {
    for ch in ascii() {
        let mime = Charset::Token.contains(ch);
        let http = Charset::Rfc7230Token.contains(ch);
        assert_eq!(mime, http || ch == '{' || ch == '}');
        if Charset::RestrictedToken.contains(ch) {
            assert!(mime);
        }
    }
    assert!(Charset::Token.contains('{'));
    assert!(!Charset::Rfc7230Token.contains('{'));
}
