//! The lookup table: one byte for each US-ASCII character, one bit of it for
//! each character set.

use vstd::prelude::*;
use crate::grammar::{
    code, is_atext, is_ctext, is_dtext, is_mime_token_char, is_obs_no_ws_ctl, is_qtext,
    is_restricted_name_char, is_tchar, is_us_ascii, is_wsp,
};

verus! {

/// The bit of `qtext` or `WSP`.
pub const QC: u8 = 0x01;

/// The bit of `ctext` or `WSP`.
pub const CT: u8 = 0x02;

/// The bit of `dtext` or `WSP`.
pub const DT: u8 = 0x04;

/// The bit of `atext`.
pub const AT: u8 = 0x08;

/// The bit of `restricted-name-chars`.
pub const RT: u8 = 0x10;

/// The bit of the MIME `token`.
pub const TO: u8 = 0x20;

/// The bit of `obs-NO-WS-CTL`.
pub const NC: u8 = 0x40;

/// The bit of the HTTP `token`.
pub const HT: u8 = 0x80;

/// The table. The entry at a character's code point has the bit of each
/// character set that the character belongs to, and no other bit.
pub const US_ASCII_LOOKUP: [u8; 128] = [
    // NUL to BEL
    0x00, 0x40, 0x40, 0x40, 0x40, 0x40, 0x40, 0x40,
    // BS, HT, LF, VT, FF, CR, SO, SI
    0x40, 0x07, 0x00, 0x40, 0x40, 0x00, 0x40, 0x40,
    // DLE to ETB
    0x40, 0x40, 0x40, 0x40, 0x40, 0x40, 0x40, 0x40,
    // CAN to US
    0x40, 0x40, 0x40, 0x40, 0x40, 0x40, 0x40, 0x40,
    // SP ! " # $ % & '
    0x07, 0xbf, 0x06, 0xbf, 0xbf, 0xaf, 0xbf, 0xaf,
    // ( ) * + , - . /
    0x05, 0x05, 0xaf, 0xbf, 0x07, 0xbf, 0xb7, 0x0f,
    // 0 1 2 3 4 5 6 7
    0xbf, 0xbf, 0xbf, 0xbf, 0xbf, 0xbf, 0xbf, 0xbf,
    // 8 9 : ; < = > ?
    0xbf, 0xbf, 0x07, 0x07, 0x07, 0x0f, 0x07, 0x0f,
    // @ A B C D E F G
    0x07, 0xbf, 0xbf, 0xbf, 0xbf, 0xbf, 0xbf, 0xbf,
    // H I J K L M N O
    0xbf, 0xbf, 0xbf, 0xbf, 0xbf, 0xbf, 0xbf, 0xbf,
    // P Q R S T U V W
    0xbf, 0xbf, 0xbf, 0xbf, 0xbf, 0xbf, 0xbf, 0xbf,
    // X Y Z [ \ ] ^ _
    0xbf, 0xbf, 0xbf, 0x03, 0x00, 0x03, 0xbf, 0xbf,
    // ` a b c d e f g
    0xaf, 0xbf, 0xbf, 0xbf, 0xbf, 0xbf, 0xbf, 0xbf,
    // h i j k l m n o
    0xbf, 0xbf, 0xbf, 0xbf, 0xbf, 0xbf, 0xbf, 0xbf,
    // p q r s t u v w
    0xbf, 0xbf, 0xbf, 0xbf, 0xbf, 0xbf, 0xbf, 0xbf,
    // x y z { | } ~ DEL
    0xbf, 0xbf, 0xbf, 0x2f, 0xaf, 0x2f, 0xaf, 0x40,
];

/// Whether `mask` has the bit `bit`.
pub open spec fn has_bit(mask: u8, bit: u8) -> bool {
    mask & bit != 0
}

/// What an entry of the table has to be for the character `ch`: each bit
/// says whether `ch` is in the character set of that bit.
pub open spec fn is_mask_of(mask: u8, ch: char) -> bool {
    &&& has_bit(mask, QC) == (is_qtext(ch) || is_wsp(ch))
    &&& has_bit(mask, CT) == (is_ctext(ch) || is_wsp(ch))
    &&& has_bit(mask, DT) == (is_dtext(ch) || is_wsp(ch))
    &&& has_bit(mask, AT) == is_atext(ch)
    &&& has_bit(mask, RT) == is_restricted_name_char(ch)
    &&& has_bit(mask, TO) == is_mime_token_char(ch)
    &&& has_bit(mask, NC) == is_obs_no_ws_ctl(ch)
    &&& has_bit(mask, HT) == is_tchar(ch)
}

/// Each test of a bit, said in arithmetic.
pub proof fn lemma_bits(m: u8)
    by (bit_vector)
    ensures
        (m & 0x01 != 0) == (m % 2 == 1),
        (m & 0x02 != 0) == ((m / 2) % 2 == 1),
        (m & 0x04 != 0) == ((m / 4) % 2 == 1),
        (m & 0x08 != 0) == ((m / 8) % 2 == 1),
        (m & 0x10 != 0) == ((m / 16) % 2 == 1),
        (m & 0x20 != 0) == ((m / 32) % 2 == 1),
        (m & 0x40 != 0) == ((m / 64) % 2 == 1),
        (m & 0x80 != 0) == ((m / 128) % 2 == 1),
{
}

/// The table is faithful to the grammars: the entry of every US-ASCII
/// character has exactly the bits of the character sets that hold it.
pub proof fn lemma_table_is_faithful(ch: char)
    requires
        is_us_ascii(ch),
    ensures
        is_mask_of(US_ASCII_LOOKUP[code(ch)], ch),
{
    lemma_bits(US_ASCII_LOOKUP[code(ch)]);
}

} // verus!
