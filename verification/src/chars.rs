//! Character classes of the supported alphabet: precomposed Hangul
//! syllables, isolated Hangul jamo letters, Latin letters, and decimal
//! digits. Everything else is unsupported and dropped by the sanitizer.

use vstd::prelude::*;

verus! {

/// A precomposed Hangul syllable block (initial + medial + optional final).
pub open spec fn hangul_syllable(c: char) -> bool {
    0xAC00 <= c as int && c as int <= 0xD7A3
}

/// An isolated Hangul compatibility jamo letter (a lone consonant or vowel).
pub open spec fn hangul_jamo(c: char) -> bool {
    0x3131 <= c as int && c as int <= 0x3163
}

/// A Latin letter, either case.
pub open spec fn latin_letter(c: char) -> bool {
    ('a' <= c && c <= 'z') || ('A' <= c && c <= 'Z')
}

/// A decimal digit.
pub open spec fn dec_digit(c: char) -> bool {
    '0' <= c && c <= '9'
}

/// A character the sanitizer keeps: Hangul (syllable or jamo), Latin
/// letter, or digit.
pub open spec fn supported_char(c: char) -> bool {
    hangul_syllable(c) || hangul_jamo(c) || latin_letter(c) || dec_digit(c)
}

/// A digit whose Korean reading ends in a consonant sound
/// (영/일/삼/육/칠/팔).
pub open spec fn ko_final_digit(c: char) -> bool {
    c == '0' || c == '1' || c == '3' || c == '6' || c == '7' || c == '8'
}

/// A digit whose English reading ends in a consonant sound
/// (one/seven/eight/nine).
pub open spec fn en_final_digit(c: char) -> bool {
    c == '1' || c == '7' || c == '8' || c == '9'
}

pub fn is_hangul_syllable(c: char) -> (b: bool)
    ensures
        b == hangul_syllable(c),
{
    let u = c as u32;
    0xAC00 <= u && u <= 0xD7A3
}

pub fn is_hangul_jamo(c: char) -> (b: bool)
    ensures
        b == hangul_jamo(c),
{
    let u = c as u32;
    0x3131 <= u && u <= 0x3163
}

pub fn is_latin_letter(c: char) -> (b: bool)
    ensures
        b == latin_letter(c),
{
    ('a' <= c && c <= 'z') || ('A' <= c && c <= 'Z')
}

pub fn is_dec_digit(c: char) -> (b: bool)
    ensures
        b == dec_digit(c),
{
    '0' <= c && c <= '9'
}

pub fn is_supported_char(c: char) -> (b: bool)
    ensures
        b == supported_char(c),
{
    is_hangul_syllable(c) || is_hangul_jamo(c) || is_latin_letter(c) || is_dec_digit(c)
}

pub fn is_ko_final_digit(c: char) -> (b: bool)
    ensures
        b == ko_final_digit(c),
{
    c == '0' || c == '1' || c == '3' || c == '6' || c == '7' || c == '8'
}

pub fn is_en_final_digit(c: char) -> (b: bool)
    ensures
        b == en_final_digit(c),
{
    c == '1' || c == '7' || c == '8' || c == '9'
}

} // verus!
