//! The ending classifier: decides whether the pronounced final sound of a
//! sanitized token is a consonant. The decision is the disjunction of six
//! independent rules over the trailing characters; any one rule matching
//! classifies the token as consonant-final.

use vstd::prelude::*;

use crate::chars::dec_digit;
use crate::chars::en_final_digit;
use crate::chars::hangul_syllable;
use crate::chars::is_dec_digit;
use crate::chars::is_en_final_digit;
use crate::chars::is_hangul_syllable;
use crate::chars::is_ko_final_digit;
use crate::chars::is_latin_letter;
use crate::chars::ko_final_digit;
use crate::chars::latin_letter;

verus! {

/// Rule 1: the token ends in a complete Hangul syllable whose block
/// arithmetic `(code point - 0xAC00) % 28` is nonzero, i.e. the syllable
/// carries a final consonant.
pub open spec fn rule_hangul(s: Seq<char>) -> bool {
    &&& s.len() > 0
    &&& hangul_syllable(s.last())
    &&& (s.last() as int - 0xAC00) % 28 != 0
}

/// Rule 2: a Hangul syllable followed by a (possibly empty) digit run and
/// a final digit read with a consonant-final Korean pronunciation.
pub open spec fn rule_ko_num(s: Seq<char>) -> bool {
    &&& s.len() > 0
    &&& ko_final_digit(s.last())
    &&& exists|j: int|
        0 <= j < s.len() - 1 && hangul_syllable(s[j]) && (forall|k: int|
            j < k < s.len() - 1 ==> dec_digit(#[trigger] s[k]))
}

/// Rule 3: a Latin letter followed by a (possibly empty) digit run and a
/// final digit read with a consonant-final English pronunciation.
pub open spec fn rule_en_num(s: Seq<char>) -> bool {
    &&& s.len() > 0
    &&& en_final_digit(s.last())
    &&& exists|j: int|
        0 <= j < s.len() - 1 && latin_letter(s[j]) && (forall|k: int|
            j < k < s.len() - 1 ==> dec_digit(#[trigger] s[k]))
}

/// Rule 4: the fixed best-effort table of English word endings pronounced
/// with a final consonant sound, applied only to tokens longer than one
/// character: single letters c/l/m/n/p, a consonant before a silent e, a
/// hard-k digraph, a vowel before t, the digraphs mb/ng, and the literal
/// suffix "lert".
pub open spec fn rule_en_cluster(s: Seq<char>) -> bool {
    &&& s.len() > 1
    &&& {
        ||| (s.last() == 'c' || s.last() == 'l' || s.last() == 'm' || s.last() == 'n'
            || s.last() == 'p')
        ||| ((s[s.len() - 2] == 'b' || s[s.len() - 2] == 'l' || s[s.len() - 2] == 'n'
            || s[s.len() - 2] == 't') && s.last() == 'e')
        ||| ((s[s.len() - 2] == 'c' || s[s.len() - 2] == 'o') && s.last() == 'k')
        ||| ((s[s.len() - 2] == 'a' || s[s.len() - 2] == 'e' || s[s.len() - 2] == 'i'
            || s[s.len() - 2] == 'o' || s[s.len() - 2] == 'u') && s.last() == 't')
        ||| (s[s.len() - 2] == 'm' && s.last() == 'b')
        ||| (s[s.len() - 2] == 'n' && s.last() == 'g')
        ||| (s.len() >= 4 && s[s.len() - 4] == 'l' && s[s.len() - 3] == 'e'
            && s[s.len() - 2] == 'r' && s.last() == 't')
    }
}

/// Rule 5: a token that is exactly one Latin letter whose spoken letter
/// name ends in a consonant (l, n, m, r).
pub open spec fn rule_single_letter(s: Seq<char>) -> bool {
    &&& s.len() == 1
    &&& (s[0] == 'l' || s[0] == 'n' || s[0] == 'm' || s[0] == 'r')
}

/// Rule 6: a token made entirely of digits whose last digit is read with a
/// consonant-final Korean pronunciation. The sanitizer removes whitespace,
/// so the final whitespace-delimited word is always the whole token.
pub open spec fn rule_num_word(s: Seq<char>) -> bool {
    &&& s.len() > 0
    &&& ko_final_digit(s.last())
    &&& forall|k: int| 0 <= k < s.len() ==> dec_digit(#[trigger] s[k])
}

/// Whether a sanitized token's pronounced final sound is a consonant: the
/// disjunction of the six ending rules.
pub open spec fn spec_ends_with_consonant(s: Seq<char>) -> bool {
    ||| rule_hangul(s)
    ||| rule_ko_num(s)
    ||| rule_en_num(s)
    ||| rule_en_cluster(s)
    ||| rule_single_letter(s)
    ||| rule_num_word(s)
}

/// Start of the maximal digit run that ends just before the last
/// character: the least index `m` such that every character in
/// `[m, len - 1)` is a digit.
fn trailing_digit_run_start(input: &Vec<char>) -> (m: usize)
    requires
        input@.len() > 0,
    ensures
        0 <= m <= input@.len() - 1,
        forall|k: int| m <= k < input@.len() - 1 ==> dec_digit(#[trigger] input@[k]),
        m > 0 ==> !dec_digit(input@[m as int - 1]),
{
    let mut m: usize = input.len() - 1;
    while m > 0 && is_dec_digit(input[m - 1])
        invariant
            0 <= m <= input@.len() - 1,
            forall|k: int| m <= k < input@.len() - 1 ==> dec_digit(#[trigger] input@[k]),
        decreases m,
    {
        m = m - 1;
    }
    m
}

/// Checks rule 2: a Hangul syllable, then digits, then a consonant-final
/// Korean digit at the very end.
pub fn ends_with_ko_num(input: &Vec<char>) -> (b: bool)
    requires
        input@.len() > 0,
    ensures
        b == rule_ko_num(input@),
{
    let n = input.len();
    if !is_ko_final_digit(input[n - 1]) {
        return false;
    }
    let m = trailing_digit_run_start(input);
    if m > 0 && is_hangul_syllable(input[m - 1]) {
        proof {
            let j = m - 1;
            assert(0 <= j < input@.len() - 1 && hangul_syllable(input@[j]) && (forall|k: int|
                j < k < input@.len() - 1 ==> dec_digit(#[trigger] input@[k])));
        }
        true
    } else {
        proof {
            assert(!rule_ko_num(input@)) by {
                if rule_ko_num(input@) {
                    let j = choose|j: int|
                        0 <= j < input@.len() - 1 && hangul_syllable(input@[j]) && (forall|k: int|
                            j < k < input@.len() - 1 ==> dec_digit(#[trigger] input@[k]));
                    if j >= m {
                        assert(dec_digit(input@[j]));
                    } else if j < m - 1 {
                        assert(dec_digit(input@[m - 1]));
                    }
                }
            }
        }
        false
    }
}

/// Checks rule 3: a Latin letter, then digits, then a consonant-final
/// English digit at the very end.
pub fn ends_with_en_num(input: &Vec<char>) -> (b: bool)
    requires
        input@.len() > 0,
    ensures
        b == rule_en_num(input@),
{
    let n = input.len();
    if !is_en_final_digit(input[n - 1]) {
        return false;
    }
    let m = trailing_digit_run_start(input);
    if m > 0 && is_latin_letter(input[m - 1]) {
        proof {
            let j = m - 1;
            assert(0 <= j < input@.len() - 1 && latin_letter(input@[j]) && (forall|k: int|
                j < k < input@.len() - 1 ==> dec_digit(#[trigger] input@[k])));
        }
        true
    } else {
        proof {
            assert(!rule_en_num(input@)) by {
                if rule_en_num(input@) {
                    let j = choose|j: int|
                        0 <= j < input@.len() - 1 && latin_letter(input@[j]) && (forall|k: int|
                            j < k < input@.len() - 1 ==> dec_digit(#[trigger] input@[k]));
                    if j >= m {
                        assert(dec_digit(input@[j]));
                    } else if j < m - 1 {
                        assert(dec_digit(input@[m - 1]));
                    }
                }
            }
        }
        false
    }
}

/// Checks rule 4: the fixed table of English consonant-sounding endings,
/// applied only to tokens longer than one character.
pub fn ends_with_en_cluster(input: &Vec<char>) -> (b: bool)
    ensures
        b == rule_en_cluster(input@),
{
    let n = input.len();
    if n <= 1 {
        return false;
    }
    let last = input[n - 1];
    let prev = input[n - 2];
    (last == 'c' || last == 'l' || last == 'm' || last == 'n' || last == 'p')
        || ((prev == 'b' || prev == 'l' || prev == 'n' || prev == 't') && last == 'e')
        || ((prev == 'c' || prev == 'o') && last == 'k')
        || ((prev == 'a' || prev == 'e' || prev == 'i' || prev == 'o' || prev == 'u') && last
        == 't')
        || (prev == 'm' && last == 'b')
        || (prev == 'n' && last == 'g')
        || (n >= 4 && input[n - 4] == 'l' && input[n - 3] == 'e' && prev == 'r' && last == 't')
}

/// Checks rule 6: the token consists entirely of digits and its last digit
/// is read with a consonant-final Korean pronunciation.
pub fn ends_with_consonant_digit(input: &Vec<char>) -> (b: bool)
    ensures
        b == rule_num_word(input@),
{
    let n = input.len();
    if n == 0 {
        return false;
    }
    if !is_ko_final_digit(input[n - 1]) {
        return false;
    }
    let mut i: usize = 0;
    while i < n
        invariant
            0 <= i <= n,
            n == input@.len(),
            forall|k: int| 0 <= k < i ==> dec_digit(#[trigger] input@[k]),
        decreases n - i,
    {
        if !is_dec_digit(input[i]) {
            return false;
        }
        i = i + 1;
    }
    true
}

/// Whether the sanitized token's pronounced final sound is a consonant:
/// the disjunction of the six ending rules.
pub fn ends_with_consonant(input: &Vec<char>) -> (b: bool)
    requires
        input@.len() > 0,
    ensures
        b == spec_ends_with_consonant(input@),
{
    let n = input.len();
    let last = input[n - 1];
    let hangul = if is_hangul_syllable(last) {
        ((last as u32) - 0xAC00) % 28 > 0
    } else {
        false
    };
    hangul || ends_with_ko_num(input) || ends_with_en_num(input) || ends_with_en_cluster(input)
        || (n == 1 && (last == 'l' || last == 'n' || last == 'm' || last == 'r'))
        || ends_with_consonant_digit(input)
}

} // verus!
