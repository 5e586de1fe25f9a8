//! Korean postposition (josa) selection.
//!
//! Korean grammatical particles come in two phonologically conditioned
//! forms: one used after a word whose pronounced final sound is a
//! consonant, the other after a vowel-final word. This crate decides,
//! for an arbitrary text token (Hangul, Latin letters, digits, or a mix)
//! and two caller-supplied particle forms, which form to append.

pub mod attach;
pub mod chars;
pub mod classify;
pub mod numeral;
pub mod sanitize;

pub use crate::attach::Postposition;

use vstd::prelude::*;

use crate::chars::hangul_syllable;
use crate::classify::ends_with_consonant;
use crate::classify::rule_en_cluster;
use crate::classify::rule_en_num;
use crate::classify::rule_hangul;
use crate::classify::rule_ko_num;
use crate::classify::rule_num_word;
use crate::classify::rule_single_letter;
use crate::classify::spec_ends_with_consonant;
use crate::sanitize::clean;
use crate::sanitize::clean_str;

verus! {

/// The selected postposition for a raw token: the consonant form if the
/// sanitized token is classified consonant-final, the vowel form if it is
/// classified vowel-final, and the empty string when sanitization leaves
/// nothing to classify.
pub open spec fn spec_josa(input: Seq<char>, consonant: Seq<char>, vowel: Seq<char>) -> Seq<char> {
    if clean(input).len() == 0 {
        Seq::empty()
    } else if spec_ends_with_consonant(clean(input)) {
        consonant
    } else {
        vowel
    }
}

/// The raw token with its selected postposition appended, or the token
/// unchanged when no postposition applies.
pub open spec fn spec_attached(
    input: Seq<char>,
    consonant: Seq<char>,
    vowel: Seq<char>,
) -> Seq<char> {
    if spec_josa(input, consonant, vowel).len() == 0 {
        input
    } else {
        input + spec_josa(input, consonant, vowel)
    }
}

/// Returns `consonant` if `input` ends with a consonant sound, `vowel` if
/// not.
///
/// When `input` is empty or consists only of unsupported characters, an
/// empty `&str` is returned instead.
///
/// English support is best-effort, not phonetically exhaustive.
pub fn josa<'a>(input: &str, consonant: &'a str, vowel: &'a str) -> (r: &'a str)
    ensures
        r@ == spec_josa(input@, consonant@, vowel@),
{
    let cleaned = clean_str(input);
    if cleaned.len() == 0 {
        proof {
            reveal_strlit("");
            assert(""@ =~= Seq::<char>::empty());
        }
        ""
    } else if ends_with_consonant(&cleaned) {
        consonant
    } else {
        vowel
    }
}

/// On any token that still has content after sanitization, the selector is
/// a function of its arguments and returns exactly one of the two supplied
/// forms.
pub proof fn lemma_select_returns_one_form(input: Seq<char>, consonant: Seq<char>, vowel: Seq<char>)
    requires
        clean(input).len() > 0,
    ensures
        spec_josa(input, consonant, vowel) == consonant || spec_josa(input, consonant, vowel)
            == vowel,
{
}

/// On a token that sanitization leaves empty (empty, whitespace-only, or
/// fully unsupported input), the selector returns the empty string and
/// attachment leaves the token unchanged.
pub proof fn lemma_unsupported_input(input: Seq<char>, consonant: Seq<char>, vowel: Seq<char>)
    requires
        clean(input).len() == 0,
    ensures
        spec_josa(input, consonant, vowel) == Seq::<char>::empty(),
        spec_attached(input, consonant, vowel) == input,
{
}

/// Attachment always yields the raw token as a prefix of its result,
/// whatever the token and whichever form is selected.
pub proof fn lemma_attached_prefix(input: Seq<char>, consonant: Seq<char>, vowel: Seq<char>)
    ensures
        input.is_prefix_of(spec_attached(input, consonant, vowel)),
{
    if spec_josa(input, consonant, vowel).len() == 0 {
        assert(input.is_prefix_of(input));
    } else {
        let whole = input + spec_josa(input, consonant, vowel);
        assert(whole.subrange(0, input.len() as int) =~= input);
    }
}

/// On a sanitized token that ends in a complete Hangul syllable, the
/// classification is exactly the Unicode composition arithmetic: the
/// syllable's code point minus 0xAC00, modulo 28, is nonzero if and only
/// if the token is consonant-final.
pub proof fn lemma_hangul_syllable_rule(s: Seq<char>)
    requires
        s.len() > 0,
        hangul_syllable(s.last()),
    ensures
        spec_ends_with_consonant(s) == ((s.last() as int - 0xAC00) % 28 != 0),
{
    if (s.last() as int - 0xAC00) % 28 != 0 {
        assert(rule_hangul(s));
    } else {
        assert(!rule_hangul(s));
        assert(!rule_ko_num(s));
        assert(!rule_en_num(s));
        assert(!rule_en_cluster(s));
        assert(!rule_single_letter(s));
        assert(!rule_num_word(s));
    }
}

} // verus!
