//! The input sanitizer: keeps only the supported alphabet and rewrites
//! each isolated Hangul jamo letter into its canonical spoken name, so
//! that classification only ever sees complete syllables, letters, and
//! digits.

use vstd::prelude::*;

use crate::chars::hangul_jamo;
use crate::chars::is_hangul_jamo;
use crate::chars::is_supported_char;
use crate::chars::supported_char;

verus! {

/// The canonical spoken name of an isolated Hangul compatibility jamo
/// letter: consonant letters become their consonant names (기역, 니은, ...),
/// vowel letters become their vowel sound (아, 어, ...), and compound
/// final-consonant letters are split into their two parts.
pub open spec fn jamo_name(c: char) -> Seq<char> {
    match c {
        'ㄱ' => seq!['기', '역'],
        'ㄲ' => seq!['쌍', '기', '역'],
        'ㄳ' => seq!['ㄱ', 'ㅅ'],
        'ㄴ' => seq!['니', '은'],
        'ㄵ' => seq!['ㄴ', 'ㅈ'],
        'ㄶ' => seq!['ㄴ', 'ㅎ'],
        'ㄷ' => seq!['디', '귿'],
        'ㄸ' => seq!['쌍', '디', '귿'],
        'ㄹ' => seq!['리', '을'],
        'ㄺ' => seq!['ㄹ', 'ㄱ'],
        'ㄻ' => seq!['ㄹ', 'ㅁ'],
        'ㄼ' => seq!['ㄹ', 'ㅂ'],
        'ㄽ' => seq!['ㄹ', 'ㅅ'],
        'ㄾ' => seq!['ㄹ', 'ㅌ'],
        'ㄿ' => seq!['ㄹ', 'ㅍ'],
        'ㅀ' => seq!['ㄹ', 'ㅎ'],
        'ㅁ' => seq!['미', '음'],
        'ㅂ' => seq!['비', '읍'],
        'ㅃ' => seq!['쌍', '비', '읍'],
        'ㅄ' => seq!['ㅂ', 'ㅅ'],
        'ㅅ' => seq!['시', '옷'],
        'ㅆ' => seq!['쌍', '시', '옷'],
        'ㅇ' => seq!['이', '응'],
        'ㅈ' => seq!['지', '읒'],
        'ㅉ' => seq!['쌍', '지', '읒'],
        'ㅊ' => seq!['치', '읓'],
        'ㅋ' => seq!['키', '읔'],
        'ㅌ' => seq!['티', '읕'],
        'ㅍ' => seq!['피', '읖'],
        'ㅎ' => seq!['히', '읗'],
        'ㅏ' => seq!['아'],
        'ㅐ' => seq!['애'],
        'ㅑ' => seq!['야'],
        'ㅒ' => seq!['얘'],
        'ㅓ' => seq!['어'],
        'ㅔ' => seq!['에'],
        'ㅕ' => seq!['여'],
        'ㅖ' => seq!['예'],
        'ㅗ' => seq!['오'],
        'ㅘ' => seq!['와'],
        'ㅙ' => seq!['왜'],
        'ㅚ' => seq!['외'],
        'ㅛ' => seq!['요'],
        'ㅜ' => seq!['우'],
        'ㅝ' => seq!['워'],
        'ㅞ' => seq!['웨'],
        'ㅟ' => seq!['위'],
        'ㅠ' => seq!['유'],
        'ㅡ' => seq!['으'],
        'ㅢ' => seq!['의'],
        'ㅣ' => seq!['이'],
        _ => Seq::empty(),
    }
}

/// What one raw character contributes to the sanitized token: a jamo
/// letter contributes its spoken name, any other supported character
/// contributes itself, and an unsupported character contributes nothing.
pub open spec fn expansion(c: char) -> Seq<char> {
    if hangul_jamo(c) {
        jamo_name(c)
    } else if supported_char(c) {
        seq![c]
    } else {
        Seq::empty()
    }
}

/// The sanitized form of a raw character sequence: each character's
/// expansion, concatenated in order.
pub open spec fn clean(s: Seq<char>) -> Seq<char>
    decreases s.len(),
{
    if s.len() == 0 {
        Seq::empty()
    } else {
        clean(s.drop_last()) + expansion(s.last())
    }
}

/// Appends the expansion of one raw character to the sanitized output.
fn push_expansion(out: &mut Vec<char>, c: char)
    ensures
        final(out)@ == old(out)@ + expansion(c),
{
    if is_hangul_jamo(c) {
        match c {
            'ㄱ' => {
                out.push('기');
                out.push('역');
            },
            'ㄲ' => {
                out.push('쌍');
                out.push('기');
                out.push('역');
            },
            'ㄳ' => {
                out.push('ㄱ');
                out.push('ㅅ');
            },
            'ㄴ' => {
                out.push('니');
                out.push('은');
            },
            'ㄵ' => {
                out.push('ㄴ');
                out.push('ㅈ');
            },
            'ㄶ' => {
                out.push('ㄴ');
                out.push('ㅎ');
            },
            'ㄷ' => {
                out.push('디');
                out.push('귿');
            },
            'ㄸ' => {
                out.push('쌍');
                out.push('디');
                out.push('귿');
            },
            'ㄹ' => {
                out.push('리');
                out.push('을');
            },
            'ㄺ' => {
                out.push('ㄹ');
                out.push('ㄱ');
            },
            'ㄻ' => {
                out.push('ㄹ');
                out.push('ㅁ');
            },
            'ㄼ' => {
                out.push('ㄹ');
                out.push('ㅂ');
            },
            'ㄽ' => {
                out.push('ㄹ');
                out.push('ㅅ');
            },
            'ㄾ' => {
                out.push('ㄹ');
                out.push('ㅌ');
            },
            'ㄿ' => {
                out.push('ㄹ');
                out.push('ㅍ');
            },
            'ㅀ' => {
                out.push('ㄹ');
                out.push('ㅎ');
            },
            'ㅁ' => {
                out.push('미');
                out.push('음');
            },
            'ㅂ' => {
                out.push('비');
                out.push('읍');
            },
            'ㅃ' => {
                out.push('쌍');
                out.push('비');
                out.push('읍');
            },
            'ㅄ' => {
                out.push('ㅂ');
                out.push('ㅅ');
            },
            'ㅅ' => {
                out.push('시');
                out.push('옷');
            },
            'ㅆ' => {
                out.push('쌍');
                out.push('시');
                out.push('옷');
            },
            'ㅇ' => {
                out.push('이');
                out.push('응');
            },
            'ㅈ' => {
                out.push('지');
                out.push('읒');
            },
            'ㅉ' => {
                out.push('쌍');
                out.push('지');
                out.push('읒');
            },
            'ㅊ' => {
                out.push('치');
                out.push('읓');
            },
            'ㅋ' => {
                out.push('키');
                out.push('읔');
            },
            'ㅌ' => {
                out.push('티');
                out.push('읕');
            },
            'ㅍ' => {
                out.push('피');
                out.push('읖');
            },
            'ㅎ' => {
                out.push('히');
                out.push('읗');
            },
            'ㅏ' => {
                out.push('아');
            },
            'ㅐ' => {
                out.push('애');
            },
            'ㅑ' => {
                out.push('야');
            },
            'ㅒ' => {
                out.push('얘');
            },
            'ㅓ' => {
                out.push('어');
            },
            'ㅔ' => {
                out.push('에');
            },
            'ㅕ' => {
                out.push('여');
            },
            'ㅖ' => {
                out.push('예');
            },
            'ㅗ' => {
                out.push('오');
            },
            'ㅘ' => {
                out.push('와');
            },
            'ㅙ' => {
                out.push('왜');
            },
            'ㅚ' => {
                out.push('외');
            },
            'ㅛ' => {
                out.push('요');
            },
            'ㅜ' => {
                out.push('우');
            },
            'ㅝ' => {
                out.push('워');
            },
            'ㅞ' => {
                out.push('웨');
            },
            'ㅟ' => {
                out.push('위');
            },
            'ㅠ' => {
                out.push('유');
            },
            'ㅡ' => {
                out.push('으');
            },
            'ㅢ' => {
                out.push('의');
            },
            'ㅣ' => {
                out.push('이');
            },
            _ => {
            },
        }
        proof {
            assert(out@ =~= old(out)@ + expansion(c));
        }
    } else if is_supported_char(c) {
        out.push(c);
        proof {
            assert(out@ =~= old(out)@ + expansion(c));
        }
    } else {
        proof {
            assert(out@ =~= old(out)@ + expansion(c));
        }
    }
}

/// Every character of a spoken jamo name is itself a supported character
/// (a Hangul syllable, or a plain jamo letter for the split compound
/// finals).
pub proof fn lemma_jamo_name_supported(c: char)
    ensures
        forall|i: int| 0 <= i < jamo_name(c).len() ==> supported_char(#[trigger] jamo_name(c)[i]),
{
}

/// The sanitized form holds only supported characters: Hangul syllables,
/// jamo letters, Latin letters, and digits. In particular it holds no
/// whitespace, so its last whitespace-delimited word is the whole token.
pub proof fn lemma_clean_supported(s: Seq<char>)
    ensures
        forall|i: int| 0 <= i < clean(s).len() ==> supported_char(#[trigger] clean(s)[i]),
    decreases s.len(),
{
    if s.len() > 0 {
        lemma_clean_supported(s.drop_last());
        lemma_jamo_name_supported(s.last());
        assert forall|i: int| 0 <= i < clean(s).len() implies supported_char(
            #[trigger] clean(s)[i],
        ) by {
            let pre = clean(s.drop_last());
            if i < pre.len() {
                assert(clean(s)[i] == pre[i]);
            } else {
                assert(clean(s)[i] == expansion(s.last())[i - pre.len()]);
            }
        }
    }
}

/// Sanitizes a raw string: strips unsupported characters and rewrites
/// isolated jamo letters to their spoken names. An empty result signals
/// input with no classifiable content.
pub fn clean_str(input: &str) -> (out: Vec<char>)
    ensures
        out@ == clean(input@),
{
    let n = input.unicode_len();
    let mut out: Vec<char> = Vec::new();
    let mut i: usize = 0;
    while i < n
        invariant
            0 <= i <= n,
            n == input@.len(),
            out@ == clean(input@.take(i as int)),
        decreases n - i,
    {
        let c = input.get_char(i);
        push_expansion(&mut out, c);
        proof {
            assert(input@.take(i + 1).drop_last() =~= input@.take(i as int));
            assert(input@.take(i + 1).last() == input@[i as int]);
        }
        i = i + 1;
    }
    proof {
        assert(input@.take(n as int) =~= input@);
    }
    out
}

} // verus!
