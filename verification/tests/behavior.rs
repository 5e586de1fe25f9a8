use postposition::josa;
use postposition::Postposition;

// The trait routes strings, characters and integers through the same
// selection as the free function.
#[test]
fn trait_josa_matches_free_function() {
    assert_eq!("딸기맛 바나나".josa("이", "가"), "가");
    assert_eq!("홍길동".josa("이", "가"), "이");
    assert_eq!(24.josa("은", "는"), "는");
    assert_eq!('ㄹ'.josa("은", "는"), "은");
    assert_eq!('l'.josa("이", "가"), "이");
    assert_eq!('b'.josa("이", "가"), "가");
}

#[test]
fn trait_attached_appends_the_selected_form() {
    assert_eq!("딸기맛 바나나".attached("이", "가"), "딸기맛 바나나가");
    assert_eq!(24.attached("은", "는"), "24는");
    assert_eq!('ㄹ'.attached("은", "는"), "ㄹ은");
    assert_eq!("Rust".attached("을", "를"), "Rust를");
}

// Input with no classifiable content comes back from `attached` unchanged
// and from `josa` as the empty string.
#[test]
fn unsupported_input_is_left_unchanged() {
    assert_eq!("こんにちは".attached("을", "를"), "こんにちは");
    assert_eq!("".attached("이", "가"), "");
    assert_eq!("   ".attached("이", "가"), "   ");
    assert_eq!("!?.,".josa("이", "가"), "");
    assert_eq!("!?.,".attached("이", "가"), "!?.,");
}

// The attached result always starts with the input's string form.
#[test]
fn attached_keeps_the_input_as_prefix() {
    for input in ["철수", "Yuna", "아이폰 11", "こんにちは", "", "ㄹ", "-19"] {
        let out = input.attached("이", "가");
        assert!(out.starts_with(input));
    }
    assert!((-42).attached("이", "가").starts_with("-42"));
    assert!('위'.attached("을", "를").starts_with("위"));
}

// Hangul syllable blocks follow the Unicode composition arithmetic:
// (code point - 0xAC00) % 28 != 0 means a final consonant is present.
#[test]
fn hangul_syllable_arithmetic() {
    // '가' = 0xAC00: remainder 0, vowel-final.
    assert_eq!(josa("가", "이", "가"), "가");
    // '각' = 0xAC01: remainder 1, consonant-final.
    assert_eq!(josa("각", "이", "가"), "이");
    // '위' = 0xC704: remainder 0, vowel-final.
    assert_eq!(josa("위", "을", "를"), "를");
    // '을' = 0xC744: remainder 8, consonant-final.
    assert_eq!(josa("을", "은", "는"), "은");
}

// A Hangul-anchored trailing number is read with its Korean digit names:
// 0, 1, 3, 6, 7, 8 end in a consonant sound.
#[test]
fn korean_read_numbers() {
    assert_eq!(josa("방 1", "이", "가"), "이");
    assert_eq!(josa("제3", "이", "가"), "이");
    assert_eq!(josa("제2", "이", "가"), "가");
    assert_eq!(josa("버전 10", "이", "가"), "이");
}

// A Latin-anchored trailing number is read with its English digit names:
// 1, 7, 8, 9 end in a consonant sound.
#[test]
fn english_read_numbers() {
    assert_eq!(josa("Rust 17", "은", "는"), "은");
    assert_eq!(josa("a7", "이", "가"), "이");
    assert_eq!(josa("a2", "이", "가"), "가");
    assert_eq!(josa("WWDC19", "이", "가"), "이");
}

// The best-effort English ending table.
#[test]
fn english_consonant_clusters() {
    assert_eq!(josa("rock", "을", "를"), "을"); // ck
    assert_eq!(josa("song", "이", "가"), "이"); // ng
    assert_eq!(josa("climb", "을", "를"), "을"); // mb
    assert_eq!(josa("apple", "은", "는"), "은"); // le
    assert_eq!(josa("cat", "이", "가"), "이"); // vowel + t
    assert_eq!(josa("alert", "을", "를"), "을"); // lert
    assert_eq!(josa("seven", "이", "가"), "이"); // single n
    assert_eq!(josa("hello", "을", "를"), "를"); // no rule matches
}

// A single Latin letter is classified by its spoken letter name: l, n, m
// and r end in a consonant sound, the rest do not.
#[test]
fn single_letters() {
    assert_eq!(josa("l", "이", "가"), "이");
    assert_eq!(josa("n", "이", "가"), "이");
    assert_eq!(josa("m", "이", "가"), "이");
    assert_eq!(josa("a", "이", "가"), "가");
    assert_eq!(josa("k", "이", "가"), "가");
}

// A purely numeric token goes by the Korean reading of its last digit.
#[test]
fn numeric_tokens() {
    assert_eq!(josa("100", "을", "를"), "을");
    assert_eq!(josa("9", "을", "를"), "를");
    assert_eq!(josa("2026", "이", "가"), "이");
}

// Isolated jamo letters are rewritten to their spoken names before
// classification.
#[test]
fn jamo_spoken_names() {
    assert_eq!(josa("ㅏ", "이", "가"), "가"); // 아
    assert_eq!(josa("ㅆ", "이", "가"), "이"); // 쌍시옷
    assert_eq!(josa("ㄱ", "은", "는"), "은"); // 기역
    assert_eq!(josa("ㅇ", "이", "가"), "이"); // 이응
    assert_eq!(josa("ㄳ", "이", "가"), "가"); // ㄱㅅ: no rule matches
}

// Integer tokens of every width go through their decimal string form.
#[test]
fn integer_tokens() {
    assert_eq!(0.josa("은", "는"), "은");
    assert_eq!(7u8.attached("과", "와"), "7과");
    assert_eq!(12u16.josa("이", "가"), "가");
    assert_eq!(1000u32.attached("을", "를"), "1000을");
    assert_eq!(18446744073709551615u64.josa("이", "가"), "가");
    assert_eq!(24usize.attached("은", "는"), "24는");
    assert_eq!((-7i8).attached("이", "가"), "-7이");
    assert_eq!((-100i16).attached("을", "를"), "-100을");
    assert_eq!((-42).attached("이", "가"), "-42가");
    assert_eq!((-9223372036854775808i64).attached("을", "를"), "-9223372036854775808을");
    assert_eq!((-1isize).josa("은", "는"), "은");
}

// The selector always returns one of the two supplied forms once the
// sanitized input is non-empty, whatever the forms are.
#[test]
fn select_returns_one_of_the_forms() {
    for input in ["철수", "홍길동", "Yuna", "rock", "100", "ㄹ", "아이폰 11"] {
        let out = josa(input, "첫째", "둘째");
        assert!(out == "첫째" || out == "둘째");
    }
}
