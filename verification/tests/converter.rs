use hanyeongkey::converter::jamo::{HANGUL_BASE, HANGUL_END};
use hanyeongkey::converter::{convert, convert_to_english, convert_to_korean, ConversionDirection};

#[test]
fn converts_english_keys_to_composed_korean() {
    assert_eq!(convert_to_korean("dkssudgktpdy"), "안녕하세요");
    assert_eq!(convert_to_korean("gksrmf"), "한글");
}

#[test]
fn converts_korean_syllables_to_english_keys() {
    assert_eq!(convert_to_english("안녕하세요"), "dkssudgktpdy");
    assert_eq!(convert_to_english("한글"), "gksrmf");
}

#[test]
fn converts_mixed_text_in_one_explicit_direction() {
    assert_eq!(
        convert_to_english("안녕 hello 테스트"),
        "dkssud hello xptmxm"
    );
    assert_eq!(
        convert_to_korean("dkssud hello xptmxm"),
        "안녕 ㅗ디ㅣㅐ 테스트"
    );
}

#[test]
fn composes_compound_vowels_and_final_clusters() {
    assert_eq!(convert_to_korean("rhkd"), "광");
    assert_eq!(convert_to_korean("rkqt"), "값");
    assert_eq!(convert_to_korean("ekfr"), "닭");
}

#[test]
fn moves_a_final_consonant_to_the_next_syllable_before_a_vowel() {
    assert_eq!(convert_to_korean("rksk"), "가나");
    assert_eq!(convert_to_korean("ekfrk"), "달가");
    assert_eq!(convert_to_korean("ekfrdk"), "닭아");
}

#[test]
fn decomposes_compound_vowels_and_final_clusters() {
    assert_eq!(convert_to_english("광값닭"), "rhkdrkqtekfr");
}

#[test]
fn converts_compatibility_and_conjoining_jamo() {
    assert_eq!(convert_to_english("ㄱㅏㄳㅘ"), "rkrt hk".replace(' ', ""));
    assert_eq!(convert_to_english("\u{1100}\u{1161}\u{11A8}"), "rkr");
}

#[test]
fn supports_shifted_and_unshifted_uppercase_keys() {
    assert_eq!(convert_to_korean("Rk Eo Qo To Wo"), "까 때 빼 쌔 째");
    assert_eq!(convert_to_korean("DKSSUD"), "안녕");
}

#[test]
fn preserves_numbers_symbols_whitespace_and_line_breaks() {
    let input = "123 !@#$%^&*()\n\tdkssud?";
    assert_eq!(convert_to_korean(input), "123 !@#$%^&*()\n\t안녕?");
    assert_eq!(convert_to_english("123 안녕!\n\t"), "123 dkssud!\n\t");
}

#[test]
fn handles_empty_strings() {
    assert_eq!(convert_to_korean(""), "");
    assert_eq!(convert_to_english(""), "");
}

#[test]
fn preserves_unconvertible_unicode() {
    let input = "漢字🙂 café";
    assert_eq!(convert_to_english(input), input);
    assert_eq!(convert_to_korean("漢字🙂 42"), "漢字🙂 42");
}

#[test]
fn explicit_direction_api_matches_named_functions() {
    assert_eq!(
        convert("dkssud", ConversionDirection::EnglishToKorean),
        convert_to_korean("dkssud")
    );
    assert_eq!(
        convert("안녕", ConversionDirection::KoreanToEnglish),
        convert_to_english("안녕")
    );
}

#[test]
fn conversion_is_deterministic() {
    let input = "dkssud hello xptmx\n123🙂";
    let first = convert_to_korean(input);
    assert_eq!(first, convert_to_korean(input));
    assert_eq!(
        convert_to_english("안녕 hello 테스트"),
        convert_to_english("안녕 hello 테스트")
    );
}

#[test]
fn every_modern_hangul_syllable_round_trips_through_key_sequences() {
    for code in HANGUL_BASE..=HANGUL_END {
        let syllable = char::from_u32(code).unwrap();
        let keys = convert_to_english(&syllable.to_string());
        assert_eq!(
            convert_to_korean(&keys),
            syllable.to_string(),
            "failed to round-trip U+{code:04X} through {keys:?}"
        );
    }
}
