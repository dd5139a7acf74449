use hanyeongkey::converter::{convert_to_english, convert_to_korean};

#[test]
fn korean_conversion_splits_at_a_character_that_no_key_types() {
    let left = "rk";
    let right = "sk";
    let joined = format!("{left}1{right}");
    assert_eq!(
        convert_to_korean(&joined),
        format!("{}1{}", convert_to_korean(left), convert_to_korean(right))
    );
    assert_eq!(convert_to_korean("rksk"), "가나");
    assert_eq!(convert_to_korean("rk1sk"), "가1나");
}

#[test]
fn english_conversion_of_a_concatenation_is_the_concatenation() {
    let a = "안녕ㄳ";
    let b = "하세요ᄀ";
    assert_eq!(
        convert_to_english(&format!("{a}{b}")),
        format!("{}{}", convert_to_english(a), convert_to_english(b))
    );
    assert_eq!(convert_to_english("각"), "rkr");
}

#[test]
fn lone_jamo_and_vowel_sequences_are_written_out() {
    assert_eq!(convert_to_korean("r"), "ㄱ");
    assert_eq!(convert_to_korean("k"), "ㅏ");
    assert_eq!(convert_to_korean("hk"), "ㅘ");
    assert_eq!(convert_to_korean("kk"), "ㅏㅏ");
    assert_eq!(convert_to_korean("Q"), "ㅃ");
    assert_eq!(convert_to_korean("rr"), "ㄱㄱ");
}

#[test]
fn empty_final_maps_to_no_keys() {
    assert_eq!(convert_to_english("가"), "rk");
    assert_eq!(convert_to_english("a\0b"), "a\0b");
}

#[test]
fn runs_of_syllables_survive_a_round_trip_through_keys() {
    for text in ["값이", "닭볶음탕", "읽어요", "괜찮아", "없었다", "까따빠싸짜", "뷁훑쐐"] {
        let keys = convert_to_english(text);
        assert_eq!(convert_to_korean(&keys), text, "keys {keys}");
    }
    assert_eq!(convert_to_english("값이"), "rkqtdl");
    assert_eq!(convert_to_korean("rkqtdl"), "값이");
    assert_eq!(convert_to_korean("rkqtl"), "갑시");
}

#[test]
fn a_nul_character_is_copied_in_both_directions() {
    assert_eq!(convert_to_english("\u{0}"), "\u{0}");
    assert_eq!(convert_to_english("가\u{0}ㄱ"), "rk\u{0}r");
    assert_eq!(convert_to_korean("\u{0}"), "\u{0}");
    assert_eq!(convert_to_korean("rk\u{0}sk"), "가\u{0}나");
}

#[test]
fn plain_keys_survive_a_round_trip_through_korean() {
    for keys in [
        "dkssudgktpdy",
        "rrkkhkl",
        "rkfrk",
        "qtqtq",
        "REQTWOP",
        "abcdefghijklmnopqrstuvwxyz",
        "gksrmf",
        "dmlrjs",
    ] {
        assert_eq!(convert_to_english(&convert_to_korean(keys)), keys);
    }
}
