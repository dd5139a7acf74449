use hanyeongkey::coordination::direction::{choose_direction, is_hangul};
use hanyeongkey::converter::ConversionDirection;

#[test]
fn empty_text_has_no_direction() {
    assert_eq!(choose_direction(""), None);
}

#[test]
fn english_only_chooses_english_to_korean() {
    assert_eq!(
        choose_direction("dkssud hello 123"),
        Some(ConversionDirection::EnglishToKorean)
    );
}

#[test]
fn korean_containing_mixed_text_chooses_korean_to_english() {
    assert_eq!(
        choose_direction("안녕 hello 테스트"),
        Some(ConversionDirection::KoreanToEnglish)
    );
    assert_eq!(
        choose_direction("ᄀ and ㄱ"),
        Some(ConversionDirection::KoreanToEnglish)
    );
}

#[test]
fn hangul_blocks_are_recognised_at_their_edges() {
    for code in [0x1100u32, 0x11FF, 0x3130, 0x318F, 0xA960, 0xA97F, 0xAC00, 0xD7A3, 0xD7B0, 0xD7FF] {
        assert!(is_hangul(char::from_u32(code).unwrap()), "{code:X}");
    }
    for code in [0x10FFu32, 0x1200, 0x312F, 0x3190, 0xA95F, 0xA980, 0xABFF, 0xD7A4, 0xD7AF] {
        assert!(!is_hangul(char::from_u32(code).unwrap()), "{code:X}");
    }
    assert_eq!(choose_direction("hello\u{D7FF}"), Some(ConversionDirection::KoreanToEnglish));
}
