use hanyeongkey::utf16::decode_utf16;
use hanyeongkey::clipboard::{
    fetched_all, find_format, should_restore, format_matches, transaction_result, utf16_text_length,
    ClipboardError, FormatCursor, FormatDescription,
};
use hanyeongkey::utf16::encode_utf16_terminated;

fn format(clipboard_format: u16, media: u32) -> FormatDescription {
    FormatDescription {
        clipboard_format,
        aspect: 1,
        index: -1,
        media,
    }
}

#[test]
fn restoration_failure_outweighs_the_operation() {
    let result = transaction_result::<u32>(Ok(7), Err(ClipboardError::Restore("busy".into())));
    assert!(matches!(result, Err(ClipboardError::Restore(message)) if message == "busy"));
    assert!(matches!(transaction_result::<u32>(Ok(7), Ok(())), Ok(7)));
    assert!(matches!(
        transaction_result::<u32>(Err(ClipboardError::CopyTimedOut), Ok(())),
        Err(ClipboardError::CopyTimedOut)
    ));
}

#[test]
fn formats_match_on_format_aspect_index_and_a_common_medium() {
    assert!(format_matches(format(13, 0b011), format(13, 0b001)));
    assert!(!format_matches(format(13, 0b010), format(13, 0b001)));
    assert!(!format_matches(format(1, 0b001), format(13, 0b001)));
    let stored = vec![format(1, 1), format(13, 4), format(13, 1)];
    assert_eq!(find_format(&stored, format(13, 1)), Some(2));
    assert_eq!(find_format(&stored, format(7, 1)), None);
}

#[test]
fn the_format_cursor_never_passes_the_end() {
    let mut cursor = FormatCursor::new(3);
    assert_eq!(cursor.next(2), (0, 2));
    assert!(fetched_all(2, 2));
    assert_eq!(cursor.next(5), (2, 1));
    assert!(!fetched_all(1, 5));
    assert_eq!(cursor.next(1), (3, 0));
    cursor.reset();
    cursor.skip(10);
    assert_eq!(cursor.cursor, 3);
    cursor.reset();
    cursor.skip(1);
    assert_eq!(cursor.cursor, 1);
}

#[test]
fn clipboard_text_ends_at_its_first_nul() {
    assert_eq!(utf16_text_length(&[0x61, 0x62, 0, 0x63]), 2);
    assert_eq!(utf16_text_length(&[0x61, 0x62]), 2);
    assert_eq!(utf16_text_length(&[]), 0);
}

#[test]
fn text_is_encoded_as_terminated_utf16() {
    for text in ["", "hello", "안녕", "🙂 x", "漢字\r\n"] {
        let mut expected: Vec<u16> = text.encode_utf16().collect();
        expected.push(0);
        assert_eq!(encode_utf16_terminated(text), expected);
    }
}

#[test]
fn utf16_text_decodes_and_round_trips() {
    for text in ["", "hello", "안녕", "🙂 x", "漢字\r\n"] {
        let units = encode_utf16_terminated(text);
        assert_eq!(decode_utf16(&units[..units.len() - 1]), Some(text.to_string()));
    }
    assert_eq!(decode_utf16(&[0xD83D]), None);
    assert_eq!(decode_utf16(&[0xDE42, 0x61]), None);
    assert_eq!(decode_utf16(&[0xD83D, 0x61]), None);
}

#[test]
fn the_saved_clipboard_is_restored_only_over_the_utilitys_own_contents() {
    assert!(should_restore(41, 41));
    assert!(!should_restore(41, 42));
}
