use hanyeongkey::clipboard::ClipboardError;
use hanyeongkey::replace::policy::{
    automatic_after_preferred as replacement_after_preferred, clipboard_replace_result,
    fallback_after_failure as replacement_fallback, full_control_replacement_allowed,
    replacement_for_copied_selection, selection_matches_expected, ui_automation_replace_result, AutomaticReplacement,
    ControlView, UiAutomationReplacement,
};
use hanyeongkey::replace::result::{ReplaceError, ReplaceResult};
use hanyeongkey::selection::{
    automatic_after_preferred, clipboard_selection_result, collect_selection,
    confirm_selection_target, fallback_after_failure, ui_automation_selection_result,
    AutomaticSelection, SelectionError, SelectionResult, SelectionSnapshot, UiAutomationSelection,
};
use hanyeongkey::target::TargetIdentity;

fn target() -> TargetIdentity {
    TargetIdentity::test_identity()
}

#[test]
fn automatic_selection_falls_back_only_when_unsupported_or_failed() {
    assert!(matches!(
        automatic_after_preferred(SelectionResult::Unsupported),
        AutomaticSelection::Fallback
    ));
    assert!(matches!(
        automatic_after_preferred(SelectionResult::NoSelection),
        AutomaticSelection::Done(SelectionResult::NoSelection)
    ));
    assert!(matches!(
        automatic_after_preferred(SelectionResult::TimedOut),
        AutomaticSelection::Done(SelectionResult::TimedOut)
    ));
    assert!(matches!(
        automatic_after_preferred(SelectionResult::Failure(SelectionError::Com("x".into()))),
        AutomaticSelection::FallbackAfterFailure(SelectionError::Com(_))
    ));
}

#[test]
fn both_provider_failures_are_reported_together() {
    let result = fallback_after_failure(
        SelectionError::UiAutomation("a".into()),
        SelectionResult::Failure(SelectionError::Clipboard("b".into())),
    );
    match result {
        SelectionResult::Failure(error) => assert_eq!(
            error.message(),
            "both selection providers failed (UI Automation: UI Automation failed: a; clipboard: clipboard operation failed: b)"
        ),
        other => panic!("unexpected {other:?}"),
    }
    assert!(matches!(
        fallback_after_failure(SelectionError::Com("a".into()), SelectionResult::NoSelection),
        SelectionResult::NoSelection
    ));
}

#[test]
fn a_selection_counts_only_while_its_target_is_current() {
    let other = TargetIdentity::capture_from(9, 9, 9, None).unwrap();
    let snapshot = || SelectionSnapshot {
        text: "hello".into(),
        target: other,
    };
    assert!(matches!(
        confirm_selection_target(SelectionResult::Success(snapshot()), target(), Some(target())),
        SelectionResult::Success(s) if s.target == target() && s.text == "hello"
    ));
    assert!(matches!(
        confirm_selection_target(SelectionResult::Success(snapshot()), target(), Some(other)),
        SelectionResult::TargetChanged
    ));
    assert!(matches!(
        confirm_selection_target(SelectionResult::Success(snapshot()), target(), None),
        SelectionResult::TargetChanged
    ));
}

#[test]
fn provider_answers_become_selection_results() {
    assert!(matches!(
        clipboard_selection_result(Ok(Some("x".into())), target()),
        SelectionResult::Success(_)
    ));
    assert!(matches!(
        clipboard_selection_result(Ok(Some(String::new())), target()),
        SelectionResult::NoSelection
    ));
    assert!(matches!(
        clipboard_selection_result(Err(ClipboardError::Restore("r".into())), target()),
        SelectionResult::Failure(SelectionError::ClipboardRestore(_))
    ));
    assert!(matches!(
        ui_automation_selection_result(UiAutomationSelection::Text(Some("x".into())), None),
        SelectionResult::TargetChanged
    ));
    assert!(matches!(
        ui_automation_selection_result(UiAutomationSelection::TimedOut, Some(target())),
        SelectionResult::TimedOut
    ));
    assert!(matches!(
        ui_automation_selection_result(UiAutomationSelection::Unsupported, Some(target())),
        SelectionResult::Unsupported
    ));
}

#[test]
fn selection_ranges_are_joined() {
    assert_eq!(
        collect_selection(&vec!["ab".to_string(), String::new(), "c".to_string()]),
        Some("abc".to_string())
    );
    assert_eq!(collect_selection(&vec![String::new()]), None);
    assert_eq!(collect_selection(&vec![]), None);
}

#[test]
fn target_identity_is_captured_from_the_window_system() {
    assert_eq!(TargetIdentity::capture_from(0, 1, 1, Some(5)), None);
    assert_eq!(TargetIdentity::capture_from(7, 1, 0, Some(5)), None);
    let captured = TargetIdentity::capture_from(7, 1, 3, Some(0)).unwrap();
    assert_eq!(captured.focused_window(), 7);
    assert_eq!(captured.thread_id(), 3);
    assert_eq!(
        TargetIdentity::capture_from(7, 1, 3, Some(5)).unwrap().focused_window(),
        5
    );
    assert!(captured.is_current(Some(captured)));
    assert!(!captured.is_current(None));
}

#[test]
fn automatic_replacement_falls_back_like_selection() {
    assert!(matches!(
        replacement_after_preferred(ReplaceResult::Unsupported),
        AutomaticReplacement::Fallback
    ));
    assert!(matches!(
        replacement_after_preferred(ReplaceResult::Replaced),
        AutomaticReplacement::Done(ReplaceResult::Replaced)
    ));
    match replacement_fallback(
        ReplaceError::UiAutomation("a".into()),
        ReplaceResult::Failure(ReplaceError::Clipboard("b".into())),
    ) {
        ReplaceResult::Failure(error) => assert_eq!(
            error.message(),
            "both replacement providers failed (UI Automation: UI Automation replacement failed: a; clipboard: clipboard replacement failed: b)"
        ),
        other => panic!("unexpected {other:?}"),
    }
}

#[test]
fn a_copied_selection_must_still_match_before_pasting() {
    assert_eq!(
        replacement_for_copied_selection(Some("a\r\nb".into()), "a\nb", true, "x\ny").unwrap(),
        "x\r\ny"
    );
    assert!(matches!(
        replacement_for_copied_selection(Some("a\r\nb".into()), "a\nc", true, "x\ny"),
        Err(ClipboardError::TargetChanged)
    ));
    assert!(matches!(
        replacement_for_copied_selection(Some("a".into()), "a", false, "x"),
        Err(ClipboardError::TargetChanged)
    ));
    assert!(matches!(
        replacement_for_copied_selection(None, "a", true, "x"),
        Err(ClipboardError::TargetChanged)
    ));
    assert!(matches!(
        replacement_for_copied_selection(Some("a\nb".into()), "a\nb", true, "xy"),
        Err(ClipboardError::TargetChanged)
    ));
}

#[test]
fn provider_answers_become_replacement_results() {
    assert!(matches!(clipboard_replace_result(Ok(())), ReplaceResult::Replaced));
    assert!(matches!(
        clipboard_replace_result(Err(ClipboardError::Busy)),
        ReplaceResult::TemporarilyUnavailable
    ));
    assert!(matches!(
        clipboard_replace_result(Err(ClipboardError::ChangedExternally)),
        ReplaceResult::ClipboardChangedExternally
    ));
    assert!(matches!(
        clipboard_replace_result(Err(ClipboardError::InvalidUtf16)),
        ReplaceResult::Failure(ReplaceError::Clipboard(message)) if message == "clipboard text was not valid UTF-16"
    ));
    assert!(matches!(
        ui_automation_replace_result(UiAutomationReplacement::Written(false)),
        ReplaceResult::Unsupported
    ));
}

#[test]
fn ui_automation_writes_only_a_fully_selected_writable_control() {
    let view = |selection: &str, document: &str, read_only: bool| ControlView {
        has_text_pattern: true,
        has_value_pattern: true,
        read_only,
        range_count: 1,
        selection: selection.into(),
        document: document.into(),
        current_value: document.into(),
    };
    assert!(full_control_replacement_allowed(&view("abc", "abc", false), "abc"));
    assert!(!full_control_replacement_allowed(&view("ab", "abc", false), "ab"));
    assert!(!full_control_replacement_allowed(&view("abc", "abc", true), "abc"));
    assert!(!full_control_replacement_allowed(&view("abc", "abc", false), "abd"));
    assert!(!full_control_replacement_allowed(&view("", "", false), ""));
}

#[test]
fn the_control_is_read_further_only_for_the_expected_selection() {
    assert!(selection_matches_expected("dkssud", "dkssud"));
    assert!(!selection_matches_expected("dkssu", "dkssud"));
    assert!(!selection_matches_expected("", ""));
}
