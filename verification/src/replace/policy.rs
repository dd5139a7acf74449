//! The replacement policy: which provider replaces the selection, when the
//! clipboard fallback is used, and when each provider may write.

use vstd::prelude::*;

use crate::clipboard::ClipboardError;
use crate::text::same_text;

use super::line_endings::{
    equivalent_selection_text, preserve_line_endings, spec_canonical_line_endings,
    spec_preserve_line_endings,
};
use super::result::{ReplaceError, ReplaceResult};

verus! {

/// The next move of automatic replacement once UI Automation answered.
#[derive(Debug)]
pub enum AutomaticReplacement {
    /// UI Automation's answer stands.
    Done(ReplaceResult),
    /// UI Automation cannot replace this selection: use the clipboard.
    Fallback,
    /// UI Automation failed: use the clipboard, keeping this error.
    FallbackAfterFailure(ReplaceError),
}

/// Automatic replacement: UI Automation's answer stands unless it cannot
/// replace the selection or failed; then the clipboard is used.
pub fn automatic_after_preferred(preferred: ReplaceResult) -> (r: AutomaticReplacement)
    ensures
        r == match preferred {
            ReplaceResult::Unsupported => AutomaticReplacement::Fallback,
            ReplaceResult::Failure(error) => AutomaticReplacement::FallbackAfterFailure(error),
            _ => AutomaticReplacement::Done(preferred),
        },
{
    match preferred {
        ReplaceResult::Unsupported => AutomaticReplacement::Fallback,
        ReplaceResult::Failure(error) => AutomaticReplacement::FallbackAfterFailure(error),
        other => AutomaticReplacement::Done(other),
    }
}

/// The clipboard's answer after UI Automation failed: when both failed, one
/// failure that names both errors.
pub fn fallback_after_failure(preferred_error: ReplaceError, fallback: ReplaceResult) -> (r:
    ReplaceResult)
    ensures
        match fallback {
            ReplaceResult::Failure(fallback_error) => r matches ReplaceResult::Failure(
                ReplaceError::ProvidersFailed { preferred, fallback },
            ) && preferred@ == preferred_error.spec_message() && fallback@
                == fallback_error.spec_message(),
            _ => r == fallback,
        },
{
    match fallback {
        ReplaceResult::Failure(fallback_error) => ReplaceResult::Failure(
            ReplaceError::ProvidersFailed {
                preferred: preferred_error.message(),
                fallback: fallback_error.message(),
            },
        ),
        other => other,
    }
}

/// The text to paste over a selection copied again just before pasting: the
/// replacement with the copied text's exact line endings, provided the copy
/// is still the selection that was converted (line endings aside) and its
/// control is still current.
pub fn replacement_for_copied_selection(
    copied: Option<String>,
    expected: &str,
    target_current: bool,
    replacement: &str,
) -> (r: Result<String, ClipboardError>)
    ensures
        match copied {
            Some(current) => if spec_canonical_line_endings(current@) == spec_canonical_line_endings(
                expected@,
            ) && target_current {
                match spec_preserve_line_endings(replacement@, current@) {
                    Some(text) => r matches Ok(output) && output@ == text,
                    None => r matches Err(ClipboardError::TargetChanged),
                }
            } else {
                r matches Err(ClipboardError::TargetChanged)
            },
            None => r matches Err(ClipboardError::TargetChanged),
        },
{
    let current = match copied {
        Some(current) => current,
        None => {
            return Err(ClipboardError::TargetChanged);
        },
    };
    if !equivalent_selection_text(current.as_str(), expected) || !target_current {
        return Err(ClipboardError::TargetChanged);
    }
    match preserve_line_endings(replacement, current.as_str()) {
        Some(text) => Ok(text),
        None => Err(ClipboardError::TargetChanged),
    }
}

/// The clipboard provider's answer for a replacement transaction.
pub fn clipboard_replace_result(result: Result<(), ClipboardError>) -> (r: ReplaceResult)
    ensures
        match result {
            Ok(()) => r == ReplaceResult::Replaced,
            Err(ClipboardError::TargetChanged) => r == ReplaceResult::TargetChanged,
            Err(ClipboardError::CopyTimedOut) => r == ReplaceResult::TimedOut,
            Err(ClipboardError::Busy) => r == ReplaceResult::TemporarilyUnavailable,
            Err(ClipboardError::ShortcutUnavailable) => r == ReplaceResult::TemporarilyUnavailable,
            Err(ClipboardError::ChangedExternally) => r == ReplaceResult::ClipboardChangedExternally,
            Err(ClipboardError::Restore(e)) => r == ReplaceResult::Failure(
                ReplaceError::ClipboardRestore(e),
            ),
            Err(error) => r matches ReplaceResult::Failure(ReplaceError::Clipboard(m)) && m@
                == error.spec_message(),
        },
{
    match result {
        Ok(()) => ReplaceResult::Replaced,
        Err(ClipboardError::TargetChanged) => ReplaceResult::TargetChanged,
        Err(ClipboardError::CopyTimedOut) => ReplaceResult::TimedOut,
        Err(ClipboardError::Busy) => ReplaceResult::TemporarilyUnavailable,
        Err(ClipboardError::ShortcutUnavailable) => ReplaceResult::TemporarilyUnavailable,
        Err(ClipboardError::ChangedExternally) => ReplaceResult::ClipboardChangedExternally,
        Err(ClipboardError::Restore(e)) => ReplaceResult::Failure(ReplaceError::ClipboardRestore(e)),
        Err(error) => ReplaceResult::Failure(ReplaceError::Clipboard(error.message())),
    }
}

/// What UI Automation showed of the focused control.
#[derive(Debug)]
pub struct ControlView {
    pub has_text_pattern: bool,
    pub has_value_pattern: bool,
    pub read_only: bool,
    pub range_count: i32,
    pub selection: String,
    pub document: String,
    pub current_value: String,
}

/// Whether UI Automation may write the replacement. Its value pattern
/// writes the whole control, so it is used only when the one selected range
/// is the expected text and covers the control's entire, writable value.
pub open spec fn spec_full_control_replacement_allowed(view: ControlView, expected: Seq<char>) -> bool {
    &&& view.has_text_pattern
    &&& view.has_value_pattern
    &&& !view.read_only
    &&& view.range_count == 1
    &&& view.selection@.len() > 0
    &&& view.selection@ == expected
    &&& view.selection@ == view.document@
    &&& view.document@ == view.current_value@
}

/// Executable form of [`spec_full_control_replacement_allowed`].
pub fn full_control_replacement_allowed(view: &ControlView, expected: &str) -> (r: bool)
    ensures
        r == spec_full_control_replacement_allowed(*view, expected@),
{
    view.has_text_pattern && view.has_value_pattern && !view.read_only && view.range_count == 1
        && !view.selection.as_str().is_empty() && same_text(view.selection.as_str(), expected)
        && view.selection == view.document && view.document == view.current_value
}

/// Whether a selected range read from the control is the expected, non-empty
/// text; only then are the control's document and value worth reading.
pub fn selection_matches_expected(selection: &str, expected: &str) -> (r: bool)
    ensures
        r == (selection@.len() > 0 && selection@ == expected@),
{
    !selection.is_empty() && same_text(selection, expected)
}

/// What the UI Automation replacement worker reported, or that it did not.
#[derive(Debug)]
pub enum UiAutomationReplacement {
    /// Whether the control was written.
    Written(bool),
    /// A UI Automation call failed with this message.
    Failed(String),
    TimedOut,
    WorkerEnded,
    WorkerNotStarted,
}

/// The UI Automation provider's answer for a replacement.
pub fn ui_automation_replace_result(outcome: UiAutomationReplacement) -> (r: ReplaceResult)
    ensures
        match outcome {
            UiAutomationReplacement::Written(true) => r == ReplaceResult::Replaced,
            UiAutomationReplacement::Written(false) => r == ReplaceResult::Unsupported,
            UiAutomationReplacement::Failed(e) => r == ReplaceResult::Failure(
                ReplaceError::UiAutomation(e),
            ),
            UiAutomationReplacement::TimedOut => r == ReplaceResult::TimedOut,
            UiAutomationReplacement::WorkerEnded => r matches ReplaceResult::Failure(
                ReplaceError::Clipboard(m),
            ) && m@ == "UI Automation worker ended unexpectedly"@,
            UiAutomationReplacement::WorkerNotStarted => r matches ReplaceResult::Failure(
                ReplaceError::Clipboard(m),
            ) && m@ == "could not start UI Automation worker"@,
        },
{
    match outcome {
        UiAutomationReplacement::Written(true) => ReplaceResult::Replaced,
        UiAutomationReplacement::Written(false) => ReplaceResult::Unsupported,
        UiAutomationReplacement::Failed(e) => ReplaceResult::Failure(ReplaceError::UiAutomation(e)),
        UiAutomationReplacement::TimedOut => ReplaceResult::TimedOut,
        UiAutomationReplacement::WorkerEnded => ReplaceResult::Failure(
            ReplaceError::Clipboard(String::from_str("UI Automation worker ended unexpectedly")),
        ),
        UiAutomationReplacement::WorkerNotStarted => ReplaceResult::Failure(
            ReplaceError::Clipboard(String::from_str("could not start UI Automation worker")),
        ),
    }
}

} // verus!
