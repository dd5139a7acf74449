//! Selected text and the policy that picks the provider that reads it.

use vstd::prelude::*;

use crate::clipboard::ClipboardError;
use crate::target::TargetIdentity;

verus! {

/// The selected text and the control that owned it when it was read.
#[derive(Debug)]
pub struct SelectionSnapshot {
    pub text: String,
    pub target: TargetIdentity,
}

impl SelectionSnapshot {
    /// A copy of the snapshot.
    pub fn duplicate(&self) -> (r: SelectionSnapshot)
        ensures
            r == *self,
    {
        SelectionSnapshot { text: self.text.clone(), target: self.target }
    }
}

/// Why reading the selection failed; platform errors are carried as their
/// messages.
#[derive(Debug)]
pub enum SelectionError {
    Com(String),
    UiAutomation(String),
    Clipboard(String),
    ClipboardRestore(String),
    ProvidersFailed { preferred: String, fallback: String },
}

impl SelectionError {
    /// The sentence that describes the error.
    pub open spec fn spec_message(&self) -> Seq<char> {
        match self {
            SelectionError::Com(e) => "COM initialization failed: "@ + e@,
            SelectionError::UiAutomation(e) => "UI Automation failed: "@ + e@,
            SelectionError::Clipboard(e) => "clipboard operation failed: "@ + e@,
            SelectionError::ClipboardRestore(e) => "clipboard restoration failed: "@ + e@,
            SelectionError::ProvidersFailed { preferred, fallback } =>
                "both selection providers failed (UI Automation: "@ + preferred@ + "; clipboard: "@
                    + fallback@ + ")"@,
        }
    }

    /// Executable form of [`Self::spec_message`].
    pub fn message(&self) -> (r: String)
        ensures
            r@ == self.spec_message(),
    {
        match self {
            SelectionError::Com(e) => {
                let mut m = String::from_str("COM initialization failed: ");
                m.append(e.as_str());
                m
            },
            SelectionError::UiAutomation(e) => {
                let mut m = String::from_str("UI Automation failed: ");
                m.append(e.as_str());
                m
            },
            SelectionError::Clipboard(e) => {
                let mut m = String::from_str("clipboard operation failed: ");
                m.append(e.as_str());
                m
            },
            SelectionError::ClipboardRestore(e) => {
                let mut m = String::from_str("clipboard restoration failed: ");
                m.append(e.as_str());
                m
            },
            SelectionError::ProvidersFailed { preferred, fallback } => {
                let mut m = String::from_str("both selection providers failed (UI Automation: ");
                m.append(preferred.as_str());
                m.append("; clipboard: ");
                m.append(fallback.as_str());
                m.append(")");
                m
            },
        }
    }
}

/// The outcome of reading the selection.
#[derive(Debug)]
pub enum SelectionResult {
    Success(SelectionSnapshot),
    NoSelection,
    Unsupported,
    TargetChanged,
    TimedOut,
    Failure(SelectionError),
}

/// The next move of automatic selection reading once UI Automation answered.
#[derive(Debug)]
pub enum AutomaticSelection {
    /// UI Automation's answer stands.
    Done(SelectionResult),
    /// The control does not support UI Automation: read with the clipboard.
    Fallback,
    /// UI Automation failed: read with the clipboard, keeping this error.
    FallbackAfterFailure(SelectionError),
}

/// Automatic reading: UI Automation's answer stands unless the control does
/// not support it or it failed; then the clipboard is used.
pub fn automatic_after_preferred(preferred: SelectionResult) -> (r: AutomaticSelection)
    ensures
        r == match preferred {
            SelectionResult::Unsupported => AutomaticSelection::Fallback,
            SelectionResult::Failure(error) => AutomaticSelection::FallbackAfterFailure(error),
            _ => AutomaticSelection::Done(preferred),
        },
{
    match preferred {
        SelectionResult::Unsupported => AutomaticSelection::Fallback,
        SelectionResult::Failure(error) => AutomaticSelection::FallbackAfterFailure(error),
        other => AutomaticSelection::Done(other),
    }
}

/// The clipboard's answer after UI Automation failed: when both failed, one
/// failure that names both errors.
pub fn fallback_after_failure(preferred_error: SelectionError, fallback: SelectionResult) -> (r:
    SelectionResult)
    ensures
        match fallback {
            SelectionResult::Failure(fallback_error) => r matches SelectionResult::Failure(
                SelectionError::ProvidersFailed { preferred, fallback },
            ) && preferred@ == preferred_error.spec_message() && fallback@
                == fallback_error.spec_message(),
            _ => r == fallback,
        },
{
    match fallback {
        SelectionResult::Failure(fallback_error) => SelectionResult::Failure(
            SelectionError::ProvidersFailed {
                preferred: preferred_error.message(),
                fallback: fallback_error.message(),
            },
        ),
        other => other,
    }
}

/// A selection read from a provider counts only while the control that owned
/// it at the start is still the current one; the snapshot then carries that
/// control.
pub fn confirm_selection_target(
    result: SelectionResult,
    target: TargetIdentity,
    current: Option<TargetIdentity>,
) -> (r: SelectionResult)
    ensures
        match result {
            SelectionResult::Success(snapshot) => if current == Some(target) {
                r == SelectionResult::Success(SelectionSnapshot { target, ..snapshot })
            } else {
                r == SelectionResult::TargetChanged
            },
            _ => r == result,
        },
{
    match result {
        SelectionResult::Success(snapshot) => {
            match current {
                Some(now) => {
                    if now != target {
                        return SelectionResult::TargetChanged;
                    }
                },
                None => {
                    return SelectionResult::TargetChanged;
                },
            }
            SelectionResult::Success(SelectionSnapshot { text: snapshot.text, target })
        },
        other => other,
    }
}

/// The clipboard provider's answer: non-empty copied text is the selection,
/// anything else means no selection; a failed restoration of the clipboard is
/// reported as such.
pub fn clipboard_selection_result(
    copied: Result<Option<String>, ClipboardError>,
    target: TargetIdentity,
) -> (r: SelectionResult)
    ensures
        match copied {
            Ok(Some(text)) => if text@.len() > 0 {
                r == SelectionResult::Success(SelectionSnapshot { text, target })
            } else {
                r == SelectionResult::NoSelection
            },
            Ok(None) => r == SelectionResult::NoSelection,
            Err(ClipboardError::Restore(e)) => r == SelectionResult::Failure(
                SelectionError::ClipboardRestore(e),
            ),
            Err(error) => r matches SelectionResult::Failure(SelectionError::Clipboard(m)) && m@
                == error.spec_message(),
        },
{
    match copied {
        Ok(Some(text)) => {
            if text.as_str().is_empty() {
                SelectionResult::NoSelection
            } else {
                SelectionResult::Success(SelectionSnapshot { text, target })
            }
        },
        Ok(None) => SelectionResult::NoSelection,
        Err(ClipboardError::Restore(e)) => SelectionResult::Failure(
            SelectionError::ClipboardRestore(e),
        ),
        Err(error) => SelectionResult::Failure(SelectionError::Clipboard(error.message())),
    }
}

/// What the UI Automation worker reported, or that it did not report.
#[derive(Debug)]
pub enum UiAutomationSelection {
    /// The text of the selection's ranges, none when there was no selection.
    Text(Option<String>),
    /// The focused control has no text pattern.
    Unsupported,
    /// A UI Automation call failed with this message.
    Failed(String),
    /// The worker did not answer in time.
    TimedOut,
    /// The worker ended without answering.
    WorkerEnded,
    /// The worker could not be started.
    WorkerNotStarted,
}

/// The UI Automation provider's answer: non-empty text is the selection of
/// the target captured now (a vanished target means it changed).
pub fn ui_automation_selection_result(
    outcome: UiAutomationSelection,
    captured: Option<TargetIdentity>,
) -> (r: SelectionResult)
    ensures
        match outcome {
            UiAutomationSelection::Text(Some(text)) => if text@.len() > 0 {
                match captured {
                    Some(target) => r == SelectionResult::Success(
                        SelectionSnapshot { text, target },
                    ),
                    None => r == SelectionResult::TargetChanged,
                }
            } else {
                r == SelectionResult::NoSelection
            },
            UiAutomationSelection::Text(None) => r == SelectionResult::NoSelection,
            UiAutomationSelection::Unsupported => r == SelectionResult::Unsupported,
            UiAutomationSelection::Failed(e) => r == SelectionResult::Failure(
                SelectionError::UiAutomation(e),
            ),
            UiAutomationSelection::TimedOut => r == SelectionResult::TimedOut,
            UiAutomationSelection::WorkerEnded => r matches SelectionResult::Failure(
                SelectionError::Clipboard(m),
            ) && m@ == "UI Automation worker ended unexpectedly"@,
            UiAutomationSelection::WorkerNotStarted => r matches SelectionResult::Failure(
                SelectionError::Clipboard(m),
            ) && m@ == "could not start UI Automation worker"@,
        },
{
    match outcome {
        UiAutomationSelection::Text(Some(text)) => {
            if text.as_str().is_empty() {
                SelectionResult::NoSelection
            } else {
                match captured {
                    Some(target) => SelectionResult::Success(SelectionSnapshot { text, target }),
                    None => SelectionResult::TargetChanged,
                }
            }
        },
        UiAutomationSelection::Text(None) => SelectionResult::NoSelection,
        UiAutomationSelection::Unsupported => SelectionResult::Unsupported,
        UiAutomationSelection::Failed(e) => SelectionResult::Failure(SelectionError::UiAutomation(e)),
        UiAutomationSelection::TimedOut => SelectionResult::TimedOut,
        UiAutomationSelection::WorkerEnded => SelectionResult::Failure(
            SelectionError::Clipboard(String::from_str("UI Automation worker ended unexpectedly")),
        ),
        UiAutomationSelection::WorkerNotStarted => SelectionResult::Failure(
            SelectionError::Clipboard(String::from_str("could not start UI Automation worker")),
        ),
    }
}

/// The text of several selection ranges: their concatenation, none when it
/// is empty.
pub fn collect_selection(ranges: &Vec<String>) -> (r: Option<String>)
    ensures
        ({
            let joined = ranges@.map_values(|range: String| range@).flatten();
            &&& joined.len() == 0 ==> r is None
            &&& joined.len() > 0 ==> (r matches Some(text) && text@ == joined)
        }),
{
    let mut selected = String::new();
    let mut index: usize = 0;
    while index < ranges.len()
        invariant
            index <= ranges.len(),
            selected@ == ranges@.take(index as int).map_values(|range: String| range@).flatten(),
        decreases ranges.len() - index,
    {
        let ghost before = ranges@.take(index as int).map_values(|range: String| range@);
        let ghost after = ranges@.take(index + 1).map_values(|range: String| range@);
        assert(after =~= before.push(ranges@[index as int]@));
        proof {
            before.lemma_flatten_push(ranges@[index as int]@);
        }
        selected.append(ranges[index].as_str());
        index = index + 1;
    }
    assert(ranges@.take(ranges.len() as int) =~= ranges@);
    if selected.as_str().is_empty() {
        None
    } else {
        Some(selected)
    }
}

} // verus!
