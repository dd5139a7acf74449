//! Outcomes of replacing the selection.

use vstd::prelude::*;

verus! {

/// Why replacing the selection failed; platform errors are carried as their
/// messages.
#[derive(Debug)]
pub enum ReplaceError {
    Com(String),
    UiAutomation(String),
    Clipboard(String),
    ClipboardRestore(String),
    ProvidersFailed { preferred: String, fallback: String },
}

impl ReplaceError {
    /// The sentence that describes the error.
    pub open spec fn spec_message(&self) -> Seq<char> {
        match self {
            ReplaceError::Com(e) => "COM initialization failed: "@ + e@,
            ReplaceError::UiAutomation(e) => "UI Automation replacement failed: "@ + e@,
            ReplaceError::Clipboard(e) => "clipboard replacement failed: "@ + e@,
            ReplaceError::ClipboardRestore(e) => "clipboard restoration failed: "@ + e@,
            ReplaceError::ProvidersFailed { preferred, fallback } =>
                "both replacement providers failed (UI Automation: "@ + preferred@
                    + "; clipboard: "@ + fallback@ + ")"@,
        }
    }

    /// Executable form of [`Self::spec_message`].
    pub fn message(&self) -> (r: String)
        ensures
            r@ == self.spec_message(),
    {
        match self {
            ReplaceError::Com(e) => {
                let mut m = String::from_str("COM initialization failed: ");
                m.append(e.as_str());
                m
            },
            ReplaceError::UiAutomation(e) => {
                let mut m = String::from_str("UI Automation replacement failed: ");
                m.append(e.as_str());
                m
            },
            ReplaceError::Clipboard(e) => {
                let mut m = String::from_str("clipboard replacement failed: ");
                m.append(e.as_str());
                m
            },
            ReplaceError::ClipboardRestore(e) => {
                let mut m = String::from_str("clipboard restoration failed: ");
                m.append(e.as_str());
                m
            },
            ReplaceError::ProvidersFailed { preferred, fallback } => {
                let mut m = String::from_str("both replacement providers failed (UI Automation: ");
                m.append(preferred.as_str());
                m.append("; clipboard: ");
                m.append(fallback.as_str());
                m.append(")");
                m
            },
        }
    }
}

/// The outcome of replacing the selection.
#[derive(Debug)]
pub enum ReplaceResult {
    Replaced,
    Unsupported,
    TemporarilyUnavailable,
    TargetChanged,
    TimedOut,
    ClipboardChangedExternally,
    Failure(ReplaceError),
}

} // verus!
