//! Privacy-safe diagnostic lines: they name the outcome of an operation and
//! never hold selected or clipboard text.

use vstd::prelude::*;

use crate::input_language::InputLanguageError;

use super::coordinator::{ConversionOutcome, OperationError};

verus! {

/// The name of an operation error.
pub open spec fn spec_operation_error_name(error: OperationError) -> Seq<char> {
    match error {
        OperationError::NoSelection => "NoSelection"@,
        OperationError::UnsupportedTarget => "UnsupportedTarget"@,
        OperationError::TargetChanged => "TargetChanged"@,
        OperationError::ClipboardBusy => "ClipboardBusy"@,
        OperationError::ClipboardChangedExternally => "ClipboardChangedExternally"@,
        OperationError::SelectionReadTimeout => "SelectionReadTimeout"@,
        OperationError::ReplacementTimeout => "ReplacementTimeout"@,
        OperationError::UIAutomationFailure => "UIAutomationFailure"@,
        OperationError::ReplacementFailure => "ReplacementFailure"@,
        OperationError::ConversionFailure => "ConversionFailure"@,
        OperationError::OperationAlreadyInProgress => "OperationAlreadyInProgress"@,
        OperationError::InternalFailure => "InternalFailure"@,
    }
}

/// Executable form of [`spec_operation_error_name`].
pub fn operation_error_name(error: OperationError) -> (r: &'static str)
    ensures
        r@ == spec_operation_error_name(error),
{
    match error {
        OperationError::NoSelection => "NoSelection",
        OperationError::UnsupportedTarget => "UnsupportedTarget",
        OperationError::TargetChanged => "TargetChanged",
        OperationError::ClipboardBusy => "ClipboardBusy",
        OperationError::ClipboardChangedExternally => "ClipboardChangedExternally",
        OperationError::SelectionReadTimeout => "SelectionReadTimeout",
        OperationError::ReplacementTimeout => "ReplacementTimeout",
        OperationError::UIAutomationFailure => "UIAutomationFailure",
        OperationError::ReplacementFailure => "ReplacementFailure",
        OperationError::ConversionFailure => "ConversionFailure",
        OperationError::OperationAlreadyInProgress => "OperationAlreadyInProgress",
        OperationError::InternalFailure => "InternalFailure",
    }
}

/// The name of an input-language error.
pub open spec fn spec_input_language_error_name(error: InputLanguageError) -> Seq<char> {
    match error {
        InputLanguageError::TargetChanged => "TargetChanged"@,
        InputLanguageError::ContextUnavailable => "ContextUnavailable"@,
        InputLanguageError::QueryFailed => "QueryFailed"@,
        InputLanguageError::LayoutUnavailable => "LayoutUnavailable"@,
        InputLanguageError::ChangeRejected => "ChangeRejected"@,
        InputLanguageError::ChangeTimedOut => "ChangeTimedOut"@,
    }
}

/// Executable form of [`spec_input_language_error_name`].
pub fn input_language_error_name(error: InputLanguageError) -> (r: &'static str)
    ensures
        r@ == spec_input_language_error_name(error),
{
    match error {
        InputLanguageError::TargetChanged => "TargetChanged",
        InputLanguageError::ContextUnavailable => "ContextUnavailable",
        InputLanguageError::QueryFailed => "QueryFailed",
        InputLanguageError::LayoutUnavailable => "LayoutUnavailable",
        InputLanguageError::ChangeRejected => "ChangeRejected",
        InputLanguageError::ChangeTimedOut => "ChangeTimedOut",
    }
}

/// How an outcome is written in a diagnostic line.
pub open spec fn spec_outcome_text(outcome: ConversionOutcome) -> Seq<char> {
    match outcome {
        ConversionOutcome::ConvertedAndSynchronized => "ConvertedAndSynchronized"@,
        ConversionOutcome::ConvertedSynchronizationFailed(error) => "ConvertedSynchronizationFailed("@
            + spec_input_language_error_name(error) + ")"@,
        ConversionOutcome::Failed(error) => "Failed("@ + spec_operation_error_name(error) + ")"@,
    }
}

/// The diagnostic line of an outcome. It is made from the outcome alone, so
/// it cannot hold any text of the selection.
pub fn diagnostic_line(outcome: ConversionOutcome) -> (r: String)
    ensures
        r@ == "[conversion] outcome="@ + spec_outcome_text(outcome),
{
    let mut line = String::from_str("[conversion] outcome=");
    match outcome {
        ConversionOutcome::ConvertedAndSynchronized => {
            line.append("ConvertedAndSynchronized");
        },
        ConversionOutcome::ConvertedSynchronizationFailed(error) => {
            line.append("ConvertedSynchronizationFailed(");
            line.append(input_language_error_name(error));
            line.append(")");
        },
        ConversionOutcome::Failed(error) => {
            line.append("Failed(");
            line.append(operation_error_name(error));
            line.append(")");
        },
    }
    line
}

} // verus!
