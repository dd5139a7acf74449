//! One conversion operation at a time: the decisions between reading the
//! selection, converting it, checking the target, replacing the selection and
//! synchronizing the input language.
//!
//! The coordinator is a state machine. The caller performs each requested
//! action (reading the selection, converting, checking the target, replacing,
//! synchronizing the input language) and hands back its result as the next
//! event, until the coordinator reports the operation's outcome.

use vstd::prelude::*;

use crate::converter::{convert, spec_convert, ConversionDirection};
use crate::input_language::{EnsureInputLanguageResult, InputLanguage, InputLanguageError};
use crate::replace::result::ReplaceResult;
use crate::selection::{SelectionResult, SelectionSnapshot};
use crate::target::TargetIdentity;

use super::direction::{choose_direction, spec_choose_direction};

verus! {

/// Where the running operation stands.
#[derive(Debug, Clone, Copy, PartialEq, Eq, Structural)]
pub enum OperationState {
    Idle,
    ReadingSelection,
    ValidatingTarget,
    Converting,
    Replacing,
    RestoringClipboard,
    SynchronizingInputLanguage,
    Completed,
}

/// Privacy-safe categories of a failed operation.
#[derive(Debug, Clone, Copy, PartialEq, Eq, Structural)]
pub enum OperationError {
    NoSelection,
    UnsupportedTarget,
    TargetChanged,
    ClipboardBusy,
    ClipboardChangedExternally,
    SelectionReadTimeout,
    ReplacementTimeout,
    UIAutomationFailure,
    ReplacementFailure,
    ConversionFailure,
    OperationAlreadyInProgress,
    InternalFailure,
}

/// How an operation ended.
#[derive(Debug, Clone, Copy, PartialEq, Eq, Structural)]
pub enum ConversionOutcome {
    ConvertedAndSynchronized,
    ConvertedSynchronizationFailed(InputLanguageError),
    Failed(OperationError),
}

impl ConversionOutcome {
    /// Whether the selection was replaced; the key press is then consumed.
    pub open spec fn spec_handled(self) -> bool {
        match self {
            ConversionOutcome::ConvertedAndSynchronized => true,
            ConversionOutcome::ConvertedSynchronizationFailed(_) => true,
            ConversionOutcome::Failed(_) => false,
        }
    }

    /// Executable form of [`Self::spec_handled`].
    pub fn handled(self) -> (r: bool)
        ensures
            r == self.spec_handled(),
    {
        match self {
            ConversionOutcome::ConvertedAndSynchronized => true,
            ConversionOutcome::ConvertedSynchronizationFailed(_) => true,
            ConversionOutcome::Failed(_) => false,
        }
    }
}

/// The outcome of an operation that failed with `error`.
pub fn failed(error: OperationError) -> (r: ConversionOutcome)
    ensures
        r == ConversionOutcome::Failed(error),
{
    ConversionOutcome::Failed(error)
}

/// The input language that matches the text a conversion writes.
pub open spec fn desired_language(direction: ConversionDirection) -> InputLanguage {
    match direction {
        ConversionDirection::EnglishToKorean => InputLanguage::Korean,
        ConversionDirection::KoreanToEnglish => InputLanguage::English,
    }
}

/// What the coordinator asks its caller to do next.
#[derive(Debug)]
pub enum CoordinatorAction {
    /// Read the current selection.
    ReadSelection,
    /// Convert the selected text in the given direction.
    Convert { text: String, direction: ConversionDirection },
    /// Check that the target that owned the selection is still current.
    CheckTarget { target: TargetIdentity },
    /// Replace the selection with the converted text.
    Replace { selection: SelectionSnapshot, replacement: String },
    /// Bring the target's input language in line with the converted text.
    SynchronizeInputLanguage { target: TargetIdentity, desired: InputLanguage },
}

/// The result of the caller's last action, or a new activation.
#[derive(Debug)]
pub enum CoordinatorEvent {
    /// The conversion key was pressed.
    Activate,
    SelectionRead(SelectionResult),
    Converted(Result<String, ()>),
    TargetChecked(bool),
    Replaced(ReplaceResult),
    InputLanguageSynchronized(Result<EnsureInputLanguageResult, InputLanguageError>),
}

/// What the coordinator answers to an event.
#[derive(Debug)]
pub enum CoordinatorStep {
    Perform(CoordinatorAction),
    Finished(ConversionOutcome),
}

/// The coordinator of conversion operations.
#[derive(Debug)]
pub struct ConversionCoordinator {
    pub state: OperationState,
    pub selection: Option<SelectionSnapshot>,
    pub direction: Option<ConversionDirection>,
    pub replacement: Option<String>,
}

/// The idle coordinator.
pub open spec fn idle_coordinator() -> ConversionCoordinator {
    ConversionCoordinator {
        state: OperationState::Idle,
        selection: None,
        direction: None,
        replacement: None,
    }
}

/// Ends the operation with `outcome`: the coordinator is idle again.
pub open spec fn finish(outcome: ConversionOutcome) -> (ConversionCoordinator, CoordinatorStep) {
    (idle_coordinator(), CoordinatorStep::Finished(outcome))
}

/// The failure that a selection read reports, for every outcome but success.
pub open spec fn selection_failure(result: SelectionResult) -> OperationError {
    match result {
        SelectionResult::NoSelection => OperationError::NoSelection,
        SelectionResult::Unsupported => OperationError::UnsupportedTarget,
        SelectionResult::TargetChanged => OperationError::TargetChanged,
        SelectionResult::TimedOut => OperationError::SelectionReadTimeout,
        SelectionResult::Failure(_) => OperationError::UIAutomationFailure,
        SelectionResult::Success(_) => OperationError::InternalFailure,
    }
}

/// The failure that a replacement reports, for every outcome but success.
pub open spec fn replacement_failure(result: ReplaceResult) -> OperationError {
    match result {
        ReplaceResult::Unsupported => OperationError::UnsupportedTarget,
        ReplaceResult::TemporarilyUnavailable => OperationError::ClipboardBusy,
        ReplaceResult::TargetChanged => OperationError::TargetChanged,
        ReplaceResult::TimedOut => OperationError::ReplacementTimeout,
        ReplaceResult::ClipboardChangedExternally => OperationError::ClipboardChangedExternally,
        ReplaceResult::Failure(_) => OperationError::ReplacementFailure,
        ReplaceResult::Replaced => OperationError::InternalFailure,
    }
}

impl ConversionCoordinator {
    /// The coordinator's answer to an event, and its state afterwards.
    ///
    /// An activation while an operation runs is rejected and leaves it
    /// running. An event that does not answer the action asked for ends the
    /// running operation as an internal failure.
    pub open spec fn next(self, event: CoordinatorEvent) -> (ConversionCoordinator, CoordinatorStep) {
        let internal = finish(ConversionOutcome::Failed(OperationError::InternalFailure));
        match event {
            CoordinatorEvent::Activate => if self.state == OperationState::Idle {
                (
                    ConversionCoordinator { state: OperationState::ReadingSelection, ..idle_coordinator() },
                    CoordinatorStep::Perform(CoordinatorAction::ReadSelection),
                )
            } else {
                (
                    self,
                    CoordinatorStep::Finished(
                        ConversionOutcome::Failed(OperationError::OperationAlreadyInProgress),
                    ),
                )
            },
            CoordinatorEvent::SelectionRead(result) => if self.state
                != OperationState::ReadingSelection {
                internal
            } else {
                match result {
                    SelectionResult::Success(snapshot) => match spec_choose_direction(
                        snapshot.text@,
                    ) {
                        Some(direction) => (
                            ConversionCoordinator {
                                state: OperationState::Converting,
                                selection: Some(snapshot),
                                direction: Some(direction),
                                replacement: None,
                            },
                            CoordinatorStep::Perform(
                                CoordinatorAction::Convert { text: snapshot.text, direction },
                            ),
                        ),
                        None => finish(ConversionOutcome::Failed(OperationError::NoSelection)),
                    },
                    _ => finish(ConversionOutcome::Failed(selection_failure(result))),
                }
            },
            CoordinatorEvent::Converted(result) => if self.state != OperationState::Converting
                || self.selection is None || self.direction is None {
                internal
            } else {
                match result {
                    Ok(replacement) => (
                        ConversionCoordinator {
                            state: OperationState::ValidatingTarget,
                            replacement: Some(replacement),
                            ..self
                        },
                        CoordinatorStep::Perform(
                            CoordinatorAction::CheckTarget { target: self.selection->0.target },
                        ),
                    ),
                    Err(()) => finish(ConversionOutcome::Failed(OperationError::ConversionFailure)),
                }
            },
            CoordinatorEvent::TargetChecked(current) => if self.state
                != OperationState::ValidatingTarget || self.selection is None
                || self.replacement is None {
                internal
            } else if current {
                (
                    ConversionCoordinator {
                        state: OperationState::Replacing,
                        replacement: None,
                        ..self
                    },
                    CoordinatorStep::Perform(
                        CoordinatorAction::Replace {
                            selection: self.selection->0,
                            replacement: self.replacement->0,
                        },
                    ),
                )
            } else {
                finish(ConversionOutcome::Failed(OperationError::TargetChanged))
            },
            CoordinatorEvent::Replaced(result) => if self.state != OperationState::Replacing
                || self.selection is None || self.direction is None {
                internal
            } else {
                match result {
                    ReplaceResult::Replaced => (
                        ConversionCoordinator {
                            state: OperationState::SynchronizingInputLanguage,
                            ..self
                        },
                        CoordinatorStep::Perform(
                            CoordinatorAction::SynchronizeInputLanguage {
                                target: self.selection->0.target,
                                desired: desired_language(self.direction->0),
                            },
                        ),
                    ),
                    _ => finish(ConversionOutcome::Failed(replacement_failure(result))),
                }
            },
            CoordinatorEvent::InputLanguageSynchronized(result) => if self.state
                != OperationState::SynchronizingInputLanguage {
                internal
            } else {
                match result {
                    Ok(_) => finish(ConversionOutcome::ConvertedAndSynchronized),
                    Err(error) => finish(ConversionOutcome::ConvertedSynchronizationFailed(error)),
                }
            },
        }
    }
}

impl ConversionCoordinator {
    /// An idle coordinator.
    pub fn new() -> (r: ConversionCoordinator)
        ensures
            r == idle_coordinator(),
    {
        ConversionCoordinator {
            state: OperationState::Idle,
            selection: None,
            direction: None,
            replacement: None,
        }
    }

    /// The state of the running operation.
    pub fn state(&self) -> (r: OperationState)
        ensures
            r == self.state,
    {
        self.state
    }

    fn end(&mut self, outcome: ConversionOutcome) -> (r: CoordinatorStep)
        ensures
            (*final(self), r) == finish(outcome),
    {
        self.state = OperationState::Idle;
        self.selection = None;
        self.direction = None;
        self.replacement = None;
        CoordinatorStep::Finished(outcome)
    }

    /// Answers one event; see [`Self::next`].
    pub fn step(&mut self, event: CoordinatorEvent) -> (r: CoordinatorStep)
        ensures
            (*final(self), r) == old(self).next(event),
    {
        match event {
            CoordinatorEvent::Activate => {
                if self.state == OperationState::Idle {
                    self.state = OperationState::ReadingSelection;
                    self.selection = None;
                    self.direction = None;
                    self.replacement = None;
                    CoordinatorStep::Perform(CoordinatorAction::ReadSelection)
                } else {
                    CoordinatorStep::Finished(failed(OperationError::OperationAlreadyInProgress))
                }
            },
            CoordinatorEvent::SelectionRead(result) => {
                if self.state != OperationState::ReadingSelection {
                    return self.end(failed(OperationError::InternalFailure));
                }
                match result {
                    SelectionResult::Success(snapshot) => {
                        match choose_direction(snapshot.text.as_str()) {
                            Some(direction) => {
                                let text = snapshot.text.clone();
                                self.state = OperationState::Converting;
                                self.selection = Some(snapshot);
                                self.direction = Some(direction);
                                self.replacement = None;
                                CoordinatorStep::Perform(CoordinatorAction::Convert { text, direction })
                            },
                            None => self.end(failed(OperationError::NoSelection)),
                        }
                    },
                    SelectionResult::NoSelection => self.end(failed(OperationError::NoSelection)),
                    SelectionResult::Unsupported => self.end(
                        failed(OperationError::UnsupportedTarget),
                    ),
                    SelectionResult::TargetChanged => self.end(failed(OperationError::TargetChanged)),
                    SelectionResult::TimedOut => self.end(
                        failed(OperationError::SelectionReadTimeout),
                    ),
                    SelectionResult::Failure(_) => self.end(
                        failed(OperationError::UIAutomationFailure),
                    ),
                }
            },
            CoordinatorEvent::Converted(result) => {
                let target = match &self.selection {
                    Some(selection) => selection.target,
                    None => {
                        return self.end(failed(OperationError::InternalFailure));
                    },
                };
                if self.state != OperationState::Converting || self.direction.is_none() {
                    return self.end(failed(OperationError::InternalFailure));
                }
                match result {
                    Ok(replacement) => {
                        self.state = OperationState::ValidatingTarget;
                        self.replacement = Some(replacement);
                        CoordinatorStep::Perform(CoordinatorAction::CheckTarget { target })
                    },
                    Err(()) => self.end(failed(OperationError::ConversionFailure)),
                }
            },
            CoordinatorEvent::TargetChecked(current) => {
                if self.state != OperationState::ValidatingTarget || self.selection.is_none()
                    || self.replacement.is_none() {
                    return self.end(failed(OperationError::InternalFailure));
                }
                if !current {
                    return self.end(failed(OperationError::TargetChanged));
                }
                let selection = match &self.selection {
                    Some(selection) => selection.duplicate(),
                    None => {
                        return self.end(failed(OperationError::InternalFailure));
                    },
                };
                match self.replacement.take() {
                    Some(replacement) => {
                        self.state = OperationState::Replacing;
                        CoordinatorStep::Perform(
                            CoordinatorAction::Replace { selection, replacement },
                        )
                    },
                    None => self.end(failed(OperationError::InternalFailure)),
                }
            },
            CoordinatorEvent::Replaced(result) => {
                let target = match &self.selection {
                    Some(selection) => selection.target,
                    None => {
                        return self.end(failed(OperationError::InternalFailure));
                    },
                };
                let direction = match self.direction {
                    Some(direction) => direction,
                    None => {
                        return self.end(failed(OperationError::InternalFailure));
                    },
                };
                if self.state != OperationState::Replacing {
                    return self.end(failed(OperationError::InternalFailure));
                }
                match result {
                    ReplaceResult::Replaced => {
                        self.state = OperationState::SynchronizingInputLanguage;
                        let desired = match direction {
                            ConversionDirection::EnglishToKorean => InputLanguage::Korean,
                            ConversionDirection::KoreanToEnglish => InputLanguage::English,
                        };
                        CoordinatorStep::Perform(
                            CoordinatorAction::SynchronizeInputLanguage { target, desired },
                        )
                    },
                    ReplaceResult::Unsupported => self.end(failed(OperationError::UnsupportedTarget)),
                    ReplaceResult::TemporarilyUnavailable => self.end(
                        failed(OperationError::ClipboardBusy),
                    ),
                    ReplaceResult::TargetChanged => self.end(failed(OperationError::TargetChanged)),
                    ReplaceResult::TimedOut => self.end(failed(OperationError::ReplacementTimeout)),
                    ReplaceResult::ClipboardChangedExternally => self.end(
                        failed(OperationError::ClipboardChangedExternally),
                    ),
                    ReplaceResult::Failure(_) => self.end(failed(OperationError::ReplacementFailure)),
                }
            },
            CoordinatorEvent::InputLanguageSynchronized(result) => {
                if self.state != OperationState::SynchronizingInputLanguage {
                    return self.end(failed(OperationError::InternalFailure));
                }
                match result {
                    Ok(_) => self.end(ConversionOutcome::ConvertedAndSynchronized),
                    Err(error) => self.end(ConversionOutcome::ConvertedSynchronizationFailed(error)),
                }
            },
        }
    }
}

/// The conversion engine the coordinator's callers use: conversion itself
/// cannot fail.
pub fn convert_selection(text: &str, direction: ConversionDirection) -> (r: Result<String, ()>)
    ensures
        r matches Ok(converted) && converted@ == spec_convert(text@, direction),
{
    Ok(convert(text, direction))
}

} // verus!
