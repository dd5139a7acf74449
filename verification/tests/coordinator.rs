use hanyeongkey::coordination::coordinator::{
    convert_selection, failed, ConversionCoordinator, ConversionOutcome, CoordinatorAction,
    CoordinatorEvent, CoordinatorStep, OperationError, OperationState,
};
use hanyeongkey::coordination::diagnostics::diagnostic_line;
use hanyeongkey::input_language::{EnsureInputLanguageResult, InputLanguage, InputLanguageError};
use hanyeongkey::replace::result::ReplaceResult;
use hanyeongkey::selection::{SelectionResult, SelectionSnapshot};
use hanyeongkey::target::TargetIdentity;

struct Fakes {
    selection: Box<dyn Fn() -> SelectionResult>,
    converter_fails: bool,
    replacement: Box<dyn Fn() -> ReplaceResult>,
    target_current: bool,
    language: Result<EnsureInputLanguageResult, InputLanguageError>,
}

struct Report {
    outcome: ConversionOutcome,
    replacement_calls: usize,
    language_calls: usize,
    requested: Option<InputLanguage>,
}

fn snapshot(text: &str) -> SelectionSnapshot {
    SelectionSnapshot {
        text: text.into(),
        target: TargetIdentity::test_identity(),
    }
}

fn fakes(
    selection: impl Fn() -> SelectionResult + 'static,
    converter_fails: bool,
    replacement: impl Fn() -> ReplaceResult + 'static,
    target_current: bool,
) -> Fakes {
    Fakes {
        selection: Box::new(selection),
        converter_fails,
        replacement: Box::new(replacement),
        target_current,
        language: Ok(EnsureInputLanguageResult::Changed),
    }
}

fn process(coordinator: &mut ConversionCoordinator, fakes: &Fakes) -> Report {
    let mut replacement_calls = 0;
    let mut language_calls = 0;
    let mut requested = None;
    let mut event = CoordinatorEvent::Activate;
    loop {
        event = match coordinator.step(event) {
            CoordinatorStep::Finished(outcome) => {
                return Report {
                    outcome,
                    replacement_calls,
                    language_calls,
                    requested,
                }
            }
            CoordinatorStep::Perform(CoordinatorAction::ReadSelection) => {
                CoordinatorEvent::SelectionRead((fakes.selection)())
            }
            CoordinatorStep::Perform(CoordinatorAction::Convert { text, direction }) => {
                CoordinatorEvent::Converted(if fakes.converter_fails {
                    Err(())
                } else {
                    convert_selection(&text, direction)
                })
            }
            CoordinatorStep::Perform(CoordinatorAction::CheckTarget { .. }) => {
                CoordinatorEvent::TargetChecked(fakes.target_current)
            }
            CoordinatorStep::Perform(CoordinatorAction::Replace { .. }) => {
                replacement_calls += 1;
                CoordinatorEvent::Replaced((fakes.replacement)())
            }
            CoordinatorStep::Perform(CoordinatorAction::SynchronizeInputLanguage {
                desired,
                ..
            }) => {
                language_calls += 1;
                requested = Some(desired);
                CoordinatorEvent::InputLanguageSynchronized(fakes.language)
            }
        };
    }
}

#[test]
fn no_selection_does_not_replace_and_returns_to_idle() {
    let mut coordinator = ConversionCoordinator::new();
    let report = process(
        &mut coordinator,
        &fakes(|| SelectionResult::NoSelection, false, || ReplaceResult::Replaced, true),
    );
    assert_eq!(report.outcome, failed(OperationError::NoSelection));
    assert_eq!(report.replacement_calls, 0);
    assert_eq!(report.language_calls, 0);
    assert_eq!(coordinator.state(), OperationState::Idle);
}

#[test]
fn changed_target_does_not_replace() {
    let mut coordinator = ConversionCoordinator::new();
    let report = process(
        &mut coordinator,
        &fakes(
            || SelectionResult::Success(snapshot("hello")),
            false,
            || ReplaceResult::Replaced,
            false,
        ),
    );
    assert_eq!(report.outcome, failed(OperationError::TargetChanged));
    assert_eq!(report.replacement_calls, 0);
    assert_eq!(report.language_calls, 0);
}

#[test]
fn changed_selection_is_reported_by_replacer() {
    let mut coordinator = ConversionCoordinator::new();
    let report = process(
        &mut coordinator,
        &fakes(
            || SelectionResult::Success(snapshot("hello")),
            false,
            || ReplaceResult::TargetChanged,
            true,
        ),
    );
    assert_eq!(report.outcome, failed(OperationError::TargetChanged));
    assert_eq!(report.replacement_calls, 1);
    assert_eq!(report.language_calls, 0);
}

#[test]
fn conversion_failure_never_replaces() {
    let mut coordinator = ConversionCoordinator::new();
    let report = process(
        &mut coordinator,
        &fakes(
            || SelectionResult::Success(snapshot("hello")),
            true,
            || ReplaceResult::Replaced,
            true,
        ),
    );
    assert_eq!(report.outcome, failed(OperationError::ConversionFailure));
    assert_eq!(report.replacement_calls, 0);
    assert_eq!(report.language_calls, 0);
    assert_eq!(coordinator.state(), OperationState::Idle);
}

#[test]
fn successful_conversion_replaces_once_and_returns_to_idle() {
    let mut coordinator = ConversionCoordinator::new();
    let report = process(
        &mut coordinator,
        &fakes(
            || SelectionResult::Success(snapshot("dkssud")),
            false,
            || ReplaceResult::Replaced,
            true,
        ),
    );
    assert_eq!(report.outcome, ConversionOutcome::ConvertedAndSynchronized);
    assert_eq!(report.replacement_calls, 1);
    assert_eq!(report.language_calls, 1);
    assert_eq!(report.requested, Some(InputLanguage::Korean));
    assert_eq!(coordinator.state(), OperationState::Idle);
}

#[test]
fn korean_to_english_requests_english_input_mode() {
    let mut coordinator = ConversionCoordinator::new();
    let report = process(
        &mut coordinator,
        &fakes(
            || SelectionResult::Success(snapshot("안녕")),
            false,
            || ReplaceResult::Replaced,
            true,
        ),
    );
    assert_eq!(report.outcome, ConversionOutcome::ConvertedAndSynchronized);
    assert_eq!(report.language_calls, 1);
    assert_eq!(report.requested, Some(InputLanguage::English));
}

#[test]
fn synchronization_failure_is_partial_success_after_one_replacement() {
    let mut coordinator = ConversionCoordinator::new();
    let mut setup = fakes(
        || SelectionResult::Success(snapshot("dkssud")),
        false,
        || ReplaceResult::Replaced,
        true,
    );
    setup.language = Err(InputLanguageError::TargetChanged);
    let report = process(&mut coordinator, &setup);
    assert_eq!(
        report.outcome,
        ConversionOutcome::ConvertedSynchronizationFailed(InputLanguageError::TargetChanged)
    );
    assert!(report.outcome.handled());
    assert_eq!(report.replacement_calls, 1);
    assert_eq!(report.language_calls, 1);
}

#[test]
fn concurrent_activation_is_rejected() {
    let mut coordinator = ConversionCoordinator::new();
    coordinator.state = OperationState::ReadingSelection;
    let report = process(
        &mut coordinator,
        &fakes(|| SelectionResult::NoSelection, false, || ReplaceResult::Replaced, true),
    );
    assert_eq!(report.outcome, failed(OperationError::OperationAlreadyInProgress));
}

#[test]
fn timeout_categories_are_distinct() {
    let mut replacement_timeout = ConversionCoordinator::new();
    let report = process(
        &mut replacement_timeout,
        &fakes(
            || SelectionResult::Success(snapshot("hello")),
            false,
            || ReplaceResult::TimedOut,
            true,
        ),
    );
    assert_eq!(report.outcome, failed(OperationError::ReplacementTimeout));
    let mut coordinator = ConversionCoordinator::new();
    let report = process(
        &mut coordinator,
        &fakes(|| SelectionResult::TimedOut, false, || ReplaceResult::Replaced, true),
    );
    assert_eq!(report.outcome, failed(OperationError::SelectionReadTimeout));
}

#[test]
fn diagnostics_never_include_selected_text() {
    let sensitive = "private selected text";
    let line = diagnostic_line(failed(OperationError::TargetChanged));
    assert!(!line.contains(sensitive));
    assert_eq!(line, "[conversion] outcome=Failed(TargetChanged)");
}

#[test]
fn activation_during_a_running_operation_leaves_it_running() {
    let mut coordinator = ConversionCoordinator::new();
    assert!(matches!(
        coordinator.step(CoordinatorEvent::Activate),
        CoordinatorStep::Perform(CoordinatorAction::ReadSelection)
    ));
    assert!(matches!(
        coordinator.step(CoordinatorEvent::Activate),
        CoordinatorStep::Finished(ConversionOutcome::Failed(
            OperationError::OperationAlreadyInProgress
        ))
    ));
    assert_eq!(coordinator.state(), OperationState::ReadingSelection);
    assert!(matches!(
        coordinator.step(CoordinatorEvent::SelectionRead(SelectionResult::NoSelection)),
        CoordinatorStep::Finished(ConversionOutcome::Failed(OperationError::NoSelection))
    ));
    assert_eq!(coordinator.state(), OperationState::Idle);
}

#[test]
fn an_event_out_of_turn_is_an_internal_failure() {
    let mut coordinator = ConversionCoordinator::new();
    assert!(matches!(
        coordinator.step(CoordinatorEvent::TargetChecked(true)),
        CoordinatorStep::Finished(ConversionOutcome::Failed(OperationError::InternalFailure))
    ));
    assert_eq!(coordinator.state(), OperationState::Idle);
}

#[test]
fn replacement_carries_the_converted_text() {
    let mut coordinator = ConversionCoordinator::new();
    coordinator.step(CoordinatorEvent::Activate);
    let step = coordinator.step(CoordinatorEvent::SelectionRead(SelectionResult::Success(
        snapshot("gksrmf"),
    )));
    let converted = match step {
        CoordinatorStep::Perform(CoordinatorAction::Convert { text, direction }) => {
            assert_eq!(text, "gksrmf");
            convert_selection(&text, direction)
        }
        other => panic!("unexpected step {other:?}"),
    };
    coordinator.step(CoordinatorEvent::Converted(converted));
    match coordinator.step(CoordinatorEvent::TargetChecked(true)) {
        CoordinatorStep::Perform(CoordinatorAction::Replace {
            selection,
            replacement,
        }) => {
            assert_eq!(selection.text, "gksrmf");
            assert_eq!(replacement, "한글");
        }
        other => panic!("unexpected step {other:?}"),
    }
}

#[test]
fn every_diagnostic_names_only_the_outcome() {
    assert_eq!(
        diagnostic_line(ConversionOutcome::ConvertedAndSynchronized),
        "[conversion] outcome=ConvertedAndSynchronized"
    );
    assert_eq!(
        diagnostic_line(ConversionOutcome::ConvertedSynchronizationFailed(
            InputLanguageError::ChangeTimedOut
        )),
        "[conversion] outcome=ConvertedSynchronizationFailed(ChangeTimedOut)"
    );
    assert_eq!(
        diagnostic_line(failed(OperationError::OperationAlreadyInProgress)),
        "[conversion] outcome=Failed(OperationAlreadyInProgress)"
    );
}
