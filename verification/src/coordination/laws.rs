//! Properties of the coordinator over single events and over whole runs.

use vstd::prelude::*;

use crate::replace::result::ReplaceResult;

use super::coordinator::{
    desired_language, idle_coordinator, ConversionCoordinator, ConversionOutcome,
    CoordinatorAction, CoordinatorEvent, CoordinatorStep, OperationError, OperationState,
};

verus! {

/// An activation while an operation runs is rejected and leaves the running
/// operation as it was.
pub proof fn law_concurrent_activation_is_rejected(coordinator: ConversionCoordinator)
    requires
        coordinator.state != OperationState::Idle,
    ensures
        coordinator.next(CoordinatorEvent::Activate) == (
            coordinator,
            CoordinatorStep::Finished(
                ConversionOutcome::Failed(OperationError::OperationAlreadyInProgress),
            ),
        ),
{
}

/// Every operation that ends, whatever its outcome, leaves the coordinator
/// idle; while an action is asked for, the coordinator is not idle.
pub proof fn law_outcome_returns_to_idle(
    coordinator: ConversionCoordinator,
    event: CoordinatorEvent,
)
    ensures
        coordinator.next(event).1 matches CoordinatorStep::Finished(outcome) ==> outcome
            == ConversionOutcome::Failed(OperationError::OperationAlreadyInProgress)
            || coordinator.next(event).0 == idle_coordinator(),
        coordinator.next(event).1 is Perform ==> coordinator.next(event).0.state
            != OperationState::Idle,
{
}

/// The selection is replaced only once its target has been checked and found
/// current, and only with the text that the conversion gave back.
pub proof fn law_replacement_needs_a_current_target(
    coordinator: ConversionCoordinator,
    event: CoordinatorEvent,
)
    ensures
        coordinator.next(event).1 matches CoordinatorStep::Perform(
            CoordinatorAction::Replace { selection, replacement },
        ) ==> {
            &&& coordinator.state == OperationState::ValidatingTarget
            &&& event == CoordinatorEvent::TargetChecked(true)
            &&& coordinator.selection == Some(selection)
            &&& coordinator.replacement == Some(replacement)
        },
{
}

/// The converted text is the one the conversion gave back, and the text that
/// is converted is the selected text.
pub proof fn law_conversion_uses_the_selection(
    coordinator: ConversionCoordinator,
    event: CoordinatorEvent,
)
    ensures
        coordinator.next(event).1 matches CoordinatorStep::Perform(
            CoordinatorAction::Convert { text, direction },
        ) ==> event matches CoordinatorEvent::SelectionRead(
            crate::selection::SelectionResult::Success(snapshot),
        ) && snapshot.text == text && coordinator.next(event).0.direction == Some(direction),
        event matches CoordinatorEvent::Converted(Ok(replacement)) ==> (coordinator.next(event).1 is Perform
            ==> coordinator.next(event).0.replacement == Some(replacement)),
{
}

/// The input language is synchronized only after the selection was replaced,
/// for the target that owned the selection, and towards the language of the
/// converted text: Korean after English-to-Korean, English after
/// Korean-to-English.
pub proof fn law_synchronization_follows_replacement(
    coordinator: ConversionCoordinator,
    event: CoordinatorEvent,
)
    ensures
        coordinator.next(event).1 matches CoordinatorStep::Perform(
            CoordinatorAction::SynchronizeInputLanguage { target, desired },
        ) ==> {
            &&& coordinator.state == OperationState::Replacing
            &&& event == CoordinatorEvent::Replaced(ReplaceResult::Replaced)
            &&& coordinator.selection matches Some(selection) && selection.target == target
            &&& coordinator.direction matches Some(direction) && desired == desired_language(
                direction,
            )
        },
{
}

/// The coordinator and its answers after a run of events.
pub open spec fn run(start: ConversionCoordinator, events: Seq<CoordinatorEvent>) -> (
    ConversionCoordinator,
    Seq<CoordinatorStep>,
)
    decreases events.len(),
{
    if events.len() == 0 {
        (start, seq![])
    } else {
        let before = run(start, events.drop_last());
        let after = before.0.next(events.last());
        (after.0, before.1.push(after.1))
    }
}

/// How many operations were started: answers that ask to read the selection.
pub open spec fn started(steps: Seq<CoordinatorStep>) -> nat
    decreases steps.len(),
{
    if steps.len() == 0 {
        0
    } else {
        started(steps.drop_last()) + if steps.last() == CoordinatorStep::Perform(
            CoordinatorAction::ReadSelection,
        ) {
            1nat
        } else {
            0nat
        }
    }
}

/// How many replacements were asked for.
pub open spec fn replacements(steps: Seq<CoordinatorStep>) -> nat
    decreases steps.len(),
{
    if steps.len() == 0 {
        0
    } else {
        replacements(steps.drop_last()) + if steps.last() matches CoordinatorStep::Perform(
            CoordinatorAction::Replace { .. },
        ) {
            1nat
        } else {
            0nat
        }
    }
}

/// How many operations ended handled, consuming the key press.
pub open spec fn handled(steps: Seq<CoordinatorStep>) -> nat
    decreases steps.len(),
{
    if steps.len() == 0 {
        0
    } else {
        handled(steps.drop_last()) + if steps.last() matches CoordinatorStep::Finished(outcome)
            && outcome.spec_handled() {
            1nat
        } else {
            0nat
        }
    }
}

/// The counts that a coordinator in a given state can have reached.
pub open spec fn counts_fit(
    coordinator: ConversionCoordinator,
    started: nat,
    replacements: nat,
    handled: nat,
) -> bool {
    match coordinator.state {
        OperationState::ReadingSelection | OperationState::Converting
        | OperationState::ValidatingTarget => replacements + 1 <= started && handled
            <= replacements,
        OperationState::Replacing | OperationState::SynchronizingInputLanguage => replacements
            <= started && handled + 1 <= replacements,
        _ => replacements <= started && handled <= replacements,
    }
}

proof fn lemma_step_keeps_counts_fit(
    coordinator: ConversionCoordinator,
    event: CoordinatorEvent,
    s: nat,
    r: nat,
    h: nat,
)
    requires
        counts_fit(coordinator, s, r, h),
    ensures
        ({
            let (after, step) = coordinator.next(event);
            let ds: nat = if step == CoordinatorStep::Perform(CoordinatorAction::ReadSelection) {
                1
            } else {
                0
            };
            let dr: nat = if step matches CoordinatorStep::Perform(
                CoordinatorAction::Replace { .. },
            ) {
                1
            } else {
                0
            };
            let dh: nat = if step matches CoordinatorStep::Finished(outcome)
                && outcome.spec_handled() {
                1
            } else {
                0
            };
            counts_fit(after, s + ds, r + dr, h + dh)
        }),
{
}

proof fn lemma_run_counts_fit(events: Seq<CoordinatorEvent>)
    ensures
        counts_fit(
            run(idle_coordinator(), events).0,
            started(run(idle_coordinator(), events).1),
            replacements(run(idle_coordinator(), events).1),
            handled(run(idle_coordinator(), events).1),
        ),
        run(idle_coordinator(), events).1.len() == events.len(),
    decreases events.len(),
{
    if events.len() > 0 {
        lemma_run_counts_fit(events.drop_last());
        let before = run(idle_coordinator(), events.drop_last());
        lemma_step_keeps_counts_fit(
            before.0,
            events.last(),
            started(before.1),
            replacements(before.1),
            handled(before.1),
        );
        let steps = run(idle_coordinator(), events).1;
        assert(steps.drop_last() =~= before.1);
    }
}

/// Over any run from an idle coordinator, no operation replaces the selection
/// more than once: there are never more replacements than started
/// operations, and never more handled outcomes than replacements.
pub proof fn law_at_most_one_replacement_per_operation(events: Seq<CoordinatorEvent>)
    ensures
        replacements(run(idle_coordinator(), events).1) <= started(
            run(idle_coordinator(), events).1,
        ),
        handled(run(idle_coordinator(), events).1) <= replacements(
            run(idle_coordinator(), events).1,
        ),
{
    lemma_run_counts_fit(events);
}

} // verus!
