//! One whole operation: the coordinator driven from idle, each action it asks
//! for answered in turn, until it reports the outcome.

use vstd::prelude::*;

use crate::input_language::{EnsureInputLanguageResult, InputLanguage, InputLanguageError};
use crate::replace::result::ReplaceResult;
use crate::selection::SelectionResult;

use super::coordinator::{
    desired_language, idle_coordinator, ConversionCoordinator, ConversionOutcome,
    CoordinatorAction, CoordinatorEvent, CoordinatorStep, OperationState,
};
use super::direction::spec_choose_direction;

verus! {

/// How the caller answers each action of one operation.
pub struct OperationAnswers {
    pub selection: SelectionResult,
    pub converted: Result<String, ()>,
    pub target_current: bool,
    pub replaced: ReplaceResult,
    pub synchronized: Result<EnsureInputLanguageResult, InputLanguageError>,
}

/// The event that answers `action`.
pub open spec fn answer(action: CoordinatorAction, answers: OperationAnswers) -> CoordinatorEvent {
    match action {
        CoordinatorAction::ReadSelection => CoordinatorEvent::SelectionRead(answers.selection),
        CoordinatorAction::Convert { .. } => CoordinatorEvent::Converted(answers.converted),
        CoordinatorAction::CheckTarget { .. } => CoordinatorEvent::TargetChecked(
            answers.target_current,
        ),
        CoordinatorAction::Replace { .. } => CoordinatorEvent::Replaced(answers.replaced),
        CoordinatorAction::SynchronizeInputLanguage { .. } => CoordinatorEvent::InputLanguageSynchronized(
            answers.synchronized,
        ),
    }
}

/// The coordinator and its answers from `event` on, each action answered,
/// for at most `fuel` further actions.
pub open spec fn operate(
    coordinator: ConversionCoordinator,
    event: CoordinatorEvent,
    answers: OperationAnswers,
    fuel: nat,
) -> (ConversionCoordinator, Seq<CoordinatorStep>)
    decreases fuel,
{
    let (next, step) = coordinator.next(event);
    match step {
        CoordinatorStep::Perform(action) => if fuel == 0 {
            (next, seq![step])
        } else {
            let rest = operate(next, answer(action, answers), answers, (fuel - 1) as nat);
            (rest.0, seq![step] + rest.1)
        },
        CoordinatorStep::Finished(_) => (next, seq![step]),
    }
}

/// The direction chosen for the selected text, where one is read.
pub open spec fn selected_direction(answers: OperationAnswers) -> Option<
    super::super::converter::ConversionDirection,
> {
    match answers.selection {
        SelectionResult::Success(snapshot) => spec_choose_direction(snapshot.text@),
        _ => None,
    }
}

/// Whether the operation gets as far as replacing: a selection with a
/// direction, converted, whose target is still current.
pub open spec fn reaches_replacement(answers: OperationAnswers) -> bool {
    &&& selected_direction(answers) is Some
    &&& answers.converted is Ok
    &&& answers.target_current
}

/// Whether the selection is replaced.
pub open spec fn replaced(answers: OperationAnswers) -> bool {
    reaches_replacement(answers) && answers.replaced == ReplaceResult::Replaced
}

/// How many replacements a run of answers asks for.
pub open spec fn replace_requests(steps: Seq<CoordinatorStep>) -> nat
    decreases steps.len(),
{
    if steps.len() == 0 {
        0
    } else {
        (if steps[0] matches CoordinatorStep::Perform(CoordinatorAction::Replace { .. }) {
            1nat
        } else {
            0nat
        }) + replace_requests(steps.skip(1))
    }
}

/// How many input-language synchronizations a run of answers asks for.
pub open spec fn sync_requests(steps: Seq<CoordinatorStep>) -> nat
    decreases steps.len(),
{
    if steps.len() == 0 {
        0
    } else {
        (if steps[0] matches CoordinatorStep::Perform(
            CoordinatorAction::SynchronizeInputLanguage { .. },
        ) {
            1nat
        } else {
            0nat
        }) + sync_requests(steps.skip(1))
    }
}

/// The language the first synchronization asked for goes towards, if any.
pub open spec fn sync_desired(steps: Seq<CoordinatorStep>) -> Option<InputLanguage>
    decreases steps.len(),
{
    if steps.len() == 0 {
        None
    } else {
        match steps[0] {
            CoordinatorStep::Perform(CoordinatorAction::SynchronizeInputLanguage { desired, .. }) => Some(
                desired,
            ),
            _ => sync_desired(steps.skip(1)),
        }
    }
}

/// The outcome the last answer reports, if it reports one.
pub open spec fn reported(steps: Seq<CoordinatorStep>) -> Option<ConversionOutcome> {
    if steps.len() > 0 && steps.last() is Finished {
        Some(steps.last()->Finished_0)
    } else {
        None
    }
}

/// What a run from some point on adds up to: the coordinator idle again,
/// these counts of replacements and synchronizations, the language of the
/// synchronization, and a reported outcome that is handled or not.
pub open spec fn sums_to(
    run: (ConversionCoordinator, Seq<CoordinatorStep>),
    replaces: nat,
    syncs: nat,
    desired: Option<InputLanguage>,
    handled: bool,
) -> bool {
    &&& run.0 == idle_coordinator()
    &&& run.1.len() > 0
    &&& replace_requests(run.1) == replaces
    &&& sync_requests(run.1) == syncs
    &&& sync_desired(run.1) == desired
    &&& reported(run.1) matches Some(outcome) && outcome.spec_handled() == handled
}

/// A run that ends at once with `outcome`.
proof fn lemma_finished(outcome: ConversionOutcome)
    ensures
        sums_to(
            (idle_coordinator(), seq![CoordinatorStep::Finished(outcome)]),
            0,
            0,
            None,
            outcome.spec_handled(),
        ),
{
    let s = seq![CoordinatorStep::Finished(outcome)];
    assert(s.skip(1) =~= Seq::<CoordinatorStep>::empty());
    assert(replace_requests(Seq::<CoordinatorStep>::empty()) == 0);
    assert(sync_requests(Seq::<CoordinatorStep>::empty()) == 0);
    assert(sync_desired(Seq::<CoordinatorStep>::empty()) is None);
}

/// A step that asks for `action`, followed by a run.
proof fn lemma_prepend(
    action: CoordinatorAction,
    rest: (ConversionCoordinator, Seq<CoordinatorStep>),
    replaces: nat,
    syncs: nat,
    desired: Option<InputLanguage>,
    handled: bool,
)
    requires
        sums_to(rest, replaces, syncs, desired, handled),
    ensures
        sums_to(
            (rest.0, seq![CoordinatorStep::Perform(action)] + rest.1),
            replaces + if action is Replace {
                1nat
            } else {
                0nat
            },
            syncs + if action is SynchronizeInputLanguage {
                1nat
            } else {
                0nat
            },
            match action {
                CoordinatorAction::SynchronizeInputLanguage { desired: d, .. } => Some(d),
                _ => desired,
            },
            handled,
        ),
{
    let all = seq![CoordinatorStep::Perform(action)] + rest.1;
    assert(all.skip(1) =~= rest.1);
    assert(all[0] == CoordinatorStep::Perform(action));
    assert(all.last() == rest.1.last());
}

/// From synchronizing the input language to the end.
proof fn lemma_from_synchronizing(coordinator: ConversionCoordinator, answers: OperationAnswers)
    requires
        coordinator.state == OperationState::SynchronizingInputLanguage,
    ensures
        sums_to(
            operate(
                coordinator,
                CoordinatorEvent::InputLanguageSynchronized(answers.synchronized),
                answers,
                0,
            ),
            0,
            0,
            None,
            true,
        ),
{
    let (next, step) = coordinator.next(
        CoordinatorEvent::InputLanguageSynchronized(answers.synchronized),
    );
    lemma_finished(step->Finished_0);
}

/// From replacing to the end.
proof fn lemma_from_replacing(coordinator: ConversionCoordinator, answers: OperationAnswers)
    requires
        coordinator.state == OperationState::Replacing,
        coordinator.selection is Some,
        coordinator.direction is Some,
    ensures
        ({
            let ok = answers.replaced == ReplaceResult::Replaced;
            sums_to(
                operate(coordinator, CoordinatorEvent::Replaced(answers.replaced), answers, 1),
                0,
                if ok {
                    1
                } else {
                    0
                },
                if ok {
                    Some(desired_language(coordinator.direction->0))
                } else {
                    None
                },
                ok,
            )
        }),
{
    let event = CoordinatorEvent::Replaced(answers.replaced);
    let (next, step) = coordinator.next(event);
    if answers.replaced == ReplaceResult::Replaced {
        let action = step->Perform_0;
        lemma_from_synchronizing(next, answers);
        let rest = operate(next, answer(action, answers), answers, 0);
        lemma_prepend(action, rest, 0, 0, None, true);
    } else {
        lemma_finished(step->Finished_0);
    }
}

/// From checking the target to the end.
proof fn lemma_from_checking(coordinator: ConversionCoordinator, answers: OperationAnswers)
    requires
        coordinator.state == OperationState::ValidatingTarget,
        coordinator.selection is Some,
        coordinator.direction is Some,
        coordinator.replacement is Some,
    ensures
        ({
            let ok = answers.replaced == ReplaceResult::Replaced;
            let cur = answers.target_current;
            sums_to(
                operate(
                    coordinator,
                    CoordinatorEvent::TargetChecked(answers.target_current),
                    answers,
                    2,
                ),
                if cur {
                    1
                } else {
                    0
                },
                if cur && ok {
                    1
                } else {
                    0
                },
                if cur && ok {
                    Some(desired_language(coordinator.direction->0))
                } else {
                    None
                },
                cur && ok,
            )
        }),
{
    let event = CoordinatorEvent::TargetChecked(answers.target_current);
    let (next, step) = coordinator.next(event);
    if answers.target_current {
        let action = step->Perform_0;
        lemma_from_replacing(next, answers);
        let ok = answers.replaced == ReplaceResult::Replaced;
        let rest = operate(next, answer(action, answers), answers, 1);
        lemma_prepend(
            action,
            rest,
            0,
            if ok {
                1
            } else {
                0
            },
            if ok {
                Some(desired_language(coordinator.direction->0))
            } else {
                None
            },
            ok,
        );
    } else {
        lemma_finished(step->Finished_0);
    }
}

/// From converting to the end.
proof fn lemma_from_converting(coordinator: ConversionCoordinator, answers: OperationAnswers)
    requires
        coordinator.state == OperationState::Converting,
        coordinator.selection is Some,
        coordinator.direction is Some,
    ensures
        ({
            let go = answers.converted is Ok && answers.target_current;
            let ok = go && answers.replaced == ReplaceResult::Replaced;
            sums_to(
                operate(coordinator, CoordinatorEvent::Converted(answers.converted), answers, 3),
                if go {
                    1
                } else {
                    0
                },
                if ok {
                    1
                } else {
                    0
                },
                if ok {
                    Some(desired_language(coordinator.direction->0))
                } else {
                    None
                },
                ok,
            )
        }),
{
    let event = CoordinatorEvent::Converted(answers.converted);
    let (next, step) = coordinator.next(event);
    if answers.converted is Ok {
        let action = step->Perform_0;
        lemma_from_checking(next, answers);
        let cur = answers.target_current;
        let ok = cur && answers.replaced == ReplaceResult::Replaced;
        let rest = operate(next, answer(action, answers), answers, 2);
        lemma_prepend(
            action,
            rest,
            if cur {
                1
            } else {
                0
            },
            if ok {
                1
            } else {
                0
            },
            if ok {
                Some(desired_language(coordinator.direction->0))
            } else {
                None
            },
            ok,
        );
    } else {
        lemma_finished(step->Finished_0);
    }
}

/// From reading the selection to the end.
proof fn lemma_from_reading(coordinator: ConversionCoordinator, answers: OperationAnswers)
    requires
        coordinator.state == OperationState::ReadingSelection,
    ensures
        sums_to(
            operate(coordinator, CoordinatorEvent::SelectionRead(answers.selection), answers, 4),
            if reaches_replacement(answers) {
                1
            } else {
                0
            },
            if replaced(answers) {
                1
            } else {
                0
            },
            if replaced(answers) {
                Some(desired_language(selected_direction(answers)->0))
            } else {
                None
            },
            replaced(answers),
        ),
{
    let event = CoordinatorEvent::SelectionRead(answers.selection);
    let (next, step) = coordinator.next(event);
    if selected_direction(answers) is Some {
        let action = step->Perform_0;
        lemma_from_converting(next, answers);
        let rest = operate(next, answer(action, answers), answers, 3);
        lemma_prepend(
            action,
            rest,
            if reaches_replacement(answers) {
                1
            } else {
                0
            },
            if replaced(answers) {
                1
            } else {
                0
            },
            if replaced(answers) {
                Some(desired_language(selected_direction(answers)->0))
            } else {
                None
            },
            replaced(answers),
        );
    } else {
        lemma_finished(step->Finished_0);
    }
}

/// One whole operation from an idle coordinator, whatever the caller's
/// answers: it ends idle with an outcome; it asks to replace the selection
/// once if the selection has a direction, was converted and its target is
/// still current, and never otherwise; it asks to synchronize the input
/// language exactly once if the replacement succeeded, and never otherwise,
/// towards the language of the converted text; and the outcome is handled
/// exactly when the replacement succeeded.
pub proof fn law_one_operation(answers: OperationAnswers)
    ensures
        sums_to(
            operate(idle_coordinator(), CoordinatorEvent::Activate, answers, 5),
            if reaches_replacement(answers) {
                1
            } else {
                0
            },
            if replaced(answers) {
                1
            } else {
                0
            },
            if replaced(answers) {
                Some(desired_language(selected_direction(answers)->0))
            } else {
                None
            },
            replaced(answers),
        ),
{
    let (next, step) = idle_coordinator().next(CoordinatorEvent::Activate);
    let action = step->Perform_0;
    lemma_from_reading(next, answers);
    let rest = operate(next, answer(action, answers), answers, 4);
    lemma_prepend(
        action,
        rest,
        if reaches_replacement(answers) {
            1
        } else {
            0
        },
        if replaced(answers) {
            1
        } else {
            0
        },
        if replaced(answers) {
            Some(desired_language(selected_direction(answers)->0))
        } else {
            None
        },
        replaced(answers),
    );
}

} // verus!
