//! Properties of an input-language change over single events and whole runs.

use vstd::prelude::*;

use super::change::{
    language_of_ime_open, ChangeAction, ChangeEvent, ChangePhase, ChangeStep, LanguageChange,
};

verus! {

/// The actions that change something on the target.
pub open spec fn is_mutation(action: ChangeAction) -> bool {
    ||| action is RequestLayout
    ||| action is SetImeOpen
    ||| action is SendHangulToggle
}

/// Every change the machine asks for comes right after a check that found
/// the captured target still current.
pub proof fn law_changes_need_a_current_target(change: LanguageChange, event: ChangeEvent)
    ensures
        change.next(event).1 matches ChangeStep::Perform(action) && is_mutation(action) ==> event
            == ChangeEvent::TargetChecked(true),
{
}

/// A change is reported successful only on reading back the desired
/// language: from the target, or from the Korean input method's open status.
pub proof fn law_success_is_read_back(change: LanguageChange, event: ChangeEvent)
    ensures
        change.next(event).1 == ChangeStep::Finished(Ok(())) ==> {
            ||| event == ChangeEvent::LanguageRead(Ok(change.desired))
            ||| event matches ChangeEvent::LanguagePolled { language, .. } && language == Ok::<
                _,
                super::InputLanguageError,
            >(change.desired)
            ||| event matches ChangeEvent::ImeOpenRead(open) && language_of_ime_open(open)
                == change.desired
        },
{
}

/// The machine and its answers after a run of events.
pub open spec fn run(start: LanguageChange, events: Seq<ChangeEvent>) -> (
    LanguageChange,
    Seq<ChangeStep>,
)
    decreases events.len(),
{
    if events.len() == 0 {
        (start, seq![])
    } else {
        let before = run(start, events.drop_last());
        let after = before.0.next(events.last());
        (after.0, before.1.push(after.1))
    }
}

/// How many presses of the Hangul/English key were asked for.
pub open spec fn toggles(steps: Seq<ChangeStep>) -> nat
    decreases steps.len(),
{
    if steps.len() == 0 {
        0
    } else {
        toggles(steps.drop_last()) + if steps.last() == ChangeStep::Perform(
            ChangeAction::SendHangulToggle,
        ) {
            1nat
        } else {
            0nat
        }
    }
}

/// The phases after the Hangul/English key has been asked for.
spec fn after_toggle(phase: ChangePhase) -> bool {
    ||| phase == ChangePhase::Toggle
    ||| phase == ChangePhase::CheckWhileToggling
    ||| phase == ChangePhase::PollWhileToggling
    ||| phase == ChangePhase::SleepWhileToggling
    ||| phase == ChangePhase::Verify
    ||| phase == ChangePhase::Done
}

/// The phases of setting the Korean input method directly, up to the
/// fallback's target check.
spec fn fixing_ime(phase: ChangePhase) -> bool {
    ||| phase == ChangePhase::CheckBeforeImeSet
    ||| phase == ChangePhase::SetIme
    ||| phase == ChangePhase::CheckBeforeImeRead
    ||| phase == ChangePhase::ReadIme
    ||| phase == ChangePhase::CheckBeforeToggle
}

proof fn lemma_run_keeps_desired(start: LanguageChange, events: Seq<ChangeEvent>)
    ensures
        run(start, events).0.desired == start.desired,
    decreases events.len(),
{
    if events.len() > 0 {
        lemma_run_keeps_desired(start, events.drop_last());
    }
}

proof fn lemma_toggles_once(start: LanguageChange, events: Seq<ChangeEvent>)
    ensures
        toggles(run(start, events).1) == 0 || (toggles(run(start, events).1) == 1 && after_toggle(
            run(start, events).0.phase,
        )),
    decreases events.len(),
{
    if events.len() > 0 {
        lemma_toggles_once(start, events.drop_last());
        let before = run(start, events.drop_last());
        let after = before.0.next(events.last());
        assert(run(start, events).1.drop_last() =~= before.1);
        assert(run(start, events).1.last() == after.1);
    }
}

/// However the target answers, a change asks for at most one press of the
/// Hangul/English key.
pub proof fn law_at_most_one_toggle(start: LanguageChange, events: Seq<ChangeEvent>)
    ensures
        toggles(run(start, events).1) <= 1,
{
    lemma_toggles_once(start, events);
}

/// An event that reads back a language other than the desired one.
pub open spec fn reads_mismatch(desired: super::InputLanguage, event: ChangeEvent) -> bool {
    event matches ChangeEvent::LanguageRead(Ok(language)) && language != desired
}

proof fn lemma_toggle_follows_mismatch(start: LanguageChange, events: Seq<ChangeEvent>)
    requires
        !fixing_ime(start.phase),
    ensures
        fixing_ime(run(start, events).0.phase) || toggles(run(start, events).1) > 0 ==> exists|
            i: int,
        |
            0 <= i < events.len() && reads_mismatch(start.desired, #[trigger] events[i]),
    decreases events.len(),
{
    if events.len() > 0 {
        let init = events.drop_last();
        lemma_toggle_follows_mismatch(start, init);
        lemma_run_keeps_desired(start, init);
        let before = run(start, init);
        let after = before.0.next(events.last());
        assert(run(start, events).1.drop_last() =~= before.1);
        assert(run(start, events).1.last() == after.1);
        if fixing_ime(before.0.phase) || toggles(before.1) > 0 {
            let i = choose|i: int| 0 <= i < init.len() && reads_mismatch(start.desired, #[trigger] init[i]);
            assert(events[i] == init[i]);
        } else if fixing_ime(after.0.phase) || toggles(run(start, events).1) > 0 {
            assert(reads_mismatch(start.desired, events[events.len() - 1]));
        }
    }
}

/// The Hangul/English key is pressed only after the target's language was
/// read and found to differ from the desired one.
pub proof fn law_toggle_follows_a_mismatch(desired: super::InputLanguage, events: Seq<ChangeEvent>)
    ensures
        toggles(run(super::change::spec_start(desired).0, events).1) > 0 ==> exists|i: int|
            0 <= i < events.len() && reads_mismatch(desired, #[trigger] events[i]),
{
    lemma_toggle_follows_mismatch(super::change::spec_start(desired).0, events);
}

/// The primary language of the layouts that type `language`: 0x12 for
/// Korean, 0x09 for English.
pub open spec fn layout_primary(language: super::InputLanguage) -> u16 {
    match language {
        super::InputLanguage::Korean => 0x12,
        super::InputLanguage::English => 0x09,
    }
}

/// A change gives up with a timeout of its own only on a poll that reports
/// its deadline passed: never on a poll before the deadline, and never on any
/// other answer (a read that fails passes its own error on).
pub proof fn law_timeout_only_after_the_deadline(change: LanguageChange, event: ChangeEvent)
    ensures
        ({
            let timed_out = change.next(event).1 == ChangeStep::Finished(
                Err(super::InputLanguageError::ChangeTimedOut),
            );
            &&& (event matches ChangeEvent::LayoutPolled { deadline_passed, .. } && !deadline_passed)
                ==> !timed_out
            &&& (event matches ChangeEvent::LanguagePolled { language, deadline_passed }
                && language is Ok && !deadline_passed) ==> !timed_out
            &&& (event is TargetChecked || event is PrimaryRead || event is LayoutFound
                || event is LayoutRequested || event is Slept || event is ImeOpenRead
                || event is ToggleSent) ==> !timed_out
        }),
{
}

/// While the requested layout has not applied and the deadline has not
/// passed, the change waits and looks again: it sleeps, then re-checks the
/// target, then polls the layout.
pub proof fn law_unapplied_layout_keeps_waiting(change: LanguageChange, primary: u16)
    requires
        change.phase == ChangePhase::PollWhileWaiting,
        primary != layout_primary(change.desired),
    ensures
        ({
            let (sleeping, asked) = change.next(
                ChangeEvent::LayoutPolled { primary, deadline_passed: false },
            );
            let (checking, asked_again) = sleeping.next(ChangeEvent::Slept);
            let (polling, polled) = checking.next(ChangeEvent::TargetChecked(true));
            &&& asked == ChangeStep::Perform(ChangeAction::Sleep)
            &&& asked_again == ChangeStep::Perform(ChangeAction::CheckTarget)
            &&& polled == ChangeStep::Perform(ChangeAction::PollLayout)
            &&& polling == change
        }),
{
}

/// Once the requested layout has applied, the change goes on to read the
/// language, never to an error.
pub proof fn law_applied_layout_goes_on(change: LanguageChange, deadline_passed: bool)
    requires
        change.phase == ChangePhase::PollWhileWaiting,
    ensures
        change.next(
            ChangeEvent::LayoutPolled { primary: layout_primary(change.desired), deadline_passed },
        ).1 == ChangeStep::Perform(ChangeAction::ReadLanguage),
{
}

/// While the toggled language is not yet the desired one and the deadline
/// has not passed, the change waits and reads it again.
pub proof fn law_untoggled_language_keeps_waiting(
    change: LanguageChange,
    language: super::InputLanguage,
)
    requires
        change.phase == ChangePhase::PollWhileToggling,
        language != change.desired,
    ensures
        ({
            let (sleeping, asked) = change.next(
                ChangeEvent::LanguagePolled { language: Ok(language), deadline_passed: false },
            );
            let (checking, asked_again) = sleeping.next(ChangeEvent::Slept);
            let (polling, polled) = checking.next(ChangeEvent::TargetChecked(true));
            &&& asked == ChangeStep::Perform(ChangeAction::Sleep)
            &&& asked_again == ChangeStep::Perform(ChangeAction::CheckTarget)
            &&& polled == ChangeStep::Perform(ChangeAction::PollLanguage)
            &&& polling == change
        }),
{
}

} // verus!
