//! Changing the input language of a captured target, as a state machine.
//!
//! The caller performs each requested action on the window system and hands
//! back its result as the next event. The machine re-checks the target right
//! before every change it asks for, first tries the direct ways (switching
//! the layout, setting the Korean input method's open status) and falls back
//! to a single marked press of the Hangul/English key only after a read-back
//! mismatch. The caller starts its timeout clock when it performs
//! [`ChangeAction::RequestLayout`] or [`ChangeAction::SendHangulToggle`].

use vstd::prelude::*;

use super::{
    desired_ime_open, desired_primary, layout_wait, spec_desired_primary, verify_language,
    InputLanguage, InputLanguageError, LayoutWait, PRIMARY_LANGUAGE_KOREAN,
};

verus! {

/// What the machine asks its caller to do next.
#[derive(Debug, Clone, Copy, PartialEq, Eq, Structural)]
pub enum ChangeAction {
    /// Tell whether the captured target is still current.
    CheckTarget,
    /// Read the primary language of the target thread's layout.
    ReadPrimary,
    /// Find an installed layout with this primary language.
    FindLayout { primary: u16 },
    /// Ask the target window to switch to this layout; the timeout clock starts.
    RequestLayout { layout: usize },
    /// Read the layout's primary language again, and tell whether the timeout has passed.
    PollLayout,
    /// Wait a moment.
    Sleep,
    /// Read the target's input language.
    ReadLanguage,
    /// Open or close the target's Korean input method.
    SetImeOpen { open: bool },
    /// Read back the open status just set.
    ReadImeOpen,
    /// Send one marked press of the Hangul/English key; the timeout clock starts.
    SendHangulToggle,
    /// Read the target's input language again, and tell whether the timeout has passed.
    PollLanguage,
}

/// The result of the action the machine asked for.
#[derive(Debug, Clone, Copy, PartialEq, Eq)]
pub enum ChangeEvent {
    TargetChecked(bool),
    PrimaryRead(u16),
    LayoutFound(Option<usize>),
    LayoutRequested(bool),
    LayoutPolled { primary: u16, deadline_passed: bool },
    Slept,
    LanguageRead(Result<InputLanguage, InputLanguageError>),
    ImeOpenSet(Result<(), InputLanguageError>),
    ImeOpenRead(bool),
    ToggleSent(bool),
    LanguagePolled { language: Result<InputLanguage, InputLanguageError>, deadline_passed: bool },
}

/// What the machine answers to an event.
#[derive(Debug, Clone, Copy, PartialEq, Eq)]
pub enum ChangeStep {
    Perform(ChangeAction),
    Finished(Result<(), InputLanguageError>),
}

/// Which answer the machine waits for.
#[derive(Debug, Clone, Copy, PartialEq, Eq, Structural)]
pub enum ChangePhase {
    CheckBeforeRead,
    ReadLayout,
    FindLayout,
    CheckBeforeRequest { layout: usize },
    RequestLayout,
    CheckWhileWaiting,
    PollWhileWaiting,
    SleepWhileWaiting,
    ImeQuery,
    CheckBeforeImeSet,
    SetIme,
    CheckBeforeImeRead,
    ReadIme,
    CheckBeforeToggle,
    Toggle,
    CheckWhileToggling,
    PollWhileToggling,
    SleepWhileToggling,
    Verify,
    Done,
}

/// A change of the target's input language towards `desired`.
#[derive(Debug, Clone, Copy, PartialEq, Eq, Structural)]
pub struct LanguageChange {
    pub desired: InputLanguage,
    pub phase: ChangePhase,
    /// Whether the language is read back once more after the Korean input
    /// method is in the desired state (after a layout switch).
    pub verify_after_ime: bool,
}

/// Whether an event answers the action asked for in `phase`.
pub open spec fn fits(phase: ChangePhase, event: ChangeEvent) -> bool {
    match phase {
        ChangePhase::CheckBeforeRead | ChangePhase::CheckBeforeRequest { .. }
        | ChangePhase::CheckWhileWaiting | ChangePhase::CheckBeforeImeSet
        | ChangePhase::CheckBeforeImeRead | ChangePhase::CheckBeforeToggle
        | ChangePhase::CheckWhileToggling => event is TargetChecked,
        ChangePhase::ReadLayout => event is PrimaryRead,
        ChangePhase::FindLayout => event is LayoutFound,
        ChangePhase::RequestLayout => event is LayoutRequested,
        ChangePhase::PollWhileWaiting => event is LayoutPolled,
        ChangePhase::SleepWhileWaiting | ChangePhase::SleepWhileToggling => event is Slept,
        ChangePhase::ImeQuery | ChangePhase::Verify => event is LanguageRead,
        ChangePhase::SetIme => event is ImeOpenSet,
        ChangePhase::ReadIme => event is ImeOpenRead,
        ChangePhase::Toggle => event is ToggleSent,
        ChangePhase::PollWhileToggling => event is LanguagePolled,
        ChangePhase::Done => false,
    }
}

/// The language a Korean input method types with the given open status.
pub open spec fn language_of_ime_open(open: bool) -> InputLanguage {
    if open {
        InputLanguage::Korean
    } else {
        InputLanguage::English
    }
}

/// The change that has just begun: it first checks the target.
pub open spec fn spec_start(desired: InputLanguage) -> (LanguageChange, ChangeAction) {
    (
        LanguageChange { desired, phase: ChangePhase::CheckBeforeRead, verify_after_ime: false },
        ChangeAction::CheckTarget,
    )
}

impl LanguageChange {
    /// Asks for `action`, waiting in `phase`.
    pub open spec fn asking(self, phase: ChangePhase, action: ChangeAction) -> (
        LanguageChange,
        ChangeStep,
    ) {
        (LanguageChange { phase, ..self }, ChangeStep::Perform(action))
    }

    /// Ends the change with `result`.
    pub open spec fn finishing(self, result: Result<(), InputLanguageError>) -> (
        LanguageChange,
        ChangeStep,
    ) {
        (LanguageChange { phase: ChangePhase::Done, ..self }, ChangeStep::Finished(result))
    }

    /// The Korean input method is in the desired state: read the language
    /// back once more after a layout switch, else report success.
    pub open spec fn ime_settled(self) -> (LanguageChange, ChangeStep) {
        if self.verify_after_ime {
            self.asking(ChangePhase::Verify, ChangeAction::ReadLanguage)
        } else {
            self.finishing(Ok(()))
        }
    }

    /// Starts the Korean input method part, reading the language first.
    pub open spec fn querying_ime(self, verify_after_ime: bool) -> (LanguageChange, ChangeStep) {
        (
            LanguageChange { phase: ChangePhase::ImeQuery, verify_after_ime, ..self },
            ChangeStep::Perform(ChangeAction::ReadLanguage),
        )
    }

    /// The fallback: check the target, then press the Hangul/English key.
    pub open spec fn falling_back(self) -> (LanguageChange, ChangeStep) {
        self.asking(ChangePhase::CheckBeforeToggle, ChangeAction::CheckTarget)
    }

    /// The machine's answer to an event, and its state afterwards.
    pub open spec fn next(self, event: ChangeEvent) -> (LanguageChange, ChangeStep)
        recommends
            fits(self.phase, event),
    {
        let desired = self.desired;
        match (self.phase, event) {
            (ChangePhase::CheckBeforeRead, ChangeEvent::TargetChecked(current)) => if current {
                self.asking(ChangePhase::ReadLayout, ChangeAction::ReadPrimary)
            } else {
                self.finishing(Err(InputLanguageError::TargetChanged))
            },
            (ChangePhase::ReadLayout, ChangeEvent::PrimaryRead(primary)) => if primary
                == PRIMARY_LANGUAGE_KOREAN {
                self.querying_ime(false)
            } else {
                self.asking(
                    ChangePhase::FindLayout,
                    ChangeAction::FindLayout { primary: spec_desired_primary(desired) },
                )
            },
            (ChangePhase::FindLayout, ChangeEvent::LayoutFound(found)) => match found {
                Some(layout) => self.asking(
                    ChangePhase::CheckBeforeRequest { layout },
                    ChangeAction::CheckTarget,
                ),
                None => self.finishing(Err(InputLanguageError::LayoutUnavailable)),
            },
            (ChangePhase::CheckBeforeRequest { layout }, ChangeEvent::TargetChecked(current)) => if current {
                self.asking(ChangePhase::RequestLayout, ChangeAction::RequestLayout { layout })
            } else {
                self.finishing(Err(InputLanguageError::TargetChanged))
            },
            (ChangePhase::RequestLayout, ChangeEvent::LayoutRequested(posted)) => if posted {
                self.asking(ChangePhase::CheckWhileWaiting, ChangeAction::CheckTarget)
            } else {
                self.finishing(Err(InputLanguageError::ChangeRejected))
            },
            (ChangePhase::CheckWhileWaiting, ChangeEvent::TargetChecked(current)) => if current {
                self.asking(ChangePhase::PollWhileWaiting, ChangeAction::PollLayout)
            } else {
                self.finishing(Err(InputLanguageError::TargetChanged))
            },
            (
                ChangePhase::PollWhileWaiting,
                ChangeEvent::LayoutPolled { primary, deadline_passed },
            ) => if primary == spec_desired_primary(desired) {
                if desired == InputLanguage::Korean {
                    self.querying_ime(true)
                } else {
                    self.asking(ChangePhase::Verify, ChangeAction::ReadLanguage)
                }
            } else if deadline_passed {
                self.finishing(Err(InputLanguageError::ChangeTimedOut))
            } else {
                self.asking(ChangePhase::SleepWhileWaiting, ChangeAction::Sleep)
            },
            (ChangePhase::SleepWhileWaiting, ChangeEvent::Slept) => self.asking(
                ChangePhase::CheckWhileWaiting,
                ChangeAction::CheckTarget,
            ),
            (ChangePhase::ImeQuery, ChangeEvent::LanguageRead(read)) => match read {
                Ok(language) => if language == desired {
                    self.ime_settled()
                } else {
                    self.asking(ChangePhase::CheckBeforeImeSet, ChangeAction::CheckTarget)
                },
                Err(error) => self.finishing(Err(error)),
            },
            (ChangePhase::CheckBeforeImeSet, ChangeEvent::TargetChecked(current)) => if current {
                self.asking(
                    ChangePhase::SetIme,
                    ChangeAction::SetImeOpen { open: desired == InputLanguage::Korean },
                )
            } else {
                self.falling_back()
            },
            (ChangePhase::SetIme, ChangeEvent::ImeOpenSet(set)) => match set {
                Ok(()) => self.asking(ChangePhase::CheckBeforeImeRead, ChangeAction::CheckTarget),
                Err(_) => self.falling_back(),
            },
            (ChangePhase::CheckBeforeImeRead, ChangeEvent::TargetChecked(current)) => if current {
                self.asking(ChangePhase::ReadIme, ChangeAction::ReadImeOpen)
            } else {
                self.falling_back()
            },
            (ChangePhase::ReadIme, ChangeEvent::ImeOpenRead(open)) => if language_of_ime_open(open)
                == desired {
                self.ime_settled()
            } else {
                self.falling_back()
            },
            (ChangePhase::CheckBeforeToggle, ChangeEvent::TargetChecked(current)) => if current {
                self.asking(ChangePhase::Toggle, ChangeAction::SendHangulToggle)
            } else {
                self.finishing(Err(InputLanguageError::TargetChanged))
            },
            (ChangePhase::Toggle, ChangeEvent::ToggleSent(sent)) => if sent {
                self.asking(ChangePhase::CheckWhileToggling, ChangeAction::CheckTarget)
            } else {
                self.finishing(Err(InputLanguageError::ChangeRejected))
            },
            (ChangePhase::CheckWhileToggling, ChangeEvent::TargetChecked(current)) => if current {
                self.asking(ChangePhase::PollWhileToggling, ChangeAction::PollLanguage)
            } else {
                self.finishing(Err(InputLanguageError::TargetChanged))
            },
            (
                ChangePhase::PollWhileToggling,
                ChangeEvent::LanguagePolled { language, deadline_passed },
            ) => match language {
                Ok(language) => if language == desired {
                    self.ime_settled()
                } else if deadline_passed {
                    self.finishing(Err(InputLanguageError::ChangeTimedOut))
                } else {
                    self.asking(ChangePhase::SleepWhileToggling, ChangeAction::Sleep)
                },
                Err(error) => self.finishing(Err(error)),
            },
            (ChangePhase::SleepWhileToggling, ChangeEvent::Slept) => self.asking(
                ChangePhase::CheckWhileToggling,
                ChangeAction::CheckTarget,
            ),
            (ChangePhase::Verify, ChangeEvent::LanguageRead(read)) => self.finishing(
                match read {
                    Ok(language) => if language == desired {
                        Ok(())
                    } else {
                        Err(InputLanguageError::ChangeRejected)
                    },
                    Err(error) => Err(error),
                },
            ),
            _ => (self, ChangeStep::Finished(Err(InputLanguageError::QueryFailed))),
        }
    }

    /// Begins a change towards `desired`.
    pub fn start(desired: InputLanguage) -> (r: (LanguageChange, ChangeAction))
        ensures
            r == spec_start(desired),
    {
        (
            LanguageChange { desired, phase: ChangePhase::CheckBeforeRead, verify_after_ime: false },
            ChangeAction::CheckTarget,
        )
    }

    /// Whether `event` answers the action the machine asked for.
    pub fn expects(&self, event: &ChangeEvent) -> (r: bool)
        ensures
            r == fits(self.phase, *event),
    {
        match self.phase {
            ChangePhase::CheckBeforeRead | ChangePhase::CheckBeforeRequest { .. }
            | ChangePhase::CheckWhileWaiting | ChangePhase::CheckBeforeImeSet
            | ChangePhase::CheckBeforeImeRead | ChangePhase::CheckBeforeToggle
            | ChangePhase::CheckWhileToggling => matches!(event, ChangeEvent::TargetChecked(_)),
            ChangePhase::ReadLayout => matches!(event, ChangeEvent::PrimaryRead(_)),
            ChangePhase::FindLayout => matches!(event, ChangeEvent::LayoutFound(_)),
            ChangePhase::RequestLayout => matches!(event, ChangeEvent::LayoutRequested(_)),
            ChangePhase::PollWhileWaiting => matches!(event, ChangeEvent::LayoutPolled { .. }),
            ChangePhase::SleepWhileWaiting | ChangePhase::SleepWhileToggling => matches!(
                event,
                ChangeEvent::Slept
            ),
            ChangePhase::ImeQuery | ChangePhase::Verify => matches!(
                event,
                ChangeEvent::LanguageRead(_)
            ),
            ChangePhase::SetIme => matches!(event, ChangeEvent::ImeOpenSet(_)),
            ChangePhase::ReadIme => matches!(event, ChangeEvent::ImeOpenRead(_)),
            ChangePhase::Toggle => matches!(event, ChangeEvent::ToggleSent(_)),
            ChangePhase::PollWhileToggling => matches!(event, ChangeEvent::LanguagePolled { .. }),
            ChangePhase::Done => false,
        }
    }

    fn ask(&mut self, phase: ChangePhase, action: ChangeAction) -> (r: ChangeStep)
        ensures
            (*final(self), r) == old(self).asking(phase, action),
    {
        self.phase = phase;
        ChangeStep::Perform(action)
    }

    fn finish(&mut self, result: Result<(), InputLanguageError>) -> (r: ChangeStep)
        ensures
            (*final(self), r) == old(self).finishing(result),
    {
        self.phase = ChangePhase::Done;
        ChangeStep::Finished(result)
    }

    fn settle_ime(&mut self) -> (r: ChangeStep)
        ensures
            (*final(self), r) == old(self).ime_settled(),
    {
        if self.verify_after_ime {
            self.ask(ChangePhase::Verify, ChangeAction::ReadLanguage)
        } else {
            self.finish(Ok(()))
        }
    }

    fn query_ime(&mut self, verify_after_ime: bool) -> (r: ChangeStep)
        ensures
            (*final(self), r) == old(self).querying_ime(verify_after_ime),
    {
        self.verify_after_ime = verify_after_ime;
        self.ask(ChangePhase::ImeQuery, ChangeAction::ReadLanguage)
    }

    /// Answers one event; see [`Self::next`].
    pub fn step(&mut self, event: ChangeEvent) -> (r: ChangeStep)
        requires
            fits(old(self).phase, event),
        ensures
            (*final(self), r) == old(self).next(event),
    {
        let desired = self.desired;
        match (self.phase, event) {
            (ChangePhase::CheckBeforeRead, ChangeEvent::TargetChecked(current)) => if current {
                self.ask(ChangePhase::ReadLayout, ChangeAction::ReadPrimary)
            } else {
                self.finish(Err(InputLanguageError::TargetChanged))
            },
            (ChangePhase::ReadLayout, ChangeEvent::PrimaryRead(primary)) => if primary
                == PRIMARY_LANGUAGE_KOREAN {
                self.query_ime(false)
            } else {
                let primary = desired_primary(desired);
                self.ask(ChangePhase::FindLayout, ChangeAction::FindLayout { primary })
            },
            (ChangePhase::FindLayout, ChangeEvent::LayoutFound(found)) => match found {
                Some(layout) => self.ask(
                    ChangePhase::CheckBeforeRequest { layout },
                    ChangeAction::CheckTarget,
                ),
                None => self.finish(Err(InputLanguageError::LayoutUnavailable)),
            },
            (ChangePhase::CheckBeforeRequest { layout }, ChangeEvent::TargetChecked(current)) => if current {
                self.ask(ChangePhase::RequestLayout, ChangeAction::RequestLayout { layout })
            } else {
                self.finish(Err(InputLanguageError::TargetChanged))
            },
            (ChangePhase::RequestLayout, ChangeEvent::LayoutRequested(posted)) => if posted {
                self.ask(ChangePhase::CheckWhileWaiting, ChangeAction::CheckTarget)
            } else {
                self.finish(Err(InputLanguageError::ChangeRejected))
            },
            (ChangePhase::CheckWhileWaiting, ChangeEvent::TargetChecked(current)) => if current {
                self.ask(ChangePhase::PollWhileWaiting, ChangeAction::PollLayout)
            } else {
                self.finish(Err(InputLanguageError::TargetChanged))
            },
            (
                ChangePhase::PollWhileWaiting,
                ChangeEvent::LayoutPolled { primary, deadline_passed },
            ) => match layout_wait(primary, desired_primary(desired), deadline_passed) {
                LayoutWait::Applied => if desired == InputLanguage::Korean {
                    self.query_ime(true)
                } else {
                    self.ask(ChangePhase::Verify, ChangeAction::ReadLanguage)
                },
                LayoutWait::TimedOut => self.finish(Err(InputLanguageError::ChangeTimedOut)),
                LayoutWait::KeepWaiting => self.ask(ChangePhase::SleepWhileWaiting, ChangeAction::Sleep),
            },
            (ChangePhase::SleepWhileWaiting, ChangeEvent::Slept) => self.ask(
                ChangePhase::CheckWhileWaiting,
                ChangeAction::CheckTarget,
            ),
            (ChangePhase::ImeQuery, ChangeEvent::LanguageRead(read)) => match read {
                Ok(language) => if language == desired {
                    self.settle_ime()
                } else {
                    self.ask(ChangePhase::CheckBeforeImeSet, ChangeAction::CheckTarget)
                },
                Err(error) => self.finish(Err(error)),
            },
            (ChangePhase::CheckBeforeImeSet, ChangeEvent::TargetChecked(current)) => if current {
                let open = desired_ime_open(desired);
                self.ask(ChangePhase::SetIme, ChangeAction::SetImeOpen { open })
            } else {
                self.ask(ChangePhase::CheckBeforeToggle, ChangeAction::CheckTarget)
            },
            (ChangePhase::SetIme, ChangeEvent::ImeOpenSet(set)) => match set {
                Ok(()) => self.ask(ChangePhase::CheckBeforeImeRead, ChangeAction::CheckTarget),
                Err(_) => self.ask(ChangePhase::CheckBeforeToggle, ChangeAction::CheckTarget),
            },
            (ChangePhase::CheckBeforeImeRead, ChangeEvent::TargetChecked(current)) => if current {
                self.ask(ChangePhase::ReadIme, ChangeAction::ReadImeOpen)
            } else {
                self.ask(ChangePhase::CheckBeforeToggle, ChangeAction::CheckTarget)
            },
            (ChangePhase::ReadIme, ChangeEvent::ImeOpenRead(open)) => {
                let applied = if open {
                    InputLanguage::Korean
                } else {
                    InputLanguage::English
                };
                if applied == desired {
                    self.settle_ime()
                } else {
                    self.ask(ChangePhase::CheckBeforeToggle, ChangeAction::CheckTarget)
                }
            },
            (ChangePhase::CheckBeforeToggle, ChangeEvent::TargetChecked(current)) => if current {
                self.ask(ChangePhase::Toggle, ChangeAction::SendHangulToggle)
            } else {
                self.finish(Err(InputLanguageError::TargetChanged))
            },
            (ChangePhase::Toggle, ChangeEvent::ToggleSent(sent)) => if sent {
                self.ask(ChangePhase::CheckWhileToggling, ChangeAction::CheckTarget)
            } else {
                self.finish(Err(InputLanguageError::ChangeRejected))
            },
            (ChangePhase::CheckWhileToggling, ChangeEvent::TargetChecked(current)) => if current {
                self.ask(ChangePhase::PollWhileToggling, ChangeAction::PollLanguage)
            } else {
                self.finish(Err(InputLanguageError::TargetChanged))
            },
            (
                ChangePhase::PollWhileToggling,
                ChangeEvent::LanguagePolled { language, deadline_passed },
            ) => match language {
                Ok(language) => if language == desired {
                    self.settle_ime()
                } else if deadline_passed {
                    self.finish(Err(InputLanguageError::ChangeTimedOut))
                } else {
                    self.ask(ChangePhase::SleepWhileToggling, ChangeAction::Sleep)
                },
                Err(error) => self.finish(Err(error)),
            },
            (ChangePhase::SleepWhileToggling, ChangeEvent::Slept) => self.ask(
                ChangePhase::CheckWhileToggling,
                ChangeAction::CheckTarget,
            ),
            (ChangePhase::Verify, ChangeEvent::LanguageRead(read)) => {
                let result = verify_language(read, desired);
                self.finish(result)
            },
            _ => vstd::pervasive::unreached(),
        }
    }
}

} // verus!
