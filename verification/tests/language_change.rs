use hanyeongkey::input_language::change::{
    ChangeAction, ChangeEvent, ChangeStep, LanguageChange,
};
use hanyeongkey::input_language::{
    InputLanguage, InputLanguageError, PRIMARY_LANGUAGE_ENGLISH, PRIMARY_LANGUAGE_KOREAN,
};

/// A pretend window system with one target.
struct FakeSystem {
    /// Answers to successive target checks; `true` once they run out.
    target_checks: Vec<bool>,
    primary: u16,
    installed: Vec<(usize, u16)>,
    ime_open: bool,
    ime_setter_works: bool,
    toggle_works: bool,
    polls_until_timeout: usize,
    polls: usize,
}

impl FakeSystem {
    fn language(&self) -> Result<InputLanguage, InputLanguageError> {
        match self.primary {
            PRIMARY_LANGUAGE_KOREAN => Ok(if self.ime_open {
                InputLanguage::Korean
            } else {
                InputLanguage::English
            }),
            PRIMARY_LANGUAGE_ENGLISH => Ok(InputLanguage::English),
            _ => Err(InputLanguageError::QueryFailed),
        }
    }

    fn answer(&mut self, action: ChangeAction) -> ChangeEvent {
        match action {
            ChangeAction::CheckTarget => {
                let current = if self.target_checks.is_empty() {
                    true
                } else {
                    self.target_checks.remove(0)
                };
                ChangeEvent::TargetChecked(current)
            }
            ChangeAction::ReadPrimary => ChangeEvent::PrimaryRead(self.primary),
            ChangeAction::FindLayout { primary } => ChangeEvent::LayoutFound(
                self.installed
                    .iter()
                    .find(|(_, p)| *p == primary)
                    .map(|(layout, _)| *layout),
            ),
            ChangeAction::RequestLayout { layout } => {
                self.primary = self
                    .installed
                    .iter()
                    .find(|(l, _)| *l == layout)
                    .map(|(_, p)| *p)
                    .unwrap();
                self.polls = 0;
                ChangeEvent::LayoutRequested(true)
            }
            ChangeAction::PollLayout => {
                self.polls += 1;
                ChangeEvent::LayoutPolled {
                    primary: self.primary,
                    deadline_passed: self.polls >= self.polls_until_timeout,
                }
            }
            ChangeAction::Sleep => ChangeEvent::Slept,
            ChangeAction::ReadLanguage => ChangeEvent::LanguageRead(self.language()),
            ChangeAction::SetImeOpen { open } => {
                if self.ime_setter_works {
                    self.ime_open = open;
                }
                ChangeEvent::ImeOpenSet(Ok(()))
            }
            ChangeAction::ReadImeOpen => ChangeEvent::ImeOpenRead(self.ime_open),
            ChangeAction::SendHangulToggle => {
                if self.toggle_works {
                    self.ime_open = !self.ime_open;
                }
                self.polls = 0;
                ChangeEvent::ToggleSent(true)
            }
            ChangeAction::PollLanguage => {
                self.polls += 1;
                ChangeEvent::LanguagePolled {
                    language: self.language(),
                    deadline_passed: self.polls >= self.polls_until_timeout,
                }
            }
        }
    }
}

fn drive(
    system: &mut FakeSystem,
    desired: InputLanguage,
) -> (Result<(), InputLanguageError>, Vec<ChangeAction>) {
    let (mut change, mut action) = LanguageChange::start(desired);
    let mut actions = vec![action];
    loop {
        let event = system.answer(action);
        assert!(change.expects(&event));
        match change.step(event) {
            ChangeStep::Perform(next) => {
                action = next;
                actions.push(next);
            }
            ChangeStep::Finished(result) => return (result, actions),
        }
    }
}

fn korean_layout(ime_open: bool) -> FakeSystem {
    FakeSystem {
        target_checks: vec![],
        primary: PRIMARY_LANGUAGE_KOREAN,
        installed: vec![(0x0409_0409, PRIMARY_LANGUAGE_ENGLISH), (0x0412_0412, PRIMARY_LANGUAGE_KOREAN)],
        ime_open,
        ime_setter_works: true,
        toggle_works: true,
        polls_until_timeout: 30,
        polls: 0,
    }
}

fn toggles(actions: &[ChangeAction]) -> usize {
    actions
        .iter()
        .filter(|action| **action == ChangeAction::SendHangulToggle)
        .count()
}

#[test]
fn opens_the_korean_input_method_directly_when_it_listens() {
    let mut system = korean_layout(false);
    let (result, actions) = drive(&mut system, InputLanguage::Korean);
    assert_eq!(result, Ok(()));
    assert_eq!(
        actions,
        vec![
            ChangeAction::CheckTarget,
            ChangeAction::ReadPrimary,
            ChangeAction::ReadLanguage,
            ChangeAction::CheckTarget,
            ChangeAction::SetImeOpen { open: true },
            ChangeAction::CheckTarget,
            ChangeAction::ReadImeOpen,
        ]
    );
    assert!(system.ime_open);
}

#[test]
fn falls_back_to_one_marked_toggle_when_the_setter_is_ignored() {
    let mut system = korean_layout(true);
    system.ime_setter_works = false;
    let (result, actions) = drive(&mut system, InputLanguage::English);
    assert_eq!(result, Ok(()));
    assert_eq!(toggles(&actions), 1);
    assert_eq!(
        &actions[actions.len() - 4..],
        &[
            ChangeAction::CheckTarget,
            ChangeAction::SendHangulToggle,
            ChangeAction::CheckTarget,
            ChangeAction::PollLanguage,
        ]
    );
    assert!(!system.ime_open);
}

#[test]
fn switches_the_layout_then_checks_the_input_method_and_verifies() {
    let mut system = korean_layout(true);
    system.primary = PRIMARY_LANGUAGE_ENGLISH;
    let (result, actions) = drive(&mut system, InputLanguage::Korean);
    assert_eq!(result, Ok(()));
    assert_eq!(
        actions,
        vec![
            ChangeAction::CheckTarget,
            ChangeAction::ReadPrimary,
            ChangeAction::FindLayout { primary: PRIMARY_LANGUAGE_KOREAN },
            ChangeAction::CheckTarget,
            ChangeAction::RequestLayout { layout: 0x0412_0412 },
            ChangeAction::CheckTarget,
            ChangeAction::PollLayout,
            ChangeAction::ReadLanguage,
            ChangeAction::ReadLanguage,
        ]
    );
}

#[test]
fn switching_to_english_verifies_the_language_once() {
    let mut system = korean_layout(true);
    system.installed = vec![(0x0409_0409, PRIMARY_LANGUAGE_ENGLISH)];
    system.primary = 0x11;
    let (result, actions) = drive(&mut system, InputLanguage::English);
    assert_eq!(result, Ok(()));
    assert_eq!(actions.last(), Some(&ChangeAction::ReadLanguage));
    assert_eq!(system.primary, PRIMARY_LANGUAGE_ENGLISH);
}

#[test]
fn a_missing_layout_is_reported() {
    let mut system = korean_layout(false);
    system.primary = PRIMARY_LANGUAGE_ENGLISH;
    system.installed = vec![(0x0409_0409, PRIMARY_LANGUAGE_ENGLISH)];
    let (result, actions) = drive(&mut system, InputLanguage::Korean);
    assert_eq!(result, Err(InputLanguageError::LayoutUnavailable));
    assert!(!actions
        .iter()
        .any(|action| matches!(action, ChangeAction::RequestLayout { .. })));
}

#[test]
fn a_target_that_changes_before_the_toggle_gets_no_key_press() {
    let mut system = korean_layout(false);
    system.ime_setter_works = false;
    // the first check, the two around the direct setter, then the one before the toggle
    system.target_checks = vec![true, true, true, false];
    let (result, actions) = drive(&mut system, InputLanguage::Korean);
    assert_eq!(result, Err(InputLanguageError::TargetChanged));
    assert_eq!(toggles(&actions), 0);
}

#[test]
fn a_target_that_changes_first_is_left_alone() {
    let mut system = korean_layout(false);
    system.target_checks = vec![false];
    let (result, actions) = drive(&mut system, InputLanguage::Korean);
    assert_eq!(result, Err(InputLanguageError::TargetChanged));
    assert_eq!(actions, vec![ChangeAction::CheckTarget]);
}

#[test]
fn a_toggle_that_never_applies_times_out_after_one_press() {
    let mut system = korean_layout(false);
    system.ime_setter_works = false;
    system.toggle_works = false;
    system.polls_until_timeout = 3;
    let (result, actions) = drive(&mut system, InputLanguage::Korean);
    assert_eq!(result, Err(InputLanguageError::ChangeTimedOut));
    assert_eq!(toggles(&actions), 1);
}

#[test]
fn an_already_open_input_method_needs_no_change() {
    let mut system = korean_layout(true);
    let (result, actions) = drive(&mut system, InputLanguage::Korean);
    assert_eq!(result, Ok(()));
    assert_eq!(
        actions,
        vec![
            ChangeAction::CheckTarget,
            ChangeAction::ReadPrimary,
            ChangeAction::ReadLanguage,
        ]
    );
}
