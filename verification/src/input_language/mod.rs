//! Decisions of input-language synchronization for a captured target.
//!
//! The window-system queries and changes are made by the caller; this module
//! decides, from their results, what to do next and what to report.

pub mod change;
pub mod laws;

use vstd::prelude::*;

verus! {

/// Primary language identifier of English keyboard layouts.
pub const PRIMARY_LANGUAGE_ENGLISH: u16 = 0x09;
/// Primary language identifier of Korean keyboard layouts.
pub const PRIMARY_LANGUAGE_KOREAN: u16 = 0x12;

/// The input mode of the target.
#[derive(Debug, Clone, Copy, PartialEq, Eq, Structural)]
pub enum InputLanguage {
    English,
    Korean,
}

/// What an input-language synchronization did.
#[derive(Debug, Clone, Copy, PartialEq, Eq, Structural)]
pub enum EnsureInputLanguageResult {
    AlreadySet,
    Changed,
}

/// Why an input-language synchronization failed.
#[derive(Debug, Clone, Copy, PartialEq, Eq, Structural)]
pub enum InputLanguageError {
    TargetChanged,
    ContextUnavailable,
    QueryFailed,
    LayoutUnavailable,
    ChangeRejected,
    ChangeTimedOut,
}

impl InputLanguageError {
    /// The sentence that describes each error.
    pub open spec fn spec_message(self) -> Seq<char> {
        match self {
            InputLanguageError::TargetChanged => "the captured input target is no longer active"@,
            InputLanguageError::ContextUnavailable => "the target input context is unavailable"@,
            InputLanguageError::QueryFailed => "the target input language could not be queried"@,
            InputLanguageError::LayoutUnavailable => "the requested keyboard layout is not installed"@,
            InputLanguageError::ChangeRejected => "the target rejected the input-language change"@,
            InputLanguageError::ChangeTimedOut => "the target did not apply the input-language change in time"@,
        }
    }

    /// A sentence that describes the error; see [`Self::spec_message`].
    pub fn message(self) -> (r: &'static str)
        ensures
            r@ == self.spec_message(),
    {
        match self {
            InputLanguageError::TargetChanged => "the captured input target is no longer active",
            InputLanguageError::ContextUnavailable => "the target input context is unavailable",
            InputLanguageError::QueryFailed => "the target input language could not be queried",
            InputLanguageError::LayoutUnavailable => "the requested keyboard layout is not installed",
            InputLanguageError::ChangeRejected => "the target rejected the input-language change",
            InputLanguageError::ChangeTimedOut => "the target did not apply the input-language change in time",
        }
    }
}

/// `Ok` while the captured target is still current, `TargetChanged` otherwise.
pub fn ensure_target(is_current: bool) -> (r: Result<(), InputLanguageError>)
    ensures
        r == if is_current {
            Ok::<(), InputLanguageError>(())
        } else {
            Err(InputLanguageError::TargetChanged)
        },
{
    if is_current {
        Ok(())
    } else {
        Err(InputLanguageError::TargetChanged)
    }
}

/// The primary language of a keyboard layout handle: the low ten bits of its
/// low word.
pub fn primary_language(layout: usize) -> (r: u16)
    ensures
        r == layout % 1024,
{
    let low: u16 = layout as u16;
    let r: u16 = low & 0x03ff;
    assert(r == layout % 1024) by (bit_vector)
        requires
            low == layout as u16,
            r == low & 0x03ff,
    ;
    r
}

/// The primary language of the layouts that type the given input language.
pub open spec fn spec_desired_primary(desired: InputLanguage) -> u16 {
    match desired {
        InputLanguage::English => PRIMARY_LANGUAGE_ENGLISH,
        InputLanguage::Korean => PRIMARY_LANGUAGE_KOREAN,
    }
}

/// Executable form of [`spec_desired_primary`].
pub fn desired_primary(desired: InputLanguage) -> (r: u16)
    ensures
        r == spec_desired_primary(desired),
{
    match desired {
        InputLanguage::English => PRIMARY_LANGUAGE_ENGLISH,
        InputLanguage::Korean => PRIMARY_LANGUAGE_KOREAN,
    }
}

/// The first of the first `copied` installed layouts whose primary language
/// is `primary`.
pub fn find_installed_layout(layouts: &Vec<usize>, copied: i32, primary: u16) -> (r: Option<usize>)
    ensures
        ({
            let n: int = if copied < 0 {
                0
            } else if copied > layouts.len() {
                layouts.len() as int
            } else {
                copied as int
            };
            match r {
                Some(layout) => exists|i: int|
                    0 <= i < n && layouts@[i] == layout && layout % 1024 == primary && forall|j: int|
                        0 <= j < i ==> #[trigger] (layouts@[j] % 1024) != primary,
                None => forall|j: int| 0 <= j < n ==> #[trigger] (layouts@[j] % 1024) != primary,
            }
        }),
{
    let limit: usize = if copied < 0 {
        0
    } else if copied as usize > layouts.len() {
        layouts.len()
    } else {
        copied as usize
    };
    let mut index: usize = 0;
    while index < limit
        invariant
            limit <= layouts.len(),
            limit == if copied < 0 {
                0
            } else if copied > layouts.len() {
                layouts.len() as int
            } else {
                copied as int
            },
            index <= limit,
            forall|j: int| 0 <= j < index ==> #[trigger] (layouts@[j] % 1024) != primary,
        decreases limit - index,
    {
        if primary_language(layouts[index]) == primary {
            return Some(layouts[index]);
        }
        index = index + 1;
    }
    None
}

/// Korean layouts type Hangul while their input method is open.
pub fn language_from_korean_ime_open(open: bool) -> (r: InputLanguage)
    ensures
        r == if open {
            InputLanguage::Korean
        } else {
            InputLanguage::English
        },
{
    if open {
        InputLanguage::Korean
    } else {
        InputLanguage::English
    }
}

/// The open status of a Korean input method that types the given language.
pub fn desired_ime_open(desired: InputLanguage) -> (r: bool)
    ensures
        r == (desired == InputLanguage::Korean),
{
    desired == InputLanguage::Korean
}

/// How the input language of a target is read, given the primary language of
/// its layout.
#[derive(Debug, Clone, Copy, PartialEq, Eq)]
pub enum LanguageQuery {
    /// The layout is Korean: the answer is the open status of its input method.
    ReadImeOpenStatus,
    /// The layout alone answers.
    Answer(Result<InputLanguage, InputLanguageError>),
}

/// How to read the input language of a target whose layout has the given
/// primary language.
pub fn language_query(primary: u16) -> (r: LanguageQuery)
    ensures
        primary == PRIMARY_LANGUAGE_KOREAN ==> r == LanguageQuery::ReadImeOpenStatus,
        primary == PRIMARY_LANGUAGE_ENGLISH ==> r == LanguageQuery::Answer(
            Ok(InputLanguage::English),
        ),
        primary != PRIMARY_LANGUAGE_KOREAN && primary != PRIMARY_LANGUAGE_ENGLISH ==> r
            == LanguageQuery::Answer(Err(InputLanguageError::QueryFailed)),
{
    if primary == PRIMARY_LANGUAGE_KOREAN {
        LanguageQuery::ReadImeOpenStatus
    } else if primary == PRIMARY_LANGUAGE_ENGLISH {
        LanguageQuery::Answer(Ok(InputLanguage::English))
    } else {
        LanguageQuery::Answer(Err(InputLanguageError::QueryFailed))
    }
}

/// `Ok` when the language read back is the desired one; a failed read is
/// passed on, any other language is a rejected change.
pub fn verify_language(
    current: Result<InputLanguage, InputLanguageError>,
    desired: InputLanguage,
) -> (r: Result<(), InputLanguageError>)
    ensures
        r == match current {
            Ok(language) => if language == desired {
                Ok::<(), InputLanguageError>(())
            } else {
                Err(InputLanguageError::ChangeRejected)
            },
            Err(error) => Err(error),
        },
{
    match current {
        Ok(language) => if language == desired {
            Ok(())
        } else {
            Err(InputLanguageError::ChangeRejected)
        },
        Err(error) => Err(error),
    }
}

/// The next move of a synchronization once the current language is read.
#[derive(Debug, Clone, Copy, PartialEq, Eq)]
pub enum EnsureStep {
    /// Nothing more to do: report this.
    Finish(Result<EnsureInputLanguageResult, InputLanguageError>),
    /// Ask the window system for the desired language.
    Change,
}

/// Decides, from the language read from the target, whether it must change.
pub fn ensure_after_query(
    current: Result<InputLanguage, InputLanguageError>,
    desired: InputLanguage,
) -> (r: EnsureStep)
    ensures
        r == match current {
            Ok(language) => if language == desired {
                EnsureStep::Finish(Ok(EnsureInputLanguageResult::AlreadySet))
            } else {
                EnsureStep::Change
            },
            Err(error) => EnsureStep::Finish(Err(error)),
        },
{
    match current {
        Ok(language) => if language == desired {
            EnsureStep::Finish(Ok(EnsureInputLanguageResult::AlreadySet))
        } else {
            EnsureStep::Change
        },
        Err(error) => EnsureStep::Finish(Err(error)),
    }
}

/// The report of a synchronization that asked for a change.
pub fn ensure_after_change(changed: Result<(), InputLanguageError>) -> (r: Result<
    EnsureInputLanguageResult,
    InputLanguageError,
>)
    ensures
        r == match changed {
            Ok(()) => Ok::<EnsureInputLanguageResult, InputLanguageError>(
                EnsureInputLanguageResult::Changed,
            ),
            Err(error) => Err(error),
        },
{
    match changed {
        Ok(()) => Ok(EnsureInputLanguageResult::Changed),
        Err(error) => Err(error),
    }
}

/// What to do while waiting for a requested layout to apply.
#[derive(Debug, Clone, Copy, PartialEq, Eq, Structural)]
pub enum LayoutWait {
    Applied,
    KeepWaiting,
    TimedOut,
}

/// Decides, after reading the target's layout again, whether the change has
/// applied, has timed out, or needs another look.
pub fn layout_wait(applied_primary: u16, desired_primary: u16, deadline_passed: bool) -> (r:
    LayoutWait)
    ensures
        applied_primary == desired_primary ==> r == LayoutWait::Applied,
        applied_primary != desired_primary && deadline_passed ==> r == LayoutWait::TimedOut,
        applied_primary != desired_primary && !deadline_passed ==> r == LayoutWait::KeepWaiting,
{
    if applied_primary == desired_primary {
        LayoutWait::Applied
    } else if deadline_passed {
        LayoutWait::TimedOut
    } else {
        LayoutWait::KeepWaiting
    }
}

} // verus!
