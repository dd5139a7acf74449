//! Decisions of the global keyboard hook: which key events start a
//! conversion, which are swallowed, and when the original Hangul/English key
//! is replayed.

use vstd::prelude::*;

use crate::input::{SYNTHETIC_INPUT_MARKER, VK_HANGUL};

verus! {

/// Hook code of an event that the hook should process.
pub const HC_ACTION: i32 = 0;
/// Message of a key press.
pub const WM_KEYDOWN: u32 = 0x0100;
/// Message of a key release.
pub const WM_KEYUP: u32 = 0x0101;
/// Message of a key press while Alt is held.
pub const WM_SYSKEYDOWN: u32 = 0x0104;
/// Message of a key release while Alt is held.
pub const WM_SYSKEYUP: u32 = 0x0105;
/// Scan code of the Hangul key on Korean keyboards.
pub const HANGUL_SCAN_CODE: u32 = 0x72;

/// The application-level keyboard events.
#[derive(Debug, Clone, Copy, PartialEq, Eq, Structural)]
pub enum KeyboardEvent {
    HangulKeyPressed,
}

/// Whether a key is the Hangul/English key, by virtual key or by the Korean
/// scan-code form.
pub open spec fn spec_is_hangul_key(virtual_key: u32, scan_code: u32) -> bool {
    virtual_key == VK_HANGUL as u32 || scan_code == HANGUL_SCAN_CODE
}

/// Executable form of [`spec_is_hangul_key`].
pub fn is_hangul_key(virtual_key: u32, scan_code: u32) -> (r: bool)
    ensures
        r == spec_is_hangul_key(virtual_key, scan_code),
{
    virtual_key == VK_HANGUL as u32 || scan_code == HANGUL_SCAN_CODE
}

/// Whether a message is a key press.
pub open spec fn is_key_down(message: u32) -> bool {
    message == WM_KEYDOWN || message == WM_SYSKEYDOWN
}

/// Whether a message is a key release.
pub open spec fn is_key_up(message: u32) -> bool {
    message == WM_KEYUP || message == WM_SYSKEYUP
}

/// The application event of a low-level keyboard event: only a physical
/// press of the Hangul/English key is one; releases and this utility's own
/// injected input are not.
pub fn classify_event(
    code: i32,
    message: u32,
    virtual_key: u32,
    scan_code: u32,
    extra_info: u64,
) -> (r: Option<KeyboardEvent>)
    ensures
        r == if code == HC_ACTION && is_key_down(message) && spec_is_hangul_key(
            virtual_key,
            scan_code,
        ) && extra_info != SYNTHETIC_INPUT_MARKER {
            Some(KeyboardEvent::HangulKeyPressed)
        } else {
            None
        },
{
    if code == HC_ACTION && (message == WM_KEYDOWN || message == WM_SYSKEYDOWN) && is_hangul_key(
        virtual_key,
        scan_code,
    ) && extra_info != SYNTHETIC_INPUT_MARKER {
        Some(KeyboardEvent::HangulKeyPressed)
    } else {
        None
    }
}

/// Which Hangul-key transitions the hook handles itself.
#[derive(Debug, Clone, Copy, PartialEq, Eq, Structural)]
pub enum HookedKey {
    /// A physical press of the Hangul/English key.
    Press,
    /// A physical release of the Hangul/English key.
    Release,
    /// Anything else, passed on untouched.
    Other,
}

/// Sorts a low-level keyboard event into what the hook handles.
pub fn hooked_key(code: i32, message: u32, virtual_key: u32, scan_code: u32, extra_info: u64) -> (r:
    HookedKey)
    ensures
        r == if code != HC_ACTION || !spec_is_hangul_key(virtual_key, scan_code) || extra_info
            == SYNTHETIC_INPUT_MARKER {
            HookedKey::Other
        } else if is_key_down(message) {
            HookedKey::Press
        } else if is_key_up(message) {
            HookedKey::Release
        } else {
            HookedKey::Other
        },
{
    if code != HC_ACTION || !is_hangul_key(virtual_key, scan_code) || extra_info
        == SYNTHETIC_INPUT_MARKER {
        HookedKey::Other
    } else if message == WM_KEYDOWN || message == WM_SYSKEYDOWN {
        HookedKey::Press
    } else if message == WM_KEYUP || message == WM_SYSKEYUP {
        HookedKey::Release
    } else {
        HookedKey::Other
    }
}

/// What the hook does with a press of the Hangul/English key.
#[derive(Debug, Clone, Copy, PartialEq, Eq, Structural)]
pub enum PressDecision {
    /// Start a conversion.
    Dispatch,
    /// An auto-repeat of a held key: swallow it.
    SuppressRepeat,
    /// Another conversion is running: let the key through.
    PassThrough,
}

/// The decision for a press, from whether the key was already held and
/// whether this press claimed the conversion flow.
pub fn press_decision(physical_was_down: bool, flow_claimed: bool) -> (r: PressDecision)
    ensures
        r == if physical_was_down {
            PressDecision::SuppressRepeat
        } else if flow_claimed {
            PressDecision::Dispatch
        } else {
            PressDecision::PassThrough
        },
{
    if physical_was_down {
        PressDecision::SuppressRepeat
    } else if flow_claimed {
        PressDecision::Dispatch
    } else {
        PressDecision::PassThrough
    }
}

/// What becomes of the key event the hook was given.
#[derive(Debug, Clone, Copy, PartialEq, Eq, Structural)]
pub enum Verdict {
    /// Hand the event to the next hook.
    PassOn,
    /// Swallow the event.
    Swallow,
    /// Swallow the release and replay a whole press of the key.
    SwallowAndReplay,
}

/// The verdict on a press that is not dispatched: an auto-repeat of the held
/// key is swallowed, a press during a running conversion goes on to the
/// system. A press to dispatch has its verdict once the dispatch is known.
pub fn undispatched_verdict(decision: PressDecision) -> (r: Option<Verdict>)
    ensures
        r == match decision {
            PressDecision::SuppressRepeat => Some(Verdict::Swallow),
            PressDecision::PassThrough => Some(Verdict::PassOn),
            PressDecision::Dispatch => None,
        },
{
    match decision {
        PressDecision::SuppressRepeat => Some(Verdict::Swallow),
        PressDecision::PassThrough => Some(Verdict::PassOn),
        PressDecision::Dispatch => None,
    }
}

/// What the hook does once a conversion has completed.
#[derive(Debug, Clone, Copy, PartialEq, Eq, Structural)]
pub enum Completion {
    /// Nothing: the key was consumed, or will be replayed on release.
    Nothing,
    /// Replay a whole press of the key now.
    ReplayNow,
}

/// The hook's flags, shared between the hook and the dispatcher.
#[derive(Debug, Clone, Copy, PartialEq, Eq, Structural)]
pub struct HookFlags {
    /// A conversion has been dispatched and has not completed.
    pub flow_active: bool,
    /// The physical key is held.
    pub physical_key_down: bool,
    /// The next release of the key is to be swallowed.
    pub suppress_key_up: bool,
    /// The swallowed release is to be followed by a replayed key press.
    pub replay_on_key_up: bool,
}

impl HookFlags {
    /// No conversion, no key held.
    pub open spec fn idle() -> HookFlags {
        HookFlags {
            flow_active: false,
            physical_key_down: false,
            suppress_key_up: false,
            replay_on_key_up: false,
        }
    }

    /// The flags and the decision after a physical press: the press claims
    /// the conversion flow when the key was not held and no conversion runs.
    pub open spec fn pressed(self) -> (HookFlags, PressDecision) {
        if self.physical_key_down {
            (self, PressDecision::SuppressRepeat)
        } else if self.flow_active {
            (HookFlags { physical_key_down: true, ..self }, PressDecision::PassThrough)
        } else {
            (
                HookFlags { physical_key_down: true, flow_active: true, ..self },
                PressDecision::Dispatch,
            )
        }
    }

    /// The flags and the verdict once a dispatched press did or did not reach
    /// the dispatcher.
    pub open spec fn dispatched(self, sent: bool) -> (HookFlags, Verdict) {
        if sent {
            (HookFlags { suppress_key_up: true, ..self }, Verdict::Swallow)
        } else {
            (HookFlags { flow_active: false, ..self }, Verdict::PassOn)
        }
    }

    /// The flags and the verdict after a physical release.
    pub open spec fn released(self) -> (HookFlags, Verdict) {
        let up = HookFlags { physical_key_down: false, suppress_key_up: false, ..self };
        if !self.suppress_key_up {
            (up, Verdict::PassOn)
        } else if self.replay_on_key_up {
            (HookFlags { replay_on_key_up: false, ..up }, Verdict::SwallowAndReplay)
        } else {
            (up, Verdict::Swallow)
        }
    }

    /// The flags and what to do once a conversion completed.
    pub open spec fn completed(self, handled: bool) -> (HookFlags, Completion) {
        let ended = HookFlags { flow_active: false, ..self };
        if handled {
            (HookFlags { replay_on_key_up: false, ..ended }, Completion::Nothing)
        } else if self.physical_key_down {
            (HookFlags { replay_on_key_up: true, ..ended }, Completion::Nothing)
        } else {
            (ended, Completion::ReplayNow)
        }
    }

    /// No conversion, no key held.
    pub fn new() -> (r: HookFlags)
        ensures
            r == HookFlags::idle(),
    {
        HookFlags {
            flow_active: false,
            physical_key_down: false,
            suppress_key_up: false,
            replay_on_key_up: false,
        }
    }

    /// A physical press of the key; see [`Self::pressed`].
    pub fn on_press(&mut self) -> (r: PressDecision)
        ensures
            (*final(self), r) == old(self).pressed(),
    {
        let was_down = self.physical_key_down;
        self.physical_key_down = true;
        let flow_claimed = !was_down && !self.flow_active;
        if flow_claimed {
            self.flow_active = true;
        }
        press_decision(was_down, flow_claimed)
    }

    /// After a dispatched press: whether the event reached the dispatcher.
    /// When it did, the press and its release are swallowed; when it did not,
    /// the flow is released and the press goes on to the system.
    pub fn on_dispatch(&mut self, sent: bool) -> (r: Verdict)
        ensures
            (*final(self), r) == old(self).dispatched(sent),
    {
        if sent {
            self.suppress_key_up = true;
            Verdict::Swallow
        } else {
            self.flow_active = false;
            Verdict::PassOn
        }
    }

    /// A physical release of the key; see [`Self::released`].
    pub fn on_release(&mut self) -> (r: Verdict)
        ensures
            (*final(self), r) == old(self).released(),
    {
        self.physical_key_down = false;
        if self.suppress_key_up {
            self.suppress_key_up = false;
            if self.replay_on_key_up {
                self.replay_on_key_up = false;
                Verdict::SwallowAndReplay
            } else {
                Verdict::Swallow
            }
        } else {
            Verdict::PassOn
        }
    }

    /// A conversion completed. A handled conversion consumes the key; an
    /// unhandled one gives the key back: replayed now when it has been
    /// released, or when it is released.
    pub fn complete(&mut self, handled: bool) -> (r: Completion)
        ensures
            (*final(self), r) == old(self).completed(handled),
    {
        self.flow_active = false;
        if handled {
            self.replay_on_key_up = false;
            Completion::Nothing
        } else if self.physical_key_down {
            self.replay_on_key_up = true;
            Completion::Nothing
        } else {
            Completion::ReplayNow
        }
    }
}

/// How many whole presses of the key a verdict replays.
pub open spec fn verdict_replays(verdict: Verdict) -> nat {
    if verdict == Verdict::SwallowAndReplay {
        1
    } else {
        0
    }
}

/// How many whole presses of the key a completion replays.
pub open spec fn completion_replays(completion: Completion) -> nat {
    if completion == Completion::ReplayNow {
        1
    } else {
        0
    }
}

/// A press of the key that reaches the dispatcher is swallowed, together with
/// its release. Whether the key is released before or after the conversion
/// completes, the key is then given back to the system exactly once when the
/// conversion was not handled, and not at all when it was; the flags end idle.
pub proof fn law_unhandled_press_is_given_back_once(handled: bool, released_first: bool)
    ensures
        ({
            let (pressed, decision) = HookFlags::idle().pressed();
            let (dispatched, swallowed) = pressed.dispatched(true);
            let (end, release, completion) = if released_first {
                let (up, release) = dispatched.released();
                let (end, completion) = up.completed(handled);
                (end, release, completion)
            } else {
                let (done, completion) = dispatched.completed(handled);
                let (end, release) = done.released();
                (end, release, completion)
            };
            &&& decision == PressDecision::Dispatch
            &&& swallowed == Verdict::Swallow
            &&& release != Verdict::PassOn
            &&& verdict_replays(release) + completion_replays(completion) == if handled {
                0nat
            } else {
                1nat
            }
            &&& end == HookFlags::idle()
        }),
{
}

/// A press that could not be handed to the dispatcher, and its release, go
/// on to the system untouched, and the flags end idle.
pub proof fn law_undelivered_press_passes_through()
    ensures
        ({
            let (pressed, decision) = HookFlags::idle().pressed();
            let (dispatched, verdict) = pressed.dispatched(false);
            let (end, release) = dispatched.released();
            &&& decision == PressDecision::Dispatch
            &&& verdict == Verdict::PassOn
            &&& release == Verdict::PassOn
            &&& end == HookFlags::idle()
        }),
{
}

/// While the key is held, further presses (auto-repeat) are swallowed and
/// change nothing; while a conversion runs, a new press never starts another.
pub proof fn law_one_conversion_per_press(flags: HookFlags)
    ensures
        flags.physical_key_down ==> flags.pressed() == (flags, PressDecision::SuppressRepeat),
        flags.flow_active ==> flags.pressed().1 != PressDecision::Dispatch,
        flags.pressed().1 == PressDecision::Dispatch ==> !flags.flow_active && flags.pressed().0.flow_active,
{
}

} // verus!
