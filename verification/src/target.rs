//! Provider-neutral identity of the control that owns a selection.

use vstd::prelude::*;

verus! {

/// The foreground window, focused control, process and GUI thread that own a
/// selection.
#[derive(Debug, Clone, Copy, PartialEq, Eq, Structural)]
pub struct TargetIdentity {
    pub foreground_window: isize,
    pub focused_control: isize,
    pub process_id: u32,
    pub thread_id: u32,
}

impl TargetIdentity {
    /// The identity read from the window system: none without a foreground
    /// window (handle 0) or without its GUI thread (thread 0); the focused
    /// control is the thread's focus where it has one, else the foreground
    /// window itself.
    pub open spec fn spec_capture_from(
        foreground_window: isize,
        process_id: u32,
        thread_id: u32,
        focus: Option<isize>,
    ) -> Option<TargetIdentity> {
        if foreground_window == 0 || thread_id == 0 {
            None
        } else {
            let focused_control = match focus {
                Some(f) => if f != 0 { f } else { foreground_window },
                None => foreground_window,
            };
            Some(TargetIdentity { foreground_window, focused_control, process_id, thread_id })
        }
    }

    /// Executable form of [`Self::spec_capture_from`].
    pub fn capture_from(
        foreground_window: isize,
        process_id: u32,
        thread_id: u32,
        focus: Option<isize>,
    ) -> (r: Option<TargetIdentity>)
        ensures
            r == Self::spec_capture_from(foreground_window, process_id, thread_id, focus),
    {
        if foreground_window == 0 || thread_id == 0 {
            return None;
        }
        let focused_control = match focus {
            Some(f) => if f != 0 { f } else { foreground_window },
            None => foreground_window,
        };
        Some(TargetIdentity { foreground_window, focused_control, process_id, thread_id })
    }

    /// Whether this identity is still the one captured now.
    pub fn is_current(self, captured: Option<TargetIdentity>) -> (r: bool)
        ensures
            r == (captured == Some(self)),
    {
        match captured {
            Some(current) => current == self,
            None => false,
        }
    }

    /// The handle of the focused control.
    pub fn focused_window(self) -> (r: isize)
        ensures
            r == self.focused_control,
    {
        self.focused_control
    }

    /// The GUI thread that owns the control.
    pub fn thread_id(self) -> (r: u32)
        ensures
            r == self.thread_id,
    {
        self.thread_id
    }

    /// A fixed identity for exercising the decisions that compare identities.
    pub fn test_identity() -> (r: TargetIdentity)
        ensures
            r.foreground_window == 1,
            r.focused_control == 2,
            r.process_id == 3,
            r.thread_id == 4,
    {
        TargetIdentity { foreground_window: 1, focused_control: 2, process_id: 3, thread_id: 4 }
    }
}

} // verus!
