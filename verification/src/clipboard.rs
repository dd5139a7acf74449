//! Decisions of serialized, lossless clipboard transactions: which error a
//! transaction reports, which stored format answers a request, how the
//! format enumerator's cursor moves, and where clipboard text ends.

use vstd::prelude::*;

verus! {

/// Why a clipboard operation failed; platform errors are carried as their
/// messages.
#[derive(Debug)]
pub enum ClipboardError {
    Snapshot(String),
    Read(String),
    InvalidTextHandle,
    InvalidUtf16,
    Write(String),
    Restore(String),
    TargetChanged,
    CopyTimedOut,
    Busy,
    ShortcutUnavailable,
    ChangedExternally,
}

impl ClipboardError {
    /// The sentence that describes the error.
    pub open spec fn spec_message(&self) -> Seq<char> {
        match self {
            ClipboardError::Snapshot(e) => "could not snapshot the clipboard: "@ + e@,
            ClipboardError::Read(e) => "could not read Unicode clipboard text: "@ + e@,
            ClipboardError::InvalidTextHandle => "clipboard text had an invalid memory handle"@,
            ClipboardError::InvalidUtf16 => "clipboard text was not valid UTF-16"@,
            ClipboardError::Write(e) => "could not write Unicode clipboard text: "@ + e@,
            ClipboardError::Restore(e) => "could not restore the clipboard: "@ + e@,
            ClipboardError::TargetChanged => "the selection's target changed"@,
            ClipboardError::CopyTimedOut => "the copied selection did not reach the clipboard in time"@,
            ClipboardError::Busy => "the clipboard is busy"@,
            ClipboardError::ShortcutUnavailable => "the copy or paste shortcut could not be sent"@,
            ClipboardError::ChangedExternally => "the clipboard was changed by another application"@,
        }
    }

    /// Executable form of [`Self::spec_message`].
    pub fn message(&self) -> (r: String)
        ensures
            r@ == self.spec_message(),
    {
        match self {
            ClipboardError::Snapshot(e) => {
                let mut m = String::from_str("could not snapshot the clipboard: ");
                m.append(e.as_str());
                m
            },
            ClipboardError::Read(e) => {
                let mut m = String::from_str("could not read Unicode clipboard text: ");
                m.append(e.as_str());
                m
            },
            ClipboardError::InvalidTextHandle => String::from_str(
                "clipboard text had an invalid memory handle",
            ),
            ClipboardError::InvalidUtf16 => String::from_str("clipboard text was not valid UTF-16"),
            ClipboardError::Write(e) => {
                let mut m = String::from_str("could not write Unicode clipboard text: ");
                m.append(e.as_str());
                m
            },
            ClipboardError::Restore(e) => {
                let mut m = String::from_str("could not restore the clipboard: ");
                m.append(e.as_str());
                m
            },
            ClipboardError::TargetChanged => String::from_str("the selection's target changed"),
            ClipboardError::CopyTimedOut => String::from_str(
                "the copied selection did not reach the clipboard in time",
            ),
            ClipboardError::Busy => String::from_str("the clipboard is busy"),
            ClipboardError::ShortcutUnavailable => String::from_str(
                "the copy or paste shortcut could not be sent",
            ),
            ClipboardError::ChangedExternally => String::from_str(
                "the clipboard was changed by another application",
            ),
        }
    }
}

/// The result of a clipboard transaction: a failed restoration of the saved
/// clipboard outweighs the operation's own result.
pub fn transaction_result<T>(
    operation: Result<T, ClipboardError>,
    restoration: Result<(), ClipboardError>,
) -> (r: Result<T, ClipboardError>)
    ensures
        r == match restoration {
            Err(error) => Err(error),
            Ok(()) => operation,
        },
{
    match restoration {
        Err(error) => Err(error),
        Ok(()) => operation,
    }
}

/// The fields of a clipboard format description that requests are matched on.
#[derive(Debug, Clone, Copy, PartialEq, Eq, Structural)]
pub struct FormatDescription {
    pub clipboard_format: u16,
    pub aspect: u32,
    pub index: i32,
    pub media: u32,
}

/// Whether a stored format answers a request: same format, aspect and index,
/// and at least one storage medium in common.
pub open spec fn spec_format_matches(stored: FormatDescription, requested: FormatDescription) -> bool {
    &&& stored.clipboard_format == requested.clipboard_format
    &&& stored.aspect == requested.aspect
    &&& stored.index == requested.index
    &&& stored.media & requested.media != 0
}

/// Executable form of [`spec_format_matches`].
pub fn format_matches(stored: FormatDescription, requested: FormatDescription) -> (r: bool)
    ensures
        r == spec_format_matches(stored, requested),
{
    stored.clipboard_format == requested.clipboard_format && stored.aspect == requested.aspect
        && stored.index == requested.index && stored.media & requested.media != 0
}

/// The first stored format that answers a request.
pub fn find_format(stored: &Vec<FormatDescription>, requested: FormatDescription) -> (r: Option<
    usize,
>)
    ensures
        r matches Some(i) ==> i < stored.len() && spec_format_matches(stored@[i as int], requested)
            && forall|j: int| 0 <= j < i ==> !spec_format_matches(#[trigger] stored@[j], requested),
        r is None ==> forall|j: int|
            0 <= j < stored.len() ==> !spec_format_matches(#[trigger] stored@[j], requested),
{
    let mut i: usize = 0;
    while i < stored.len()
        invariant
            i <= stored.len(),
            forall|j: int| 0 <= j < i ==> !spec_format_matches(#[trigger] stored@[j], requested),
        decreases stored.len() - i,
    {
        if format_matches(stored[i], requested) {
            return Some(i);
        }
        i = i + 1;
    }
    None
}

/// The position of a format enumerator in its list of formats.
#[derive(Debug, Clone, Copy, PartialEq, Eq, Structural)]
pub struct FormatCursor {
    pub len: usize,
    pub cursor: usize,
}

impl FormatCursor {
    /// The cursor never passes the end of the list.
    pub open spec fn wf(self) -> bool {
        self.cursor <= self.len
    }

    /// A cursor at the start of a list of `len` formats.
    pub fn new(len: usize) -> (r: FormatCursor)
        ensures
            r.wf(),
            r.len == len,
            r.cursor == 0,
    {
        FormatCursor { len, cursor: 0 }
    }

    /// Takes up to `count` formats: returns the position of the first and how
    /// many were taken, and advances past them.
    pub fn next(&mut self, count: u32) -> (r: (usize, usize))
        requires
            old(self).wf(),
        ensures
            final(self).wf(),
            final(self).len == old(self).len,
            r.0 == old(self).cursor,
            r.1 == if old(self).len - old(self).cursor <= count {
                old(self).len - old(self).cursor
            } else {
                count as int
            },
            final(self).cursor == old(self).cursor + r.1,
    {
        let available = self.len - self.cursor;
        let copied: usize = if available <= count as usize {
            available
        } else {
            count as usize
        };
        let start = self.cursor;
        self.cursor = self.cursor + copied;
        (start, copied)
    }

    /// Skips up to `count` formats, stopping at the end of the list.
    pub fn skip(&mut self, count: u32)
        requires
            old(self).wf(),
        ensures
            final(self).wf(),
            final(self).len == old(self).len,
            final(self).cursor == if old(self).cursor + count <= old(self).len {
                old(self).cursor + count
            } else {
                old(self).len as int
            },
    {
        if count as usize <= self.len - self.cursor {
            self.cursor = self.cursor + count as usize;
        } else {
            self.cursor = self.len;
        }
    }

    /// Goes back to the start of the list.
    pub fn reset(&mut self)
        ensures
            final(self).len == old(self).len,
            final(self).cursor == 0,
    {
        self.cursor = 0;
    }
}

/// Whether the clipboard saved at the start of a transaction is put back:
/// only while the clipboard still holds the last change the utility made or
/// caused, recorded by its sequence number. When another application or the
/// user has changed the clipboard since, the newer contents win.
pub fn should_restore(owned_sequence: u32, current_sequence: u32) -> (r: bool)
    ensures
        r == (owned_sequence == current_sequence),
{
    owned_sequence == current_sequence
}

/// Whether a call that asked for `count` formats got them all.
pub fn fetched_all(copied: usize, count: u32) -> (r: bool)
    ensures
        r == (copied == count),
{
    copied == count as usize
}

/// The length of clipboard text stored as UTF-16: up to its first NUL unit,
/// or the whole buffer when it has none.
pub fn utf16_text_length(units: &[u16]) -> (r: usize)
    ensures
        r <= units@.len(),
        forall|j: int| 0 <= j < r ==> #[trigger] units@[j] != 0,
        r < units@.len() ==> units@[r as int] == 0,
{
    let mut i: usize = 0;
    while i < units.len()
        invariant
            i <= units@.len(),
            forall|j: int| 0 <= j < i ==> #[trigger] units@[j] != 0,
        decreases units.len() - i,
    {
        if units[i] == 0 {
            return i;
        }
        i = i + 1;
    }
    i
}

} // verus!
