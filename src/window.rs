//! The arithmetic model of a view: a window `[start, end)` and a cursor, all
//! absolute byte offsets into the underlying file.
use vstd::prelude::*;

verus! {

/// One end of a range handed to [`crate::FileSlice::slice_bounds`],
/// relative to the start of the view being sliced.
#[derive(Clone, Copy, Debug, PartialEq, Eq)]
pub enum Edge {
    Included(u64),
    Excluded(u64),
    Unbounded,
}

/// Where a seek goes: from the window's start, from the cursor, or from the
/// window's end.
#[derive(Clone, Copy, Debug, PartialEq, Eq)]
pub enum SeekPos {
    Start(u64),
    Current(i64),
    End(i64),
}

/// Why an operation on a view was refused.
#[derive(Clone, Copy, Debug, PartialEq, Eq)]
pub enum SliceError {
    /// A seek would put the cursor before the window's start, or past the
    /// largest representable offset.
    OutOfBounds,
    /// The window holds fewer bytes than an exact-length request asked for.
    ShortWindow,
}

/// The bounds and cursor of a view, as absolute offsets into its file.
pub struct Window {
    pub start: int,
    pub end: int,
    pub cursor: int,
}

impl Window {
    /// `start <= end` and the cursor never stands before `start`.
    pub open spec fn wf(self) -> bool {
        &&& 0 <= self.start <= self.end <= u64::MAX
        &&& self.start <= self.cursor <= u64::MAX
    }

    /// Number of bytes between the cursor and the end; zero once the
    /// cursor is at or past the end.
    pub open spec fn remaining(self) -> int {
        if self.cursor >= self.end {
            0
        } else {
            self.end - self.cursor
        }
    }

    /// Length of the next read into a buffer of `buf_len` bytes.
    pub open spec fn read_len(self, buf_len: int) -> int {
        min(buf_len, self.remaining())
    }

    /// Absolute start of a child cut with lower edge `lo`.
    pub open spec fn child_start(self, lo: Edge) -> int {
        match lo {
            Edge::Included(x) => self.start + x,
            Edge::Excluded(x) => self.start + x + 1,
            Edge::Unbounded => self.start,
        }
    }

    /// Absolute end asked for by upper edge `hi`, before clamping.
    pub open spec fn child_end_asked(self, hi: Edge) -> int {
        match hi {
            Edge::Included(x) => self.start + x + 1,
            Edge::Excluded(x) => self.start + x,
            Edge::Unbounded => self.end,
        }
    }

    /// The child's offsets fit in `u64`.
    pub open spec fn can_slice(self, lo: Edge, hi: Edge) -> bool {
        &&& self.child_start(lo) <= u64::MAX
        &&& self.child_end_asked(hi) <= u64::MAX
    }

    /// The window of the child cut by `lo..hi`: its end is clamped to the
    /// parent's end, then raised to at least its start; its cursor is at
    /// its start.
    pub open spec fn sliced(self, lo: Edge, hi: Edge) -> Window {
        let s = self.child_start(lo);
        let e = max(min(self.child_end_asked(hi), self.end), s);
        Window { start: s, end: e, cursor: s }
    }

    /// The absolute offset that a seek to `pos` aims at.
    pub open spec fn seek_target(self, pos: SeekPos) -> int {
        match pos {
            SeekPos::Start(x) => self.start + x,
            SeekPos::Current(x) => self.cursor + x,
            SeekPos::End(x) => self.end + x,
        }
    }

    /// A seek to `pos` is allowed: its target is not before the start and
    /// fits in `u64`.
    pub open spec fn can_seek(self, pos: SeekPos) -> bool {
        self.start <= self.seek_target(pos) <= u64::MAX
    }

    /// The window with its cursor at `at`.
    pub open spec fn moved_to(self, at: int) -> Window {
        Window { cursor: at, ..self }
    }

    /// The window after `n` bytes were read at the cursor.
    pub open spec fn advanced(self, n: int) -> Window {
        Window { cursor: self.cursor + n, ..self }
    }
}

pub open spec fn min(a: int, b: int) -> int {
    if a <= b {
        a
    } else {
        b
    }
}

pub open spec fn max(a: int, b: int) -> int {
    if a >= b {
        a
    } else {
        b
    }
}

} // verus!
