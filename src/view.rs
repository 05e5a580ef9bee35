//! The view type itself: a window plus the shared file beneath it.
use std::sync::Arc;
use vstd::prelude::*;

use crate::window::{Edge, SeekPos, SliceError, Window};

verus! {

/// A slice of a file: a window `[start, end)` with its own cursor, onto a
/// file shared by every view cut from the same root.
pub struct FileSlice<F> {
    file: Arc<F>,
    // Can go beyond `end` but never before `start`
    cursor: u64,
    start: u64,
    end: u64,
}

impl<F> View for FileSlice<F> {
    type V = Window;

    closed spec fn view(&self) -> Window {
        Window { start: self.start as int, end: self.end as int, cursor: self.cursor as int }
    }
}

/// Relies on `Arc::clone`: the new pointer refers to the same allocation.
#[verifier::external_body]
fn share<F>(a: &Arc<F>) -> (r: Arc<F>)
    ensures
        r == *a,
{
    Arc::clone(a)
}

/// Relies on `Arc::try_unwrap`: the inner value when this is the only
/// strong reference, and otherwise the same `Arc`, handed back.
#[verifier::external_body]
fn take_shared<F>(a: Arc<F>) -> (r: Result<F, Arc<F>>)
    ensures
        match r {
            Ok(f) => f == *a,
            Err(b) => b == a,
        },
{
    Arc::try_unwrap(a)
}

impl<F> Clone for FileSlice<F> {
    /// Another view of the same window and file, with its own cursor; no
    /// system call, only a reference-count increment.
    fn clone(&self) -> (r: Self)
        ensures
            r == *self,
    {
        FileSlice { file: share(&self.file), cursor: self.cursor, start: self.start, end: self.end }
    }
}

impl<F> FileSlice<F> {
    /// The file this view reads from.
    pub closed spec fn shared_file(&self) -> F {
        *self.file
    }

    /// A view of the whole of `file`, whose length is `len`.
    pub fn new(file: F, len: u64) -> (r: FileSlice<F>)
        ensures
            r@ == (Window { start: 0, end: len as int, cursor: 0 }),
            r.shared_file() == file,
    {
        FileSlice { file: Arc::new(file), cursor: 0, start: 0, end: len }
    }

    /// A view of the range `lo..hi` of this one. The edges are relative to
    /// this view's start; the child's end is clamped to this view's end and
    /// then raised to at least the child's start, so a child never reaches
    /// past its parent's end. Its cursor stands at its start.
    pub fn slice_bounds(&self, lo: Edge, hi: Edge) -> (r: FileSlice<F>)
        requires
            self@.wf(),
            self@.can_slice(lo, hi),
        ensures
            r@ == self@.sliced(lo, hi),
            r@.wf(),
            r.shared_file() == self.shared_file(),
    {
        let start: u64 = match lo {
            Edge::Included(x) => self.start + x,
            Edge::Excluded(x) => self.start + x + 1,
            Edge::Unbounded => self.start,
        };
        let asked: u64 = match hi {
            Edge::Included(x) => self.start + x + 1,
            Edge::Excluded(x) => self.start + x,
            Edge::Unbounded => self.end,
        };
        // Not allowed to expand beyond `self`, and `start <= end` always
        let clamped: u64 = if asked < self.end { asked } else { self.end };
        let end: u64 = if clamped > start { clamped } else { start };
        FileSlice { file: share(&self.file), cursor: start, start, end }
    }

    /// A view of `range` of this one, relative to this view's start; see
    /// [`FileSlice::slice_bounds`].
    pub fn slice(&self, range: std::ops::Range<u64>) -> (r: FileSlice<F>)
        requires
            self@.wf(),
            self@.can_slice(Edge::Included(range.start), Edge::Excluded(range.end)),
        ensures
            r@ == self@.sliced(Edge::Included(range.start), Edge::Excluded(range.end)),
            r@.wf(),
            r.shared_file() == self.shared_file(),
    {
        self.slice_bounds(Edge::Included(range.start), Edge::Excluded(range.end))
    }

    /// The position at which this slice begins, as a byte offset into the
    /// underlying file.
    pub fn start_pos(&self) -> (r: u64)
        ensures
            r == self@.start,
    {
        self.start
    }

    /// The position at which this slice ends, as a byte offset into the
    /// underlying file.
    pub fn end_pos(&self) -> (r: u64)
        ensures
            r == self@.end,
    {
        self.end
    }

    /// The next byte to be read, as an offset into the underlying file.
    pub fn cursor_pos(&self) -> (r: u64)
        ensures
            r == self@.cursor,
    {
        self.cursor
    }

    /// Where the next read goes and how long it may be: it starts at the
    /// cursor and is the buffer's length cut down to the bytes left before
    /// the end, zero once the cursor is at or past the end. The caller reads
    /// that span positionally from the file and reports the count to
    /// [`FileSlice::advance`].
    pub fn read_span(&self, buf_len: usize) -> (r: (u64, usize))
        requires
            self@.wf(),
        ensures
            r.0 == self@.cursor,
            r.1 == self@.read_len(buf_len as int),
    {
        let remaining: u64 = if self.cursor >= self.end { 0 } else { self.end - self.cursor };
        let n: usize = if (buf_len as u64) > remaining { remaining as usize } else { buf_len };
        (self.cursor, n)
    }

    /// Records that `got` bytes were read at the cursor: the cursor moves on
    /// by `got`, nothing else changes.
    pub fn advance(&mut self, got: usize)
        requires
            old(self)@.wf(),
            got <= old(self)@.remaining(),
        ensures
            final(self)@ == old(self)@.advanced(got as int),
            final(self)@.wf(),
            final(self).shared_file() == old(self).shared_file(),
    {
        self.cursor = self.cursor + got as u64;
    }

    /// Moves the cursor to `pos` and returns the new position relative to
    /// the window's start. A target before the start, or past the largest
    /// `u64`, is refused with [`SliceError::OutOfBounds`] and the view is
    /// left as it was. Targets past the end are allowed.
    pub fn seek(&mut self, pos: SeekPos) -> (r: Result<u64, SliceError>)
        requires
            old(self)@.wf(),
        ensures
            final(self)@.wf(),
            final(self).shared_file() == old(self).shared_file(),
            old(self)@.can_seek(pos) ==> {
                let at = old(self)@.seek_target(pos);
                &&& final(self)@ == old(self)@.moved_to(at)
                &&& r == Ok::<u64, SliceError>((at - old(self)@.start) as u64)
            },
            !old(self)@.can_seek(pos) ==> {
                &&& *final(self) == *old(self)
                &&& r == Err::<u64, SliceError>(SliceError::OutOfBounds)
            },
    {
        // Computed wide, so that neither end can wrap
        let target: i128 = match pos {
            SeekPos::Current(x) => self.cursor as i128 + x as i128,
            SeekPos::Start(x) => self.start as i128 + x as i128,
            SeekPos::End(x) => self.end as i128 + x as i128,
        };
        if target < self.start as i128 || target > u64::MAX as i128 {
            return Err(SliceError::OutOfBounds);
        }
        self.cursor = target as u64;
        Ok(self.stream_position())
    }

    /// The cursor's position relative to the window's start.
    pub fn stream_position(&self) -> (r: u64)
        requires
            self@.wf(),
        ensures
            r == self@.cursor - self@.start,
    {
        self.cursor - self.start
    }

    /// Number of bytes from the cursor to the end; zero once the cursor is
    /// at or past the end.
    pub fn len(&self) -> (r: u64)
        ensures
            r == self@.remaining(),
    {
        if self.cursor >= self.end {
            0
        } else {
            self.end - self.cursor
        }
    }

    /// The file this view reads from, for positional reads of the span that
    /// [`FileSlice::read_span`] gives.
    pub fn file(&self) -> (r: &F)
        ensures
            *r == self.shared_file(),
    {
        &*self.file
    }

    /// Widens the view to the whole file, whose current length is `len`:
    /// the start becomes 0 and the end `len`, whatever the window was. The
    /// cursor stays where it was.
    pub fn expand(&mut self, len: u64)
        requires
            old(self)@.wf(),
        ensures
            final(self)@ == (Window { start: 0, end: len as int, cursor: old(self)@.cursor }),
            final(self)@.wf(),
            final(self).shared_file() == old(self).shared_file(),
    {
        self.start = 0;
        self.end = len;
    }

    /// The file back, when no other view shares it; otherwise this view,
    /// unchanged.
    pub fn try_unwrap(self) -> (r: Result<F, FileSlice<F>>)
        ensures
            match r {
                Ok(f) => f == self.shared_file(),
                Err(v) => v == self,
            },
    {
        match take_shared(self.file) {
            Ok(f) => Ok(f),
            Err(file) => Err(FileSlice { file, cursor: self.cursor, start: self.start, end: self.end }),
        }
    }

    /// A view from `start`, relative to this view's start, to this view's
    /// end.
    pub fn get_read(&self, start: u64) -> (r: FileSlice<F>)
        requires
            self@.wf(),
            self@.start + start <= u64::MAX,
        ensures
            r@ == self@.sliced(Edge::Included(start), Edge::Unbounded),
            r@.wf(),
            r.shared_file() == self.shared_file(),
    {
        self.slice_bounds(Edge::Included(start), Edge::Unbounded)
    }

    /// The view of exactly `length` bytes at `start`, relative to this
    /// view's start, to be read in full. Refused with
    /// [`SliceError::ShortWindow`] when those bytes are not all inside the
    /// window.
    pub fn bytes_window(&self, start: u64, length: usize) -> (r: Result<FileSlice<F>, SliceError>)
        requires
            self@.wf(),
        ensures
            self@.start + start + length <= self@.end ==> (r matches Ok(v) && {
                &&& v@ == self@.sliced(Edge::Included(start), Edge::Excluded((start + length) as u64))
                &&& v@.remaining() == length
                &&& v.shared_file() == self.shared_file()
            }),
            self@.start + start + length > self@.end ==> r == Err::<FileSlice<F>, SliceError>(
                SliceError::ShortWindow,
            ),
    {
        let size: u64 = self.end - self.start;
        if start > size || length as u64 > size - start {
            return Err(SliceError::ShortWindow);
        }
        Ok(self.slice(start..start + length as u64))
    }
}

} // verus!
