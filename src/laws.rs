//! Properties of views that relate several operations, proved over the
//! window model that the operations' contracts use.
use vstd::prelude::*;

use crate::window::{Edge, SeekPos, Window};

verus! {

/// A child cut by `start..end`, with `start <= end` no larger than the
/// parent's length, lies within the parent's bounds and is exactly
/// `end - start` bytes long.
pub proof fn lemma_slice_within_parent(parent: Window, start: u64, end: u64)
    requires
        parent.wf(),
        start <= end,
        end <= parent.end - parent.start,
    ensures
        parent.can_slice(Edge::Included(start), Edge::Excluded(end)),
        ({
            let c = parent.sliced(Edge::Included(start), Edge::Excluded(end));
            &&& c.wf()
            &&& parent.start <= c.start <= c.end <= parent.end
            &&& c.end - c.start == end - start
        }),
{
}

/// Slicing composes: cutting `c..d` out of the child `a..b` gives the same
/// view as cutting `(a + c)..min(a + d, b)` out of the parent directly.
pub proof fn lemma_slice_of_slice(v: Window, a: u64, b: u64, c: u64, d: u64)
    requires
        v.wf(),
        v.can_slice(Edge::Included(a), Edge::Excluded(b)),
        v.sliced(Edge::Included(a), Edge::Excluded(b)).can_slice(Edge::Included(c), Edge::Excluded(d)),
    ensures
        ({
            let ac = (a + c) as u64;
            let bd = (if a + d <= b { a + d } else { b as int }) as u64;
            &&& v.can_slice(Edge::Included(ac), Edge::Excluded(bd))
            &&& v.sliced(Edge::Included(a), Edge::Excluded(b)).sliced(Edge::Included(c), Edge::Excluded(d))
                == v.sliced(Edge::Included(ac), Edge::Excluded(bd))
        }),
{
}

/// A read takes bytes only from inside the window: it starts at the cursor,
/// which is never before the start, and a non-empty read ends at or before
/// the end. Once the cursor has reached the end every read is empty and
/// leaves the window as it was, so repeating it changes nothing.
pub proof fn lemma_reads_stay_inside(w: Window, buf_len: int)
    requires
        w.wf(),
        buf_len >= 0,
    ensures
        0 <= w.read_len(buf_len) <= buf_len,
        w.read_len(buf_len) > 0 ==> w.start <= w.cursor && w.cursor + w.read_len(buf_len) <= w.end,
        w.cursor >= w.end ==> w.read_len(buf_len) == 0 && w.advanced(w.read_len(buf_len)) == w,
{
}

/// A seek whose target lies before the start, in any of the three forms, is
/// refused (and `FileSlice::seek` then leaves the view unchanged). A seek
/// past the end is allowed, and every read after it is empty.
pub proof fn lemma_seek_bounds(w: Window, pos: SeekPos, buf_len: int)
    requires
        w.wf(),
        buf_len >= 0,
    ensures
        w.seek_target(pos) < w.start ==> !w.can_seek(pos),
        w.end <= w.seek_target(pos) <= u64::MAX ==> {
            &&& w.can_seek(pos)
            &&& w.moved_to(w.seek_target(pos)).wf()
            &&& w.moved_to(w.seek_target(pos)).read_len(buf_len) == 0
        },
{
}

/// A clone and its original read independently: each read depends on the
/// reading view's own cursor alone. After the original has read `ka` bytes,
/// the clone's next read still starts at the shared starting cursor and has
/// the length it had before, while the original's next read starts `ka`
/// bytes further on; both stay inside the common window.
pub proof fn lemma_clones_read_independently(w: Window, ka: int, buf_a: int, buf_b: int)
    requires
        w.wf(),
        0 <= ka <= w.read_len(buf_a),
        buf_b >= 0,
    ensures
        ({
            let original = w.advanced(ka);
            let clone = w;
            &&& original.wf()
            &&& original.cursor == w.cursor + ka
            &&& clone.cursor == w.cursor
            &&& clone.read_len(buf_b) == w.read_len(buf_b)
            &&& original.read_len(buf_b) == if w.remaining() - ka < buf_b { w.remaining() - ka } else { buf_b }
            &&& original.read_len(buf_b) > 0 ==> original.cursor + original.read_len(buf_b) <= w.end
        }),
{
}

} // verus!
