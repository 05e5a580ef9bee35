//! Turning the byte ranges of an archive's entries into views.
use vstd::prelude::*;

use crate::view::FileSlice;
use crate::window::Edge;

verus! {

/// One view per `(start, end)` pair of `spans`, in order, each cut from
/// `root` by `root.slice(start..end)`; all of them share `root`'s file.
pub fn slice_entries<F>(root: &FileSlice<F>, spans: &Vec<(u64, u64)>) -> (r: Vec<FileSlice<F>>)
    requires
        root@.wf(),
        forall|i: int|
            0 <= i < spans@.len() ==> #[trigger] root@.can_slice(
                Edge::Included(spans@[i].0),
                Edge::Excluded(spans@[i].1),
            ),
    ensures
        r@.len() == spans@.len(),
        forall|i: int|
            0 <= i < r@.len() ==> {
                &&& #[trigger] r@[i]@ == root@.sliced(
                    Edge::Included(spans@[i].0),
                    Edge::Excluded(spans@[i].1),
                )
                &&& r@[i].shared_file() == root.shared_file()
            },
{
    let mut out: Vec<FileSlice<F>> = Vec::new();
    let mut i: usize = 0;
    while i < spans.len()
        invariant
            i <= spans@.len(),
            out@.len() == i,
            root@.wf(),
            forall|k: int|
                0 <= k < spans@.len() ==> #[trigger] root@.can_slice(
                    Edge::Included(spans@[k].0),
                    Edge::Excluded(spans@[k].1),
                ),
            forall|k: int|
                0 <= k < i ==> {
                    &&& #[trigger] out@[k]@ == root@.sliced(
                        Edge::Included(spans@[k].0),
                        Edge::Excluded(spans@[k].1),
                    )
                    &&& out@[k].shared_file() == root.shared_file()
                },
        decreases spans@.len() - i,
    {
        let (start, end) = spans[i];
        out.push(root.slice(start..end));
        i = i + 1;
    }
    out
}

} // verus!
