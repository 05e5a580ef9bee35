//! Windows onto a shared, positionally-read file.
//!
//! A [`FileSlice`] covers the byte range `[start, end)` of a file that it
//! shares with every view derived from it. Views are cut from one another
//! with [`FileSlice::slice`], keep their own read cursor, and never read
//! outside their window.
pub mod window;
pub mod view;
pub mod entries;
pub mod laws;

pub use window::{Edge, SeekPos, SliceError, Window};
pub use view::FileSlice;
pub use entries::slice_entries;
