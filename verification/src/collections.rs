//! Focused collection helpers: chunking and windows, grouping and counting,
//! map value transforms, pages and slice bounds.

pub mod error;
pub mod iter;
pub mod map;
pub mod page;
pub mod slice;

pub use error::CollectionError;
pub use page::{Page, PageError, PageView, DEFAULT_PAGE_SIZE};
pub use iter::{
    chunked_by, chunks, frequencies, group_by, partition_results, sliding_windows, windows, Chunks,
    SlidingWindows,
};
pub use map::{map_values, try_map_values};
pub use slice::{clamped_subslice, pad_to};
