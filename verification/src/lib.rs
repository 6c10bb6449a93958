//! Feed aggregation with an idempotent image cache.
//!
//! The library merges entries from several feed sources into one interleaved
//! sequence, normalizes each raw entry into a uniform [`News`] record, and
//! decides how an on-disk image cache answers each request. All decisions are
//! verified; the surrounding fetching and file handling live outside the
//! library and hand it plain values.

use vstd::prelude::*;

pub mod aggregate;
pub mod cache;
pub mod entry;
pub mod merge;
pub mod news;

pub use aggregate::AggregateError;
pub use aggregate::ImageOutcome;
pub use aggregate::RSS;
pub use cache::CacheDecision;
pub use cache::CacheError;
pub use entry::Entry;
pub use entry::MediaContent;
pub use merge::MergeError;
pub use news::News;
pub use news::NormalizeError;

verus! {

/// Upper bound on the number of entries one refresh keeps.
pub const MAX_ITEMS: usize = 30;

} // verus!
