//! Events delivered to an aggregator by its merged input stream.
//!
//! Each tracked resource has one stream that merges live database
//! notifications with a periodic cache-synchronisation tick; timeouts on
//! either source are surfaced as events of their own.

use vstd::prelude::*;

verus! {

/// One event drawn from the merged per-resource stream.
#[derive(Debug, Clone)]
pub enum StreamEvent {
    /// A live notification: the database reports a fresh count.
    Database { resource: String, value: usize },
    /// The periodic tick on which the cache is synchronised.
    Cache { resource: String },
    /// The database side of the stream timed out.
    DatabaseTimeout,
    /// The cache side of the stream timed out.
    CacheTimeout,
}

} // verus!
