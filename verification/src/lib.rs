//! Ingestion and refresh pipeline for a ranked item listing.
//!
//! Listings observed at the content source are written to a single SQLite
//! table keyed by item identifier; the identifiers already stored are fed
//! through a FIFO work queue to a worker that refreshes them one by one.
//! This crate holds the data types, the queue, the store operations and the
//! per-cycle decisions of the three tasks. Scheduling (sleeping, locking, the
//! network client) belongs to the program built around it.

pub mod error;
pub mod fetcher;
pub mod filler;
pub mod listing;
pub mod queue;
pub mod store;
pub mod table;
pub mod worker;
