//! An image versioning pipeline: one source photograph becomes three durable
//! assets — an archival original, a mid-resolution display copy, and a small
//! thumbnail — under deterministic storage rules, with safe triplet deletion
//! and recursive storage accounting.
//!
//! The library computes on plain values (bytes, strings, sizes) and never
//! touches the filesystem; an unverified shell reads sources, writes the
//! produced slots to the derived paths, and feeds directory snapshots back
//! for size aggregation.

pub mod config;
pub mod error;
pub mod format;
pub mod frame;
pub mod images;
pub mod naming;
pub mod records;
pub mod store;
