//! Snapshot-diff cache for a registry of named entries.
//!
//! The library captures point-in-time snapshots of an "entry identifier to
//! status" mapping, persists them as a JSON document, compares successive
//! snapshots, and annotates each changed entry with a presentation color
//! derived from its new status.

pub mod clock;
pub mod colors;
pub mod diff;
pub mod error;
pub mod json;
pub mod pass;
pub mod snapshot;
pub mod store;
