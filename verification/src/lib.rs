//! A tiered reader for named, typed resources.
//!
//! A resource is looked up in an in-memory slot, then among timestamped files
//! on disk, then (for remote resources) at its origin. This crate holds the
//! decisions: when a copy is fresh, which stale copy wins, which error is
//! reported, and what a successful refresh installs. Clock readings, directory
//! listings, decoded file contents and fetched bodies are handed in as plain
//! values by the caller.

pub mod base;
pub mod builder;
pub mod local;
pub mod remote;
pub mod state_manager;
pub mod time;
pub mod traits;
pub mod utilities;

pub use crate::traits::{DataResult, ReadOutcome, ResourceError, ResourceFileType, ResourceReader};
