//! Incremental copying of freshly modified files, driven by a persisted cutoff.
//!
//! The library holds the decisions: which walked entries are candidates, how the
//! cutoff marker is written and read back, and which candidates get copied.
//! Walking the disk, copying bytes and reading the clock are left to the caller.
use vstd::prelude::*;

pub mod cli;
pub mod copy_plan;
pub mod file_discovery;
pub mod json;
pub mod marker;
pub mod timestamp;

pub use cli::{join_path, Args};
pub use copy_plan::{plan_copies, CopyAction, CopyPlan};
pub use file_discovery::{
    DiscoverError, FileDiscoverer, FileInfo, WalkEntry, WalkFailure, WalkItem,
};
pub use json::{member_index, JsonEntry, JsonField};
pub use marker::{frame_document, Marker, MarkerError};
pub use timestamp::Timestamp;
