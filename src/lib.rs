//! Mirrors a source directory tree into a destination tree: every decodable
//! image is re-encoded, every other file is copied byte for byte, and every
//! directory (or symbolic link followed as one) is recreated.
//!
//! The library holds the decisions of that pipeline: where each entry goes,
//! what is done to it, which failures are fatal, and which fatal error a run
//! reports. The walking, decoding, copying and threading are done by the
//! program around it, which hands the library plain values.
pub mod entry_path;
pub mod materialize;
pub mod outcome;
pub mod task;

pub use entry_path::EntryPath;
pub use materialize::{Command, FileWrite, Probe, after_effect, after_probe, first_command};
pub use outcome::{ErrorSlot, FatalKind, Outcome};
pub use task::{EntryKind, Task, classify};

use vstd::prelude::*;

verus! {

/// How many discovered tasks may wait in the work queue before the tree walk
/// is held back.
pub const QUEUE_CAPACITY: usize = 100;

} // verus!
