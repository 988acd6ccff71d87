//! Builder pools.
//!
//! Two architectures live side by side, mostly for comparison: `v1` keeps its
//! idle builders in a plain vector meant to sit behind one process-wide lock,
//! and `v3` keeps them in a bounded lock-free queue, either process-wide or
//! owned locally by one call site.

pub mod queue;
pub mod release;
pub mod v1;
pub mod v3;

