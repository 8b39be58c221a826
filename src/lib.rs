//! A small logging backend: a process-wide severity filter chosen at start-up
//! (or from the `GALACTA_LOG_LEVEL` environment variable), a one-time
//! registration slot, and a fixed human-readable rendering of each event.
use vstd::prelude::*;

pub mod level;
pub mod logger;
pub mod render;

verus! {

} // verus!
