//! The cluster clock values the instructions read.

use vstd::prelude::*;

verus! {

/// Slot, epoch and unix time at which an instruction runs.
#[derive(Clone, Copy, Debug)]
pub struct Clock {
    /// Current slot.
    pub slot: u64,
    /// Current epoch.
    pub epoch: u64,
    /// Current unix time in seconds.
    pub unix_timestamp: i64,
}

} // verus!
