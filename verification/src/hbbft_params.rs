//! Parameters of the Honey Badger BFT engine in a chain specification.

use vstd::prelude::*;

verus! {

/// Hbbft parameters.
#[derive(Clone, Copy, Debug, PartialEq, Eq)]
pub struct HbbftParams {
    /// The minimum time duration between blocks, in seconds.
    pub minimum_block_time: u64,
    /// The length of the transaction queue at which block creation should be triggered.
    pub transaction_queue_size_trigger: usize,
    /// Should be true when running unit tests to avoid starting timers.
    pub is_unit_test: Option<bool>,
}

/// Hbbft engine config.
#[derive(Clone, Copy, Debug, PartialEq, Eq)]
pub struct Hbbft {
    /// Hbbft parameters.
    pub params: HbbftParams,
}

} // verus!
