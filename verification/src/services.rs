//! The long-running services, and the rules by which they take or skip a block.
use vstd::prelude::*;

verus! {

/// Indexes the events and extrinsics of each new block.
#[derive(Default)]
pub struct BlockProcessor;

/// Serves the reports.
#[derive(Default)]
pub struct ReportService;

/// Rebuilds the validator list at each finalized block.
#[derive(Default)]
pub struct ValidatorListUpdater;

impl ValidatorListUpdater {
    /// Takes a finalized header: a run starts unless one is still going, in which
    /// case the header is skipped and nothing changes.
    pub fn try_start(is_busy: &mut bool) -> (started: bool)
        ensures
            started == !*old(is_busy),
            *final(is_busy),
    {
        if *is_busy {
            false
        } else {
            *is_busy = true;
            true
        }
    }

    /// Ends a run, whether it succeeded or not.
    pub fn finish(is_busy: &mut bool)
        ensures
            !*final(is_busy),
    {
        *is_busy = false;
    }
}

impl ReportService {
    /// Whether the summary of a finalized block repeats the last one taken in, so
    /// that it is skipped.
    pub fn is_duplicate(last_finalized_block_number: u64, finalized_block_number: u64) -> (duplicate:
        bool)
        ensures
            duplicate == (last_finalized_block_number == finalized_block_number),
    {
        last_finalized_block_number == finalized_block_number
    }
}

} // verus!
