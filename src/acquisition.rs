//! The acquisition engine's decisions.
//!
//! The capture loop itself awaits the converter and lives with the hardware;
//! after each conversion it hands the outcome here. A successful conversion
//! becomes a block numbered one past the previous one and stamped with the
//! completion time; a failed one yields no block, leaves the numbering alone,
//! and tells the loop to back off before trying again.

use vstd::prelude::*;
use crate::block::{AudioBlock, SAMPLES_PER_BLOCK};

verus! {

/// Milliseconds to wait after a failed conversion.
pub const BACKOFF_MS: u64 = 1;

/// A block is logged when its id is a multiple of this.
pub const LOG_EVERY: u32 = 100;

/// A failed block conversion.
#[derive(Clone, Copy, Debug, PartialEq, Eq, Structural)]
pub struct ConversionError;

/// The clock divisor that paces the converter at `rate_hz` from a clock of
/// `clock_hz`: `clock_hz / rate_hz - 1`.
pub fn sample_rate_divisor(clock_hz: u32, rate_hz: u32) -> (r: u16)
    requires
        0 < rate_hz <= clock_hz,
        clock_hz / rate_hz - 1 <= u16::MAX,
    ensures
        r == clock_hz / rate_hz - 1,
{
    assert(clock_hz / rate_hz >= 1) by (nonlinear_arith)
        requires
            0 < rate_hz <= clock_hz,
    ;
    (clock_hz / rate_hz - 1) as u16
}

/// Whether a delivered block is one of those reported in the log.
pub fn should_log(block_id: u32) -> (r: bool)
    ensures
        r <==> block_id % LOG_EVERY == 0,
{
    block_id % LOG_EVERY == 0
}

/// The id of the last block delivered after one more conversion.
pub open spec fn next_last_id(last: int, ok: bool) -> int {
    if ok {
        last + 1
    } else {
        last
    }
}

/// The last id after a run of conversions that began with `last`;
/// `ok[i]` says whether conversion `i` succeeded.
pub open spec fn last_id_after(last: int, ok: Seq<bool>) -> int
    decreases ok.len(),
{
    if ok.len() == 0 {
        last
    } else {
        next_last_id(last_id_after(last, ok.drop_last()), ok.last())
    }
}

/// The ids of the blocks a run of conversions delivers, in order: each
/// success delivers the id one past the last id before it, as
/// `Acquisition::on_conversion` does.
pub open spec fn delivered_ids(last: int, ok: Seq<bool>) -> Seq<int>
    decreases ok.len(),
{
    if ok.len() == 0 {
        Seq::empty()
    } else {
        let before = delivered_ids(last, ok.drop_last());
        if ok.last() {
            before.push(last_id_after(last, ok.drop_last()) + 1)
        } else {
            before
        }
    }
}

/// Number of successful conversions in a run.
pub open spec fn successes(ok: Seq<bool>) -> nat
    decreases ok.len(),
{
    if ok.len() == 0 {
        0
    } else {
        successes(ok.drop_last()) + if ok.last() {
            1nat
        } else {
            0nat
        }
    }
}

/// Monotonic ids: whatever failures come between them, the blocks a run
/// delivers carry the ids `last + 1, last + 2, ...`, one per success, each one
/// more than the one before, and the engine ends at `last + successes`.
pub proof fn lemma_ids_contiguous(last: int, ok: Seq<bool>)
    ensures
        delivered_ids(last, ok) == Seq::new(successes(ok), |i: int| last + 1 + i),
        last_id_after(last, ok) == last + successes(ok),
        forall|i: int|
            0 <= i < delivered_ids(last, ok).len() - 1 ==> #[trigger] delivered_ids(last, ok)[i
                + 1] == delivered_ids(last, ok)[i] + 1,
    decreases ok.len(),
{
    if ok.len() > 0 {
        lemma_ids_contiguous(last, ok.drop_last());
    }
    assert(delivered_ids(last, ok) =~= Seq::new(successes(ok), |i: int| last + 1 + i));
}

/// The sequence counter of the acquisition engine.
pub struct Acquisition {
    last_block_id: u32,
}

impl Acquisition {
    /// No block delivered yet: the first one will carry id 1.
    pub fn new() -> (r: Acquisition)
        ensures
            r.last_id() == 0,
    {
        Acquisition { last_block_id: 0 }
    }

    /// The id of the last block delivered, 0 before the first.
    pub closed spec fn last_id(&self) -> u32 {
        self.last_block_id
    }

    /// The id of the last block delivered, 0 before the first.
    pub fn last_block_id(&self) -> (r: u32)
        ensures
            r == self.last_id(),
    {
        self.last_block_id
    }

    /// Whether another block can still get a fresh id.
    pub fn can_number(&self) -> (r: bool)
        ensures
            r <==> self.last_id() < u32::MAX,
    {
        self.last_block_id < u32::MAX
    }

    /// Handles the outcome of one block conversion into `samples`, completed
    /// at `timestamp` microseconds. On success the block is returned with the
    /// next id; on failure there is no block, the id stays, and the caller
    /// backs off for `BACKOFF_MS` before converting again.
    pub fn on_conversion(
        &mut self,
        outcome: Result<(), ConversionError>,
        samples: [u16; SAMPLES_PER_BLOCK],
        timestamp: u64,
    ) -> (r: Option<AudioBlock>)
        requires
            outcome is Ok ==> old(self).last_id() < u32::MAX,
        ensures
            final(self).last_id() == next_last_id(old(self).last_id() as int, outcome is Ok),
            outcome is Ok ==> r == Some(
                AudioBlock { samples, block_id: final(self).last_id(), timestamp },
            ),
            outcome is Err ==> r is None,
    {
        match outcome {
            Ok(()) => {
                self.last_block_id = self.last_block_id + 1;
                Some(AudioBlock { samples, block_id: self.last_block_id, timestamp })
            },
            Err(_) => None,
        }
    }
}

} // verus!
