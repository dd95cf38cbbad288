//! The unit of captured data and its byte form on the link.

use vstd::prelude::*;

verus! {

/// Number of readings in one block.
pub const SAMPLES_PER_BLOCK: usize = 512;

/// Number of bytes a block occupies on the link: two per reading.
pub const BLOCK_BYTES: usize = 1024;

/// One block of readings, numbered by the acquisition engine and stamped
/// with the capture-completion time in microseconds.
#[derive(Clone, Copy, Debug)]
pub struct AudioBlock {
    pub samples: [u16; SAMPLES_PER_BLOCK],
    pub block_id: u32,
    pub timestamp: u64,
}

/// The little-endian byte form of a sequence of readings: reading `i`
/// becomes bytes `2 * i` (low) and `2 * i + 1` (high).
pub open spec fn le_bytes(s: Seq<u16>) -> Seq<u8> {
    Seq::new(
        2 * s.len(),
        |i: int| if i % 2 == 0 { (s[i / 2] % 256) as u8 } else { (s[i / 2] / 256) as u8 },
    )
}

impl AudioBlock {
    /// An empty block: all readings zero, id zero, time zero.
    pub fn new() -> (r: AudioBlock)
        ensures
            r.samples@ == Seq::new(SAMPLES_PER_BLOCK as nat, |i: int| 0u16),
            r.block_id == 0,
            r.timestamp == 0,
    {
        let r = AudioBlock { samples: [0u16; SAMPLES_PER_BLOCK], block_id: 0, timestamp: 0 };
        assert(r.samples@ =~= Seq::new(SAMPLES_PER_BLOCK as nat, |i: int| 0u16));
        r
    }

    /// The block's readings as bytes, in the link's byte order.
    pub fn to_bytes(&self) -> (r: Vec<u8>)
        ensures
            r@ == le_bytes(self.samples@),
            r@.len() == BLOCK_BYTES,
    {
        samples_to_le_bytes(&self.samples)
    }
}

/// Serialises readings to bytes, low byte first.
pub fn samples_to_le_bytes(samples: &[u16]) -> (r: Vec<u8>)
    requires
        samples@.len() <= usize::MAX / 2,
    ensures
        r@ == le_bytes(samples@),
{
    let mut out: Vec<u8> = Vec::with_capacity(2 * samples.len());
    let mut i: usize = 0;
    while i < samples.len()
        invariant
            i <= samples@.len(),
            samples@.len() <= usize::MAX / 2,
            out@ =~= le_bytes(samples@.take(i as int)),
        decreases samples@.len() - i,
    {
        let x = samples[i];
        out.push((x % 256) as u8);
        out.push((x / 256) as u8);
        i = i + 1;
        assert(out@ =~= le_bytes(samples@.take(i as int)));
    }
    assert(samples@.take(samples@.len() as int) =~= samples@);
    out
}

} // verus!
