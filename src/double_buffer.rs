//! The lossy double-buffer handoff.
//!
//! Two halves of raw readings alternate: the producer fills the write half and
//! swaps, which makes that half the read half and marks it ready. There is one
//! ready slot, not a queue: when the consumer falls behind, the next swap
//! replaces the unread half, so the consumer always takes the newest completed
//! capture and older unread ones are dropped. The producer never stalls.
//! Sharing between producer and consumer goes through one lock around the
//! whole buffer, held by the caller.

use vstd::prelude::*;

verus! {

/// Number of readings in each half.
pub const HALF_LEN: usize = 128;

/// The two halves as seen from outside.
pub struct HalvesView {
    /// The half the producer writes next.
    pub write_half: Seq<u16>,
    /// The half the consumer reads.
    pub read_half: Seq<u16>,
    /// Whether the read half holds a completed capture not yet taken.
    pub ready: bool,
}

/// The halves after a swap: the written half becomes readable and ready.
pub open spec fn swapped(v: HalvesView) -> HalvesView {
    HalvesView { write_half: v.read_half, read_half: v.write_half, ready: true }
}

/// The halves after the producer filled the write half with `data` and swapped.
pub open spec fn captured(v: HalvesView, data: Seq<u16>) -> HalvesView {
    swapped(HalvesView { write_half: data, read_half: v.read_half, ready: v.ready })
}

/// The halves after a run of captures with no take in between.
pub open spec fn run_captures(v: HalvesView, data: Seq<Seq<u16>>) -> HalvesView
    decreases data.len(),
{
    if data.len() == 0 {
        v
    } else {
        captured(run_captures(v, data.drop_last()), data.last())
    }
}

/// What a take returns: the read half when it is ready.
pub open spec fn taken(v: HalvesView) -> Option<Seq<u16>> {
    if v.ready {
        Some(v.read_half)
    } else {
        None
    }
}

/// Lossy-newest: after one or more captures that the consumer has not taken,
/// a take returns the most recent of them, never an older one.
pub proof fn lemma_take_yields_newest(v: HalvesView, data: Seq<Seq<u16>>)
    requires
        data.len() >= 1,
    ensures
        taken(run_captures(v, data)) == Some(data.last()),
{
}

/// A pair of sample halves with a ready flag.
pub struct CircularBuffer {
    buffer1: [u16; HALF_LEN],
    buffer2: [u16; HALF_LEN],
    current_buffer: bool,
    read_ready: bool,
}

impl View for CircularBuffer {
    type V = HalvesView;

    closed spec fn view(&self) -> HalvesView {
        HalvesView {
            write_half: if self.current_buffer {
                self.buffer2@
            } else {
                self.buffer1@
            },
            read_half: if self.current_buffer {
                self.buffer1@
            } else {
                self.buffer2@
            },
            ready: self.read_ready,
        }
    }
}

impl CircularBuffer {
    /// Both halves zero, nothing ready.
    pub fn new() -> (r: CircularBuffer)
        ensures
            r@.write_half == Seq::new(HALF_LEN as nat, |i: int| 0u16),
            r@.read_half == Seq::new(HALF_LEN as nat, |i: int| 0u16),
            !r@.ready,
    {
        let r = CircularBuffer {
            buffer1: [0u16; HALF_LEN],
            buffer2: [0u16; HALF_LEN],
            current_buffer: false,
            read_ready: false,
        };
        assert(r@.write_half =~= Seq::new(HALF_LEN as nat, |i: int| 0u16));
        assert(r@.read_half =~= Seq::new(HALF_LEN as nat, |i: int| 0u16));
        r
    }

    /// Exclusive access to the half the producer fills next; whatever is
    /// written through it becomes the write half, the rest stays.
    pub fn get_write_buffer(&mut self) -> (r: &mut [u16])
        ensures
            r@ == old(self)@.write_half,
            r@.len() == HALF_LEN,
            final(self)@ == (HalvesView {
                write_half: final(r)@,
                read_half: old(self)@.read_half,
                ready: old(self)@.ready,
            }),
    {
        if self.current_buffer {
            &mut self.buffer2
        } else {
            &mut self.buffer1
        }
    }

    /// The half the consumer reads.
    pub fn get_read_buffer(&self) -> (r: &[u16])
        ensures
            r@ == self@.read_half,
    {
        if self.current_buffer {
            &self.buffer1
        } else {
            &self.buffer2
        }
    }

    /// Makes the written half readable and marks it ready.
    pub fn swap_buffers(&mut self)
        ensures
            final(self)@ == swapped(old(self)@),
    {
        self.current_buffer = !self.current_buffer;
        self.read_ready = true;
    }

    /// Marks the read half as taken.
    pub fn consume_read_buffer(&mut self)
        ensures
            final(self)@ == (HalvesView { ready: false, ..old(self)@ }),
    {
        self.read_ready = false;
    }

    /// Whether a completed capture waits to be taken.
    pub fn has_data(&self) -> (r: bool)
        ensures
            r == self@.ready,
    {
        self.read_ready
    }

    /// Takes a copy of the ready half and clears the ready flag, or reports
    /// that nothing is ready and changes nothing.
    pub fn try_take_ready(&mut self) -> (r: Option<[u16; HALF_LEN]>)
        ensures
            r matches Some(d) ==> taken(old(self)@) == Some(d@),
            r is None ==> taken(old(self)@) is None,
            final(self)@ == (HalvesView { ready: false, ..old(self)@ }),
    {
        if self.read_ready {
            let d = if self.current_buffer {
                self.buffer1
            } else {
                self.buffer2
            };
            self.read_ready = false;
            Some(d)
        } else {
            None
        }
    }
}

} // verus!
