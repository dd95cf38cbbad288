//! The bounded FIFO handoff between the acquisition engine and the
//! transport writer.
//!
//! The queue never holds more than `QUEUE_CAPACITY` blocks. A push on a full
//! queue hands the block back untouched: the producer keeps it and tries again
//! once the consumer has popped, which is the backpressure that stalls the
//! capture loop instead of dropping data. Blocks come out in the order in
//! which they went in.

use vstd::prelude::*;
use crate::block::AudioBlock;
use embassy_sync::blocking_mutex::raw::CriticalSectionRawMutex;
use embassy_sync::channel::{Channel, TrySendError};

verus! {

/// Number of blocks the queue holds at most.
pub const QUEUE_CAPACITY: usize = 4;

/// The outside channel that carries the blocks. Verus does not look inside:
/// what it holds is `channel_contents`, and only the wrappers below touch it.
#[verifier::external_body]
pub struct BlockChannel {
    inner: Channel<CriticalSectionRawMutex, AudioBlock, QUEUE_CAPACITY>,
}

/// The blocks held by a channel, oldest first.
pub uninterp spec fn channel_contents(c: BlockChannel) -> Seq<AudioBlock>;

/// Relies on `Channel::new`: a new channel holds nothing.
#[verifier::external_body]
fn channel_new() -> (c: BlockChannel)
    ensures
        channel_contents(c) == Seq::<AudioBlock>::empty(),
{
    BlockChannel { inner: Channel::new() }
}

/// Relies on `Channel::try_send`: on a channel holding fewer than its
/// capacity the message is appended at the back; on a full one it comes back
/// in `TrySendError::Full` and the channel is left as it was.
#[verifier::external_body]
fn channel_try_send(
    c: &mut BlockChannel,
    b: AudioBlock,
) -> (r: Result<(), AudioBlock>)
    ensures
        channel_contents(*old(c)).len() < QUEUE_CAPACITY ==> r is Ok && channel_contents(*final(c))
            == channel_contents(*old(c)).push(b),
        channel_contents(*old(c)).len() >= QUEUE_CAPACITY ==> r is Err && r->Err_0 == b
            && channel_contents(*final(c)) == channel_contents(*old(c)),
{
    match c.inner.try_send(b) {
        Ok(()) => Ok(()),
        Err(TrySendError::Full(b)) => Err(b),
    }
}

/// Relies on `Channel::try_receive`: the front message is removed and
/// returned; an empty channel gives `TryReceiveError::Empty` and stays empty.
#[verifier::external_body]
fn channel_try_receive(
    c: &mut BlockChannel,
) -> (r: Option<AudioBlock>)
    ensures
        channel_contents(*old(c)).len() > 0 ==> r == Some(channel_contents(*old(c))[0])
            && channel_contents(*final(c)) == channel_contents(*old(c)).drop_first(),
        channel_contents(*old(c)).len() == 0 ==> r is None && channel_contents(*final(c))
            == channel_contents(*old(c)),
{
    c.inner.try_receive().ok()
}

/// Relies on `Channel::len`: the number of messages held.
#[verifier::external_body]
fn channel_len(c: &BlockChannel) -> (r: usize)
    ensures
        r == channel_contents(*c).len(),
{
    c.inner.len()
}

/// What a push does to the queue's contents `s`.
pub open spec fn pushed(s: Seq<AudioBlock>, b: AudioBlock) -> Seq<AudioBlock> {
    if s.len() < QUEUE_CAPACITY {
        s.push(b)
    } else {
        s
    }
}

/// What a pop does to the queue's contents `s`.
pub open spec fn popped(s: Seq<AudioBlock>) -> Seq<AudioBlock> {
    if s.len() > 0 {
        s.drop_first()
    } else {
        s
    }
}

/// Runs a sequence of operations on a queue holding `s`: `Some(b)` tries to
/// push `b`, `None` tries to pop. The result is the final contents, the
/// blocks whose push was accepted, and the blocks popped, each in order.
pub open spec fn run_ops(s: Seq<AudioBlock>, ops: Seq<Option<AudioBlock>>) -> (
    Seq<AudioBlock>,
    Seq<AudioBlock>,
    Seq<AudioBlock>,
)
    decreases ops.len(),
{
    if ops.len() == 0 {
        (s, Seq::empty(), Seq::empty())
    } else {
        let (q, accepted, out) = run_ops(s, ops.drop_last());
        match ops.last() {
            Some(b) => (
                pushed(q, b),
                if q.len() < QUEUE_CAPACITY {
                    accepted.push(b)
                } else {
                    accepted
                },
                out,
            ),
            None => (
                popped(q),
                accepted,
                if q.len() > 0 {
                    out.push(q[0])
                } else {
                    out
                },
            ),
        }
    }
}

/// FIFO order and the bound: whatever the interleaving of pushes and pops,
/// the blocks popped are exactly the oldest of those held or accepted, in
/// the order they went in (`s + accepted == popped + remaining`), and the
/// queue never holds more than its capacity.
pub proof fn lemma_fifo_and_bounded(s: Seq<AudioBlock>, ops: Seq<Option<AudioBlock>>)
    requires
        s.len() <= QUEUE_CAPACITY,
    ensures
        ({
            let (q, accepted, out) = run_ops(s, ops);
            &&& s + accepted == out + q
            &&& q.len() <= QUEUE_CAPACITY
        }),
    decreases ops.len(),
{
    if ops.len() > 0 {
        lemma_fifo_and_bounded(s, ops.drop_last());
        let (q, accepted, out) = run_ops(s, ops.drop_last());
        match ops.last() {
            Some(b) => {
                if q.len() < QUEUE_CAPACITY {
                    assert(s + accepted.push(b) =~= (s + accepted).push(b));
                    assert(out + q.push(b) =~= (out + q).push(b));
                }
            },
            None => {
                if q.len() > 0 {
                    assert(out.push(q[0]) + q.drop_first() =~= out + q);
                }
            },
        }
    }
}

/// Backpressure: a push on a full queue leaves it as it was, so the producer
/// still holds its block; once a pop has made room, the same push is taken.
pub proof fn lemma_full_push_waits_for_pop(s: Seq<AudioBlock>, b: AudioBlock)
    requires
        s.len() == QUEUE_CAPACITY,
    ensures
        pushed(s, b) == s,
        popped(s).len() == QUEUE_CAPACITY - 1,
        pushed(popped(s), b) == s.drop_first().push(b),
{
}

/// The bounded block queue between producer and consumer.
pub struct HandoffQueue {
    channel: BlockChannel,
}

impl View for HandoffQueue {
    type V = Seq<AudioBlock>;

    /// The blocks waiting, oldest first.
    closed spec fn view(&self) -> Seq<AudioBlock> {
        channel_contents(self.channel)
    }
}

impl HandoffQueue {
    /// Well-formed: never more blocks than the capacity.
    pub open spec fn wf(&self) -> bool {
        self@.len() <= QUEUE_CAPACITY
    }

    /// An empty queue.
    pub fn new() -> (q: HandoffQueue)
        ensures
            q.wf(),
            q@ == Seq::<AudioBlock>::empty(),
    {
        HandoffQueue { channel: channel_new() }
    }

    /// Enqueues `b` when there is room; hands it back when the queue is full.
    pub fn try_push(&mut self, b: AudioBlock) -> (r: Result<(), AudioBlock>)
        requires
            old(self).wf(),
        ensures
            final(self).wf(),
            final(self)@ == pushed(old(self)@, b),
            r is Ok <==> old(self)@.len() < QUEUE_CAPACITY,
            r is Err ==> r->Err_0 == b,
    {
        channel_try_send(&mut self.channel, b)
    }

    /// Removes and returns the oldest block, or `None` when the queue is empty.
    pub fn try_pop(&mut self) -> (r: Option<AudioBlock>)
        requires
            old(self).wf(),
        ensures
            final(self).wf(),
            final(self)@ == popped(old(self)@),
            old(self)@.len() > 0 ==> r == Some(old(self)@[0]),
            old(self)@.len() == 0 ==> r is None,
    {
        channel_try_receive(&mut self.channel)
    }

    /// Number of blocks waiting.
    pub fn len(&self) -> (r: usize)
        requires
            self.wf(),
        ensures
            r == self@.len(),
            r <= QUEUE_CAPACITY,
    {
        channel_len(&self.channel)
    }

    /// Whether a push would be refused.
    pub fn is_full(&self) -> (r: bool)
        requires
            self.wf(),
        ensures
            r <==> self@.len() >= QUEUE_CAPACITY,
    {
        self.len() >= QUEUE_CAPACITY
    }
}

} // verus!
