//! The transport writer's decisions.
//!
//! The writer is a state machine driven by what the link reports. The loop
//! that owns the link performs each action the writer returns (wait for a host,
//! take the next block from the handoff, write one chunk after making sure the
//! host is still there) and feeds the outcome back as the next event.
//!
//! A block, handed over as its bytes, goes out in chunks of at most
//! `max_chunk` bytes, strictly in order, and counts as sent once every chunk
//! is written. A failed chunk write abandons the rest
//! of the block, counts one error for it, and sends the writer back to wait
//! for a connection; after reconnecting it starts on a fresh block, so nothing
//! of the abandoned one follows.

use vstd::prelude::*;
use crate::monitor::{MonitorView, StatsReport, ThroughputMonitor, bumped, polled};

verus! {

/// Largest payload of one write on the link.
pub const MAX_CHUNK: usize = 64;

/// Where the writer stands.
#[derive(Clone, Copy, Debug, PartialEq, Eq, Structural)]
pub enum WriterPhase {
    /// No host; waiting for one.
    AwaitingConnection,
    /// Connected, between blocks.
    Idle,
    /// Connected, a block partly written.
    Sending,
}

/// What the link loop reports after performing an action.
#[derive(Debug)]
pub enum LinkEvent {
    /// A host is connected.
    Connected,
    /// The next block was taken from the handoff; these are its bytes.
    BlockTaken(Vec<u8>),
    /// The chunk last asked for was written.
    ChunkWritten,
    /// Writing the chunk last asked for failed.
    WriteFailed,
}

/// What the link loop does next.
#[derive(Debug)]
pub enum WriterAction {
    /// Wait until a host is connected.
    WaitForConnection,
    /// Take the next block from the handoff, waiting for one if need be.
    TakeBlock,
    /// Make sure the host is still connected, then write these bytes.
    WriteChunk(Vec<u8>),
}

/// An event as a mathematical value.
pub enum EventView {
    Connected,
    BlockTaken(Seq<u8>),
    ChunkWritten,
    WriteFailed,
}

impl View for LinkEvent {
    type V = EventView;

    open spec fn view(&self) -> EventView {
        match self {
            LinkEvent::Connected => EventView::Connected,
            LinkEvent::BlockTaken(p) => EventView::BlockTaken(p@),
            LinkEvent::ChunkWritten => EventView::ChunkWritten,
            LinkEvent::WriteFailed => EventView::WriteFailed,
        }
    }
}

/// An action as a mathematical value.
pub enum ActionView {
    WaitForConnection,
    TakeBlock,
    WriteChunk(Seq<u8>),
}

impl View for WriterAction {
    type V = ActionView;

    open spec fn view(&self) -> ActionView {
        match self {
            WriterAction::WaitForConnection => ActionView::WaitForConnection,
            WriterAction::TakeBlock => ActionView::TakeBlock,
            WriterAction::WriteChunk(c) => ActionView::WriteChunk(c@),
        }
    }
}

/// The end of the chunk that starts at `offset` in a payload of `len` bytes.
pub open spec fn chunk_end(offset: int, len: int, c: int) -> int {
    if offset + c < len {
        offset + c
    } else {
        len
    }
}

/// The chunk of `p` that starts at `offset`.
pub open spec fn chunk_at(p: Seq<u8>, offset: int, c: int) -> Seq<u8> {
    p.subrange(offset, chunk_end(offset, p.len() as int, c))
}

/// The chunks written for `p` from `offset` on, in order.
pub open spec fn chunk_plan(p: Seq<u8>, offset: int, c: int) -> Seq<Seq<u8>>
    decreases p.len() - offset,
{
    if c <= 0 || offset < 0 || offset >= p.len() {
        Seq::empty()
    } else {
        seq![chunk_at(p, offset, c)] + chunk_plan(p, chunk_end(offset, p.len() as int, c), c)
    }
}

/// The writer's state as seen from outside.
pub struct WriterView {
    pub phase: WriterPhase,
    /// Bytes of the block being written; empty between blocks.
    pub payload: Seq<u8>,
    /// Bytes of the payload confirmed written; the chunk in flight starts here.
    pub offset: int,
    pub max_chunk: int,
    pub stats: MonitorView,
}

/// The shape every reachable writer state has.
pub open spec fn writer_wf(v: WriterView) -> bool {
    &&& 0 < v.max_chunk <= usize::MAX
    &&& v.phase == WriterPhase::Sending ==> 0 <= v.offset < v.payload.len()
    &&& v.phase != WriterPhase::Sending ==> v.payload.len() == 0 && v.offset == 0
}

/// One step of the writer: the state after `e`, and the action it asks for.
/// An event that the phase does not expect changes nothing and repeats the
/// action pending.
pub open spec fn writer_step(v: WriterView, e: EventView) -> (WriterView, ActionView) {
    match v.phase {
        WriterPhase::AwaitingConnection => match e {
            EventView::Connected => (
                WriterView { phase: WriterPhase::Idle, ..v },
                ActionView::TakeBlock,
            ),
            _ => (v, ActionView::WaitForConnection),
        },
        WriterPhase::Idle => match e {
            EventView::BlockTaken(p) => if p.len() == 0 {
                (
                    WriterView { stats: MonitorView { ok: bumped(v.stats.ok), ..v.stats }, ..v },
                    ActionView::TakeBlock,
                )
            } else {
                (
                    WriterView { phase: WriterPhase::Sending, payload: p, offset: 0, ..v },
                    ActionView::WriteChunk(chunk_at(p, 0, v.max_chunk)),
                )
            },
            _ => (v, ActionView::TakeBlock),
        },
        WriterPhase::Sending => match e {
            EventView::ChunkWritten => {
                let end = chunk_end(v.offset, v.payload.len() as int, v.max_chunk);
                if end >= v.payload.len() {
                    (
                        WriterView {
                            phase: WriterPhase::Idle,
                            payload: Seq::empty(),
                            offset: 0,
                            stats: MonitorView { ok: bumped(v.stats.ok), ..v.stats },
                            ..v
                        },
                        ActionView::TakeBlock,
                    )
                } else {
                    (
                        WriterView { offset: end, ..v },
                        ActionView::WriteChunk(chunk_at(v.payload, end, v.max_chunk)),
                    )
                }
            },
            EventView::WriteFailed => (
                WriterView {
                    phase: WriterPhase::AwaitingConnection,
                    payload: Seq::empty(),
                    offset: 0,
                    stats: MonitorView { err: bumped(v.stats.err), ..v.stats },
                    ..v
                },
                ActionView::WaitForConnection,
            ),
            _ => (v, ActionView::WriteChunk(chunk_at(v.payload, v.offset, v.max_chunk))),
        },
    }
}

/// Runs the writer from `v` through the events `es`: the final state and the
/// actions asked for, one per event.
pub open spec fn run_writer(v: WriterView, es: Seq<EventView>) -> (WriterView, Seq<ActionView>)
    decreases es.len(),
{
    if es.len() == 0 {
        (v, Seq::empty())
    } else {
        let (next, a) = writer_step(v, es[0]);
        let (last, rest) = run_writer(next, es.drop_first());
        (last, seq![a] + rest)
    }
}

/// The write action for each chunk of a plan.
pub open spec fn chunk_writes(plan: Seq<Seq<u8>>) -> Seq<ActionView> {
    plan.map_values(|ch: Seq<u8>| ActionView::WriteChunk(ch))
}

proof fn lemma_chunk_plan_from(p: Seq<u8>, o: int, c: int)
    requires
        c > 0,
        0 <= o <= p.len(),
    ensures
        chunk_plan(p, o, c).len() == (p.len() - o + c - 1) / c,
        forall|i: int|
            0 <= i < chunk_plan(p, o, c).len() - 1 ==> #[trigger] chunk_plan(p, o, c)[i].len()
                == c,
        chunk_plan(p, o, c).len() > 0 ==> 0 < chunk_plan(p, o, c).last().len() <= c,
        chunk_plan(p, o, c).flatten() == p.subrange(o, p.len() as int),
    decreases p.len() - o,
{
    let len = p.len() as int;
    if o < len {
        let e = chunk_end(o, len, c);
        lemma_chunk_plan_from(p, e, c);
        let rest = chunk_plan(p, e, c);
        let plan = chunk_plan(p, o, c);
        assert(plan.drop_first() =~= rest);
        assert(p.subrange(o, e) + p.subrange(e, len) =~= p.subrange(o, len));
        if e == len {
            assert((len - o + c - 1) / c == 1) by (nonlinear_arith)
                requires
                    0 < len - o <= c,
            ;
        } else {
            assert((len - o + c - 1) / c == (len - e + c - 1) / c + 1) by (nonlinear_arith)
                requires
                    e == o + c,
                    e < len,
                    c > 0,
            ;
        }
        assert forall|i: int| 0 <= i < plan.len() - 1 implies #[trigger] plan[i].len() == c by {
            if i > 0 {
                assert(plan[i] == rest[i - 1]);
            }
        }
    } else {
        assert((len - o + c - 1) / c == 0) by (nonlinear_arith)
            requires
                len == o,
                c > 0,
        ;
        assert(p.subrange(o, len) =~= Seq::<u8>::empty());
    }
}

/// Chunk boundaries: a payload of `L` bytes with chunks of at most `c` bytes
/// goes out as `ceil(L / c)` chunks, each of exactly `c` bytes but the last,
/// which holds between 1 and `c`, and the chunks joined in order give back
/// the payload with nothing lost, repeated or moved.
pub proof fn lemma_chunk_boundaries(p: Seq<u8>, c: int)
    requires
        c > 0,
    ensures
        chunk_plan(p, 0, c).len() == (p.len() + c - 1) / c,
        forall|i: int|
            0 <= i < chunk_plan(p, 0, c).len() - 1 ==> #[trigger] chunk_plan(p, 0, c)[i].len()
                == c,
        chunk_plan(p, 0, c).len() > 0 ==> 0 < chunk_plan(p, 0, c).last().len() <= c,
        chunk_plan(p, 0, c).flatten() == p,
{
    lemma_chunk_plan_from(p, 0, c);
    assert(p.subrange(0, p.len() as int) =~= p);
}

proof fn lemma_drain(v: WriterView)
    requires
        writer_wf(v),
        v.phase == WriterPhase::Sending,
    ensures
        ({
            let plan = chunk_plan(v.payload, v.offset, v.max_chunk);
            let (last, acts) = run_writer(
                v,
                Seq::new(plan.len(), |i: int| EventView::ChunkWritten),
            );
            &&& last == (WriterView {
                phase: WriterPhase::Idle,
                payload: Seq::empty(),
                offset: 0,
                stats: MonitorView { ok: bumped(v.stats.ok), ..v.stats },
                ..v
            })
            &&& acts == chunk_writes(plan.drop_first()) + seq![ActionView::TakeBlock]
        }),
    decreases v.payload.len() - v.offset,
{
    let plan = chunk_plan(v.payload, v.offset, v.max_chunk);
    let es = Seq::new(plan.len(), |i: int| EventView::ChunkWritten);
    let (next, a) = writer_step(v, EventView::ChunkWritten);
    let end = chunk_end(v.offset, v.payload.len() as int, v.max_chunk);
    let rest = chunk_plan(v.payload, end, v.max_chunk);
    assert(plan.drop_first() =~= rest);
    assert(es.drop_first() =~= Seq::new(rest.len(), |i: int| EventView::ChunkWritten));
    if end >= v.payload.len() {
        assert(rest.len() == 0);
        assert(run_writer(next, es.drop_first()).1 =~= Seq::<ActionView>::empty());
        assert(chunk_writes(rest) =~= Seq::<ActionView>::empty());
    } else {
        lemma_drain(next);
        assert(chunk_writes(rest) =~= seq![a] + chunk_writes(rest.drop_first()));
    }
    assert(run_writer(v, es).1 =~= chunk_writes(plan.drop_first()) + seq![ActionView::TakeBlock]);
}

/// A block written without failures goes out exactly as its chunk plan: from
/// a connected writer between blocks, taking a block of bytes `p` and then
/// seeing every chunk written makes the writer ask for the chunks of `p` in
/// order, then for the next block, with one more block counted as written.
pub proof fn lemma_block_sent_as_planned(v: WriterView, p: Seq<u8>)
    requires
        writer_wf(v),
        v.phase == WriterPhase::Idle,
        p.len() > 0,
    ensures
        ({
            let plan = chunk_plan(p, 0, v.max_chunk);
            let es = seq![EventView::BlockTaken(p)] + Seq::new(
                plan.len(),
                |i: int| EventView::ChunkWritten,
            );
            let (last, acts) = run_writer(v, es);
            &&& acts == chunk_writes(plan) + seq![ActionView::TakeBlock]
            &&& last.phase == WriterPhase::Idle
            &&& last.stats.ok == bumped(v.stats.ok)
            &&& last.stats.err == v.stats.err
        }),
{
    let plan = chunk_plan(p, 0, v.max_chunk);
    let es = seq![EventView::BlockTaken(p)] + Seq::new(
        plan.len(),
        |i: int| EventView::ChunkWritten,
    );
    let (next, a) = writer_step(v, EventView::BlockTaken(p));
    assert(es[0] == EventView::BlockTaken(p));
    assert(es.drop_first() =~= Seq::new(plan.len(), |i: int| EventView::ChunkWritten));
    lemma_drain(next);
    assert(chunk_writes(plan) =~= seq![a] + chunk_writes(plan.drop_first()));
    assert(run_writer(v, es).1 =~= chunk_writes(plan) + seq![ActionView::TakeBlock]);
}

proof fn lemma_waiting(v: WriterView, es: Seq<EventView>)
    requires
        v.phase == WriterPhase::AwaitingConnection,
        forall|i: int| 0 <= i < es.len() ==> !(#[trigger] es[i] is Connected),
    ensures
        run_writer(v, es) == (v, Seq::new(es.len(), |i: int| ActionView::WaitForConnection)),
    decreases es.len(),
{
    if es.len() > 0 {
        assert(!(es[0] is Connected));
        assert forall|i: int| 0 <= i < es.drop_first().len() implies !(
        #[trigger] es.drop_first()[i] is Connected) by {
            assert(es.drop_first()[i] == es[i + 1]);
        }
        lemma_waiting(v, es.drop_first());
        assert(seq![ActionView::WaitForConnection] + Seq::new(
            es.drop_first().len(),
            |i: int| ActionView::WaitForConnection,
        ) =~= Seq::new(es.len(), |i: int| ActionView::WaitForConnection));
    }
}

/// Resynchronisation on failure: a failed write in the middle of a block drops
/// the rest of that block, counts one error, and sends the writer back to wait
/// for a host. Until the link reports a connection, whatever else it reports,
/// the writer only asks to wait. Once connected it asks for a fresh block, and
/// its next write is the first chunk of that block: nothing of the abandoned
/// block follows.
pub proof fn lemma_resync_on_failure(v: WriterView, waiting: Seq<EventView>, p: Seq<u8>)
    requires
        writer_wf(v),
        v.phase == WriterPhase::Sending,
        p.len() > 0,
        forall|i: int| 0 <= i < waiting.len() ==> !(#[trigger] waiting[i] is Connected),
    ensures
        ({
            let (down, a) = writer_step(v, EventView::WriteFailed);
            let (up, a_up) = writer_step(down, EventView::Connected);
            let (fresh, a_fresh) = writer_step(up, EventView::BlockTaken(p));
            &&& a == ActionView::WaitForConnection
            &&& down.phase == WriterPhase::AwaitingConnection
            &&& down.payload.len() == 0
            &&& down.stats.err == bumped(v.stats.err)
            &&& down.stats.ok == v.stats.ok
            &&& run_writer(down, waiting) == (down, Seq::new(
                waiting.len(),
                |i: int| ActionView::WaitForConnection,
            ))
            &&& a_up == ActionView::TakeBlock
            &&& up.phase == WriterPhase::Idle
            &&& fresh.payload == p
            &&& fresh.offset == 0
            &&& a_fresh == ActionView::WriteChunk(chunk_at(p, 0, v.max_chunk))
        }),
{
    let (down, a) = writer_step(v, EventView::WriteFailed);
    lemma_waiting(down, waiting);
}

/// Copies the chunk of `p` that starts at `start`.
fn copy_chunk(p: &Vec<u8>, start: usize, c: usize) -> (r: Vec<u8>)
    requires
        start <= p@.len(),
        c > 0,
    ensures
        r@ == chunk_at(p@, start as int, c as int),
{
    let end = next_chunk_end(start, p.len(), c);
    let mut out: Vec<u8> = Vec::new();
    let mut i: usize = start;
    while i < end
        invariant
            start <= i <= end,
            end == chunk_end(start as int, p@.len() as int, c as int),
            end <= p@.len(),
            out@ =~= p@.subrange(start as int, i as int),
        decreases end - i,
    {
        out.push(p[i]);
        i = i + 1;
    }
    out
}

/// The end of the chunk that starts at `offset` in a payload of `len` bytes.
fn next_chunk_end(offset: usize, len: usize, c: usize) -> (r: usize)
    requires
        offset <= len,
    ensures
        r == chunk_end(offset as int, len as int, c as int),
        offset <= r <= len,
{
    if c < len - offset {
        offset + c
    } else {
        len
    }
}

/// The transport writer: its phase, the block in flight, and its counters.
pub struct TransportWriter {
    phase: WriterPhase,
    payload: Vec<u8>,
    offset: usize,
    max_chunk: usize,
    stats: ThroughputMonitor,
}

impl View for TransportWriter {
    type V = WriterView;

    closed spec fn view(&self) -> WriterView {
        WriterView {
            phase: self.phase,
            payload: self.payload@,
            offset: self.offset as int,
            max_chunk: self.max_chunk as int,
            stats: self.stats@,
        }
    }
}

impl TransportWriter {
    /// A writer waiting for its first connection, writing chunks of at most
    /// `max_chunk` bytes, its reporting interval starting at `now_us`.
    pub fn new(max_chunk: usize, now_us: u64) -> (r: TransportWriter)
        requires
            max_chunk > 0,
        ensures
            writer_wf(r@),
            r@ == (WriterView {
                phase: WriterPhase::AwaitingConnection,
                payload: Seq::empty(),
                offset: 0,
                max_chunk: max_chunk as int,
                stats: MonitorView { ok: 0, err: 0, window_start: now_us },
            }),
    {
        let r = TransportWriter {
            phase: WriterPhase::AwaitingConnection,
            payload: Vec::new(),
            offset: 0,
            max_chunk,
            stats: ThroughputMonitor::new(now_us),
        };
        assert(r@.payload =~= Seq::<u8>::empty());
        r
    }

    /// Well-formed: the shape every reachable writer state has.
    pub open spec fn wf(&self) -> bool {
        writer_wf(self@)
    }

    /// Takes in what the link reported and returns what to do next.
    pub fn step(&mut self, event: LinkEvent) -> (r: WriterAction)
        requires
            old(self).wf(),
        ensures
            final(self).wf(),
            (final(self)@, r@) == writer_step(old(self)@, event@),
    {
        match self.phase {
            WriterPhase::AwaitingConnection => match event {
                LinkEvent::Connected => {
                    self.phase = WriterPhase::Idle;
                    WriterAction::TakeBlock
                },
                _ => WriterAction::WaitForConnection,
            },
            WriterPhase::Idle => match event {
                LinkEvent::BlockTaken(p) => {
                    if p.len() == 0 {
                        self.stats.record_ok();
                        WriterAction::TakeBlock
                    } else {
                        let chunk = copy_chunk(&p, 0, self.max_chunk);
                        self.payload = p;
                        self.offset = 0;
                        self.phase = WriterPhase::Sending;
                        WriterAction::WriteChunk(chunk)
                    }
                },
                _ => WriterAction::TakeBlock,
            },
            WriterPhase::Sending => match event {
                LinkEvent::ChunkWritten => {
                    let end = next_chunk_end(self.offset, self.payload.len(), self.max_chunk);
                    if end >= self.payload.len() {
                        self.stats.record_ok();
                        self.payload = Vec::new();
                        self.offset = 0;
                        self.phase = WriterPhase::Idle;
                        proof {
                            assert(self@.payload =~= Seq::<u8>::empty());
                        }
                        WriterAction::TakeBlock
                    } else {
                        self.offset = end;
                        WriterAction::WriteChunk(copy_chunk(&self.payload, end, self.max_chunk))
                    }
                },
                LinkEvent::WriteFailed => {
                    self.stats.record_err();
                    self.payload = Vec::new();
                    self.offset = 0;
                    self.phase = WriterPhase::AwaitingConnection;
                    proof {
                        assert(self@.payload =~= Seq::<u8>::empty());
                    }
                    WriterAction::WaitForConnection
                },
                _ => WriterAction::WriteChunk(copy_chunk(&self.payload, self.offset, self.max_chunk)),
            },
        }
    }

    /// Where the writer stands.
    pub fn phase(&self) -> (r: WriterPhase)
        ensures
            r == self@.phase,
    {
        self.phase
    }

    /// Blocks written whole so far.
    pub fn blocks_ok(&self) -> (r: u32)
        ensures
            r == self@.stats.ok,
    {
        self.stats.ok_count()
    }

    /// Blocks abandoned on a write error so far.
    pub fn blocks_err(&self) -> (r: u32)
        ensures
            r == self@.stats.err,
    {
        self.stats.err_count()
    }

    /// The periodic summary, when one is due at `now_us`.
    pub fn poll_stats(&mut self, now_us: u64) -> (r: Option<StatsReport>)
        requires
            old(self).wf(),
        ensures
            final(self).wf(),
            final(self)@ == (WriterView { stats: polled(old(self)@.stats, now_us).0, ..old(self)@ }),
            r == polled(old(self)@.stats, now_us).1,
    {
        self.stats.poll(now_us)
    }
}

} // verus!
