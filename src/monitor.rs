//! Throughput accounting for the transport writer.
//!
//! Two counters, blocks written whole and blocks abandoned on a write error,
//! grow for the whole life of the writer: reconnecting does not reset them.
//! A summary falls due once per interval of wall-clock time; taking it
//! restarts the interval.

use vstd::prelude::*;

verus! {

/// Microseconds between two summaries.
pub const STATS_INTERVAL_US: u64 = 2_000_000;

/// Share of blocks written whole, in whole percent rounded down; 100 when
/// nothing has been attempted.
pub open spec fn percent_ok(ok: int, err: int) -> int {
    if ok + err == 0 {
        100
    } else {
        ok * 100 / (ok + err)
    }
}

/// A counter advanced by one, held at its largest value.
pub open spec fn bumped(n: u32) -> u32 {
    if n < u32::MAX {
        (n + 1) as u32
    } else {
        n
    }
}

/// The success percentage of `ok` blocks written against `err` abandoned.
pub fn success_percent(ok: u32, err: u32) -> (r: u32)
    ensures
        r as int == percent_ok(ok as int, err as int),
        r <= 100,
{
    let total: u64 = ok as u64 + err as u64;
    if total == 0 {
        100
    } else {
        let scaled: u64 = ok as u64 * 100;
        assert(scaled / total <= 100) by (nonlinear_arith)
            requires
                scaled == ok * 100,
                ok <= total,
                total > 0,
        ;
        (scaled / total) as u32
    }
}

/// One periodic summary.
#[derive(Clone, Copy, Debug, PartialEq, Eq, Structural)]
pub struct StatsReport {
    pub ok: u32,
    pub err: u32,
    pub percent: u32,
}

/// The monitor's state as seen from outside.
pub struct MonitorView {
    pub ok: u32,
    pub err: u32,
    pub window_start: u64,
}

/// Whether a summary is due at `now` for an interval begun at `start`.
pub open spec fn report_due(start: u64, now: u64) -> bool {
    now >= start && now - start >= STATS_INTERVAL_US
}

/// The monitor after a poll at `now`, and the summary that poll returns.
pub open spec fn polled(m: MonitorView, now: u64) -> (MonitorView, Option<StatsReport>) {
    if report_due(m.window_start, now) {
        (
            MonitorView { window_start: now, ..m },
            Some(
                StatsReport {
                    ok: m.ok,
                    err: m.err,
                    percent: percent_ok(m.ok as int, m.err as int) as u32,
                },
            ),
        )
    } else {
        (m, None)
    }
}

/// Counters and the start of the current reporting interval.
pub struct ThroughputMonitor {
    ok: u32,
    err: u32,
    window_start_us: u64,
}

impl View for ThroughputMonitor {
    type V = MonitorView;

    closed spec fn view(&self) -> MonitorView {
        MonitorView { ok: self.ok, err: self.err, window_start: self.window_start_us }
    }
}

impl ThroughputMonitor {
    /// Zero counts, the interval starting at `now_us`.
    pub fn new(now_us: u64) -> (r: ThroughputMonitor)
        ensures
            r@ == (MonitorView { ok: 0, err: 0, window_start: now_us }),
    {
        ThroughputMonitor { ok: 0, err: 0, window_start_us: now_us }
    }

    /// Counts a block written whole.
    pub fn record_ok(&mut self)
        ensures
            final(self)@ == (MonitorView { ok: bumped(old(self)@.ok), ..old(self)@ }),
    {
        if self.ok < u32::MAX {
            self.ok = self.ok + 1;
        }
    }

    /// Counts a block abandoned on a write error.
    pub fn record_err(&mut self)
        ensures
            final(self)@ == (MonitorView { err: bumped(old(self)@.err), ..old(self)@ }),
    {
        if self.err < u32::MAX {
            self.err = self.err + 1;
        }
    }

    /// Blocks written whole so far.
    pub fn ok_count(&self) -> (r: u32)
        ensures
            r == self@.ok,
    {
        self.ok
    }

    /// Blocks abandoned so far.
    pub fn err_count(&self) -> (r: u32)
        ensures
            r == self@.err,
    {
        self.err
    }

    /// The summary, when one is due at `now_us`; taking it restarts the
    /// interval at `now_us`. A clock reading before the interval's start is
    /// never due.
    pub fn poll(&mut self, now_us: u64) -> (r: Option<StatsReport>)
        ensures
            (final(self)@, r) == polled(old(self)@, now_us),
    {
        if now_us >= self.window_start_us && now_us - self.window_start_us >= STATS_INTERVAL_US {
            let percent = success_percent(self.ok, self.err);
            self.window_start_us = now_us;
            Some(StatsReport { ok: self.ok, err: self.err, percent })
        } else {
            None
        }
    }
}

} // verus!
