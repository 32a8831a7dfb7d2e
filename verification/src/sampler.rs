//! The sampling step: a consistent snapshot of clock and pulse count, taken
//! with interrupts masked, and the revolutions-per-minute figure computed
//! from it afterwards.

use vstd::prelude::*;
use crate::pulse::{PulseCounter, PulseState};
use crate::timers::{after_ticks, elapsed_between, elapsed_since, millis, tick_modulus, TickCounter};

verus! {

/// Nominal time between two samples, in milliseconds.
pub const SAMPLE_PERIOD_MS: u32 = 1000;

/// Milliseconds in a minute: one pulse per millisecond is this many per
/// minute.
pub const MS_PER_MINUTE: u32 = 60_000;

/// The largest pulse count whose figure still fits the 32-bit result when
/// the window is of nominal length. The product is formed in 64 bits, so
/// only the quotient is bounded.
pub const MAX_EXACT_COUNT: u32 = 71_582_788;

/// Pulses per minute at a rate of `count` pulses in `elapsed` milliseconds,
/// rounded down. A window of no length has the figure zero.
pub open spec fn rpm_exact(count: nat, elapsed: nat) -> nat {
    if elapsed == 0 {
        0
    } else {
        count * 60_000 / elapsed
    }
}

/// The reported figure: `rpm_exact`, held at the largest 32-bit value where
/// it would exceed it.
pub open spec fn rpm_of(count: u32, elapsed: u32) -> u32 {
    let exact = rpm_exact(count as nat, elapsed as nat);
    if exact > u32::MAX {
        u32::MAX
    } else {
        exact as u32
    }
}

/// The revolutions-per-minute figure for `count` pulses (one per
/// revolution) in `elapsed` milliseconds. The product is formed before the
/// division, in 64 bits, so that nothing is lost to early rounding or to
/// overflow; a window of no length gives zero rather than a fault, and a
/// figure beyond 32 bits is held at `u32::MAX`.
pub fn compute_rpm(count: u32, elapsed: u32) -> (rpm: u32)
    ensures
        rpm == rpm_of(count, elapsed),
        elapsed == 0 ==> rpm == 0,
        count == 0 ==> rpm == 0,
        elapsed > 0 && rpm_exact(count as nat, elapsed as nat) <= u32::MAX
            ==> rpm == count * 60_000 / (elapsed as int),
        elapsed > 0 && rpm_exact(count as nat, elapsed as nat) > u32::MAX ==> rpm == u32::MAX,
{
    if elapsed == 0 {
        return 0;
    }
    let wide: u64 = (count as u64) * 60_000 / (elapsed as u64);
    if wide > 0xFFFF_FFFF {
        u32::MAX
    } else {
        wide as u32
    }
}

/// Where the sampling loop stands.
#[derive(Clone, Copy, Debug, PartialEq, Eq, Structural)]
pub enum Phase {
    /// Waiting out the sample period.
    Idle,
    /// Between the snapshot and the report.
    Sampling,
}

/// What one pass through the critical section reads.
#[derive(Clone, Copy, Debug, PartialEq, Eq, Structural)]
pub struct Snapshot {
    /// The clock at the snapshot.
    pub now: u32,
    /// Milliseconds since the snapshot before.
    pub elapsed: u32,
    /// Pulses counted since the snapshot before.
    pub count: u32,
}

/// What is handed to the reporter for one sample.
#[derive(Clone, Copy, Debug, PartialEq, Eq, Structural)]
pub struct Report {
    pub timestamp: u32,
    pub rpm: u32,
}

/// The snapshot taken when the clock reads `now`, the sample before was
/// taken at `last_sample` and `pending` pulses are counted.
pub open spec fn snapshot_at(now: u32, last_sample: u32, pending: u32) -> Snapshot {
    Snapshot { now, elapsed: elapsed_between(now, last_sample), count: pending }
}

/// The report for a snapshot: its time and the figure for its window.
pub open spec fn report_of(snap: Snapshot) -> Report {
    Report { timestamp: snap.now, rpm: rpm_of(snap.count, snap.elapsed) }
}

/// What a sampler holds.
pub struct SamplerState {
    pub phase: Phase,
    /// The clock at the latest snapshot; zero before the first.
    pub last_sample: u32,
}

/// The sampling loop's own state.
#[derive(Clone, Copy, Debug)]
pub struct Sampler {
    phase: Phase,
    last_sample: u32,
}

impl View for Sampler {
    type V = SamplerState;

    closed spec fn view(&self) -> SamplerState {
        SamplerState { phase: self.phase, last_sample: self.last_sample }
    }
}

impl Sampler {
    /// A sampler that waits for its first period, with the clock's start as
    /// the time of the sample before.
    pub fn new() -> (sampler: Sampler)
        ensures
            sampler@ == (SamplerState { phase: Phase::Idle, last_sample: 0 }),
    {
        Sampler { phase: Phase::Idle, last_sample: 0 }
    }

    pub fn phase(&self) -> (phase: Phase)
        ensures
            phase == self@.phase,
    {
        self.phase
    }

    /// The clock at the latest snapshot.
    pub fn last_sample(&self) -> (at: u32)
        ensures
            at == self@.last_sample,
    {
        self.last_sample
    }

    /// The time to wait before the next snapshot, in milliseconds.
    pub fn period(&self) -> (ms: u32)
        ensures
            ms == SAMPLE_PERIOD_MS,
    {
        SAMPLE_PERIOD_MS
    }

    /// The critical section, to be run with both interrupts masked: reads
    /// the clock once, measures the window against that reading, hands out
    /// and clears the pulse count, and keeps the reading as the start of the
    /// next window. Moves the sampler to `Sampling`.
    pub fn snapshot(&mut self, clock: &TickCounter, pulses: &mut PulseCounter) -> (snap: Snapshot)
        ensures
            snap == snapshot_at(clock@, old(self)@.last_sample, old(pulses)@.pending),
            final(pulses)@ == old(pulses)@.drained(),
            final(self)@ == (SamplerState { phase: Phase::Sampling, last_sample: clock@ }),
    {
        let now: u32 = millis(clock);
        let elapsed: u32 = elapsed_since(now, self.last_sample);
        let count: u32 = pulses.take();
        self.last_sample = now;
        self.phase = Phase::Sampling;
        Snapshot { now, elapsed, count }
    }

    /// The arithmetic, to be run with interrupts enabled again: the report
    /// for `snap`. Moves the sampler back to `Idle`, whatever it was in.
    pub fn complete(&mut self, snap: Snapshot) -> (report: Report)
        ensures
            report == report_of(snap),
            final(self)@ == (SamplerState {
                phase: Phase::Idle,
                last_sample: old(self)@.last_sample,
            }),
    {
        self.phase = Phase::Idle;
        Report { timestamp: snap.now, rpm: compute_rpm(snap.count, snap.elapsed) }
    }
}

/// The figure is the rounded-down quotient wherever that fits 32 bits, and
/// zero for a window without pulses.
pub proof fn lemma_rpm_is_quotient(count: u32, elapsed: u32)
    requires
        elapsed > 0,
    ensures
        rpm_exact(count as nat, elapsed as nat) == count * 60_000 / (elapsed as int),
        rpm_exact(count as nat, elapsed as nat) <= u32::MAX
            ==> rpm_of(count, elapsed) == count * 60_000 / (elapsed as int),
        count == 0 ==> rpm_of(count, elapsed) == 0,
{
}

/// A window of no length has the figure zero, whatever was counted.
pub proof fn lemma_rpm_of_empty_window(count: u32)
    ensures
        rpm_of(count, 0) == 0,
{
}

/// At the nominal period every count up to `MAX_EXACT_COUNT` is reported
/// exactly, as sixty times the count, and the next count is not.
pub proof fn lemma_exact_range_at_nominal_period(count: u32)
    ensures
        count <= MAX_EXACT_COUNT ==> rpm_of(count, SAMPLE_PERIOD_MS) == count * 60,
        count > MAX_EXACT_COUNT ==> rpm_of(count, SAMPLE_PERIOD_MS) == u32::MAX,
        count > MAX_EXACT_COUNT ==> rpm_exact(count as nat, SAMPLE_PERIOD_MS as nat) > u32::MAX,
{
    assert(count * 60_000 / 1000 == count * 60);
}

/// A window of a minute or more never exceeds the 32-bit range: the figure
/// is exact and no larger than the count.
pub proof fn lemma_long_window_is_exact(count: u32, elapsed: u32)
    requires
        elapsed >= MS_PER_MINUTE,
    ensures
        rpm_of(count, elapsed) == count * 60_000 / (elapsed as int),
        rpm_of(count, elapsed) <= count,
{
    let q = count * 60_000 / (elapsed as int);
    assert(q <= count) by (nonlinear_arith)
        requires
            q == count * 60_000 / (elapsed as int),
            elapsed >= 60_000,
            count >= 0,
    ;
    assert(q >= 0) by (nonlinear_arith)
        requires
            q == count * 60_000 / (elapsed as int),
            elapsed >= 60_000,
            count >= 0,
    ;
}

/// The figure does not fall when more pulses are counted in the same
/// window.
pub proof fn lemma_rpm_monotone_in_count(fewer: u32, more: u32, elapsed: u32)
    requires
        fewer <= more,
    ensures
        rpm_of(fewer, elapsed) <= rpm_of(more, elapsed),
{
    if elapsed > 0 {
        let e = elapsed as int;
        assert(fewer * 60_000 / e <= more * 60_000 / e) by {
            vstd::arithmetic::div_mod::lemma_div_is_ordered(fewer * 60_000, more * 60_000, e);
        }
        assert(0 <= fewer * 60_000 / e) by {
            vstd::arithmetic::div_mod::lemma_div_pos_is_pos(fewer * 60_000, e);
        }
    }
}

/// One whole window: the sample before was taken at `last_sample`, then
/// `ticks` milliseconds pass and `edges` pulses arrive, each fewer than the
/// 32-bit range. The snapshot then measures exactly `ticks` and `edges`,
/// also where the clock wrapped in between, and the report carries the
/// figure for them.
pub proof fn lemma_window_report(last_sample: u32, ticks: nat, edges: nat, pulses: PulseState)
    requires
        ticks < tick_modulus(),
        edges < tick_modulus(),
    ensures
        ({
            let now = after_ticks(last_sample, ticks);
            let counted = pulses.drained().after_burst(edges);
            let snap = snapshot_at(now, last_sample, counted.pending);
            &&& snap.elapsed == ticks
            &&& snap.count == edges
            &&& report_of(snap).timestamp == now
            &&& report_of(snap).rpm == rpm_of(edges as u32, ticks as u32)
        }),
{
    crate::timers::lemma_elapsed_counts_ticks(last_sample, ticks);
    crate::pulse::lemma_window_counts_its_edges(pulses, edges);
}

} // verus!
