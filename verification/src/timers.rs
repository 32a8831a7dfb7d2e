//! The monotonic clock: a tick counter advanced once per timer compare-match
//! interrupt, and the wrap-aware interval arithmetic on its readings.

use vstd::prelude::*;
use crate::modular::{counter_modulus, lemma_wrapped_sum_accumulates, wrapped_sum};

verus! {

/// Core clock of the reference board, in hertz.
pub const CORE_HZ: u32 = 16_000_000;

/// Rate of the clock interrupt, in hertz. One tick is one millisecond.
pub const TM0_FREQUENCY: u32 = 1000;

/// Division of the core clock that feeds the timer.
pub const TM0_PRESCALE: u32 = 64;

/// Value of the compare register: the timer counts `0..=TM0_CMR` per tick.
pub const TM0_CMR: u32 = 249;

/// Number of distinct values of the tick counter.
pub open spec fn tick_modulus() -> int {
    counter_modulus()
}

/// The reading of a counter that showed `start` and has been advanced by
/// `ticks` interrupts since.
pub open spec fn after_ticks(start: u32, ticks: nat) -> u32 {
    wrapped_sum(start, ticks)
}

/// The number of ticks from the reading `earlier` to the reading `now`,
/// taken modulo the counter's range.
pub open spec fn elapsed_between(now: u32, earlier: u32) -> u32 {
    if now >= earlier {
        (now - earlier) as u32
    } else {
        (now - earlier + tick_modulus()) as u32
    }
}

/// The steps a timer takes per interrupt when it is fed `core_hz / prescale`
/// and asked to interrupt `frequency` times a second.
pub open spec fn steps_per_tick(core_hz: u32, prescale: u32, frequency: u32) -> int {
    core_hz as int / (prescale as int * frequency as int)
}

/// Whether an 8-bit timer can produce `frequency` from `core_hz / prescale`:
/// the division is meaningful and the compare value lies in `0..=255`.
pub open spec fn compare_fits(core_hz: u32, prescale: u32, frequency: u32) -> bool {
    &&& prescale > 0
    &&& frequency > 0
    &&& 1 <= steps_per_tick(core_hz, prescale, frequency) <= 256
}

/// Clock-select settings of the 8-bit timer.
#[derive(Clone, Copy, Debug, PartialEq, Eq, Structural)]
pub enum Prescaler {
    Direct,
    Div8,
    Div64,
    Div256,
    Div1024,
}

impl Prescaler {
    /// The division this setting applies to the core clock.
    pub open spec fn factor(self) -> u32 {
        match self {
            Prescaler::Direct => 1,
            Prescaler::Div8 => 8,
            Prescaler::Div64 => 64,
            Prescaler::Div256 => 256,
            Prescaler::Div1024 => 1024,
        }
    }

    pub fn divisor(&self) -> (d: u32)
        ensures
            d == self.factor(),
    {
        match self {
            Prescaler::Direct => 1,
            Prescaler::Div8 => 8,
            Prescaler::Div64 => 64,
            Prescaler::Div256 => 256,
            Prescaler::Div1024 => 1024,
        }
    }
}

/// Whether the timer, fed through `prescaler` and restarting its count at
/// each compare match, can interrupt exactly `frequency` times a second: the
/// compare value fits and the division leaves no rest.
pub open spec fn realises(core_hz: u32, prescaler: Prescaler, frequency: u32) -> bool {
    &&& compare_fits(core_hz, prescaler.factor(), frequency)
    &&& core_hz as int % (prescaler.factor() as int * frequency as int) == 0
}

/// Decides `realises`.
pub fn is_realised_by(core_hz: u32, prescaler: Prescaler, frequency: u32) -> (yes: bool)
    ensures
        yes == realises(core_hz, prescaler, frequency),
{
    if frequency == 0 {
        return false;
    }
    let factor: u32 = prescaler.divisor();
    assert(1 <= factor as int * frequency as int <= 1024 * 0xFFFF_FFFF) by (nonlinear_arith)
        requires
            1 <= factor <= 1024,
            1 <= frequency <= 0xFFFF_FFFF,
    ;
    let divisor: u64 = (factor as u64) * (frequency as u64);
    let steps: u64 = (core_hz as u64) / divisor;
    let rest: u64 = (core_hz as u64) % divisor;
    steps >= 1 && steps <= 256 && rest == 0
}

/// The prescaler for an interrupt rate of `frequency`: the largest one that
/// realises it, so that the timer is clocked as slowly as the rate allows.
/// `None` where no prescaler realises the rate.
pub fn choose_prescaler(core_hz: u32, frequency: u32) -> (choice: Option<Prescaler>)
    ensures
        match choice {
            Some(p) => {
                &&& realises(core_hz, p, frequency)
                &&& forall|q: Prescaler| #[trigger]
                    realises(core_hz, q, frequency) ==> q.factor() <= p.factor()
            },
            None => forall|q: Prescaler| !#[trigger] realises(core_hz, q, frequency),
        },
{
    if is_realised_by(core_hz, Prescaler::Div1024, frequency) {
        Some(Prescaler::Div1024)
    } else if is_realised_by(core_hz, Prescaler::Div256, frequency) {
        Some(Prescaler::Div256)
    } else if is_realised_by(core_hz, Prescaler::Div64, frequency) {
        Some(Prescaler::Div64)
    } else if is_realised_by(core_hz, Prescaler::Div8, frequency) {
        Some(Prescaler::Div8)
    } else if is_realised_by(core_hz, Prescaler::Direct, frequency) {
        Some(Prescaler::Direct)
    } else {
        None
    }
}

/// How far the timer counts before it starts again from zero.
#[derive(Clone, Copy, Debug, PartialEq, Eq, Structural)]
pub enum CountMode {
    /// Through all 256 values, whatever the compare register holds. A
    /// compare match then comes once per 256 counts.
    Normal,
    /// Up to the compare register, restarting at each match. A compare
    /// match then comes once per `compare + 1` counts.
    ClearOnCompare,
}

impl CountMode {
    /// The waveform-generation field of control register A for this mode.
    pub open spec fn mode_code(self) -> u8 {
        match self {
            CountMode::Normal => 0,
            CountMode::ClearOnCompare => 2,
        }
    }

    /// The value of control register A that selects this mode and leaves
    /// the compare outputs disconnected.
    pub fn control_bits(&self) -> (bits: u8)
        ensures
            bits == self.mode_code(),
    {
        match self {
            CountMode::Normal => 0,
            CountMode::ClearOnCompare => 2,
        }
    }
}

/// What has to be written to the timer's registers before its interrupt is
/// enabled.
#[derive(Clone, Copy, Debug, PartialEq, Eq, Structural)]
pub struct TimerSetup {
    /// Counting mode, selected in control register A.
    pub mode: CountMode,
    /// Clock select of control register B.
    pub prescaler: Prescaler,
    /// Output compare register A.
    pub compare: u8,
    /// Initial value of the timer's own count.
    pub counter: u8,
    /// Whether the compare-match interrupt is enabled.
    pub compare_interrupt: bool,
}

/// The compare value for an 8-bit timer, or `None` where the pair of
/// prescale and frequency cannot be realised on one.
pub fn compare_value(core_hz: u32, prescale: u32, frequency: u32) -> (cmr: Option<u8>)
    ensures
        cmr.is_some() <==> compare_fits(core_hz, prescale, frequency),
        cmr.is_some() ==> cmr.unwrap() == steps_per_tick(core_hz, prescale, frequency) - 1,
{
    if prescale == 0 || frequency == 0 {
        return None;
    }
    assert(1 <= prescale as int * frequency as int <= 0xFFFF_FFFF * 0xFFFF_FFFF) by (nonlinear_arith)
        requires
            1 <= prescale <= 0xFFFF_FFFF,
            1 <= frequency <= 0xFFFF_FFFF,
    ;
    let divisor: u64 = (prescale as u64) * (frequency as u64);
    let steps: u64 = (core_hz as u64) / divisor;
    if steps >= 1 && steps <= 256 {
        Some((steps - 1) as u8)
    } else {
        None
    }
}

/// The timer counts between two compare matches under `setup`.
pub open spec fn counts_per_interrupt(setup: TimerSetup) -> int {
    match setup.mode {
        CountMode::Normal => 256,
        CountMode::ClearOnCompare => setup.compare + 1,
    }
}

/// Whether a timer on a core clock of `core_hz` raises its compare
/// interrupt exactly `frequency` times a second under `setup`.
pub open spec fn interrupts_at(core_hz: u32, setup: TimerSetup, frequency: u32) -> bool {
    &&& setup.compare_interrupt
    &&& setup.prescaler.factor() * counts_per_interrupt(setup) * frequency == core_hz
}

/// The setup that runs the timer through `prescaler` at `frequency`: the
/// count restarts at each compare match, starts from zero, and the compare
/// match interrupts.
pub open spec fn setup_with(core_hz: u32, prescaler: Prescaler, frequency: u32) -> TimerSetup {
    TimerSetup {
        mode: CountMode::ClearOnCompare,
        prescaler,
        compare: (steps_per_tick(core_hz, prescaler.factor(), frequency) - 1) as u8,
        counter: 0,
        compare_interrupt: true,
    }
}

/// Whether `setup` is the answer for `core_hz` and `frequency`: the setup
/// with the largest prescaler that realises the rate, or `None` where no
/// prescaler does.
pub open spec fn is_setup_for(core_hz: u32, frequency: u32, setup: Option<TimerSetup>) -> bool {
    match setup {
        Some(s) => {
            &&& realises(core_hz, s.prescaler, frequency)
            &&& forall|q: Prescaler| #[trigger]
                realises(core_hz, q, frequency) ==> q.factor() <= s.prescaler.factor()
            &&& s == setup_with(core_hz, s.prescaler, frequency)
        },
        None => forall|q: Prescaler| !#[trigger] realises(core_hz, q, frequency),
    }
}

/// The timer setup for an interrupt rate of `frequency` on a core clock of
/// `core_hz`, or `None` where the 8-bit timer cannot produce that rate
/// exactly.
pub fn setup_for(core_hz: u32, frequency: u32) -> (setup: Option<TimerSetup>)
    ensures
        is_setup_for(core_hz, frequency, setup),
        setup.is_some() ==> interrupts_at(core_hz, setup.unwrap(), frequency),
{
    match choose_prescaler(core_hz, frequency) {
        Some(prescaler) => {
            proof {
                lemma_setup_hits_rate(core_hz, prescaler, frequency);
            }
            match compare_value(core_hz, prescaler.divisor(), frequency) {
                Some(compare) => Some(
                    TimerSetup {
                        mode: CountMode::ClearOnCompare,
                        prescaler,
                        compare,
                        counter: 0,
                        compare_interrupt: true,
                    },
                ),
                None => None,
            }
        },
        None => None,
    }
}

/// The register values of the reference clock: the timer runs from the core
/// clock divided by `TM0_PRESCALE`, starts at zero, restarts at each match
/// with `TM0_CMR` and interrupts there, which is `TM0_FREQUENCY` times a
/// second.
pub fn init() -> (setup: TimerSetup)
    ensures
        setup == (TimerSetup {
            mode: CountMode::ClearOnCompare,
            prescaler: Prescaler::Div64,
            compare: 249,
            counter: 0,
            compare_interrupt: true,
        }),
        setup.prescaler.factor() == TM0_PRESCALE,
        setup.compare == TM0_CMR,
        setup == setup_with(CORE_HZ, Prescaler::Div64, TM0_FREQUENCY),
        is_setup_for(CORE_HZ, TM0_FREQUENCY, Some(setup)),
        interrupts_at(CORE_HZ, setup, TM0_FREQUENCY),
{
    proof {
        lemma_reference_setup_exact();
    }
    TimerSetup {
        mode: CountMode::ClearOnCompare,
        prescaler: Prescaler::Div64,
        compare: 249,
        counter: 0,
        compare_interrupt: true,
    }
}

/// The tick counter. It is advanced by the timer interrupt alone and read by
/// the sampling loop alone.
#[derive(Clone, Copy, Debug)]
pub struct TickCounter {
    ticks: u32,
}

impl View for TickCounter {
    type V = u32;

    closed spec fn view(&self) -> u32 {
        self.ticks
    }
}

impl TickCounter {
    /// A counter that has seen no tick yet.
    pub fn new() -> (counter: TickCounter)
        ensures
            counter@ == 0,
    {
        TickCounter { ticks: 0 }
    }

    /// A counter that reads `ticks`.
    pub fn starting_at(ticks: u32) -> (counter: TickCounter)
        ensures
            counter@ == ticks,
    {
        TickCounter { ticks }
    }

    /// The whole work of the timer interrupt: one tick more, wrapping to zero
    /// after the largest reading.
    pub fn on_compare_match(&mut self)
        ensures
            final(self)@ == after_ticks(old(self)@, 1),
            old(self)@ < u32::MAX ==> final(self)@ == old(self)@ + 1,
            old(self)@ == u32::MAX ==> final(self)@ == 0,
    {
        self.ticks = self.ticks.wrapping_add(1);
    }
}

/// The current reading of the clock, in milliseconds.
pub fn millis(counter: &TickCounter) -> (now: u32)
    ensures
        now == counter@,
{
    counter.ticks
}

/// The ticks that passed from the reading `earlier` to the reading `now`,
/// correct across one wraparound of the counter.
pub fn elapsed_since(now: u32, earlier: u32) -> (elapsed: u32)
    ensures
        elapsed == elapsed_between(now, earlier),
{
    now.wrapping_sub(earlier)
}

/// Advancing by `first` ticks and then by `second` is advancing by their sum.
pub proof fn lemma_ticks_accumulate(start: u32, first: nat, second: nat)
    ensures
        after_ticks(after_ticks(start, first), second) == after_ticks(start, first + second),
{
    lemma_wrapped_sum_accumulates(start, first, second);
}

/// Of two readings with no wraparound up to the later one, the later is not
/// the smaller, and each shows exactly the ticks counted so far.
pub proof fn lemma_readings_ordered(start: u32, earlier: nat, later: nat)
    requires
        earlier <= later,
        start + later < tick_modulus(),
    ensures
        after_ticks(start, earlier) == start + earlier,
        after_ticks(start, later) == start + later,
        after_ticks(start, earlier) <= after_ticks(start, later),
{
}

/// Modular subtraction recovers the number of ticks between two readings
/// whenever fewer ticks than the counter's range have passed, whether or not
/// the counter wrapped in between.
pub proof fn lemma_elapsed_counts_ticks(start: u32, ticks: nat)
    requires
        ticks < tick_modulus(),
    ensures
        elapsed_between(after_ticks(start, ticks), start) == ticks,
{
}

/// A reading taken just after the counter wrapped is smaller than the one
/// before it, and the interval between them is still the ticks that passed.
pub proof fn lemma_elapsed_across_wraparound(start: u32, ticks: nat)
    requires
        ticks < tick_modulus(),
        start + ticks >= tick_modulus(),
    ensures
        after_ticks(start, ticks) < start,
        after_ticks(start, ticks) == start + ticks - tick_modulus(),
        elapsed_between(after_ticks(start, ticks), start) == ticks,
{
}

/// A setup made for a rate that its prescaler realises interrupts at exactly
/// that rate.
pub proof fn lemma_setup_hits_rate(core_hz: u32, prescaler: Prescaler, frequency: u32)
    requires
        realises(core_hz, prescaler, frequency),
    ensures
        interrupts_at(core_hz, setup_with(core_hz, prescaler, frequency), frequency),
{
    let divisor = prescaler.factor() as int * frequency as int;
    let steps = steps_per_tick(core_hz, prescaler.factor(), frequency);
    assert(divisor > 0) by (nonlinear_arith)
        requires
            divisor == prescaler.factor() as int * frequency as int,
            prescaler.factor() > 0,
            frequency > 0,
    ;
    vstd::arithmetic::div_mod::lemma_fundamental_div_mod(core_hz as int, divisor);
    assert(prescaler.factor() * steps * frequency == core_hz) by (nonlinear_arith)
        requires
            core_hz == divisor * steps,
            divisor == prescaler.factor() as int * frequency as int,
    ;
}

/// The general answer for the reference clock is the reference setup and
/// nothing else.
pub proof fn lemma_reference_setup_is_chosen(setup: Option<TimerSetup>)
    ensures
        is_setup_for(CORE_HZ, TM0_FREQUENCY, setup) <==> setup == Some(
            setup_with(CORE_HZ, Prescaler::Div64, TM0_FREQUENCY),
        ),
{
    lemma_reference_setup_exact();
}

/// The reference compare value realises the reference frequency exactly,
/// and its prescaler is the largest that does.
pub proof fn lemma_reference_setup_exact()
    ensures
        setup_with(CORE_HZ, Prescaler::Div64, TM0_FREQUENCY) == (TimerSetup {
            mode: CountMode::ClearOnCompare,
            prescaler: Prescaler::Div64,
            compare: 249,
            counter: 0,
            compare_interrupt: true,
        }),
        realises(CORE_HZ, Prescaler::Div64, TM0_FREQUENCY),
        !realises(CORE_HZ, Prescaler::Div256, TM0_FREQUENCY),
        !realises(CORE_HZ, Prescaler::Div1024, TM0_FREQUENCY),
        compare_fits(CORE_HZ, TM0_PRESCALE, TM0_FREQUENCY),
        TM0_CMR == steps_per_tick(CORE_HZ, TM0_PRESCALE, TM0_FREQUENCY) - 1,
        TM0_PRESCALE * (TM0_CMR + 1) * TM0_FREQUENCY == CORE_HZ,
        interrupts_at(CORE_HZ, setup_with(CORE_HZ, Prescaler::Div64, TM0_FREQUENCY), TM0_FREQUENCY),
        !interrupts_at(
            CORE_HZ,
            (TimerSetup {
                mode: CountMode::Normal,
                prescaler: Prescaler::Div64,
                compare: 249,
                counter: 0,
                compare_interrupt: true,
            }),
            TM0_FREQUENCY,
        ),
{
    assert(steps_per_tick(CORE_HZ, TM0_PRESCALE, TM0_FREQUENCY) == 16_000_000int / 64_000int);
    assert(Prescaler::Div64.factor() as int * TM0_FREQUENCY as int == 64_000);
    assert(Prescaler::Div256.factor() as int * TM0_FREQUENCY as int == 256_000);
    assert(Prescaler::Div1024.factor() as int * TM0_FREQUENCY as int == 1_024_000);
    assert(16_000_000int % 64_000 == 0);
    assert(16_000_000int % 256_000 == 128_000);
    assert(16_000_000int % 1_024_000 == 640_000);
}

} // verus!
