use i_rpm::pulse::PulseCounter;
use i_rpm::report::{format_line, header, push_decimal};
use i_rpm::sampler::{Phase, Report, Sampler, Snapshot};
use i_rpm::timers::{millis, TickCounter};

fn run(clock: &mut TickCounter, pulses: &mut PulseCounter, ms: u32, edges: u32) {
    let mut t: u32 = 0;
    while t < ms {
        clock.on_compare_match();
        t += 1;
    }
    let mut e: u32 = 0;
    while e < edges {
        pulses.on_edge();
        e += 1;
    }
}

#[test]
fn new_sampler_is_idle_at_zero() {
    let sampler = Sampler::new();
    assert_eq!(sampler.phase(), Phase::Idle);
    assert_eq!(sampler.last_sample(), 0);
    assert_eq!(sampler.period(), 1000);
}

#[test]
fn fifty_edges_between_two_samples_report_3000() {
    let mut clock = TickCounter::new();
    let mut pulses = PulseCounter::new(true);
    let mut sampler = Sampler::new();

    run(&mut clock, &mut pulses, 1000, 0);
    let first = sampler.snapshot(&clock, &mut pulses);
    assert_eq!(sampler.complete(first), Report { timestamp: 1000, rpm: 0 });

    run(&mut clock, &mut pulses, 1000, 50);
    let second = sampler.snapshot(&clock, &mut pulses);
    assert_eq!(second, Snapshot { now: 2000, elapsed: 1000, count: 50 });
    assert_eq!(sampler.complete(second), Report { timestamp: 2000, rpm: 3000 });
}

#[test]
fn snapshot_resets_the_count_once() {
    let mut clock = TickCounter::new();
    let mut pulses = PulseCounter::new(false);
    let mut sampler = Sampler::new();
    run(&mut clock, &mut pulses, 500, 4);
    let snap = sampler.snapshot(&clock, &mut pulses);
    assert_eq!(snap.count, 4);
    assert_eq!(pulses.pending(), 0);
    run(&mut clock, &mut pulses, 500, 0);
    let next = sampler.snapshot(&clock, &mut pulses);
    assert_eq!(next, Snapshot { now: 1000, elapsed: 500, count: 0 });
}

#[test]
fn snapshot_keeps_one_reading_for_window_and_stamp() {
    let mut clock = TickCounter::starting_at(12_345);
    let mut pulses = PulseCounter::new(true);
    let mut sampler = Sampler::new();
    let snap = sampler.snapshot(&clock, &mut pulses);
    assert_eq!(snap.now, 12_345);
    assert_eq!(snap.elapsed, 12_345);
    assert_eq!(sampler.last_sample(), 12_345);
    run(&mut clock, &mut pulses, 1000, 10);
    let next = sampler.snapshot(&clock, &mut pulses);
    assert_eq!(next, Snapshot { now: 13_345, elapsed: 1000, count: 10 });
    assert_eq!(sampler.last_sample(), millis(&clock));
}

#[test]
fn edge_during_the_critical_section_opens_the_next_window() {
    let mut clock = TickCounter::new();
    let mut pulses = PulseCounter::new(true);
    let mut sampler = Sampler::new();
    run(&mut clock, &mut pulses, 1000, 10);
    let current = sampler.snapshot(&clock, &mut pulses);
    // Raised while interrupts were masked, served when they are enabled again.
    pulses.on_edge();
    assert_eq!(sampler.complete(current), Report { timestamp: 1000, rpm: 600 });
    run(&mut clock, &mut pulses, 1000, 9);
    let next = sampler.snapshot(&clock, &mut pulses);
    assert_eq!(next.count, 10);
    assert_eq!(sampler.complete(next), Report { timestamp: 2000, rpm: 600 });
}

#[test]
fn window_across_the_wraparound() {
    let mut clock = TickCounter::starting_at(u32::MAX - 299);
    let mut pulses = PulseCounter::new(true);
    let mut sampler = Sampler::new();
    let first = sampler.snapshot(&clock, &mut pulses);
    assert_eq!(first.now, 4_294_966_996);
    run(&mut clock, &mut pulses, 1000, 25);
    let second = sampler.snapshot(&clock, &mut pulses);
    assert_eq!(second, Snapshot { now: 700, elapsed: 1000, count: 25 });
    assert_eq!(sampler.complete(second), Report { timestamp: 700, rpm: 1500 });
}

#[test]
fn two_snapshots_at_one_reading_report_zero() {
    let clock = TickCounter::starting_at(77);
    let mut pulses = PulseCounter::new(true);
    let mut sampler = Sampler::new();
    sampler.snapshot(&clock, &mut pulses);
    pulses.on_edge();
    let again = sampler.snapshot(&clock, &mut pulses);
    assert_eq!(again, Snapshot { now: 77, elapsed: 0, count: 1 });
    assert_eq!(sampler.complete(again), Report { timestamp: 77, rpm: 0 });
}

#[test]
fn phases_alternate() {
    let clock = TickCounter::new();
    let mut pulses = PulseCounter::new(true);
    let mut sampler = Sampler::new();
    assert_eq!(sampler.phase(), Phase::Idle);
    let snap = sampler.snapshot(&clock, &mut pulses);
    assert_eq!(sampler.phase(), Phase::Sampling);
    sampler.complete(snap);
    assert_eq!(sampler.phase(), Phase::Idle);
    assert_eq!(sampler.last_sample(), 0);
}

#[test]
fn complete_reports_the_snapshot() {
    let mut sampler = Sampler::new();
    let report = sampler.complete(Snapshot { now: 9000, elapsed: 2000, count: 1 });
    assert_eq!(report, Report { timestamp: 9000, rpm: 30 });
}

#[test]
fn header_line() {
    assert_eq!(header(), "millis,RPM\n".as_bytes().to_vec());
}

#[test]
fn sample_lines() {
    assert_eq!(format_line(&Report { timestamp: 1000, rpm: 600 }), "1000,600\n".as_bytes().to_vec());
    assert_eq!(format_line(&Report { timestamp: 0, rpm: 0 }), "0,0\n".as_bytes().to_vec());
    assert_eq!(
        format_line(&Report { timestamp: u32::MAX, rpm: u32::MAX }),
        "4294967295,4294967295\n".as_bytes().to_vec()
    );
    assert_eq!(format_line(&Report { timestamp: 2001, rpm: 30 }), "2001,30\n".as_bytes().to_vec());
}

#[test]
fn decimal_is_appended() {
    let mut out: Vec<u8> = vec![b'x'];
    push_decimal(&mut out, 10);
    push_decimal(&mut out, 9);
    push_decimal(&mut out, 1_000_000_000);
    assert_eq!(out, "x1091000000000".as_bytes().to_vec());
}

#[test]
fn lines_agree_with_the_standard_formatter() {
    let values: [u32; 8] = [0, 9, 10, 99, 100, 60_000, 4_294_967_280, u32::MAX];
    for timestamp in values {
        for rpm in values {
            let expected: String = format!("{},{}\n", timestamp, rpm);
            assert_eq!(format_line(&Report { timestamp, rpm }), expected.into_bytes());
        }
    }
}

struct Sink(Vec<u8>);

impl ufmt::uWrite for Sink {
    type Error = core::convert::Infallible;

    fn write_str(&mut self, s: &str) -> Result<(), Self::Error> {
        self.0.extend_from_slice(s.as_bytes());
        Ok(())
    }
}

fn ufmt_line(timestamp: u32, rpm: u32) -> Vec<u8> {
    let mut sink = Sink(Vec::new());
    {
        let mut f = ufmt::Formatter::new(&mut sink);
        ufmt::uDisplay::fmt(&timestamp, &mut f).unwrap();
        f.write_str(",").unwrap();
        ufmt::uDisplay::fmt(&rpm, &mut f).unwrap();
        f.write_str("\n").unwrap();
    }
    sink.0
}

#[test]
fn lines_agree_with_ufmt() {
    let values: [u32; 9] = [0, 1, 9, 10, 101, 1000, 60_000, 4_294_967_280, u32::MAX];
    for timestamp in values {
        for rpm in values {
            assert_eq!(format_line(&Report { timestamp, rpm }), ufmt_line(timestamp, rpm));
        }
    }
}
