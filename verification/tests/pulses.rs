use i_rpm::pulse::{Edge, PulseCounter};

#[test]
fn edge_sense_bits() {
    assert_eq!(Edge::Falling.sense_bits(), 0x02);
    assert_eq!(Edge::Rising.sense_bits(), 0x03);
}

#[test]
fn new_counter_is_empty_and_low() {
    let release = PulseCounter::new(true);
    assert_eq!(release.pending(), 0);
    assert!(!release.status());
    assert!(release.indicates());
    let debug = PulseCounter::new(false);
    assert_eq!(debug.pending(), 0);
    assert!(!debug.status());
    assert!(!debug.indicates());
}

#[test]
fn each_edge_counts_once() {
    let mut pulses = PulseCounter::new(true);
    let mut edges: u32 = 0;
    while edges < 50 {
        pulses.on_edge();
        edges += 1;
        assert_eq!(pulses.pending(), edges);
    }
}

#[test]
fn status_toggles_once_per_edge_in_release() {
    let mut pulses = PulseCounter::new(true);
    assert_eq!(pulses.on_edge(), Some(true));
    assert!(pulses.status());
    assert_eq!(pulses.on_edge(), Some(false));
    assert!(!pulses.status());
    assert_eq!(pulses.on_edge(), Some(true));
    assert!(pulses.status());
    assert_eq!(pulses.pending(), 3);
}

#[test]
fn status_never_changes_in_debug() {
    let mut pulses = PulseCounter::new(false);
    let mut edges: u32 = 0;
    while edges < 7 {
        assert_eq!(pulses.on_edge(), None);
        assert!(!pulses.status());
        edges += 1;
    }
    assert_eq!(pulses.pending(), 7);
}

#[test]
fn take_hands_out_and_clears() {
    let mut pulses = PulseCounter::new(true);
    pulses.on_edge();
    pulses.on_edge();
    pulses.on_edge();
    assert_eq!(pulses.take(), 3);
    assert_eq!(pulses.pending(), 0);
    assert_eq!(pulses.take(), 0);
}

#[test]
fn take_leaves_the_status_alone() {
    let mut pulses = PulseCounter::new(true);
    pulses.on_edge();
    assert!(pulses.status());
    pulses.take();
    assert!(pulses.status());
    assert!(pulses.indicates());
    assert_eq!(pulses.on_edge(), Some(false));
}

#[test]
fn edge_deferred_past_the_reset_is_counted_next() {
    let mut pulses = PulseCounter::new(true);
    pulses.on_edge();
    pulses.on_edge();
    // The edge is raised while the count is handed out and served after.
    let current: u32 = pulses.take();
    pulses.on_edge();
    assert_eq!(current, 2);
    assert_eq!(pulses.pending(), 1);
    assert_eq!(pulses.take(), 1);
    assert_eq!(pulses.take(), 0);
}
