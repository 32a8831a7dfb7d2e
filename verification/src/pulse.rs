//! The pulse counter: one count per accepted sensor edge, handed out and
//! cleared by the sampling loop, with an optional status indicator that
//! flips on every edge.

use vstd::prelude::*;
use crate::modular::{counter_modulus, lemma_wrapped_sum_accumulates, wrapped_sum};

verus! {

/// The signal transition that raises the edge interrupt.
#[derive(Clone, Copy, Debug, PartialEq, Eq, Structural)]
pub enum Edge {
    Falling,
    Rising,
}

impl Edge {
    /// The interrupt-sense field that selects this transition.
    pub open spec fn sense_code(self) -> u8 {
        match self {
            Edge::Falling => 0x02,
            Edge::Rising => 0x03,
        }
    }

    /// The value of the interrupt-sense field for this transition.
    pub fn sense_bits(&self) -> (bits: u8)
        ensures
            bits == self.sense_code(),
    {
        match self {
            Edge::Falling => 0x02,
            Edge::Rising => 0x03,
        }
    }
}

/// Number of distinct values of the pulse count.
pub open spec fn count_modulus() -> int {
    counter_modulus()
}

/// The count that stood at `count` and has taken `edges` increments since.
pub open spec fn after_edges(count: u32, edges: nat) -> u32 {
    wrapped_sum(count, edges)
}

/// What a pulse counter holds.
pub struct PulseState {
    /// Edges accepted since the count was last handed out.
    pub pending: u32,
    /// Level of the status indicator.
    pub status: bool,
    /// Whether edges flip the indicator. Set in release builds, clear in
    /// debug builds.
    pub indicate: bool,
}

impl PulseState {
    /// The state after one accepted edge.
    pub open spec fn after_edge(self) -> PulseState {
        PulseState {
            pending: after_edges(self.pending, 1),
            status: if self.indicate { !self.status } else { self.status },
            indicate: self.indicate,
        }
    }

    /// The state after `edges` accepted edges in a row.
    pub open spec fn after_burst(self, edges: nat) -> PulseState
        decreases edges,
    {
        if edges == 0 {
            self
        } else {
            self.after_burst((edges - 1) as nat).after_edge()
        }
    }

    /// The state after the count was handed out.
    pub open spec fn drained(self) -> PulseState {
        PulseState { pending: 0, status: self.status, indicate: self.indicate }
    }
}

/// The pulse count and the status flag. The edge interrupt is the only
/// caller of `on_edge`; the sampling loop is the only caller of `take`, with
/// the edge interrupt masked.
#[derive(Clone, Copy, Debug)]
pub struct PulseCounter {
    count: u32,
    status: bool,
    indicate: bool,
}

impl View for PulseCounter {
    type V = PulseState;

    closed spec fn view(&self) -> PulseState {
        PulseState { pending: self.count, status: self.status, indicate: self.indicate }
    }
}

impl PulseCounter {
    /// An empty counter with the indicator low. With `indicate` set, every
    /// edge flips the indicator; with it clear, the indicator never moves.
    pub fn new(indicate: bool) -> (counter: PulseCounter)
        ensures
            counter@ == (PulseState { pending: 0, status: false, indicate }),
    {
        PulseCounter { count: 0, status: false, indicate }
    }

    /// Edges accepted since the count was last handed out.
    pub fn pending(&self) -> (count: u32)
        ensures
            count == self@.pending,
    {
        self.count
    }

    /// Level of the status indicator.
    pub fn status(&self) -> (level: bool)
        ensures
            level == self@.status,
    {
        self.status
    }

    /// Whether edges flip the indicator.
    pub fn indicates(&self) -> (indicate: bool)
        ensures
            indicate == self@.indicate,
    {
        self.indicate
    }

    /// The whole work of the edge interrupt: one count more, and, where the
    /// indicator is in use, the flag flipped. Returns the level to drive the
    /// indicator pin to, or `None` where the pin is to be left alone.
    pub fn on_edge(&mut self) -> (drive: Option<bool>)
        ensures
            final(self)@ == old(self)@.after_edge(),
            old(self)@.pending < u32::MAX ==> final(self)@.pending == old(self)@.pending + 1,
            old(self)@.indicate ==> final(self)@.status == !old(self)@.status,
            !old(self)@.indicate ==> final(self)@.status == old(self)@.status,
            drive == if old(self)@.indicate { Some(!old(self)@.status) } else { None::<bool> },
    {
        self.count = self.count.wrapping_add(1);
        if self.indicate {
            self.status = !self.status;
            Some(self.status)
        } else {
            None
        }
    }

    /// Hands out the pending count and clears it. The status flag is not
    /// touched.
    pub fn take(&mut self) -> (count: u32)
        ensures
            count == old(self)@.pending,
            final(self)@ == old(self)@.drained(),
    {
        let count: u32 = self.count;
        self.count = 0;
        count
    }
}

/// A burst of edges adds its length to the count, modulo the count's range,
/// and leaves the indicator flipped exactly when it is in use and the burst
/// is of odd length.
pub proof fn lemma_burst_counts_every_edge(state: PulseState, edges: nat)
    ensures
        state.after_burst(edges).pending == after_edges(state.pending, edges),
        state.after_burst(edges).indicate == state.indicate,
        state.after_burst(edges).status == if state.indicate && edges % 2 == 1 {
            !state.status
        } else {
            state.status
        },
    decreases edges,
{
    if edges > 0 {
        let before = (edges - 1) as nat;
        lemma_burst_counts_every_edge(state, before);
        lemma_wrapped_sum_accumulates(state.pending, before, 1);
    }
}

/// Where the indicator is not in use, no number of edges changes the flag.
pub proof fn lemma_status_still_without_indicator(state: PulseState, edges: nat)
    requires
        !state.indicate,
    ensures
        state.after_burst(edges).status == state.status,
{
    lemma_burst_counts_every_edge(state, edges);
}

/// After the count was handed out, the next window counts exactly the edges
/// that arrive in it, as long as they are fewer than the count's range.
pub proof fn lemma_window_counts_its_edges(state: PulseState, edges: nat)
    requires
        edges < count_modulus(),
    ensures
        state.drained().after_burst(edges).pending == edges,
        state.drained().after_burst(edges).drained().pending == 0,
{
    lemma_burst_counts_every_edge(state.drained(), edges);
}

/// An edge that is raised while the count is being handed out is served
/// when the interrupt is unmasked again, that is after the hand-out: the
/// count handed out is the one before the edge, and the edge is the first of
/// the next window.
pub proof fn lemma_deferred_edge_opens_next_window(state: PulseState)
    ensures
        state.drained().after_edge().pending == 1,
        state.drained().after_edge().status == state.after_edge().status,
        state.pending < u32::MAX ==> state.after_edge().pending == state.pending + 1,
{
}

} // verus!
