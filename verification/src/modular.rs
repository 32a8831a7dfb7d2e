//! Arithmetic on 32-bit counters that wrap to zero after their largest
//! value. The tick counter and the pulse count both count this way.

use vstd::prelude::*;

verus! {

/// Number of distinct values of a 32-bit counter.
pub open spec fn counter_modulus() -> int {
    0x1_0000_0000
}

/// The value of a counter that stood at `start` and was incremented `steps`
/// times since.
pub open spec fn wrapped_sum(start: u32, steps: nat) -> u32 {
    ((start + steps) % counter_modulus()) as u32
}

/// Incrementing `first` times and then `second` times is incrementing
/// `first + second` times.
pub proof fn lemma_wrapped_sum_accumulates(start: u32, first: nat, second: nat)
    ensures
        wrapped_sum(wrapped_sum(start, first), second) == wrapped_sum(start, first + second),
{
    let m = counter_modulus();
    let a = start + first;
    assert(((a % m) + second) % m == (a + second) % m) by {
        vstd::arithmetic::div_mod::lemma_add_mod_noop(a, second as int, m);
        vstd::arithmetic::div_mod::lemma_mod_twice(a, m);
        vstd::arithmetic::div_mod::lemma_add_mod_noop(a % m, second as int, m);
    }
}

} // verus!
