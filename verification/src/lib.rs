//! Shaft-speed measurement core: a wrap-aware millisecond clock, an edge
//! counter, and the snapshot-and-reset sampling step that turns the two into
//! a revolutions-per-minute figure.
//!
//! Everything here is plain state and arithmetic. The program around it owns
//! the peripherals, masks interrupts around the calls that need it, and
//! writes the report lines to the wire.

pub mod modular;
pub mod timers;
pub mod pulse;
pub mod sampler;
pub mod report;
