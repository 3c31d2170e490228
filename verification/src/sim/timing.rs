//! Timing primitives.
//!
//! Time is an unsigned count of picoseconds, so that no rounding ever
//! enters a simulation.

use vstd::prelude::*;

pub mod clock_spec;
pub mod gate_delay;

verus! {

/// Time in picoseconds.
pub type Time = u64;

/// Propagation delay in picoseconds.
pub type Delay = u64;

pub const PICOSECOND: Time = 1;

pub const NANOSECOND: Time = 1_000;

pub const MICROSECOND: Time = 1_000_000;

pub const MILLISECOND: Time = 1_000_000_000;

} // verus!
