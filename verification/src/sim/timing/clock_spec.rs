//! Clock timing figures of the 4004 data sheet, in picoseconds.

use vstd::prelude::*;
use crate::sim::timing::Time;

verus! {

/// Minimum clock period (1.35 us, 740 kHz).
pub const TCY_MIN: Time = 1_350_000;

/// Maximum clock period (2.0 us, 500 kHz).
pub const TCY_MAX: Time = 2_000_000;

/// Typical clock period.
pub const TCY_TYP: Time = 1_350_000;

/// Clock rise time.
pub const T0R: Time = 50_000;

/// Clock fall time.
pub const T0F: Time = 50_000;

/// Shortest clock pulse.
pub const T0PW_MIN: Time = 380_000;

/// Longest clock pulse.
pub const T0PW_MAX: Time = 480_000;

/// Shortest delay from PHI1 falling to PHI2 rising.
pub const T0D1_MIN: Time = 400_000;

/// Longest delay from PHI1 falling to PHI2 rising.
pub const T0D1_MAX: Time = 550_000;

/// Shortest delay from PHI2 falling to PHI1 rising.
pub const T0D2_MIN: Time = 150_000;

} // verus!
