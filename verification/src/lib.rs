//! Cycle-accurate, event-driven simulation of the Intel MCS-4 / MCS-40
//! 4-bit microcomputer family.
//!
//! - [`sim`]: picosecond time, four-valued signals, gates and the
//!   event scheduler.
//! - [`bus`]: two-phase clock, 8-phase machine cycle, the multiplexed
//!   data bus and the control lines.
//! - [`chips`]: the 4004 and 4040 CPUs and their memory chips.
//! - [`system`]: complete systems assembled from the chips.
//! - [`nibble`]: 4-bit helpers shared by all of the above.

pub mod nibble;
pub mod bus;
pub mod chips;
pub mod sim;
pub mod system;
