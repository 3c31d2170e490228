//! The chips of the MCS-4 and MCS-40 families.
//!
//! MCS-4: [`i4004`] CPU, [`i4001`] ROM with I/O port, [`i4002`] RAM with
//! output port, [`i4003`] shift register. MCS-40: [`i4040`] CPU,
//! [`i4101`] RAM, [`i4201`] clock generator, [`i4289`] memory interface,
//! [`i4308`] ROM.

use vstd::prelude::*;
use crate::bus::cycle::BusCycle;

pub mod disasm;
pub mod i4001;
pub mod i4002;
pub mod i4003;
pub mod i4004;
pub mod i4040;
pub mod i4101;
pub mod i4201;
pub mod i4289;
pub mod i4308;

verus! {

/// What all chips have in common.
pub trait Chip: Send + Sync {
    /// Whether the chip can take another phase: false only where a
    /// counter of the chip has reached its limit.
    spec fn can_tick(&self) -> bool;

    /// The chip's name, such as "4004".
    fn name(&self) -> &'static str;

    /// Brings the chip to its initial state.
    fn reset(&mut self);

    /// Processes one bus phase without access to the bus.
    fn tick(&mut self, phase: BusCycle)
        requires
            old(self).can_tick(),
    ;
}

} // verus!
