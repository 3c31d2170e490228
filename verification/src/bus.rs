//! The MCS-4 bus: two-phase clock, 8-phase machine cycle, 4-bit data bus
//! and control lines.

pub mod clock;
pub mod control;
pub mod cycle;
pub mod data_bus;
