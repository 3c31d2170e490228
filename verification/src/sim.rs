//! Simulation primitives: time, signals, gates and the event scheduler.

pub mod event;
pub mod gate;
pub mod history;
pub mod signal;
pub mod simulator;
pub mod timing;
