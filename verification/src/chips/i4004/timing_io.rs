//! Timing and I/O control of the 4004.

use vstd::prelude::*;

verus! {

/// Timing and I/O controller of the 4004. The machine cycle is kept by
/// the CPU's cycle state; the controller itself holds one byte of state,
/// which is zero at rest.
#[derive(Clone, Copy, Debug)]
pub struct TimingIo {
    state: u8,
}

impl TimingIo {
    /// The controller's state.
    pub closed spec fn state(&self) -> u8 {
        self.state
    }

    /// A controller at rest: its state is zero.
    pub fn new() -> (timing: TimingIo)
        ensures
            timing.state() == 0,
    {
        TimingIo { state: 0 }
    }
}

impl Default for TimingIo {
    fn default() -> (timing: TimingIo)
        ensures
            timing.state() == 0,
    {
        TimingIo::new()
    }
}

} // verus!
