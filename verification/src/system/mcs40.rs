//! The MCS-40 system, built around the 4040.

use vstd::prelude::*;
use crate::chips::i4040::{Cpu40State, I4040};

verus! {

/// MCS-40 system: so far the CPU alone.
pub struct Mcs40System {
    pub cpu: I4040,
}

impl Mcs40System {
    /// A system whose CPU is in its reset state.
    pub fn new() -> (sys: Mcs40System)
        ensures
            sys.cpu@ == Cpu40State::initial(),
    {
        Mcs40System { cpu: I4040::new() }
    }
}

impl Default for Mcs40System {
    fn default() -> (sys: Mcs40System)
        ensures
            sys.cpu@ == Cpu40State::initial(),
    {
        Mcs40System::new()
    }
}

} // verus!
