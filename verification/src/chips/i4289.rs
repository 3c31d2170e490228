//! Intel 4289 standard memory interface. A behavioural stand-in without state.

use vstd::prelude::*;
use crate::bus::cycle::BusCycle;
use crate::chips::Chip;

verus! {

/// Intel 4289 standard memory interface.
#[derive(Clone, Copy, Debug)]
pub struct I4289;

impl I4289 {
    pub fn new() -> (chip: I4289) {
        I4289
    }
}

impl Default for I4289 {
    fn default() -> (chip: I4289) {
        I4289
    }
}

impl Chip for I4289 {
    open spec fn can_tick(&self) -> bool {
        true
    }

    fn name(&self) -> (name: &'static str)
        ensures
            name@ == "4289"@,
    {
        "4289"
    }

    fn reset(&mut self) {
    }

    fn tick(&mut self, _phase: BusCycle) {
    }
}

} // verus!
