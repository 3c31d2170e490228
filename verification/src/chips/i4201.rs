//! Intel 4201 clock generator. A behavioural stand-in without state.

use vstd::prelude::*;
use crate::bus::cycle::BusCycle;
use crate::chips::Chip;

verus! {

/// Intel 4201 clock generator.
#[derive(Clone, Copy, Debug)]
pub struct I4201;

impl I4201 {
    pub fn new() -> (chip: I4201) {
        I4201
    }
}

impl Default for I4201 {
    fn default() -> (chip: I4201) {
        I4201
    }
}

impl Chip for I4201 {
    open spec fn can_tick(&self) -> bool {
        true
    }

    fn name(&self) -> (name: &'static str)
        ensures
            name@ == "4201"@,
    {
        "4201"
    }

    fn reset(&mut self) {
    }

    fn tick(&mut self, _phase: BusCycle) {
    }
}

} // verus!
