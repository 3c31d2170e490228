//! Intel 4101: 256x4 static RAM. A behavioural stand-in: it holds its
//! cells and takes no part in the bus protocol.

use vstd::prelude::*;
use crate::bus::cycle::BusCycle;
use crate::chips::Chip;

verus! {

/// Intel 4101 RAM.
#[derive(Clone, Debug)]
pub struct I4101 {
    ram: [u8; 256],
}

impl I4101 {
    /// The 256 cells.
    pub closed spec fn cells(&self) -> Seq<u8> {
        self.ram@
    }

    /// A RAM of 256 zero cells.
    pub fn new() -> (chip: I4101)
        ensures
            chip.cells() == Seq::new(256, |i: int| 0u8),
    {
        let chip = I4101 { ram: [0;256] };
        assert(chip.cells() =~= Seq::new(256, |i: int| 0u8));
        chip
    }
}

impl Default for I4101 {
    fn default() -> (chip: I4101)
        ensures
            chip.cells() == Seq::new(256, |i: int| 0u8),
    {
        I4101::new()
    }
}

impl Chip for I4101 {
    open spec fn can_tick(&self) -> bool {
        true
    }

    fn name(&self) -> (name: &'static str)
        ensures
            name@ == "4101"@,
    {
        "4101"
    }

    fn reset(&mut self)
        ensures
            final(self).cells() == Seq::new(256, |i: int| 0u8),
    {
        self.ram = [0;256];
        assert(self.cells() =~= Seq::new(256, |i: int| 0u8));
    }

    fn tick(&mut self, _phase: BusCycle)
        ensures
            final(self).cells() == old(self).cells(),
    {
    }
}

} // verus!
