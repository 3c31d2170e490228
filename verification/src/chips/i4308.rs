//! Intel 4308: 1K x 8 ROM. A behavioural stand-in: it holds its bytes
//! and takes no part in the bus protocol.

use vstd::prelude::*;
use crate::bus::cycle::BusCycle;
use crate::chips::Chip;

verus! {

/// Intel 4308 ROM.
#[derive(Clone, Debug)]
pub struct I4308 {
    rom: Vec<u8>,
}

impl I4308 {
    /// The bytes.
    pub closed spec fn bytes(&self) -> Seq<u8> {
        self.rom@
    }

    /// A ROM of 1024 zero bytes.
    pub fn new() -> (chip: I4308)
        ensures
            chip.bytes() == Seq::new(1024, |i: int| 0u8),
    {
        let mut rom: Vec<u8> = Vec::new();
        let mut i: usize = 0;
        while i < 1024
            invariant
                i <= 1024,
                rom@ == Seq::new(i as nat, |k: int| 0u8),
            decreases 1024 - i,
        {
            rom.push(0);
            i += 1;
            assert(rom@ =~= Seq::new(i as nat, |k: int| 0u8));
        }
        I4308 { rom }
    }
}

impl Default for I4308 {
    fn default() -> (chip: I4308)
        ensures
            chip.bytes() == Seq::new(1024, |i: int| 0u8),
    {
        I4308::new()
    }
}

impl Chip for I4308 {
    open spec fn can_tick(&self) -> bool {
        true
    }

    fn name(&self) -> (name: &'static str)
        ensures
            name@ == "4308"@,
    {
        "4308"
    }

    fn reset(&mut self)
        ensures
            final(self).bytes() == old(self).bytes(),
    {
    }

    fn tick(&mut self, _phase: BusCycle)
        ensures
            final(self).bytes() == old(self).bytes(),
    {
    }
}

} // verus!
