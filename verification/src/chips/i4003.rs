//! Intel 4003: 10-bit serial-in, parallel-out shift register.

use vstd::prelude::*;
use crate::bus::cycle::BusCycle;
use crate::chips::Chip;

verus! {

/// Intel 4003 shift register.
#[derive(Clone, Copy, Debug)]
pub struct I4003 {
    /// The ten bits.
    data: u16,
}

impl I4003 {
    /// The ten bits as a number below 1024.
    pub closed spec fn bits(&self) -> u16 {
        self.data
    }

    #[verifier::type_invariant]
    spec fn ten_bits(self) -> bool {
        self.data < 1024
    }

    /// A register of ten zero bits.
    pub fn new() -> (chip: I4003)
        ensures
            chip.bits() == 0,
    {
        I4003 { data: 0 }
    }

    /// Shifts `bit` in at the low end; the highest bit falls out.
    pub fn shift_in(&mut self, bit: bool)
        ensures
            final(self).bits() == (old(self).bits() * 2 + (if bit {
                1int
            } else {
                0int
            })) % 1024,
    {
        proof {
            use_type_invariant(&*self);
        }
        let low: u16 = if bit {
            1
        } else {
            0
        };
        self.data = (self.data * 2 + low) % 1024;
    }

    /// The ten bits.
    pub fn parallel_out(&self) -> (bits: u16)
        ensures
            bits == self.bits(),
            bits < 1024,
    {
        proof {
            use_type_invariant(self);
        }
        self.data
    }
}

impl Default for I4003 {
    fn default() -> (chip: I4003)
        ensures
            chip.bits() == 0,
    {
        I4003::new()
    }
}

impl Chip for I4003 {
    open spec fn can_tick(&self) -> bool {
        true
    }

    fn name(&self) -> (name: &'static str)
        ensures
            name@ == "4003"@,
    {
        "4003"
    }

    fn reset(&mut self)
        ensures
            final(self).bits() == 0,
    {
        self.data = 0;
    }

    fn tick(&mut self, _phase: BusCycle)
        ensures
            final(self).bits() == old(self).bits(),
    {
        proof {
            use_type_invariant(&*self);
        }
    }
}

} // verus!
