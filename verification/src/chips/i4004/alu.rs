//! The 4004's arithmetic unit: a 4-bit accumulator and a carry flag.

use vstd::prelude::*;
use crate::nibble;

verus! {

/// What the arithmetic unit holds: the accumulator, below 16, and the
/// carry flag.
pub struct AluState {
    pub acc: u8,
    pub carry: bool,
}

impl AluState {
    /// The accumulator holds a nibble.
    pub open spec fn wf(self) -> bool {
        self.acc < 16
    }

    /// 1 where the carry is set, else 0.
    pub open spec fn carry_in(self) -> int {
        if self.carry {
            1
        } else {
            0
        }
    }

    /// CLB: accumulator and carry cleared.
    pub open spec fn clb(self) -> AluState {
        AluState { acc: 0, carry: false }
    }

    /// CMA: accumulator complemented.
    pub open spec fn cma(self) -> AluState {
        AluState { acc: (15 - self.acc) as u8, carry: self.carry }
    }

    /// CMC: carry complemented.
    pub open spec fn cmc(self) -> AluState {
        AluState { acc: self.acc, carry: !self.carry }
    }

    /// STC: carry set.
    pub open spec fn stc(self) -> AluState {
        AluState { acc: self.acc, carry: true }
    }

    /// IAC: accumulator plus one; carry on overflow from 15.
    pub open spec fn iac(self) -> AluState {
        AluState { acc: ((self.acc + 1) % 16) as u8, carry: self.acc == 15 }
    }

    /// DAC: accumulator minus one; carry set unless a borrow occurred,
    /// that is, unless the accumulator was zero.
    pub open spec fn dac(self) -> AluState {
        AluState { acc: ((self.acc + 15) % 16) as u8, carry: self.acc != 0 }
    }

    /// RAL: rotate left through carry.
    pub open spec fn ral(self) -> AluState {
        AluState { acc: ((self.acc * 2 + self.carry_in()) % 16) as u8, carry: self.acc >= 8 }
    }

    /// RAR: rotate right through carry.
    pub open spec fn rar(self) -> AluState {
        AluState { acc: (self.acc / 2 + 8 * self.carry_in()) as u8, carry: self.acc % 2 == 1 }
    }

    /// The sum that ADD forms.
    pub open spec fn add_sum(self, value: u8) -> int {
        self.acc + value + self.carry_in()
    }

    /// ADD: accumulator plus operand plus carry.
    pub open spec fn add(self, value: u8) -> AluState {
        AluState { acc: (self.add_sum(value) % 16) as u8, carry: self.add_sum(value) > 15 }
    }

    /// The sum that SUB forms: the operand's low nibble is complemented,
    /// and the carry-in is the inverted borrow.
    pub open spec fn sub_sum(self, value: u8) -> int {
        self.acc + (15 - value % 16) + self.carry_in()
    }

    /// SUB: accumulator plus complemented operand plus carry.
    pub open spec fn sub(self, value: u8) -> AluState {
        AluState { acc: (self.sub_sum(value) % 16) as u8, carry: self.sub_sum(value) > 15 }
    }

    /// Accumulator loaded with the low nibble of `value`.
    pub open spec fn load(self, value: u8) -> AluState {
        AluState { acc: value % 16, carry: self.carry }
    }

    /// Carry set to `carry`.
    pub open spec fn with_carry(self, carry: bool) -> AluState {
        AluState { acc: self.acc, carry }
    }

    /// DAA: six added where the carry is set or the accumulator exceeds
    /// nine. An overflow sets the carry; nothing clears it.
    pub open spec fn daa(self) -> AluState {
        if self.carry || self.acc > 9 {
            AluState { acc: ((self.acc + 6) % 16) as u8, carry: self.carry || self.acc + 6 > 15 }
        } else {
            self
        }
    }

    /// TCC: the carry moves into the accumulator and is cleared.
    pub open spec fn tcc(self) -> AluState {
        AluState { acc: if self.carry { 1 } else { 0 }, carry: false }
    }

    /// TCS: the accumulator becomes 10 where the carry is set and 9
    /// where it is clear, as the data sheet has it; the carry is cleared.
    pub open spec fn tcs(self) -> AluState {
        AluState { acc: if self.carry { 10 } else { 9 }, carry: false }
    }

    /// KBP: a one-hot keyboard pattern becomes the number of its line;
    /// any other pattern becomes 15.
    pub open spec fn kbp(self) -> AluState {
        AluState { acc: kbp_code(self.acc), carry: self.carry }
    }
}

/// The KBP table.
pub open spec fn kbp_code(acc: u8) -> u8 {
    if acc == 0 {
        0
    } else if acc == 1 {
        1
    } else if acc == 2 {
        2
    } else if acc == 4 {
        3
    } else if acc == 8 {
        4
    } else {
        15
    }
}

/// Every operation leaves a nibble in the accumulator.
pub proof fn lemma_operations_keep_nibble(s: AluState, value: u8, carry: bool)
    requires
        s.wf(),
    ensures
        s.clb().wf(),
        s.cma().wf(),
        s.cmc().wf(),
        s.stc().wf(),
        s.iac().wf(),
        s.dac().wf(),
        s.ral().wf(),
        s.rar().wf(),
        s.add(value).wf(),
        s.sub(value).wf(),
        s.load(value).wf(),
        s.with_carry(carry).wf(),
        s.daa().wf(),
        s.tcc().wf(),
        s.tcs().wf(),
        s.kbp().wf(),
{
}

/// 4-bit arithmetic unit with accumulator and carry.
#[derive(Debug)]
pub struct Alu {
    /// Accumulator; only the low nibble is ever set.
    acc: u8,
    /// Carry flag.
    carry: bool,
    /// Temporary register.
    temp: u8,
}

impl View for Alu {
    type V = AluState;

    closed spec fn view(&self) -> AluState {
        AluState { acc: self.acc, carry: self.carry }
    }
}

impl Alu {
    #[verifier::type_invariant]
    spec fn nibble_wide(self) -> bool {
        self.acc < 16
    }

    pub fn new() -> (alu: Alu)
        ensures
            alu@ == (AluState { acc: 0, carry: false }),
            alu@.wf(),
    {
        Alu { acc: 0, carry: false, temp: 0 }
    }

    /// The accumulator. It is always below 16.
    pub fn accumulator(&self) -> (acc: u8)
        ensures
            acc == self@.acc,
            acc < 16,
    {
        proof {
            use_type_invariant(self);
        }
        nibble::low(self.acc)
    }

    /// Sets the accumulator to the low nibble of `value`.
    pub fn set_accumulator(&mut self, value: u8)
        ensures
            final(self)@ == old(self)@.load(value),
    {
        self.acc = nibble::low(value);
    }

    /// The carry flag.
    pub fn carry(&self) -> (carry: bool)
        ensures
            carry == self@.carry,
    {
        self.carry
    }

    /// Sets the carry flag.
    pub fn set_carry(&mut self, carry: bool)
        ensures
            final(self)@ == old(self)@.with_carry(carry),
    {
        proof {
            use_type_invariant(&*self);
        }
        self.carry = carry;
    }

    /// CLB: clears accumulator and carry.
    pub fn clb(&mut self)
        ensures
            final(self)@ == old(self)@.clb(),
    {
        self.acc = 0;
        self.carry = false;
    }

    /// CMA: complements the accumulator.
    pub fn cma(&mut self)
        ensures
            final(self)@ == old(self)@.cma(),
    {
        proof {
            use_type_invariant(&*self);
        }
        self.acc = 15 - self.acc;
    }

    /// CMC: complements the carry.
    pub fn cmc(&mut self)
        ensures
            final(self)@ == old(self)@.cmc(),
    {
        proof {
            use_type_invariant(&*self);
        }
        self.carry = !self.carry;
    }

    /// STC: sets the carry.
    pub fn stc(&mut self)
        ensures
            final(self)@ == old(self)@.stc(),
    {
        proof {
            use_type_invariant(&*self);
        }
        self.carry = true;
    }

    /// IAC: increments the accumulator.
    pub fn iac(&mut self)
        ensures
            final(self)@ == old(self)@.iac(),
    {
        proof {
            use_type_invariant(&*self);
        }
        let result: u8 = self.acc + 1;
        self.carry = result > 0x0F;
        self.acc = nibble::low(result);
    }

    /// DAC: decrements the accumulator.
    pub fn dac(&mut self)
        ensures
            final(self)@ == old(self)@.dac(),
    {
        proof {
            use_type_invariant(&*self);
        }
        let result: u8 = self.acc + 15;
        self.carry = self.acc != 0;
        self.acc = nibble::low(result);
    }

    /// RAL: rotates accumulator and carry left.
    pub fn ral(&mut self)
        ensures
            final(self)@ == old(self)@.ral(),
    {
        proof {
            use_type_invariant(&*self);
        }
        let new_carry: bool = self.acc >= 8;
        let carry_in: u8 = if self.carry {
            1
        } else {
            0
        };
        self.acc = nibble::low(self.acc * 2 + carry_in);
        self.carry = new_carry;
    }

    /// RAR: rotates accumulator and carry right.
    pub fn rar(&mut self)
        ensures
            final(self)@ == old(self)@.rar(),
    {
        proof {
            use_type_invariant(&*self);
        }
        let new_carry: bool = self.acc % 2 == 1;
        let carry_in: u8 = if self.carry {
            8
        } else {
            0
        };
        self.acc = self.acc / 2 + carry_in;
        self.carry = new_carry;
    }

    /// ADD: adds `value` and the carry to the accumulator.
    pub fn add(&mut self, value: u8)
        ensures
            final(self)@ == old(self)@.add(value),
    {
        proof {
            use_type_invariant(&*self);
        }
        let carry_in: u16 = if self.carry {
            1
        } else {
            0
        };
        let result: u16 = (self.acc as u16) + (value as u16) + carry_in;
        self.carry = result > 0x0F;
        self.acc = (result % 16) as u8;
    }

    /// SUB: adds the complement of `value` and the carry to the
    /// accumulator.
    pub fn sub(&mut self, value: u8)
        ensures
            final(self)@ == old(self)@.sub(value),
    {
        proof {
            use_type_invariant(&*self);
        }
        let complement: u8 = 15 - nibble::low(value);
        let carry_in: u8 = if self.carry {
            1
        } else {
            0
        };
        let result: u8 = self.acc + complement + carry_in;
        self.carry = result > 0x0F;
        self.acc = nibble::low(result);
    }

    /// Loads the accumulator with the low nibble of `value`.
    pub fn load(&mut self, value: u8)
        ensures
            final(self)@ == old(self)@.load(value),
    {
        self.acc = nibble::low(value);
    }

    /// Loads the accumulator with the low nibble of `value` and returns
    /// what it held.
    pub fn xch(&mut self, value: u8) -> (previous: u8)
        ensures
            final(self)@ == old(self)@.load(value),
            previous == old(self)@.acc,
            previous < 16,
    {
        proof {
            use_type_invariant(&*self);
        }
        let previous: u8 = self.acc;
        self.acc = nibble::low(value);
        previous
    }

    /// DAA: decimal adjust.
    pub fn daa(&mut self)
        ensures
            final(self)@ == old(self)@.daa(),
    {
        proof {
            use_type_invariant(&*self);
        }
        if self.carry || self.acc > 9 {
            let result: u8 = self.acc + 6;
            if result > 0x0F {
                self.carry = true;
            }
            self.acc = nibble::low(result);
        }
    }

    /// TCC: transfers the carry to the accumulator and clears it.
    pub fn tcc(&mut self)
        ensures
            final(self)@ == old(self)@.tcc(),
    {
        self.acc = if self.carry {
            1
        } else {
            0
        };
        self.carry = false;
    }

    /// TCS: loads 10 where the carry is set, 9 where it is clear, and
    /// clears the carry.
    pub fn tcs(&mut self)
        ensures
            final(self)@ == old(self)@.tcs(),
    {
        self.acc = if self.carry {
            10
        } else {
            9
        };
        self.carry = false;
    }

    /// KBP: keyboard process.
    pub fn kbp(&mut self)
        ensures
            final(self)@ == old(self)@.kbp(),
    {
        let code: u8 = match self.acc {
            0x00 => 0x00,
            0x01 => 0x01,
            0x02 => 0x02,
            0x04 => 0x03,
            0x08 => 0x04,
            _ => 0x0F,
        };
        self.acc = code;
    }
}

impl Clone for Alu {
    fn clone(&self) -> (alu: Alu)
        ensures
            alu@ == self@,
    {
        proof {
            use_type_invariant(self);
        }
        Alu { acc: self.acc, carry: self.carry, temp: self.temp }
    }
}

impl Default for Alu {
    fn default() -> (alu: Alu)
        ensures
            alu@ == (AluState { acc: 0, carry: false }),
    {
        Alu::new()
    }
}

} // verus!
