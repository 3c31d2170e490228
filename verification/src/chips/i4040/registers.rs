//! The 4040's register file: 24 index registers in two banks.
//!
//! R0 to R7 are banked: in bank 0 they are the physical registers 0 to
//! 7, in bank 1 the registers 16 to 23. R8 to R15 are shared.

use vstd::prelude::*;

verus! {

/// What the register file holds.
pub struct RegFileState {
    /// The 24 physical registers.
    pub regs: Seq<u8>,
    /// The bank, 0 or 1.
    pub bank: u8,
}

impl RegFileState {
    /// The physical register behind logical register `r`.
    pub open spec fn physical(self, r: int) -> int {
        if r < 8 {
            r + self.bank * 16
        } else {
            r
        }
    }

    /// Whether logical register `r` exists in the current bank.
    pub open spec fn has(self, r: int) -> bool {
        0 <= r && self.physical(r) < 24
    }

    /// The value of register `r`: the low nibble of the physical
    /// register.
    pub open spec fn get(self, r: int) -> u8 {
        self.regs[self.physical(r)] % 16
    }

    pub open spec fn with(self, r: int, val: u8) -> RegFileState {
        RegFileState { regs: self.regs.update(self.physical(r), val % 16), ..self }
    }

    pub open spec fn with_bank(self, bank: u8) -> RegFileState {
        RegFileState { bank, ..self }
    }
}

/// Register file of the 4040.
pub struct RegFile {
    /// Physical registers; the value is in the low nibble.
    regs: [u8; 24],
    /// The bank, 0 or 1.
    pub bank: u8,
}

impl View for RegFile {
    type V = RegFileState;

    closed spec fn view(&self) -> RegFileState {
        RegFileState { regs: self.regs@, bank: self.bank }
    }
}

impl RegFile {
    /// A register file with all registers zero, in bank 0.
    pub fn new() -> (rf: RegFile)
        ensures
            rf@ == (RegFileState { regs: Seq::new(24, |i: int| 0u8), bank: 0 }),
    {
        let rf = RegFile { regs: [0;24], bank: 0 };
        assert(rf@.regs =~= Seq::new(24, |i: int| 0u8));
        rf
    }

    /// The physical register behind logical register `r`.
    #[inline]
    pub fn map_index(&self, r: usize) -> (index: usize)
        requires
            self@.has(r as int),
        ensures
            index == self@.physical(r as int),
            index < 24,
    {
        if r < 8 {
            r + (self.bank as usize) * 16
        } else {
            r
        }
    }

    /// The value of register `r`, a nibble.
    #[inline]
    pub fn get(&self, r: usize) -> (val: u8)
        requires
            self@.has(r as int),
        ensures
            val == self@.get(r as int),
            val < 16,
    {
        self.regs[self.map_index(r)] % 16
    }

    /// Sets register `r` to the low nibble of `val`.
    #[inline]
    pub fn set(&mut self, r: usize, val: u8)
        requires
            old(self)@.has(r as int),
        ensures
            final(self)@ == old(self)@.with(r as int, val),
    {
        let index: usize = self.map_index(r);
        self.regs[index] = val % 16;
    }

    /// The pair `p`: registers `2p` and `2p + 1`.
    #[inline]
    pub fn get_pair(&self, p: usize) -> (pair: (u8, u8))
        requires
            p < 12,
            self@.has(2 * p),
            self@.has(2 * p + 1),
        ensures
            pair.0 == self@.get(2 * p),
            pair.1 == self@.get(2 * p + 1),
    {
        let r: usize = p * 2;
        (self.get(r), self.get(r + 1))
    }

    /// Sets the pair `p`: register `2p` to `hi` and `2p + 1` to `lo`.
    #[inline]
    pub fn set_pair(&mut self, p: usize, hi: u8, lo: u8)
        requires
            p < 12,
            old(self)@.has(2 * p),
            old(self)@.has(2 * p + 1),
        ensures
            final(self)@ == old(self)@.with(2 * p, hi).with(2 * p + 1, lo),
    {
        let r: usize = p * 2;
        self.set(r, hi);
        self.set(r + 1, lo);
    }

    /// DB0: selects bank 0.
    #[inline]
    pub fn db0(&mut self)
        ensures
            final(self)@ == old(self)@.with_bank(0),
    {
        self.bank = 0;
    }

    /// DB1: selects bank 1.
    #[inline]
    pub fn db1(&mut self)
        ensures
            final(self)@ == old(self)@.with_bank(1),
    {
        self.bank = 1;
    }
}

impl Default for RegFile {
    fn default() -> (rf: RegFile)
        ensures
            rf@ == (RegFileState { regs: Seq::new(24, |i: int| 0u8), bank: 0 }),
    {
        RegFile::new()
    }
}

/// What a bank holds in R0 to R7 survives a visit to the other bank,
/// and R8 to R15 do not depend on the bank.
pub proof fn lemma_banks_are_separate(s: RegFileState, r: int, val: u8, bank: u8, other: u8)
    requires
        s.regs.len() == 24,
        bank <= 1,
        other <= 1,
        bank != other,
        0 <= r < 16,
    ensures
        r < 8 ==> s.with_bank(bank).with(r, val).with_bank(other).get(r) == s.with_bank(other).get(r),
        s.with_bank(bank).with(r, val).with_bank(other).with_bank(bank).get(r) == val % 16,
        r >= 8 ==> s.with_bank(bank).with(r, val).with_bank(other).get(r) == val % 16,
{
}

} // verus!
