//! The 4004's register file: 16 index registers, the program counter and
//! the 3-level circular call stack.

use vstd::prelude::*;
use crate::nibble;

verus! {

/// What the register file holds.
pub struct RegisterState {
    /// Index registers R0 to R15.
    pub index: Seq<u8>,
    /// Program counter.
    pub pc: u16,
    /// Call stack.
    pub stack: Seq<u16>,
    /// Slot that the next call writes.
    pub sp: u8,
}

impl RegisterState {
    /// Sixteen nibbles, a 12-bit program counter, three 12-bit stack
    /// entries and a stack pointer below 3.
    pub open spec fn wf(self) -> bool {
        &&& self.index.len() == 16
        &&& forall|i: int| 0 <= i < 16 ==> #[trigger] self.index[i] < 16
        &&& self.pc < 4096
        &&& self.stack.len() == 3
        &&& forall|i: int| 0 <= i < 3 ==> #[trigger] self.stack[i] < 4096
        &&& self.sp < 3
    }

    /// The state after reset: everything zero.
    pub open spec fn initial() -> RegisterState {
        RegisterState {
            index: Seq::new(16, |i: int| 0u8),
            pc: 0,
            stack: Seq::new(3, |i: int| 0u16),
            sp: 0,
        }
    }

    pub open spec fn with_pc(self, addr: u16) -> RegisterState {
        RegisterState { pc: addr % 4096, ..self }
    }

    pub open spec fn increment_pc(self) -> RegisterState {
        RegisterState { pc: ((self.pc + 1) % 4096) as u16, ..self }
    }

    /// Register `index`, taken modulo 16.
    pub open spec fn r(self, index: u8) -> u8 {
        self.index[(index % 16) as int]
    }

    pub open spec fn with_r(self, index: u8, value: u8) -> RegisterState {
        RegisterState { index: self.index.update((index % 16) as int, value % 16), ..self }
    }

    /// Pair `pair`, taken modulo 8: the even register is the high nibble.
    pub open spec fn pair(self, pair: u8) -> u8 {
        (self.index[(pair % 8) * 2] * 16 + self.index[(pair % 8) * 2 + 1]) as u8
    }

    pub open spec fn with_pair(self, pair: u8, value: u8) -> RegisterState {
        RegisterState {
            index: self.index.update((pair % 8) * 2, value / 16).update(
                (pair % 8) * 2 + 1,
                value % 16,
            ),
            ..self
        }
    }

    /// JMS: the program counter goes to the stack, the pointer advances
    /// modulo 3, and `addr` becomes the program counter. A fourth nested
    /// call overwrites the oldest return address.
    pub open spec fn call(self, addr: u16) -> RegisterState {
        RegisterState {
            stack: self.stack.update(self.sp as int, self.pc),
            sp: ((self.sp + 1) % 3) as u8,
            pc: addr % 4096,
            ..self
        }
    }

    /// BBL: the pointer steps back modulo 3 and the entry it reaches
    /// becomes the program counter.
    pub open spec fn ret(self) -> RegisterState {
        RegisterState {
            sp: ((self.sp + 2) % 3) as u8,
            pc: self.stack[(self.sp + 2) % 3],
            ..self
        }
    }

    pub open spec fn inc_r(self, index: u8) -> RegisterState {
        self.with_r(index, ((self.r(index) + 1) % 16) as u8)
    }

    pub open spec fn inc_pair(self, pair: u8) -> RegisterState {
        self.with_pair(pair, ((self.pair(pair) + 1) % 256) as u8)
    }
}

/// Register file of the 4004.
#[derive(Debug)]
pub struct Registers {
    /// Index registers R0 to R15, a nibble each.
    index: [u8; 16],
    /// Program counter, 12 bits.
    pc: u16,
    /// Three return addresses.
    stack: [u16; 3],
    /// Stack pointer, 0 to 2.
    sp: u8,
}

impl View for Registers {
    type V = RegisterState;

    closed spec fn view(&self) -> RegisterState {
        RegisterState { index: self.index@, pc: self.pc, stack: self.stack@, sp: self.sp }
    }
}

impl Registers {
    #[verifier::type_invariant]
    spec fn in_range(self) -> bool {
        self@.wf()
    }

    pub fn new() -> (regs: Registers)
        ensures
            regs@ == RegisterState::initial(),
            regs@.wf(),
    {
        let regs = Registers { index: [0;16], pc: 0, stack: [0;3], sp: 0 };
        assert(regs@.index =~= RegisterState::initial().index);
        assert(regs@.stack =~= RegisterState::initial().stack);
        regs
    }

    /// The program counter, always below 4096.
    pub fn pc(&self) -> (pc: u16)
        ensures
            pc == self@.pc,
            pc < 4096,
            self@.wf(),
    {
        proof {
            use_type_invariant(self);
        }
        self.pc % 4096
    }

    /// Sets the program counter to `addr` modulo 4096.
    pub fn set_pc(&mut self, addr: u16)
        ensures
            final(self)@ == old(self)@.with_pc(addr),
            final(self)@.wf(),
    {
        proof {
            use_type_invariant(&*self);
        }
        self.pc = addr % 4096;
    }

    /// Advances the program counter by one, modulo 4096.
    pub fn increment_pc(&mut self)
        ensures
            final(self)@ == old(self)@.increment_pc(),
            final(self)@.wf(),
    {
        proof {
            use_type_invariant(&*self);
        }
        self.pc = (self.pc + 1) % 4096;
    }

    /// Index register `index` modulo 16, always below 16.
    pub fn get_r(&self, index: u8) -> (value: u8)
        ensures
            value == self@.r(index),
            value < 16,
            self@.wf(),
    {
        proof {
            use_type_invariant(self);
        }
        nibble::low(self.index[(index % 16) as usize])
    }

    /// Sets index register `index` modulo 16 to the low nibble of `value`.
    pub fn set_r(&mut self, index: u8, value: u8)
        ensures
            final(self)@ == old(self)@.with_r(index, value),
            final(self)@.wf(),
    {
        proof {
            use_type_invariant(&*self);
        }
        self.index[(index % 16) as usize] = value % 16;
    }

    /// Register pair `pair` modulo 8 as a byte.
    pub fn get_pair(&self, pair: u8) -> (value: u8)
        ensures
            value == self@.pair(pair),
            self@.wf(),
    {
        proof {
            use_type_invariant(self);
        }
        let base: usize = (pair % 8) as usize * 2;
        let hi: u8 = self.index[base];
        let lo: u8 = self.index[base + 1];
        hi * 16 + lo
    }

    /// Sets register pair `pair` modulo 8 to `value`.
    pub fn set_pair(&mut self, pair: u8, value: u8)
        ensures
            final(self)@ == old(self)@.with_pair(pair, value),
            final(self)@.wf(),
    {
        proof {
            use_type_invariant(&*self);
        }
        let base: usize = (pair % 8) as usize * 2;
        self.index[base] = value / 16;
        self.index[base + 1] = value % 16;
    }

    /// JMS: pushes the program counter and jumps to `addr`.
    pub fn call(&mut self, addr: u16)
        ensures
            final(self)@ == old(self)@.call(addr),
            final(self)@.wf(),
    {
        proof {
            use_type_invariant(&*self);
        }
        self.stack[self.sp as usize] = self.pc;
        self.sp = (self.sp + 1) % 3;
        self.pc = addr % 4096;
    }

    /// BBL: pops the program counter.
    pub fn ret(&mut self)
        ensures
            final(self)@ == old(self)@.ret(),
            final(self)@.wf(),
    {
        proof {
            use_type_invariant(&*self);
        }
        self.sp = if self.sp == 0 {
            2
        } else {
            self.sp - 1
        };
        self.pc = self.stack[self.sp as usize];
    }

    /// Increments register pair `pair`; true when it wrapped to zero.
    pub fn inc_pair(&mut self, pair: u8) -> (wrapped: bool)
        ensures
            final(self)@ == old(self)@.inc_pair(pair),
            wrapped == (old(self)@.pair(pair) == 255),
            final(self)@.wf(),
    {
        let current: u8 = self.get_pair(pair);
        let value: u8 = if current == 255 {
            0
        } else {
            current + 1
        };
        self.set_pair(pair, value);
        value == 0
    }

    /// Increments register `index`; true when it wrapped to zero.
    pub fn inc_r(&mut self, index: u8) -> (wrapped: bool)
        ensures
            final(self)@ == old(self)@.inc_r(index),
            wrapped == (old(self)@.r(index) == 15),
            final(self)@.wf(),
    {
        let value: u8 = (self.get_r(index) + 1) % 16;
        self.set_r(index, value);
        value == 0
    }
}

impl Clone for Registers {
    fn clone(&self) -> (regs: Registers)
        ensures
            regs@ == self@,
    {
        proof {
            use_type_invariant(self);
        }
        Registers { index: self.index, pc: self.pc, stack: self.stack, sp: self.sp }
    }
}

impl Default for Registers {
    fn default() -> (regs: Registers)
        ensures
            regs@ == RegisterState::initial(),
    {
        Registers::new()
    }
}

/// A call followed at once by a return restores the program counter
/// and the stack pointer.
pub proof fn lemma_call_ret_restores(s: RegisterState, addr: u16)
    requires
        s.wf(),
    ensures
        s.call(addr).ret().pc == s.pc,
        s.call(addr).ret().sp == s.sp,
        s.call(addr).ret().index == s.index,
{
}

/// Up to three nested calls return in reverse order to where they were
/// made.
pub proof fn lemma_three_deep(s: RegisterState, a: u16, b: u16, c: u16)
    requires
        s.wf(),
    ensures
        s.call(a).call(b).call(c).ret().pc == b % 4096,
        s.call(a).call(b).call(c).ret().ret().pc == a % 4096,
        s.call(a).call(b).call(c).ret().ret().ret().pc == s.pc,
        s.call(a).call(b).call(c).ret().ret().ret().sp == s.sp,
{
}

/// The stack is circular: a fourth nested call overwrites the oldest
/// return address, so the fourth return yields the innermost caller again.
pub proof fn lemma_fourth_call_overwrites(s: RegisterState, a: u16, b: u16, c: u16, d: u16)
    requires
        s.wf(),
    ensures
        s.call(a).call(b).call(c).call(d).ret().ret().ret().ret().pc == c % 4096,
{
}

/// Every operation keeps the state well formed.
pub proof fn lemma_operations_keep_wf(s: RegisterState, addr: u16, index: u8, value: u8)
    requires
        s.wf(),
    ensures
        s.with_pc(addr).wf(),
        s.increment_pc().wf(),
        s.with_r(index, value).wf(),
        s.with_pair(index, value).wf(),
        s.call(addr).wf(),
        s.ret().wf(),
        s.inc_r(index).wf(),
        s.inc_pair(index).wf(),
{
}

} // verus!
