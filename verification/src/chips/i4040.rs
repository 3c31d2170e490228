//! Intel 4040 CPU: the 4004's successor, with a 7-level stack, 24
//! registers in two banks, an interrupt and a halt.

use vstd::prelude::*;

pub mod instruction_decode;
pub mod interrupt;
pub mod registers;
pub mod stack;

pub use instruction_decode::{decode_ext, Opcode4040};
pub use interrupt::InterruptCtrl;
pub use registers::RegFile;
pub use stack::CallStack;

use registers::RegFileState;

verus! {

/// The address at which an interrupt handler starts.
pub const INTERRUPT_VECTOR: u16 = 0x003;

/// What a 4040 holds.
pub struct Cpu40State {
    pub regs: RegFileState,
    pub acc: u8,
    pub carry: bool,
    pub pc: u16,
    /// Return addresses, the oldest first.
    pub stack: Seq<u16>,
    pub intr: InterruptCtrl,
    pub halted: bool,
    /// The byte that the last SRC sent.
    pub src: u8,
}

impl Cpu40State {
    /// The state after reset: everything zero, interrupts disabled, not
    /// halted.
    pub open spec fn initial() -> Cpu40State {
        Cpu40State {
            regs: RegFileState { regs: Seq::new(24, |i: int| 0u8), bank: 0 },
            acc: 0,
            carry: false,
            pc: 0,
            stack: Seq::empty(),
            intr: InterruptCtrl { enabled: false, pending: false, src_save: 0 },
            halted: false,
            src: 0,
        }
    }

    /// The state at an instruction boundary. A due interrupt is
    /// serviced: the program counter goes to the stack, unless that is
    /// full, SRC is saved, interrupts are disabled, a halt ends, and the
    /// program counter goes to 0x003. Else nothing changes.
    pub open spec fn at_boundary(self) -> Cpu40State {
        if self.intr.due() {
            Cpu40State {
                stack: if self.stack.len() < 7 {
                    self.stack.push(self.pc % 4096)
                } else {
                    self.stack
                },
                pc: 0x003,
                intr: self.intr.serviced(self.src),
                halted: false,
                ..self
            }
        } else {
            self
        }
    }

    /// The state after one of the 4040's control instructions. HLT
    /// halts, DB0 and DB1 select the register bank, EIN and DIN switch
    /// interrupts, and BBS returns from the handler: it pops the
    /// program counter, unless the stack is empty, and restores SRC.
    /// The other additions change nothing here.
    pub open spec fn executed(self, op: Opcode4040) -> Cpu40State {
        match op {
            Opcode4040::Hlt => Cpu40State { halted: true, ..self },
            Opcode4040::Db0 => Cpu40State { regs: self.regs.with_bank(0), ..self },
            Opcode4040::Db1 => Cpu40State { regs: self.regs.with_bank(1), ..self },
            Opcode4040::Ein => Cpu40State {
                intr: InterruptCtrl { enabled: true, ..self.intr },
                ..self
            },
            Opcode4040::Din => Cpu40State {
                intr: InterruptCtrl { enabled: false, ..self.intr },
                ..self
            },
            Opcode4040::Bbs => Cpu40State {
                pc: if self.stack.len() > 0 {
                    self.stack.last()
                } else {
                    self.pc
                },
                stack: if self.stack.len() > 0 {
                    self.stack.drop_last()
                } else {
                    self.stack
                },
                src: self.intr.src_save,
                ..self
            },
            _ => self,
        }
    }
}

/// An interrupt and the BBS that ends its handler bring the program
/// back to where it was, with the SRC value it had.
pub proof fn lemma_interrupt_then_bbs(s: Cpu40State)
    requires
        s.intr.due(),
        s.stack.len() < 7,
        s.pc < 4096,
    ensures
        s.at_boundary().pc == 0x003,
        !s.at_boundary().intr.enabled,
        !s.at_boundary().intr.pending,
        s.at_boundary().executed(Opcode4040::Bbs).pc == s.pc,
        s.at_boundary().executed(Opcode4040::Bbs).src == s.src,
        s.at_boundary().executed(Opcode4040::Bbs).stack == s.stack,
{
    assert(s.stack.push(s.pc).drop_last() =~= s.stack);
}

/// Intel 4040 CPU.
pub struct I4040 {
    pub regs: RegFile,
    pub acc: u8,
    pub carry: bool,
    pub pc: u16,
    pub stack: CallStack,
    pub intr: InterruptCtrl,
    pub halted: bool,
    /// The byte that the last SRC sent.
    pub src: u8,
}

impl View for I4040 {
    type V = Cpu40State;

    open spec fn view(&self) -> Cpu40State {
        Cpu40State {
            regs: self.regs@,
            acc: self.acc,
            carry: self.carry,
            pc: self.pc,
            stack: self.stack@,
            intr: self.intr,
            halted: self.halted,
            src: self.src,
        }
    }
}

impl I4040 {
    /// A CPU in its reset state.
    pub fn new() -> (cpu: I4040)
        ensures
            cpu@ == Cpu40State::initial(),
    {
        let cpu = I4040 {
            regs: RegFile::new(),
            acc: 0,
            carry: false,
            pc: 0,
            stack: CallStack::new(),
            intr: InterruptCtrl::default(),
            halted: false,
            src: 0,
        };
        assert(cpu@.stack =~= Seq::<u16>::empty());
        cpu
    }

    /// An instruction boundary: services a due interrupt.
    pub fn step(&mut self)
        ensures
            final(self)@ == old(self)@.at_boundary(),
    {
        let src: u8 = self.current_src();
        match self.intr.service(src) {
            Some(vector) => {
                let _ = self.stack.push(self.pc);
                self.pc = vector;
                self.halted = false;
            },
            None => {},
        }
    }

    /// Executes one of the 4040's additional instructions.
    pub fn execute(&mut self, op: Opcode4040)
        ensures
            final(self)@ == old(self)@.executed(op),
    {
        match op {
            Opcode4040::Hlt => self.hlt(),
            Opcode4040::Db0 => self.regs.db0(),
            Opcode4040::Db1 => self.regs.db1(),
            Opcode4040::Ein => self.intr.ein(),
            Opcode4040::Din => self.intr.din(),
            Opcode4040::Bbs => {
                match self.stack.pop() {
                    Ok(addr) => {
                        self.pc = addr;
                    },
                    Err(_) => {},
                }
                self.src = self.intr.bbs_restore();
            },
            _ => {},
        }
    }

    /// The byte that the last SRC sent.
    #[inline]
    pub fn current_src(&self) -> (src: u8)
        ensures
            src == self@.src,
    {
        self.src
    }

    /// HLT: halts the CPU.
    #[inline]
    pub fn hlt(&mut self)
        ensures
            final(self)@ == (Cpu40State { halted: true, ..old(self)@ }),
    {
        self.halted = true;
    }

    /// Ends a halt.
    #[inline]
    pub fn resume(&mut self)
        ensures
            final(self)@ == (Cpu40State { halted: false, ..old(self)@ }),
    {
        self.halted = false;
    }
}

impl Default for I4040 {
    fn default() -> (cpu: I4040)
        ensures
            cpu@ == Cpu40State::initial(),
    {
        I4040::new()
    }
}

} // verus!
