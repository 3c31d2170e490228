//! Intel 4004 CPU: 4-bit data path, 12-bit addresses, 46 instructions,
//! 16 index registers and a 3-level call stack.
//!
//! The CPU works in the 8 phases of the machine cycle. At A1 to A3 it
//! sends the address of the next byte, at M1 and M2 it receives the byte,
//! at X1 it decodes. An instruction that writes to RAM or to a port puts
//! the accumulator on the bus at X2. At X3 the program counter moves on
//! and the instruction takes effect; one that reads from RAM or from a
//! port takes its operand from the bus then. The two-byte instructions
//! and FIN spend a second machine cycle on their second byte.

use vstd::prelude::*;
use crate::bus::control::{ControlSignals, ControlState, IoOperation};
use crate::bus::cycle::{BusCycle, CycleState};
use crate::bus::data_bus::DataBus;
use crate::chips::Chip;
use crate::nibble;
use crate::sim::signal::SignalLevel;
use crate::sim::timing::Time;

pub mod alu;
pub mod instruction_decode;
pub mod registers;
pub mod timing_io;

pub use alu::Alu;
pub use instruction_decode::{Instruction, InstructionDecoder};
pub use registers::Registers;
pub use timing_io::TimingIo;

use alu::{lemma_operations_keep_nibble, AluState};
use registers::{lemma_operations_keep_wf, RegisterState};

verus! {

/// The I/O operation that an instruction performs.
pub open spec fn io_operation_of(instr: Instruction) -> IoOperation {
    match instr {
        Instruction::Wrm => IoOperation::WriteRam,
        Instruction::Wmp => IoOperation::WriteRamPort,
        Instruction::Wrr => IoOperation::WriteRomPort,
        Instruction::Wpm => IoOperation::WriteProgramRam,
        Instruction::Wr0 => IoOperation::WriteStatus(0),
        Instruction::Wr1 => IoOperation::WriteStatus(1),
        Instruction::Wr2 => IoOperation::WriteStatus(2),
        Instruction::Wr3 => IoOperation::WriteStatus(3),
        Instruction::Sbm => IoOperation::ReadRam,
        Instruction::Rdm => IoOperation::ReadRam,
        Instruction::Adm => IoOperation::ReadRam,
        Instruction::Rdr => IoOperation::ReadRomPort,
        Instruction::Rd0 => IoOperation::ReadStatus(0),
        Instruction::Rd1 => IoOperation::ReadStatus(1),
        Instruction::Rd2 => IoOperation::ReadStatus(2),
        Instruction::Rd3 => IoOperation::ReadStatus(3),
        _ => IoOperation::Idle,
    }
}

/// The I/O operation that `instr` performs.
pub fn io_operation(instr: Instruction) -> (io: IoOperation)
    ensures
        io == io_operation_of(instr),
{
    match instr {
        Instruction::Wrm => IoOperation::WriteRam,
        Instruction::Wmp => IoOperation::WriteRamPort,
        Instruction::Wrr => IoOperation::WriteRomPort,
        Instruction::Wpm => IoOperation::WriteProgramRam,
        Instruction::Wr0 => IoOperation::WriteStatus(0),
        Instruction::Wr1 => IoOperation::WriteStatus(1),
        Instruction::Wr2 => IoOperation::WriteStatus(2),
        Instruction::Wr3 => IoOperation::WriteStatus(3),
        Instruction::Sbm => IoOperation::ReadRam,
        Instruction::Rdm => IoOperation::ReadRam,
        Instruction::Adm => IoOperation::ReadRam,
        Instruction::Rdr => IoOperation::ReadRomPort,
        Instruction::Rd0 => IoOperation::ReadStatus(0),
        Instruction::Rd1 => IoOperation::ReadStatus(1),
        Instruction::Rd2 => IoOperation::ReadStatus(2),
        Instruction::Rd3 => IoOperation::ReadStatus(3),
        _ => IoOperation::Idle,
    }
}

/// What a 4004 holds.
pub struct CpuState {
    pub alu: AluState,
    pub regs: RegisterState,
    pub decoder: InstructionDecoder,
    /// The CPU's own place in the machine cycle.
    pub cycle: CycleState,
    /// The byte that M1 and M2 brought.
    pub instruction_byte: u8,
    /// The second byte of a two-byte instruction.
    pub operand: u8,
    /// The low nibble that SRC sent.
    pub ram_address: u8,
    /// The high nibble that SRC sent.
    pub ram_chip: u8,
    /// The TEST input.
    pub test_pin: bool,
    /// The low byte of the address of an indirect fetch.
    pub io_data: u8,
}

impl CpuState {
    /// Accumulator, registers and SRC latches are in range.
    pub open spec fn wf(self) -> bool {
        &&& self.alu.wf()
        &&& self.regs.wf()
        &&& self.ram_address < 16
        &&& self.ram_chip < 16
    }

    /// The state after reset.
    pub open spec fn initial() -> CpuState {
        CpuState {
            alu: AluState { acc: 0, carry: false },
            regs: RegisterState::initial(),
            decoder: InstructionDecoder {
                opr: 0,
                opa: 0,
                two_byte: false,
                operand: 0,
                instruction: None,
            },
            cycle: CycleState::initial(),
            instruction_byte: 0,
            operand: 0,
            ram_address: 0,
            ram_chip: 0,
            test_pin: false,
            io_data: 0,
        }
    }

    /// The address in the page of the program counter with low byte
    /// `low`.
    pub open spec fn in_page(self, low: u8) -> u16 {
        ((self.regs.pc / 256) * 256 + low) as u16
    }

    /// The JCN condition. Bit 3 of `condition` inverts, bit 2 tests for
    /// a zero accumulator, bit 1 for a set carry and bit 0 for the TEST
    /// input; the tests that are asked for are or-ed.
    pub open spec fn condition_holds(self, condition: u8) -> bool {
        let met = (nibble::bit_of(condition as int, 2) && self.alu.acc == 0) || (nibble::bit_of(
            condition as int,
            1,
        ) && self.alu.carry) || (nibble::bit_of(condition as int, 0) && self.test_pin);
        if nibble::bit_of(condition as int, 3) {
            !met
        } else {
            met
        }
    }

    /// The state after `instr` took effect, `bus` being the nibble on
    /// the data bus. The program counter is the address that follows the
    /// instruction; jumps within the page take the page from it, and JMS
    /// saves it.
    #[verifier::opaque]
    pub open spec fn executed(self, instr: Instruction, bus: u8) -> CpuState {
        match instr {
            Instruction::Jcn { condition, addr_low } => if self.condition_holds(condition) {
                CpuState { regs: self.regs.with_pc(self.in_page(addr_low)), ..self }
            } else {
                self
            },
            Instruction::Fim { pair, data } => CpuState {
                regs: self.regs.with_pair(pair, data),
                ..self
            },
            Instruction::Src { pair } => CpuState {
                ram_address: self.regs.pair(pair) % 16,
                ram_chip: self.regs.pair(pair) / 16,
                ..self
            },
            Instruction::Fin { pair } => CpuState { io_data: self.regs.pair(0), ..self },
            Instruction::Jin { pair } => CpuState {
                regs: self.regs.with_pc(self.in_page(self.regs.pair(pair))),
                ..self
            },
            Instruction::Jun { addr_high, addr_low } => CpuState {
                regs: self.regs.with_pc(((addr_high % 16) * 256 + addr_low) as u16),
                ..self
            },
            Instruction::Jms { addr_high, addr_low } => CpuState {
                regs: self.regs.call(((addr_high % 16) * 256 + addr_low) as u16),
                ..self
            },
            Instruction::Isz { reg, addr_low } => if self.regs.r(reg) == 15 {
                CpuState { regs: self.regs.inc_r(reg), ..self }
            } else {
                CpuState { regs: self.regs.inc_r(reg).with_pc(self.in_page(addr_low)), ..self }
            },
            Instruction::Inc { reg } => CpuState { regs: self.regs.inc_r(reg), ..self },
            Instruction::Add { reg } => CpuState { alu: self.alu.add(self.regs.r(reg)), ..self },
            Instruction::Sub { reg } => CpuState { alu: self.alu.sub(self.regs.r(reg)), ..self },
            Instruction::Ld { reg } => CpuState { alu: self.alu.load(self.regs.r(reg)), ..self },
            Instruction::Xch { reg } => CpuState {
                alu: self.alu.load(self.regs.r(reg)),
                regs: self.regs.with_r(reg, self.alu.acc),
                ..self
            },
            Instruction::Bbl { data } => CpuState {
                regs: self.regs.ret(),
                alu: self.alu.load(data),
                ..self
            },
            Instruction::Ldm { data } => CpuState { alu: self.alu.load(data), ..self },
            Instruction::Sbm => CpuState { alu: self.alu.sub(bus), ..self },
            Instruction::Rdm => CpuState { alu: self.alu.load(bus), ..self },
            Instruction::Rdr => CpuState { alu: self.alu.load(bus), ..self },
            Instruction::Adm => CpuState { alu: self.alu.add(bus), ..self },
            Instruction::Rd0 => CpuState { alu: self.alu.load(bus), ..self },
            Instruction::Rd1 => CpuState { alu: self.alu.load(bus), ..self },
            Instruction::Rd2 => CpuState { alu: self.alu.load(bus), ..self },
            Instruction::Rd3 => CpuState { alu: self.alu.load(bus), ..self },
            Instruction::Clb => CpuState { alu: self.alu.clb(), ..self },
            Instruction::Clc => CpuState { alu: self.alu.with_carry(false), ..self },
            Instruction::Iac => CpuState { alu: self.alu.iac(), ..self },
            Instruction::Cmc => CpuState { alu: self.alu.cmc(), ..self },
            Instruction::Cma => CpuState { alu: self.alu.cma(), ..self },
            Instruction::Ral => CpuState { alu: self.alu.ral(), ..self },
            Instruction::Rar => CpuState { alu: self.alu.rar(), ..self },
            Instruction::Tcc => CpuState { alu: self.alu.tcc(), ..self },
            Instruction::Dac => CpuState { alu: self.alu.dac(), ..self },
            Instruction::Tcs => CpuState { alu: self.alu.tcs(), ..self },
            Instruction::Stc => CpuState { alu: self.alu.stc(), ..self },
            Instruction::Daa => CpuState { alu: self.alu.daa(), ..self },
            Instruction::Kbp => CpuState { alu: self.alu.kbp(), ..self },
            _ => self,
        }
    }

    /// Whether this machine cycle is the indirect fetch of a FIN.
    pub open spec fn in_indirect_fetch(self) -> bool {
        self.cycle.second_cycle && self.decoder.instruction is Some
            && self.decoder.instruction->0 is Fin
    }

    /// The address that the CPU sends at A1 to A3: the program counter,
    /// or, in the indirect fetch of a FIN, the byte in its page that
    /// pair 0 named.
    pub open spec fn fetch_address(self) -> u16 {
        if self.in_indirect_fetch() {
            self.in_page(self.io_data)
        } else {
            self.regs.pc
        }
    }

    /// Whether the decoded instruction puts the accumulator on the bus.
    pub open spec fn writes_to_bus(self) -> bool {
        !self.in_indirect_fetch() && self.decoder.instruction is Some && io_operation_of(
            self.decoder.instruction->0,
        ).writes()
    }

    /// What the CPU puts on the bus in `phase`: a nibble of the address
    /// at A1, A2 and A3, and the accumulator at X2 of an instruction
    /// that writes.
    pub open spec fn output(self, phase: BusCycle) -> Option<u8> {
        match phase {
            BusCycle::A1 => Some((self.fetch_address() % 16) as u8),
            BusCycle::A2 => Some(((self.fetch_address() / 16) % 16) as u8),
            BusCycle::A3 => Some(((self.fetch_address() / 256) % 16) as u8),
            BusCycle::X2 => if self.writes_to_bus() {
                Some(self.alu.acc)
            } else {
                None
            },
            _ => None,
        }
    }

    /// The decoder after X1: untouched in an indirect fetch, else fed
    /// with the byte as a second or as a first byte.
    pub open spec fn decoded(self) -> InstructionDecoder {
        if self.in_indirect_fetch() {
            self.decoder
        } else if self.cycle.second_cycle {
            self.decoder.after_second(self.instruction_byte)
        } else {
            InstructionDecoder::after_first(self.instruction_byte)
        }
    }

    /// The I/O operation that the CPU publishes at X1.
    pub open spec fn published_io(self) -> IoOperation {
        if !self.in_indirect_fetch() && self.decoded().instruction is Some {
            io_operation_of(self.decoded().instruction->0)
        } else {
            IoOperation::Idle
        }
    }

    /// The state at the end of X3, before the cycle state moves on.
    ///
    /// - In the indirect fetch of a FIN, the fetched byte goes to the
    ///   pair that FIN named.
    /// - After the first byte of a two-byte instruction the program
    ///   counter steps to the second byte, and the second cycle is
    ///   announced.
    /// - Else the program counter steps past the instruction, and the
    ///   instruction takes effect; a FIN announces its second cycle.
    pub open spec fn completed(self, bus: u8) -> CpuState {
        if self.in_indirect_fetch() {
            CpuState {
                regs: self.regs.with_pair(self.decoder.instruction->0->Fin_pair, self.instruction_byte),
                ..self
            }
        } else if self.decoder.awaits_second_byte() {
            CpuState {
                regs: self.regs.increment_pc(),
                cycle: CycleState { two_cycle: true, ..self.cycle },
                ..self
            }
        } else if self.decoder.instruction is Some {
            let instr = self.decoder.instruction->0;
            let stepped = CpuState { regs: self.regs.increment_pc(), ..self };
            let done = stepped.executed(instr, bus);
            if instr is Fin {
                CpuState { cycle: CycleState { two_cycle: true, ..done.cycle }, ..done }
            } else {
                done
            }
        } else {
            self
        }
    }

    /// The state after the CPU sampled the bus in `phase`, before the
    /// cycle state moves on.
    pub open spec fn sampled(self, phase: BusCycle, bus: u8) -> CpuState {
        match phase {
            BusCycle::M1 => CpuState {
                instruction_byte: ((self.instruction_byte / 16) * 16 + bus % 16) as u8,
                ..self
            },
            BusCycle::M2 => CpuState {
                instruction_byte: ((bus % 16) * 16 + self.instruction_byte % 16) as u8,
                ..self
            },
            BusCycle::X1 => CpuState {
                decoder: self.decoded(),
                operand: if !self.in_indirect_fetch() && self.cycle.second_cycle {
                    self.instruction_byte
                } else {
                    self.operand
                },
                ..self
            },
            BusCycle::X3 => self.completed(bus),
            _ => self,
        }
    }

    /// The state after one phase.
    pub open spec fn latched(self, phase: BusCycle, bus: u8) -> CpuState {
        let s = self.sampled(phase, bus);
        CpuState { cycle: s.cycle.advanced(), ..s }
    }

    /// The control lines after the CPU's part of `phase`: SYNC rises at
    /// A1 and falls at A2, CM-ROM carries the page of the address from
    /// A3 on, and the I/O operation is published at X1 and withdrawn
    /// at A1.
    pub open spec fn control_after(self, phase: BusCycle, ctrl: ControlState, now: Time) -> ControlState {
        match phase {
            BusCycle::A1 => ctrl.with_io(IoOperation::Idle).with_sync(now, SignalLevel::High),
            BusCycle::A2 => ctrl.with_sync(now, SignalLevel::Low),
            BusCycle::A3 => ctrl.with_rom_select(((self.fetch_address() / 256) % 16) as u8, now),
            BusCycle::X1 => ctrl.with_io(self.published_io()),
            _ => ctrl,
        }
    }
}

/// Whatever the instruction, its effect leaves accumulator, registers
/// and program counter in range.
pub proof fn lemma_executed_keeps_wf(s: CpuState, instr: Instruction, bus: u8)
    requires
        s.wf(),
    ensures
        s.executed(instr, bus).wf(),
        s.executed(instr, bus).cycle == s.cycle,
        s.executed(instr, bus).decoder == s.decoder,
{
    reveal(CpuState::executed);
    lemma_operations_keep_nibble(s.alu, bus, false);
    match instr {
        Instruction::Jcn { condition, addr_low } => {
            lemma_operations_keep_wf(s.regs, s.in_page(addr_low), 0, 0);
        },
        Instruction::Fim { pair, data } => {
            lemma_operations_keep_wf(s.regs, 0, pair, data);
        },
        Instruction::Jin { pair } => {
            lemma_operations_keep_wf(s.regs, s.in_page(s.regs.pair(pair)), 0, 0);
        },
        Instruction::Jun { addr_high, addr_low } => {
            lemma_operations_keep_wf(s.regs, ((addr_high % 16) * 256 + addr_low) as u16, 0, 0);
        },
        Instruction::Jms { addr_high, addr_low } => {
            lemma_operations_keep_wf(s.regs, ((addr_high % 16) * 256 + addr_low) as u16, 0, 0);
        },
        Instruction::Isz { reg, addr_low } => {
            lemma_operations_keep_wf(s.regs, 0, reg, 0);
            lemma_operations_keep_wf(s.regs.inc_r(reg), s.in_page(addr_low), 0, 0);
        },
        Instruction::Inc { reg } => {
            lemma_operations_keep_wf(s.regs, 0, reg, 0);
        },
        Instruction::Add { reg } => {
            lemma_operations_keep_nibble(s.alu, s.regs.r(reg), false);
        },
        Instruction::Sub { reg } => {
            lemma_operations_keep_nibble(s.alu, s.regs.r(reg), false);
        },
        Instruction::Ld { reg } => {
            lemma_operations_keep_nibble(s.alu, s.regs.r(reg), false);
        },
        Instruction::Xch { reg } => {
            lemma_operations_keep_nibble(s.alu, s.regs.r(reg), false);
            lemma_operations_keep_wf(s.regs, 0, reg, s.alu.acc);
        },
        Instruction::Bbl { data } => {
            lemma_operations_keep_nibble(s.alu, data, false);
            lemma_operations_keep_wf(s.regs, 0, 0, 0);
        },
        Instruction::Ldm { data } => {
            lemma_operations_keep_nibble(s.alu, data, false);
        },
        _ => {},
    }
}

/// Every phase leaves the CPU's state in range.
pub proof fn lemma_latched_keeps_wf(s: CpuState, phase: BusCycle, bus: u8)
    requires
        s.wf(),
    ensures
        s.sampled(phase, bus).wf(),
        s.latched(phase, bus).wf(),
{
    if phase == BusCycle::X3 {
        if s.in_indirect_fetch() {
            lemma_operations_keep_wf(
                s.regs,
                0,
                s.decoder.instruction->0->Fin_pair,
                s.instruction_byte,
            );
        } else if s.decoder.awaits_second_byte() {
            lemma_operations_keep_wf(s.regs, 0, 0, 0);
        } else if s.decoder.instruction is Some {
            lemma_operations_keep_wf(s.regs, 0, 0, 0);
            let stepped = CpuState { regs: s.regs.increment_pc(), ..s };
            lemma_executed_keeps_wf(stepped, s.decoder.instruction->0, bus);
        }
    }
}

/// At M1 the CPU takes the nibble on the bus as the low nibble of the
/// byte that it is receiving, and at M2 as the high nibble.
pub proof fn lemma_memory_phases(s: CpuState, bus: u8)
    requires
        bus < 16,
    ensures
        s.latched(BusCycle::M1, bus).instruction_byte % 16 == bus,
        s.latched(BusCycle::M2, bus).instruction_byte / 16 == bus,
        s.latched(BusCycle::M2, bus).instruction_byte % 16 == s.instruction_byte % 16,
{
    let b = s.instruction_byte;
    lemma_nibble_arithmetic(b, bus);
    assert(s.sampled(BusCycle::M1, bus).instruction_byte == ((b / 16) * 16 + bus % 16) as u8);
    assert(s.sampled(BusCycle::M2, bus).instruction_byte == ((bus % 16) * 16 + b % 16) as u8);
}

/// Replacing one nibble of a byte leaves the other.
proof fn lemma_nibble_arithmetic(b: u8, n: u8)
    requires
        n < 16,
    ensures
        (b / 16) * 16 + n % 16 <= 255,
        ((b / 16) * 16 + n % 16) % 16 == n,
        (n % 16) * 16 + b % 16 <= 255,
        ((n % 16) * 16 + b % 16) / 16 == n,
        ((n % 16) * 16 + b % 16) % 16 == b % 16,
{
}

/// An instruction's effect on accumulator, registers and SRC latches
/// depends on these and on the TEST input alone.
pub proof fn lemma_executed_frame(a: CpuState, b: CpuState, instr: Instruction, bus: u8)
    requires
        a.regs == b.regs,
        a.alu == b.alu,
        a.test_pin == b.test_pin,
        a.ram_chip == b.ram_chip,
        a.ram_address == b.ram_address,
    ensures
        a.executed(instr, bus).regs == b.executed(instr, bus).regs,
        a.executed(instr, bus).alu == b.executed(instr, bus).alu,
        a.executed(instr, bus).ram_chip == b.executed(instr, bus).ram_chip,
        a.executed(instr, bus).ram_address == b.executed(instr, bus).ram_address,
        a.executed(instr, bus).test_pin == b.executed(instr, bus).test_pin,
{
    reveal(CpuState::executed);
}

/// X3 leaves the counters of the cycle state and its phase alone.
pub proof fn lemma_completed_cycle(s: CpuState, bus: u8)
    ensures
        s.completed(bus).cycle.cycle_count == s.cycle.cycle_count,
        s.completed(bus).cycle.instruction_count == s.cycle.instruction_count,
        s.completed(bus).cycle.phase == s.cycle.phase,
        s.completed(bus).cycle.state == s.cycle.state,
        s.completed(bus).cycle.second_cycle == s.cycle.second_cycle,
{
    if !s.in_indirect_fetch() && !s.decoder.awaits_second_byte() && s.decoder.instruction is Some {
        let stepped = CpuState { regs: s.regs.increment_pc(), ..s };
        lemma_executed_cycle(stepped, s.decoder.instruction->0, bus);
    }
}

/// X1 of a first cycle: the CPU decodes the byte that it received;
/// nothing else changes.
pub proof fn lemma_decode_phase(s: CpuState, bus: u8)
    requires
        !s.cycle.second_cycle,
        s.cycle.phase == BusCycle::X1,
    ensures
        s.latched(BusCycle::X1, bus) == (CpuState {
            decoder: InstructionDecoder::after_first(s.instruction_byte),
            cycle: CycleState { phase: BusCycle::X2, ..s.cycle },
            ..s
        }),
{
}

/// X2: nothing changes in the CPU but the phase.
pub proof fn lemma_idle_phase(s: CpuState, bus: u8)
    requires
        s.cycle.phase == BusCycle::X2,
    ensures
        s.latched(BusCycle::X2, bus) == (CpuState {
            cycle: CycleState { phase: BusCycle::X3, ..s.cycle },
            ..s
        }),
{
}

/// X3 of a complete instruction outside an indirect fetch: the program
/// counter steps on and the instruction takes effect.
pub proof fn lemma_completion_phase(s: CpuState, bus: u8)
    requires
        !s.in_indirect_fetch(),
        s.decoder.instruction is Some,
    ensures
        ({
            let stepped = CpuState { regs: s.regs.increment_pc(), ..s };
            let done = stepped.executed(s.decoder.instruction->0, bus);
            &&& s.latched(BusCycle::X3, bus).regs == done.regs
            &&& s.latched(BusCycle::X3, bus).alu == done.alu
            &&& s.latched(BusCycle::X3, bus).ram_chip == done.ram_chip
            &&& s.latched(BusCycle::X3, bus).ram_address == done.ram_address
            &&& s.latched(BusCycle::X3, bus).test_pin == done.test_pin
        }),
{
    let stepped = CpuState { regs: s.regs.increment_pc(), ..s };
    lemma_executed_cycle(stepped, s.decoder.instruction->0, bus);
    lemma_executed_frame(stepped, stepped, s.decoder.instruction->0, bus);
    assert(!s.decoder.awaits_second_byte());
}

/// X3 after the first byte of a two-byte instruction: the program
/// counter steps to the second byte, and the second machine cycle of
/// the instruction begins.
pub proof fn lemma_announce_phase(s: CpuState, bus: u8)
    requires
        !s.cycle.second_cycle,
        s.decoder.awaits_second_byte(),
        s.cycle.phase == BusCycle::X3,
        s.cycle.state == crate::bus::cycle::MachineState::Fetch1,
    ensures
        s.latched(BusCycle::X3, bus) == (CpuState {
            regs: s.regs.increment_pc(),
            cycle: CycleState {
                phase: BusCycle::A1,
                state: crate::bus::cycle::MachineState::Fetch2,
                two_cycle: true,
                second_cycle: true,
                cycle_count: (s.cycle.cycle_count + 1) as u64,
                ..s.cycle
            },
            ..s
        }),
{
}

/// X1 of the second cycle of a two-byte instruction: the CPU decodes
/// the byte that it received as the instruction's second byte.
pub proof fn lemma_decode_second_phase(s: CpuState, bus: u8)
    requires
        s.cycle.second_cycle,
        s.decoder.instruction is None,
        s.cycle.phase == BusCycle::X1,
    ensures
        s.latched(BusCycle::X1, bus) == (CpuState {
            decoder: s.decoder.after_second(s.instruction_byte),
            operand: s.instruction_byte,
            cycle: CycleState { phase: BusCycle::X2, ..s.cycle },
            ..s
        }),
{
}

/// Loading the accumulator and exchanging it with a register leaves the
/// register's former value in the accumulator and what was loaded in the
/// register.
pub proof fn lemma_load_then_xch(s: CpuState, data: u8, reg: u8)
    requires
        s.wf(),
    ensures
        ({
            let loaded = CpuState { alu: s.alu.load(data), ..s };
            let swapped = loaded.executed(Instruction::Xch { reg }, 0);
            &&& swapped.alu.acc == s.regs.r(reg)
            &&& swapped.regs.r(reg) == data % 16
        }),
{
    reveal(CpuState::executed);
    let loaded = CpuState { alu: s.alu.load(data), ..s };
    let swapped = loaded.executed(Instruction::Xch { reg }, 0);
    assert(swapped.alu == loaded.alu.load(loaded.regs.r(reg)));
    assert(swapped.regs == loaded.regs.with_r(reg, loaded.alu.acc));
    assert(s.regs.index[(reg % 16) as int] < 16);
    lemma_exchange(s.alu, s.regs, data, reg);
}

/// The arithmetic of an exchange that follows a load.
proof fn lemma_exchange(alu: AluState, regs: RegisterState, data: u8, reg: u8)
    requires
        regs.index.len() == 16,
        regs.index[(reg % 16) as int] < 16,
    ensures
        alu.load(data).load(regs.r(reg)).acc == regs.r(reg),
        regs.with_r(reg, alu.load(data).acc).r(reg) == data % 16,
{
}

/// FIM followed by SRC on the same pair publishes the immediate byte:
/// its high nibble as the chip, its low nibble as the address.
pub proof fn lemma_fim_then_src(s: CpuState, pair: u8, data: u8)
    requires
        s.wf(),
    ensures
        ({
            let sent = s.executed(Instruction::Fim { pair, data }, 0).executed(
                Instruction::Src { pair },
                0,
            );
            &&& sent.ram_chip == data / 16
            &&& sent.ram_address == data % 16
        }),
{
    reveal(CpuState::executed);
    let loaded = s.executed(Instruction::Fim { pair, data }, 0);
    assert(loaded.regs == s.regs.with_pair(pair, data));
    let sent = loaded.executed(Instruction::Src { pair }, 0);
    assert(sent.ram_address == loaded.regs.pair(pair) % 16);
    assert(sent.ram_chip == loaded.regs.pair(pair) / 16);
    assert(loaded.regs.index[(pair % 8) * 2] == data / 16);
    assert(loaded.regs.index[(pair % 8) * 2 + 1] == data % 16);
    assert(loaded.regs.pair(pair) == data);
}

/// JMS followed by BBL comes back to where JMS was left, with the
/// stack pointer where it was and BBL's operand in the accumulator.
pub proof fn lemma_jms_then_bbl(s: CpuState, addr_high: u8, addr_low: u8, data: u8)
    requires
        s.wf(),
    ensures
        ({
            let called = s.executed(Instruction::Jms { addr_high, addr_low }, 0);
            let back = called.executed(Instruction::Bbl { data }, 0);
            &&& called.regs.pc == (addr_high % 16) * 256 + addr_low
            &&& back.regs.pc == s.regs.pc
            &&& back.regs.sp == s.regs.sp
            &&& back.alu.acc == data % 16
        }),
{
    reveal(CpuState::executed);
    let target: u16 = ((addr_high % 16) * 256 + addr_low) as u16;
    let called = s.executed(Instruction::Jms { addr_high, addr_low }, 0);
    assert(called.regs == s.regs.call(target));
    registers::lemma_call_ret_restores(s.regs, target);
    let back = called.executed(Instruction::Bbl { data }, 0);
    assert(back.regs == called.regs.ret());
    assert(target % 4096 == target);
}

/// An instruction of one cycle is counted exactly once: from A1 of a
/// first fetch, the eight phases of the cycle complete exactly one
/// instruction, whatever the bus carries, unless the byte fetched
/// begins a two-cycle instruction.
pub proof fn lemma_counts_one_cycle_instruction(
    s: CpuState,
    b0: u8,
    b1: u8,
    b2: u8,
    b3: u8,
    b4: u8,
    b5: u8,
    b6: u8,
    b7: u8,
)
    requires
        s.cycle.phase == BusCycle::A1,
        s.cycle.state == crate::bus::cycle::MachineState::Fetch1,
        !s.cycle.two_cycle,
        !s.cycle.second_cycle,
        s.cycle.can_count(),
    ensures
        ({
            let at_x3 = s.latched(BusCycle::A1, b0).latched(BusCycle::A2, b1).latched(
                BusCycle::A3,
                b2,
            ).latched(BusCycle::M1, b3).latched(BusCycle::M2, b4).latched(BusCycle::X1, b5).latched(
                BusCycle::X2,
                b6,
            );
            let end = at_x3.latched(BusCycle::X3, b7);
            let two_cycles = at_x3.decoder.two_byte || (at_x3.decoder.instruction is Some
                && at_x3.decoder.instruction->0 is Fin);
            &&& end.cycle.phase == BusCycle::A1
            &&& end.cycle.cycle_count == s.cycle.cycle_count + 1
            &&& !two_cycles ==> end.cycle.instruction_count == s.cycle.instruction_count + 1
                && end.cycle.state == crate::bus::cycle::MachineState::Fetch1
            &&& two_cycles ==> end.cycle.instruction_count == s.cycle.instruction_count
                && end.cycle.state == crate::bus::cycle::MachineState::Fetch2
                && end.cycle.second_cycle
        }),
{
    let s1 = s.latched(BusCycle::A1, b0);
    let s2 = s1.latched(BusCycle::A2, b1);
    let s3 = s2.latched(BusCycle::A3, b2);
    let s4 = s3.latched(BusCycle::M1, b3);
    let s5 = s4.latched(BusCycle::M2, b4);
    let s6 = s5.latched(BusCycle::X1, b5);
    let s7 = s6.latched(BusCycle::X2, b6);
    assert(s5.cycle.phase == BusCycle::X1);
    assert(!s5.in_indirect_fetch());
    assert(s6.decoder == InstructionDecoder::after_first(s5.instruction_byte));
    assert(s7.cycle.phase == BusCycle::X3);
    assert(!s7.in_indirect_fetch());
    if s7.decoder.instruction is Some {
        let stepped = CpuState { regs: s7.regs.increment_pc(), ..s7 };
        lemma_executed_cycle(stepped, s7.decoder.instruction->0, b7);
    }
}

/// An instruction's effect does not touch the cycle state.
pub proof fn lemma_executed_cycle(s: CpuState, instr: Instruction, bus: u8)
    ensures
        s.executed(instr, bus).cycle == s.cycle,
        s.executed(instr, bus).decoder == s.decoder,
{
    reveal(CpuState::executed);
}

/// The second cycle of a two-cycle instruction completes it: from A1
/// of a second fetch, eight phases later the instruction is counted,
/// and the machine is at a first fetch again.
pub proof fn lemma_counts_second_cycle(
    s: CpuState,
    b0: u8,
    b1: u8,
    b2: u8,
    b3: u8,
    b4: u8,
    b5: u8,
    b6: u8,
    b7: u8,
)
    requires
        s.cycle.phase == BusCycle::A1,
        s.cycle.state == crate::bus::cycle::MachineState::Fetch2,
        s.cycle.second_cycle,
        s.cycle.can_count(),
    ensures
        ({
            let end = s.latched(BusCycle::A1, b0).latched(BusCycle::A2, b1).latched(
                BusCycle::A3,
                b2,
            ).latched(BusCycle::M1, b3).latched(BusCycle::M2, b4).latched(BusCycle::X1, b5).latched(
                BusCycle::X2,
                b6,
            ).latched(BusCycle::X3, b7);
            &&& end.cycle.phase == BusCycle::A1
            &&& end.cycle.instruction_count == s.cycle.instruction_count + 1
            &&& end.cycle.cycle_count == s.cycle.cycle_count + 1
            &&& end.cycle.state == crate::bus::cycle::MachineState::Fetch1
            &&& !end.cycle.two_cycle
            &&& !end.cycle.second_cycle
        }),
{
    let s1 = s.latched(BusCycle::A1, b0);
    let s2 = s1.latched(BusCycle::A2, b1);
    let s3 = s2.latched(BusCycle::A3, b2);
    let s4 = s3.latched(BusCycle::M1, b3);
    let s5 = s4.latched(BusCycle::M2, b4);
    let s6 = s5.latched(BusCycle::X1, b5);
    let s7 = s6.latched(BusCycle::X2, b6);
    assert(s7.cycle.phase == BusCycle::X3);
    assert(s7.cycle.state == crate::bus::cycle::MachineState::Fetch2);
    if !s7.in_indirect_fetch() && !s7.decoder.awaits_second_byte() && s7.decoder.instruction is Some {
        let stepped = CpuState { regs: s7.regs.increment_pc(), ..s7 };
        lemma_executed_cycle(stepped, s7.decoder.instruction->0, b7);
    }
}

/// Intel 4004 CPU.
pub struct I4004 {
    /// Arithmetic unit.
    pub alu: Alu,
    /// Register file.
    pub registers: Registers,
    /// Instruction decoder.
    pub decoder: InstructionDecoder,
    /// Timing and I/O control.
    pub timing: TimingIo,
    /// The CPU's own place in the machine cycle.
    cycle: CycleState,
    /// The byte that M1 and M2 brought.
    instruction_byte: u8,
    /// The second byte of a two-byte instruction.
    operand: u8,
    /// The low nibble that SRC sent.
    ram_address: u8,
    /// The high nibble that SRC sent.
    ram_chip: u8,
    /// The TEST input.
    test_pin: bool,
    /// The low byte of the address of an indirect fetch.
    io_data: u8,
}

impl View for I4004 {
    type V = CpuState;

    closed spec fn view(&self) -> CpuState {
        CpuState {
            alu: self.alu@,
            regs: self.registers@,
            decoder: self.decoder,
            cycle: self.cycle,
            instruction_byte: self.instruction_byte,
            operand: self.operand,
            ram_address: self.ram_address,
            ram_chip: self.ram_chip,
            test_pin: self.test_pin,
            io_data: self.io_data,
        }
    }
}

impl I4004 {
    /// A CPU in its reset state.
    pub fn new() -> (cpu: I4004)
        ensures
            cpu@ == CpuState::initial(),
            cpu@.wf(),
    {
        I4004 {
            alu: Alu::new(),
            registers: Registers::new(),
            decoder: InstructionDecoder::new(),
            timing: TimingIo::new(),
            cycle: CycleState::new(),
            instruction_byte: 0,
            operand: 0,
            ram_address: 0,
            ram_chip: 0,
            test_pin: false,
            io_data: 0,
        }
    }

    /// Sets the TEST input.
    pub fn set_test_pin(&mut self, state: bool)
        ensures
            final(self)@ == (CpuState { test_pin: state, ..old(self)@ }),
    {
        self.test_pin = state;
    }

    /// The low nibble that the last SRC sent.
    pub fn ram_address(&self) -> (address: u8)
        ensures
            address == self@.ram_address,
    {
        self.ram_address
    }

    /// The high nibble that the last SRC sent.
    pub fn ram_chip(&self) -> (chip: u8)
        ensures
            chip == self@.ram_chip,
    {
        self.ram_chip
    }

    /// The program counter, always below 4096.
    pub fn pc(&self) -> (pc: u16)
        ensures
            pc == self@.regs.pc,
            pc < 4096,
    {
        self.registers.pc()
    }

    /// The accumulator, always below 16.
    pub fn accumulator(&self) -> (acc: u8)
        ensures
            acc == self@.alu.acc,
            acc < 16,
    {
        self.alu.accumulator()
    }

    /// The carry flag.
    pub fn carry(&self) -> (carry: bool)
        ensures
            carry == self@.alu.carry,
    {
        self.alu.carry()
    }

    /// Index register `index` modulo 16, always below 16.
    pub fn register(&self, index: u8) -> (value: u8)
        ensures
            value == self@.regs.r(index),
            value < 16,
    {
        self.registers.get_r(index)
    }

    /// Register pair `pair` modulo 8.
    pub fn register_pair(&self, pair: u8) -> (value: u8)
        ensures
            value == self@.regs.pair(pair),
    {
        self.registers.get_pair(pair)
    }

    /// The decoded instruction, if it is complete.
    pub fn current_instruction(&self) -> (instruction: Option<Instruction>)
        ensures
            instruction == self@.decoder.instruction,
    {
        self.decoder.get_instruction()
    }

    /// The CPU's cycle state.
    pub fn cycle_state(&self) -> (cycle: CycleState)
        ensures
            cycle == self@.cycle,
    {
        self.cycle
    }

    /// Whether the JCN condition `condition` holds.
    pub fn evaluate_condition(&self, condition: u8) -> (holds: bool)
        ensures
            holds == self@.condition_holds(condition),
    {
        let invert: bool = nibble::test_bit(condition, 3);
        let test_acc_zero: bool = nibble::test_bit(condition, 2);
        let test_carry: bool = nibble::test_bit(condition, 1);
        let test_pin: bool = nibble::test_bit(condition, 0);
        let mut result: bool = false;
        if test_acc_zero && self.alu.accumulator() == 0 {
            result = true;
        }
        if test_carry && self.alu.carry() {
            result = true;
        }
        if test_pin && self.test_pin {
            result = true;
        }
        if invert {
            !result
        } else {
            result
        }
    }

    /// The address in the page of the program counter with low byte
    /// `low`.
    fn page_address(&self, low: u8) -> (addr: u16)
        ensures
            addr == self@.in_page(low),
            addr < 4096,
    {
        (self.registers.pc() / 256) * 256 + low as u16
    }

    /// Lets `instr` take effect; `bus` is the nibble on the data bus, which
    /// the instructions that read from RAM or from a port take as their
    /// operand.
    #[verifier::rlimit(60)]
    pub fn execute(&mut self, instr: Instruction, bus: u8)
        requires
            old(self)@.wf(),
        ensures
            final(self)@ == old(self)@.executed(instr, bus),
            final(self)@.wf(),
    {
        proof {
            reveal(CpuState::executed);
            lemma_executed_keeps_wf(self@, instr, bus);
        }
        match instr {
            Instruction::Nop => {},
            Instruction::Jcn { condition, addr_low } => {
                let jump: bool = self.evaluate_condition(condition);
                if jump {
                    let new_pc: u16 = self.page_address(addr_low);
                    self.registers.set_pc(new_pc);
                }
            },
            Instruction::Fim { pair, data } => {
                self.registers.set_pair(pair, data);
            },
            Instruction::Src { pair } => {
                let addr: u8 = self.registers.get_pair(pair);
                self.ram_address = addr % 16;
                self.ram_chip = addr / 16;
            },
            Instruction::Fin { pair } => {
                let addr: u8 = self.registers.get_pair(0);
                self.io_data = addr;
            },
            Instruction::Jin { pair } => {
                let addr: u8 = self.registers.get_pair(pair);
                let new_pc: u16 = self.page_address(addr);
                self.registers.set_pc(new_pc);
            },
            Instruction::Jun { addr_high, addr_low } => {
                let new_pc: u16 = ((addr_high % 16) as u16) * 256 + (addr_low as u16);
                self.registers.set_pc(new_pc);
            },
            Instruction::Jms { addr_high, addr_low } => {
                let new_pc: u16 = ((addr_high % 16) as u16) * 256 + (addr_low as u16);
                self.registers.call(new_pc);
            },
            Instruction::Isz { reg, addr_low } => {
                let new_pc: u16 = self.page_address(addr_low);
                let wrapped: bool = self.registers.inc_r(reg);
                if !wrapped {
                    self.registers.set_pc(new_pc);
                }
            },
            Instruction::Inc { reg } => {
                let _ = self.registers.inc_r(reg);
            },
            Instruction::Add { reg } => {
                let value: u8 = self.registers.get_r(reg);
                self.alu.add(value);
            },
            Instruction::Sub { reg } => {
                let value: u8 = self.registers.get_r(reg);
                self.alu.sub(value);
            },
            Instruction::Ld { reg } => {
                let value: u8 = self.registers.get_r(reg);
                self.alu.load(value);
            },
            Instruction::Xch { reg } => {
                let reg_val: u8 = self.registers.get_r(reg);
                let old_acc: u8 = self.alu.xch(reg_val);
                self.registers.set_r(reg, old_acc);
            },
            Instruction::Bbl { data } => {
                self.registers.ret();
                self.alu.load(data);
            },
            Instruction::Ldm { data } => {
                self.alu.load(data);
            },
            Instruction::Wrm => {},
            Instruction::Wmp | Instruction::Wrr | Instruction::Wpm => {},
            Instruction::Wr0 | Instruction::Wr1 | Instruction::Wr2 | Instruction::Wr3 => {},
            Instruction::Sbm => {
                self.alu.sub(bus);
            },
            Instruction::Rdm => {
                self.alu.load(bus);
            },
            Instruction::Rdr => {
                self.alu.load(bus);
            },
            Instruction::Adm => {
                self.alu.add(bus);
            },
            Instruction::Rd0 | Instruction::Rd1 | Instruction::Rd2 | Instruction::Rd3 => {
                self.alu.load(bus);
            },
            Instruction::Clb => self.alu.clb(),
            Instruction::Clc => self.alu.set_carry(false),
            Instruction::Iac => self.alu.iac(),
            Instruction::Cmc => self.alu.cmc(),
            Instruction::Cma => self.alu.cma(),
            Instruction::Ral => self.alu.ral(),
            Instruction::Rar => self.alu.rar(),
            Instruction::Tcc => self.alu.tcc(),
            Instruction::Dac => self.alu.dac(),
            Instruction::Tcs => self.alu.tcs(),
            Instruction::Stc => self.alu.stc(),
            Instruction::Daa => self.alu.daa(),
            Instruction::Kbp => self.alu.kbp(),
            Instruction::Dcl => {},
            Instruction::Invalid { opcode: _ } => {},
        }
    }

    /// Whether this machine cycle is the indirect fetch of a FIN.
    fn in_indirect_fetch(&self) -> (yes: bool)
        ensures
            yes == self@.in_indirect_fetch(),
    {
        self.cycle.second_cycle && match self.decoder.get_instruction() {
            Some(Instruction::Fin { .. }) => true,
            _ => false,
        }
    }

    /// The address that goes out at A1 to A3.
    fn fetch_address(&self) -> (addr: u16)
        ensures
            addr == self@.fetch_address(),
            addr < 4096,
    {
        if self.in_indirect_fetch() {
            self.page_address(self.io_data)
        } else {
            self.registers.pc()
        }
    }

    /// What the CPU puts on the bus in `phase`, if anything.
    pub fn bus_output(&self, phase: BusCycle) -> (out: Option<u8>)
        ensures
            out == self@.output(phase),
            out is Some ==> out->0 < 16,
    {
        match phase {
            BusCycle::A1 => Some((self.fetch_address() % 16) as u8),
            BusCycle::A2 => Some(((self.fetch_address() / 16) % 16) as u8),
            BusCycle::A3 => Some(((self.fetch_address() / 256) % 16) as u8),
            BusCycle::X2 => {
                if !self.in_indirect_fetch() {
                    match self.decoder.get_instruction() {
                        Some(instr) => {
                            if io_operation(instr).is_write() {
                                Some(self.alu.accumulator())
                            } else {
                                None
                            }
                        },
                        None => None,
                    }
                } else {
                    None
                }
            },
            _ => None,
        }
    }

    /// X1: decodes the fetched byte and publishes the I/O operation.
    fn phase_x1(&mut self, ctrl: &mut ControlSignals)
        ensures
            final(self)@ == old(self)@.sampled(BusCycle::X1, 0),
            final(ctrl)@ == old(ctrl)@.with_io(old(self)@.published_io()),
    {
        if self.in_indirect_fetch() {
            ctrl.publish_io(IoOperation::Idle);
        } else {
            if self.cycle.second_cycle {
                self.decoder.decode_second(self.instruction_byte);
                self.operand = self.instruction_byte;
            } else {
                self.decoder.decode_first(self.instruction_byte);
            }
            match self.decoder.get_instruction() {
                Some(instr) => ctrl.publish_io(io_operation(instr)),
                None => ctrl.publish_io(IoOperation::Idle),
            }
        }
    }

    /// X3: moves the program counter on and lets the instruction take
    /// effect.
    fn phase_x3(&mut self, bus: u8)
        requires
            old(self)@.wf(),
        ensures
            final(self)@ == old(self)@.completed(bus),
            final(self)@.wf(),
    {
        proof {
            lemma_latched_keeps_wf(self@, BusCycle::X3, bus);
        }
        if self.in_indirect_fetch() {
            match self.decoder.get_instruction() {
                Some(Instruction::Fin { pair }) => {
                    self.registers.set_pair(pair, self.instruction_byte);
                },
                _ => {},
            }
        } else if self.decoder.needs_second_byte() {
            self.registers.increment_pc();
            self.cycle.set_two_cycle();
        } else {
            match self.decoder.get_instruction() {
                Some(instr) => {
                    self.registers.increment_pc();
                    self.execute(instr, bus);
                    match instr {
                        Instruction::Fin { .. } => {
                            self.cycle.set_two_cycle();
                        },
                        _ => {},
                    }
                },
                None => {},
            }
        }
    }

    /// Samples the bus in `phase` and does the CPU's part of the phase
    /// on the control lines; `bus` is the nibble on the data bus.
    pub fn latch(&mut self, phase: BusCycle, bus: u8, ctrl: &mut ControlSignals, now: Time)
        requires
            old(self)@.wf(),
            old(self)@.cycle.can_count(),
            old(ctrl)@.wf(),
        ensures
            final(self)@ == old(self)@.latched(phase, bus),
            final(ctrl)@ == old(self)@.control_after(phase, old(ctrl)@, now),
            final(self)@.wf(),
            final(ctrl)@.wf(),
    {
        proof {
            lemma_latched_keeps_wf(self@, phase, bus);
            lemma_completed_cycle(self@, bus);
        }
        match phase {
            BusCycle::A1 => {
                ctrl.publish_io(IoOperation::Idle);
                ctrl.assert_sync(now);
            },
            BusCycle::A2 => {
                ctrl.deassert_sync(now);
            },
            BusCycle::A3 => {
                let page: u8 = ((self.fetch_address() / 256) % 16) as u8;
                ctrl.select_rom(page, now);
            },
            BusCycle::M1 => {
                self.instruction_byte = (self.instruction_byte / 16) * 16 + bus % 16;
            },
            BusCycle::M2 => {
                self.instruction_byte = (bus % 16) * 16 + self.instruction_byte % 16;
            },
            BusCycle::X1 => {
                self.phase_x1(ctrl);
            },
            BusCycle::X2 => {},
            BusCycle::X3 => {
                self.phase_x3(bus);
            },
        }
        self.cycle.advance();
    }

    /// Processes one bus phase: the CPU drives the bus through its
    /// driver `driver` or lets go of it, and then samples the bus.
    pub fn tick(
        &mut self,
        phase: BusCycle,
        bus: &mut DataBus,
        ctrl: &mut ControlSignals,
        driver: usize,
        now: Time,
    )
        requires
            old(self)@.wf(),
            old(self)@.cycle.can_count(),
            old(ctrl)@.wf(),
            old(bus)@.wf(),
        ensures
            final(bus)@ == (match old(self)@.output(phase) {
                Some(v) => old(bus)@.driven(driver as int, v, now),
                None => old(bus)@.released(driver as int, now),
            }),
            final(self)@ == old(self)@.latched(phase, final(bus)@.nibble() as u8),
            final(ctrl)@ == old(self)@.control_after(phase, old(ctrl)@, now),
            final(self)@.wf(),
            final(ctrl)@.wf(),
            final(bus)@.wf(),
    {
        match self.bus_output(phase) {
            Some(v) => bus.drive(driver, v, now),
            None => bus.release(driver, now),
        }
        let nibble: u8 = bus.read();
        self.latch(phase, nibble, ctrl, now);
    }
}

impl Default for I4004 {
    fn default() -> (cpu: I4004)
        ensures
            cpu@ == CpuState::initial(),
    {
        I4004::new()
    }
}

impl Chip for I4004 {
    open spec fn can_tick(&self) -> bool {
        self@.cycle.can_count()
    }

    fn name(&self) -> (name: &'static str)
        ensures
            name@ == "4004"@,
    {
        "4004"
    }

    /// Brings the CPU to its reset state.
    fn reset(&mut self)
        ensures
            final(self)@ == CpuState::initial(),
            final(self)@.wf(),
    {
        self.alu = Alu::new();
        self.registers = Registers::new();
        self.decoder = InstructionDecoder::new();
        self.cycle = CycleState::new();
        self.instruction_byte = 0;
        self.operand = 0;
        self.ram_address = 0;
        self.ram_chip = 0;
        self.test_pin = false;
        self.io_data = 0;
    }

    /// Moves the cycle state on by one phase.
    fn tick(&mut self, phase: BusCycle)
        ensures
            final(self)@ == (CpuState { cycle: old(self)@.cycle.advanced(), ..old(self)@ }),
    {
        self.cycle.advance();
    }
}

} // verus!
