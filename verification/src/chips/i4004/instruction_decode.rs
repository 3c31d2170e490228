//! The 4004's instruction decoder.
//!
//! An instruction is one byte, `OPR:OPA`, or two: the families JCN, FIM,
//! JUN, JMS and ISZ take a second byte in the following machine cycle.

use vstd::prelude::*;
use crate::nibble;

verus! {

/// All 4004 instructions.
#[derive(Clone, Copy, Debug, PartialEq, Eq, Structural)]
pub enum Instruction {
    /// No operation.
    Nop,
    /// Jump on condition. The condition nibble holds: bit 3 invert,
    /// bit 2 accumulator zero, bit 1 carry, bit 0 test pin.
    Jcn { condition: u8, addr_low: u8 },
    /// Fetch immediate to a register pair.
    Fim { pair: u8, data: u8 },
    /// Send register control.
    Src { pair: u8 },
    /// Fetch indirect from ROM through pair 0.
    Fin { pair: u8 },
    /// Jump indirect through a pair.
    Jin { pair: u8 },
    /// Jump unconditional.
    Jun { addr_high: u8, addr_low: u8 },
    /// Jump to subroutine.
    Jms { addr_high: u8, addr_low: u8 },
    /// Increment a register and jump unless it became zero.
    Isz { reg: u8, addr_low: u8 },
    /// Increment a register.
    Inc { reg: u8 },
    /// Add a register to the accumulator with carry.
    Add { reg: u8 },
    /// Subtract a register from the accumulator with borrow.
    Sub { reg: u8 },
    /// Load a register into the accumulator.
    Ld { reg: u8 },
    /// Exchange accumulator and register.
    Xch { reg: u8 },
    /// Branch back and load.
    Bbl { data: u8 },
    /// Load immediate into the accumulator.
    Ldm { data: u8 },
    /// Write the accumulator to RAM.
    Wrm,
    /// Write the accumulator to the RAM output port.
    Wmp,
    /// Write the accumulator to the ROM output port.
    Wrr,
    /// Write program RAM.
    Wpm,
    /// Write RAM status character 0.
    Wr0,
    /// Write RAM status character 1.
    Wr1,
    /// Write RAM status character 2.
    Wr2,
    /// Write RAM status character 3.
    Wr3,
    /// Subtract RAM from the accumulator with borrow.
    Sbm,
    /// Read RAM into the accumulator.
    Rdm,
    /// Read the ROM input port.
    Rdr,
    /// Add RAM to the accumulator with carry.
    Adm,
    /// Read RAM status character 0.
    Rd0,
    /// Read RAM status character 1.
    Rd1,
    /// Read RAM status character 2.
    Rd2,
    /// Read RAM status character 3.
    Rd3,
    /// Clear accumulator and carry.
    Clb,
    /// Clear carry.
    Clc,
    /// Increment accumulator.
    Iac,
    /// Complement carry.
    Cmc,
    /// Complement accumulator.
    Cma,
    /// Rotate left through carry.
    Ral,
    /// Rotate right through carry.
    Rar,
    /// Transfer carry to accumulator and clear carry.
    Tcc,
    /// Decrement accumulator.
    Dac,
    /// Transfer carry subtract.
    Tcs,
    /// Set carry.
    Stc,
    /// Decimal adjust accumulator.
    Daa,
    /// Keyboard process.
    Kbp,
    /// Designate command line; no operation on the 4004.
    Dcl,
    /// A byte that encodes no instruction.
    Invalid { opcode: u8 },
}

/// Whether a first byte with these nibbles announces a second byte.
pub open spec fn announces_second_byte(opr: u8, opa: u8) -> bool {
    opr == 1 || (opr == 2 && opa % 2 == 0) || opr == 4 || opr == 5 || opr == 7
}

/// The byte that an undecodable pair of nibbles is reported as.
pub open spec fn raw_opcode(opr: u8, opa: u8) -> u8 {
    (opr << 4) | opa
}

/// For nibbles, the reported byte is the byte they came from.
pub proof fn lemma_raw_opcode(opr: u8, opa: u8)
    requires
        opr < 16,
        opa < 16,
    ensures
        raw_opcode(opr, opa) == opr * 16 + opa,
{
    assert(opr < 16 && opa < 16 ==> ((opr << 4) | opa) == opr * 16 + opa) by (bit_vector);
}

/// The I/O and RAM group, OPR = 0xE.
pub open spec fn io_group(opa: u8) -> Instruction {
    if opa == 0x0 {
        Instruction::Wrm
    } else if opa == 0x1 {
        Instruction::Wmp
    } else if opa == 0x2 {
        Instruction::Wrr
    } else if opa == 0x3 {
        Instruction::Wpm
    } else if opa == 0x4 {
        Instruction::Wr0
    } else if opa == 0x5 {
        Instruction::Wr1
    } else if opa == 0x6 {
        Instruction::Wr2
    } else if opa == 0x7 {
        Instruction::Wr3
    } else if opa == 0x8 {
        Instruction::Sbm
    } else if opa == 0x9 {
        Instruction::Rdm
    } else if opa == 0xA {
        Instruction::Rdr
    } else if opa == 0xB {
        Instruction::Adm
    } else if opa == 0xC {
        Instruction::Rd0
    } else if opa == 0xD {
        Instruction::Rd1
    } else if opa == 0xE {
        Instruction::Rd2
    } else if opa == 0xF {
        Instruction::Rd3
    } else {
        Instruction::Invalid { opcode: raw_opcode(0xE, opa) }
    }
}

/// The accumulator group, OPR = 0xF.
pub open spec fn accumulator_group(opa: u8) -> Instruction {
    if opa == 0x0 {
        Instruction::Clb
    } else if opa == 0x1 {
        Instruction::Clc
    } else if opa == 0x2 {
        Instruction::Iac
    } else if opa == 0x3 {
        Instruction::Cmc
    } else if opa == 0x4 {
        Instruction::Cma
    } else if opa == 0x5 {
        Instruction::Ral
    } else if opa == 0x6 {
        Instruction::Rar
    } else if opa == 0x7 {
        Instruction::Tcc
    } else if opa == 0x8 {
        Instruction::Dac
    } else if opa == 0x9 {
        Instruction::Tcs
    } else if opa == 0xA {
        Instruction::Stc
    } else if opa == 0xB {
        Instruction::Daa
    } else if opa == 0xC {
        Instruction::Kbp
    } else if opa == 0xD {
        Instruction::Dcl
    } else {
        Instruction::Invalid { opcode: raw_opcode(0xF, opa) }
    }
}

/// What a one-byte instruction with these nibbles is.
pub open spec fn single_byte_instruction(opr: u8, opa: u8) -> Instruction {
    if opr == 0x0 {
        Instruction::Nop
    } else if opr == 0x2 && opa % 2 == 1 {
        Instruction::Src { pair: opa / 2 }
    } else if opr == 0x3 && opa % 2 == 0 {
        Instruction::Fin { pair: opa / 2 }
    } else if opr == 0x3 {
        Instruction::Jin { pair: opa / 2 }
    } else if opr == 0x6 {
        Instruction::Inc { reg: opa }
    } else if opr == 0x8 {
        Instruction::Add { reg: opa }
    } else if opr == 0x9 {
        Instruction::Sub { reg: opa }
    } else if opr == 0xA {
        Instruction::Ld { reg: opa }
    } else if opr == 0xB {
        Instruction::Xch { reg: opa }
    } else if opr == 0xC {
        Instruction::Bbl { data: opa }
    } else if opr == 0xD {
        Instruction::Ldm { data: opa }
    } else if opr == 0xE {
        io_group(opa)
    } else if opr == 0xF {
        accumulator_group(opa)
    } else {
        Instruction::Invalid { opcode: raw_opcode(opr, opa) }
    }
}

/// What a two-byte instruction with these nibbles and second byte is.
pub open spec fn two_byte_instruction(opr: u8, opa: u8, operand: u8) -> Instruction {
    if opr == 0x1 {
        Instruction::Jcn { condition: opa, addr_low: operand }
    } else if opr == 0x2 {
        Instruction::Fim { pair: opa / 2, data: operand }
    } else if opr == 0x4 {
        Instruction::Jun { addr_high: opa, addr_low: operand }
    } else if opr == 0x5 {
        Instruction::Jms { addr_high: opa, addr_low: operand }
    } else if opr == 0x7 {
        Instruction::Isz { reg: opa, addr_low: operand }
    } else {
        Instruction::Invalid { opcode: raw_opcode(opr, opa) }
    }
}

/// Instruction decoder of the 4004.
#[derive(Clone, Copy, Debug)]
pub struct InstructionDecoder {
    /// Upper nibble of the first byte.
    pub opr: u8,
    /// Lower nibble of the first byte.
    pub opa: u8,
    /// Whether the first byte announced a second one.
    pub two_byte: bool,
    /// The second byte.
    pub operand: u8,
    /// The decoded instruction, once it is complete.
    pub instruction: Option<Instruction>,
}

impl InstructionDecoder {
    /// The decoder after a first byte.
    pub open spec fn after_first(byte: u8) -> InstructionDecoder {
        InstructionDecoder {
            opr: byte / 16,
            opa: byte % 16,
            two_byte: announces_second_byte(byte / 16, byte % 16),
            operand: 0,
            instruction: if announces_second_byte(byte / 16, byte % 16) {
                None
            } else {
                Some(single_byte_instruction(byte / 16, byte % 16))
            },
        }
    }

    /// The decoder after a second byte.
    pub open spec fn after_second(self, byte: u8) -> InstructionDecoder {
        InstructionDecoder {
            operand: byte,
            instruction: Some(two_byte_instruction(self.opr, self.opa, byte)),
            ..self
        }
    }

    /// Whether a first byte was seen that still lacks its second.
    pub open spec fn awaits_second_byte(self) -> bool {
        self.two_byte && self.instruction is None
    }

    pub fn new() -> (decoder: InstructionDecoder)
        ensures
            decoder == (InstructionDecoder {
                opr: 0,
                opa: 0,
                two_byte: false,
                operand: 0,
                instruction: None,
            }),
    {
        InstructionDecoder { opr: 0, opa: 0, two_byte: false, operand: 0, instruction: None }
    }

    /// Decodes the first byte of an instruction: splits it into OPR and
    /// OPA and, unless it announces a second byte, decodes it.
    pub fn decode_first(&mut self, byte: u8)
        ensures
            *final(self) == InstructionDecoder::after_first(byte),
    {
        self.opr = nibble::high(byte);
        self.opa = nibble::low(byte);
        self.operand = 0;
        self.two_byte = self.opr == 0x1 || (self.opr == 0x2 && self.opa % 2 == 0) || self.opr == 0x4
            || self.opr == 0x5 || self.opr == 0x7;
        if !self.two_byte {
            self.instruction = Some(self.decode_single_byte());
        } else {
            self.instruction = None;
        }
    }

    /// Completes a two-byte instruction with its second byte.
    pub fn decode_second(&mut self, byte: u8)
        ensures
            *final(self) == old(self).after_second(byte),
    {
        self.operand = byte;
        self.instruction = Some(self.decode_two_byte());
    }

    /// Same as [`InstructionDecoder::decode_first`].
    pub fn decode(&mut self, instruction: u8)
        ensures
            *final(self) == InstructionDecoder::after_first(instruction),
    {
        self.decode_first(instruction);
    }

    /// Decodes the stored nibbles as a one-byte instruction.
    pub fn decode_single_byte(&self) -> (instruction: Instruction)
        ensures
            instruction == single_byte_instruction(self.opr, self.opa),
    {
        let opr: u8 = self.opr;
        let opa: u8 = self.opa;
        let invalid = Instruction::Invalid { opcode: (opr << 4) | opa };
        match opr {
            0x0 => Instruction::Nop,
            0x2 => {
                if opa % 2 == 1 {
                    Instruction::Src { pair: opa / 2 }
                } else {
                    invalid
                }
            },
            0x3 => {
                if opa % 2 == 0 {
                    Instruction::Fin { pair: opa / 2 }
                } else {
                    Instruction::Jin { pair: opa / 2 }
                }
            },
            0x6 => Instruction::Inc { reg: opa },
            0x8 => Instruction::Add { reg: opa },
            0x9 => Instruction::Sub { reg: opa },
            0xA => Instruction::Ld { reg: opa },
            0xB => Instruction::Xch { reg: opa },
            0xC => Instruction::Bbl { data: opa },
            0xD => Instruction::Ldm { data: opa },
            0xE => {
                match opa {
                    0x0 => Instruction::Wrm,
                    0x1 => Instruction::Wmp,
                    0x2 => Instruction::Wrr,
                    0x3 => Instruction::Wpm,
                    0x4 => Instruction::Wr0,
                    0x5 => Instruction::Wr1,
                    0x6 => Instruction::Wr2,
                    0x7 => Instruction::Wr3,
                    0x8 => Instruction::Sbm,
                    0x9 => Instruction::Rdm,
                    0xA => Instruction::Rdr,
                    0xB => Instruction::Adm,
                    0xC => Instruction::Rd0,
                    0xD => Instruction::Rd1,
                    0xE => Instruction::Rd2,
                    0xF => Instruction::Rd3,
                    _ => invalid,
                }
            },
            0xF => {
                match opa {
                    0x0 => Instruction::Clb,
                    0x1 => Instruction::Clc,
                    0x2 => Instruction::Iac,
                    0x3 => Instruction::Cmc,
                    0x4 => Instruction::Cma,
                    0x5 => Instruction::Ral,
                    0x6 => Instruction::Rar,
                    0x7 => Instruction::Tcc,
                    0x8 => Instruction::Dac,
                    0x9 => Instruction::Tcs,
                    0xA => Instruction::Stc,
                    0xB => Instruction::Daa,
                    0xC => Instruction::Kbp,
                    0xD => Instruction::Dcl,
                    _ => invalid,
                }
            },
            _ => invalid,
        }
    }

    /// Decodes the stored nibbles and second byte as a two-byte
    /// instruction.
    pub fn decode_two_byte(&self) -> (instruction: Instruction)
        ensures
            instruction == two_byte_instruction(self.opr, self.opa, self.operand),
    {
        let opr: u8 = self.opr;
        let opa: u8 = self.opa;
        match opr {
            0x1 => Instruction::Jcn { condition: opa, addr_low: self.operand },
            0x2 => Instruction::Fim { pair: opa / 2, data: self.operand },
            0x4 => Instruction::Jun { addr_high: opa, addr_low: self.operand },
            0x5 => Instruction::Jms { addr_high: opa, addr_low: self.operand },
            0x7 => Instruction::Isz { reg: opa, addr_low: self.operand },
            _ => Instruction::Invalid { opcode: (opr << 4) | opa },
        }
    }

    /// The decoded instruction, if it is complete.
    pub fn get_instruction(&self) -> (instruction: Option<Instruction>)
        ensures
            instruction == self.instruction,
    {
        self.instruction
    }

    /// Whether the decoder waits for a second byte.
    pub fn needs_second_byte(&self) -> (needed: bool)
        ensures
            needed == self.awaits_second_byte(),
    {
        self.two_byte && self.instruction.is_none()
    }
}

impl Default for InstructionDecoder {
    fn default() -> (decoder: InstructionDecoder)
        ensures
            decoder == (InstructionDecoder {
                opr: 0,
                opa: 0,
                two_byte: false,
                operand: 0,
                instruction: None,
            }),
    {
        InstructionDecoder::new()
    }
}

impl Instruction {
    /// The mnemonic as text.
    pub open spec fn mnemonic_text(self) -> Seq<char> {
        match self {
            Instruction::Nop => "NOP"@,
            Instruction::Jcn { .. } => "JCN"@,
            Instruction::Fim { .. } => "FIM"@,
            Instruction::Src { .. } => "SRC"@,
            Instruction::Fin { .. } => "FIN"@,
            Instruction::Jin { .. } => "JIN"@,
            Instruction::Jun { .. } => "JUN"@,
            Instruction::Jms { .. } => "JMS"@,
            Instruction::Isz { .. } => "ISZ"@,
            Instruction::Inc { .. } => "INC"@,
            Instruction::Add { .. } => "ADD"@,
            Instruction::Sub { .. } => "SUB"@,
            Instruction::Ld { .. } => "LD"@,
            Instruction::Xch { .. } => "XCH"@,
            Instruction::Bbl { .. } => "BBL"@,
            Instruction::Ldm { .. } => "LDM"@,
            Instruction::Wrm => "WRM"@,
            Instruction::Wmp => "WMP"@,
            Instruction::Wrr => "WRR"@,
            Instruction::Wpm => "WPM"@,
            Instruction::Wr0 => "WR0"@,
            Instruction::Wr1 => "WR1"@,
            Instruction::Wr2 => "WR2"@,
            Instruction::Wr3 => "WR3"@,
            Instruction::Sbm => "SBM"@,
            Instruction::Rdm => "RDM"@,
            Instruction::Rdr => "RDR"@,
            Instruction::Adm => "ADM"@,
            Instruction::Rd0 => "RD0"@,
            Instruction::Rd1 => "RD1"@,
            Instruction::Rd2 => "RD2"@,
            Instruction::Rd3 => "RD3"@,
            Instruction::Clb => "CLB"@,
            Instruction::Clc => "CLC"@,
            Instruction::Iac => "IAC"@,
            Instruction::Cmc => "CMC"@,
            Instruction::Cma => "CMA"@,
            Instruction::Ral => "RAL"@,
            Instruction::Rar => "RAR"@,
            Instruction::Tcc => "TCC"@,
            Instruction::Dac => "DAC"@,
            Instruction::Tcs => "TCS"@,
            Instruction::Stc => "STC"@,
            Instruction::Daa => "DAA"@,
            Instruction::Kbp => "KBP"@,
            Instruction::Dcl => "DCL"@,
            Instruction::Invalid { .. } => "???"@,
        }
    }

    /// Whether the instruction occupies two bytes.
    pub open spec fn is_two_byte(self) -> bool {
        self is Jcn || self is Fim || self is Jun || self is Jms || self is Isz
    }

    /// Length in bytes: 2 for JCN, FIM, JUN, JMS and ISZ, else 1.
    pub open spec fn byte_length(self) -> int {
        if self.is_two_byte() {
            2
        } else {
            1
        }
    }

    /// Machine cycles: 2 for the two-byte instructions and for the
    /// indirect FIN and JIN, else 1.
    pub open spec fn machine_cycles(self) -> int {
        if self.is_two_byte() || self is Fin || self is Jin {
            2
        } else {
            1
        }
    }

    /// The instruction's mnemonic.
    pub fn mnemonic(&self) -> (text: &'static str)
        ensures
            text@ == self.mnemonic_text(),
    {
        match self {
            Instruction::Nop => "NOP",
            Instruction::Jcn { .. } => "JCN",
            Instruction::Fim { .. } => "FIM",
            Instruction::Src { .. } => "SRC",
            Instruction::Fin { .. } => "FIN",
            Instruction::Jin { .. } => "JIN",
            Instruction::Jun { .. } => "JUN",
            Instruction::Jms { .. } => "JMS",
            Instruction::Isz { .. } => "ISZ",
            Instruction::Inc { .. } => "INC",
            Instruction::Add { .. } => "ADD",
            Instruction::Sub { .. } => "SUB",
            Instruction::Ld { .. } => "LD",
            Instruction::Xch { .. } => "XCH",
            Instruction::Bbl { .. } => "BBL",
            Instruction::Ldm { .. } => "LDM",
            Instruction::Wrm => "WRM",
            Instruction::Wmp => "WMP",
            Instruction::Wrr => "WRR",
            Instruction::Wpm => "WPM",
            Instruction::Wr0 => "WR0",
            Instruction::Wr1 => "WR1",
            Instruction::Wr2 => "WR2",
            Instruction::Wr3 => "WR3",
            Instruction::Sbm => "SBM",
            Instruction::Rdm => "RDM",
            Instruction::Rdr => "RDR",
            Instruction::Adm => "ADM",
            Instruction::Rd0 => "RD0",
            Instruction::Rd1 => "RD1",
            Instruction::Rd2 => "RD2",
            Instruction::Rd3 => "RD3",
            Instruction::Clb => "CLB",
            Instruction::Clc => "CLC",
            Instruction::Iac => "IAC",
            Instruction::Cmc => "CMC",
            Instruction::Cma => "CMA",
            Instruction::Ral => "RAL",
            Instruction::Rar => "RAR",
            Instruction::Tcc => "TCC",
            Instruction::Dac => "DAC",
            Instruction::Tcs => "TCS",
            Instruction::Stc => "STC",
            Instruction::Daa => "DAA",
            Instruction::Kbp => "KBP",
            Instruction::Dcl => "DCL",
            Instruction::Invalid { .. } => "???",
        }
    }

    /// The instruction's length in bytes.
    pub fn length(&self) -> (bytes: u8)
        ensures
            bytes == self.byte_length(),
    {
        match self {
            Instruction::Jcn { .. }
            | Instruction::Fim { .. }
            | Instruction::Jun { .. }
            | Instruction::Jms { .. }
            | Instruction::Isz { .. } => 2,
            _ => 1,
        }
    }

    /// The number of machine cycles the instruction takes.
    pub fn cycles(&self) -> (count: u8)
        ensures
            count == self.machine_cycles(),
    {
        match self {
            Instruction::Jcn { .. }
            | Instruction::Fim { .. }
            | Instruction::Jun { .. }
            | Instruction::Jms { .. }
            | Instruction::Isz { .. }
            | Instruction::Fin { .. }
            | Instruction::Jin { .. } => 2,
            _ => 1,
        }
    }
}

/// A byte decodes as two-byte exactly when the instruction that its
/// second byte completes has length 2.
pub proof fn lemma_length_matches_decoder(byte: u8, operand: u8)
    ensures
        InstructionDecoder::after_first(byte).two_byte ==> InstructionDecoder::after_first(
            byte,
        ).after_second(operand).instruction->0.byte_length() == 2,
        !InstructionDecoder::after_first(byte).two_byte ==> InstructionDecoder::after_first(
            byte,
        ).instruction->0.byte_length() == 1,
{
}

} // verus!
