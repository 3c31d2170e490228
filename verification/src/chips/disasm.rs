//! The disassembler's core: one line per ROM byte.

use vstd::prelude::*;
use vstd::slice::slice_index_get;

verus! {

/// The CPU whose code is disassembled.
#[derive(Clone, Copy, Debug, PartialEq, Eq, Structural)]
pub enum CpuType {
    I4004,
    I4040,
}

/// One line of a listing.
#[derive(Debug)]
pub struct DisasmLine {
    pub address: u16,
    pub bytes: Vec<u8>,
    pub mnemonic: String,
    pub operands: String,
}

/// The upper-case hexadecimal digit of `value`, which is below 16.
pub open spec fn hex_digit(value: u8) -> char {
    if value == 0 {
        '0'
    } else if value == 1 {
        '1'
    } else if value == 2 {
        '2'
    } else if value == 3 {
        '3'
    } else if value == 4 {
        '4'
    } else if value == 5 {
        '5'
    } else if value == 6 {
        '6'
    } else if value == 7 {
        '7'
    } else if value == 8 {
        '8'
    } else if value == 9 {
        '9'
    } else if value == 10 {
        'A'
    } else if value == 11 {
        'B'
    } else if value == 12 {
        'C'
    } else if value == 13 {
        'D'
    } else if value == 14 {
        'E'
    } else {
        'F'
    }
}

/// The label of an opcode: "OP" and the byte in two hexadecimal digits.
pub open spec fn opcode_label(op: u8) -> Seq<char> {
    seq!['O', 'P', hex_digit(op / 16), hex_digit(op % 16)]
}

/// `format!` with `{:02X}`: "OP" followed by the byte as two
/// upper-case hexadecimal digits.
#[verifier::external_body]
fn format_opcode(op: u8) -> (label: String)
    ensures
        label@ == opcode_label(op),
{
    format!("OP{:02X}", op)
}

/// The byte of `rom` at `addr`, or 0 beyond its end.
pub open spec fn byte_at(rom: Seq<u8>, addr: int) -> u8 {
    if 0 <= addr < rom.len() {
        rom[addr]
    } else {
        0
    }
}

/// Disassembler.
#[derive(Debug)]
pub struct Disassembler {
    pub cpu_type: CpuType,
}

impl Disassembler {
    pub fn new(cpu_type: CpuType) -> (d: Disassembler)
        ensures
            d.cpu_type == cpu_type,
    {
        Disassembler { cpu_type }
    }

    /// The line for the byte at `addr`: the byte itself, labelled with
    /// its value. Beyond the end of `rom` the byte counts as 0.
    pub fn disasm_one(&self, rom: &[u8], addr: u16) -> (line: DisasmLine)
        ensures
            line.address == addr,
            line.bytes@ == seq![byte_at(rom@, addr as int)],
            line.mnemonic@ == opcode_label(byte_at(rom@, addr as int)),
            line.operands@.len() == 0,
    {
        let op: u8 = if (addr as usize) < rom.len() {
            *slice_index_get(rom, addr as usize)
        } else {
            0x00
        };
        let mut bytes: Vec<u8> = Vec::new();
        bytes.push(op);
        assert(bytes@ =~= seq![op]);
        DisasmLine { address: addr, bytes, mnemonic: format_opcode(op), operands: String::new() }
    }

    /// The lines for the bytes from `start` to `end`, both included;
    /// none where `end` is below `start`.
    pub fn disasm_range(&self, rom: &[u8], start: u16, end: u16) -> (lines: Vec<DisasmLine>)
        ensures
            lines@.len() == (if start <= end {
                end - start + 1
            } else {
                0
            }),
            forall|i: int|
                0 <= i < lines@.len() ==> (#[trigger] lines@[i]).address == start + i && lines@[i].bytes@
                    == seq![byte_at(rom@, start + i)] && lines@[i].mnemonic@ == opcode_label(
                    byte_at(rom@, start + i),
                ) && lines@[i].operands@.len() == 0,
    {
        let mut lines: Vec<DisasmLine> = Vec::new();
        if start > end {
            return lines;
        }
        let mut addr: u32 = start as u32;
        while addr <= end as u32
            invariant
                start <= addr <= end + 1,
                lines@.len() == addr - start,
                forall|i: int|
                    0 <= i < lines@.len() ==> (#[trigger] lines@[i]).address == start + i
                        && lines@[i].bytes@ == seq![byte_at(rom@, start + i)] && lines@[i].mnemonic@
                        == opcode_label(byte_at(rom@, start + i)) && lines@[i].operands@.len() == 0,
            decreases end + 1 - addr,
        {
            lines.push(self.disasm_one(rom, addr as u16));
            addr += 1;
        }
        lines
    }
}

} // verus!
