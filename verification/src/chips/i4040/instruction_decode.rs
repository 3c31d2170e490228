//! The opcodes that the 4040 adds to the 4004's.

use vstd::prelude::*;

verus! {

/// The 4040's additional instructions.
#[derive(Clone, Copy, Debug, PartialEq, Eq, Structural)]
pub enum Opcode4040 {
    Hlt,
    Bbs,
    Lcr,
    Or4,
    Or5,
    An6,
    An7,
    Db0,
    Db1,
    Sb0,
    Sb1,
    Ein,
    Din,
    Rpm,
}

/// The instruction that the byte `op` encodes, if it is one of the
/// 4040's additions: the bytes 0x01 to 0x0E, in the order of the enum.
pub open spec fn extension_of(op: u8) -> Option<Opcode4040> {
    if op == 0x01 {
        Some(Opcode4040::Hlt)
    } else if op == 0x02 {
        Some(Opcode4040::Bbs)
    } else if op == 0x03 {
        Some(Opcode4040::Lcr)
    } else if op == 0x04 {
        Some(Opcode4040::Or4)
    } else if op == 0x05 {
        Some(Opcode4040::Or5)
    } else if op == 0x06 {
        Some(Opcode4040::An6)
    } else if op == 0x07 {
        Some(Opcode4040::An7)
    } else if op == 0x08 {
        Some(Opcode4040::Db0)
    } else if op == 0x09 {
        Some(Opcode4040::Db1)
    } else if op == 0x0A {
        Some(Opcode4040::Sb0)
    } else if op == 0x0B {
        Some(Opcode4040::Sb1)
    } else if op == 0x0C {
        Some(Opcode4040::Ein)
    } else if op == 0x0D {
        Some(Opcode4040::Din)
    } else if op == 0x0E {
        Some(Opcode4040::Rpm)
    } else {
        None
    }
}

/// Decodes one of the 4040's additional instructions.
pub fn decode_ext(op: u8) -> (decoded: Option<Opcode4040>)
    ensures
        decoded == extension_of(op),
{
    match op {
        0x01 => Some(Opcode4040::Hlt),
        0x02 => Some(Opcode4040::Bbs),
        0x03 => Some(Opcode4040::Lcr),
        0x04 => Some(Opcode4040::Or4),
        0x05 => Some(Opcode4040::Or5),
        0x06 => Some(Opcode4040::An6),
        0x07 => Some(Opcode4040::An7),
        0x08 => Some(Opcode4040::Db0),
        0x09 => Some(Opcode4040::Db1),
        0x0A => Some(Opcode4040::Sb0),
        0x0B => Some(Opcode4040::Sb1),
        0x0C => Some(Opcode4040::Ein),
        0x0D => Some(Opcode4040::Din),
        0x0E => Some(Opcode4040::Rpm),
        _ => None,
    }
}

} // verus!
