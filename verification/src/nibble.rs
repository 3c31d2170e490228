//! Four-bit helpers.
//!
//! The MCS-4 moves everything in nibbles. The functions here are the only
//! place where the bit operators of the executable code meet the
//! arithmetic in which the contracts are written.

use vstd::prelude::*;

verus! {

/// Bit `i` of `value`.
pub open spec fn bit_of(value: int, i: int) -> bool {
    if i == 0 {
        value % 2 == 1
    } else if i == 1 {
        (value / 2) % 2 == 1
    } else if i == 2 {
        (value / 4) % 2 == 1
    } else if i == 3 {
        (value / 8) % 2 == 1
    } else {
        false
    }
}

/// The nibble whose bits 0 to 3 are `b0` to `b3`.
pub open spec fn nibble_of_bits(b0: bool, b1: bool, b2: bool, b3: bool) -> int {
    (if b0 { 1int } else { 0 }) + (if b1 { 2int } else { 0 }) + (if b2 { 4int } else { 0 }) + (if b3 {
        8int
    } else {
        0
    })
}

/// A nibble is the sum of its bits.
pub proof fn lemma_nibble_bits(value: int)
    requires
        0 <= value < 16,
    ensures
        nibble_of_bits(bit_of(value, 0), bit_of(value, 1), bit_of(value, 2), bit_of(value, 3))
            == value,
{
}

/// The low four bits of a byte.
pub fn low(byte: u8) -> (n: u8)
    ensures
        n == byte % 16,
        n < 16,
{
    let n: u8 = byte & 0x0F;
    assert(byte & 0x0F == byte % 16) by (bit_vector);
    n
}

/// The high four bits of a byte.
pub fn high(byte: u8) -> (n: u8)
    ensures
        n == byte / 16,
        n < 16,
{
    let n: u8 = byte >> 4;
    assert(byte >> 4 == byte / 16) by (bit_vector);
    n
}

/// The byte with high nibble `hi` and low nibble `lo`; bits above the
/// fourth of either argument are dropped.
pub fn join(hi: u8, lo: u8) -> (byte: u8)
    ensures
        byte == (hi % 16) * 16 + lo % 16,
{
    let byte: u8 = ((hi & 0x0F) << 4) | (lo & 0x0F);
    assert(((hi & 0x0F) << 4) | (lo & 0x0F) == (hi % 16) * 16 + lo % 16) by (bit_vector);
    byte
}

/// Whether bit `i` of `value` is set, for `i` below 4.
pub fn test_bit(value: u8, i: usize) -> (set: bool)
    requires
        i < 4,
    ensures
        set == bit_of(value as int, i as int),
{
    let shifted: u8 = if i == 0 {
        value
    } else if i == 1 {
        value >> 1
    } else if i == 2 {
        value >> 2
    } else {
        value >> 3
    };
    assert((value & 1 == 1) == (value % 2 == 1)) by (bit_vector);
    assert(((value >> 1) & 1 == 1) == ((value / 2) % 2 == 1)) by (bit_vector);
    assert(((value >> 2) & 1 == 1) == ((value / 4) % 2 == 1)) by (bit_vector);
    assert(((value >> 3) & 1 == 1) == ((value / 8) % 2 == 1)) by (bit_vector);
    shifted & 1 == 1
}

/// The nibble with exactly the given bits set.
pub fn from_bits(b0: bool, b1: bool, b2: bool, b3: bool) -> (n: u8)
    ensures
        n == nibble_of_bits(b0, b1, b2, b3),
        n < 16,
{
    let mut n: u8 = 0;
    if b0 {
        n = n + 1;
    }
    if b1 {
        n = n + 2;
    }
    if b2 {
        n = n + 4;
    }
    if b3 {
        n = n + 8;
    }
    n
}

} // verus!
