//! Gate delay model: a base delay per gate type plus a load term per
//! driven input.

use vstd::prelude::*;
use crate::sim::timing::Delay;

verus! {

/// Base delay of a 2-input NAND gate.
pub const NAND2_BASE: Delay = 5_000;

/// Base delay of a 2-input NOR gate.
pub const NOR2_BASE: Delay = 6_000;

/// Base delay of an inverter.
pub const INV_BASE: Delay = 3_000;

/// Base delay of a 3-input NAND gate.
pub const NAND3_BASE: Delay = 7_000;

/// Base delay of a 3-input NOR gate.
pub const NOR3_BASE: Delay = 8_000;

/// Additional delay per driven gate input.
pub const FANOUT_FACTOR: Delay = 500;

/// The delay of a gate with base delay `base` that drives `fanout` inputs.
pub open spec fn loaded_delay(base: int, fanout: int) -> int {
    base + fanout * 500
}

/// Total propagation delay of a gate, load included.
pub fn with_fanout(base: Delay, fanout: usize) -> (delay: Delay)
    requires
        loaded_delay(base as int, fanout as int) <= u64::MAX,
    ensures
        delay == loaded_delay(base as int, fanout as int),
{
    base + (fanout as Delay) * FANOUT_FACTOR
}

} // verus!
