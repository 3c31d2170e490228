//! The phases at which the control lines change.

use vstd::prelude::*;
use crate::bus::cycle::BusCycle;

verus! {

/// The phase at which SYNC is asserted.
pub const SYNC_ASSERT: BusCycle = BusCycle::A1;

/// The phase at which SYNC is deasserted.
pub const SYNC_DEASSERT: BusCycle = BusCycle::A2;

/// The phase by which CM-ROM is valid.
pub const CM_ROM_VALID: BusCycle = BusCycle::A3;

/// The phase by which CM-RAM is valid.
pub const CM_RAM_VALID: BusCycle = BusCycle::X2;

} // verus!
