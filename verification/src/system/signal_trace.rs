//! The signal trace: one sample of the bus per capture, kept in memory
//! for a waveform display.

use vstd::prelude::*;
use crate::bus::cycle::BusCycle;

verus! {

/// Trace buffer: one vector per signal, all of the same length once
/// filled by `capture`.
pub struct SignalTrace {
    pub timestamps: Vec<u64>,
    pub phi1: Vec<bool>,
    pub phi2: Vec<bool>,
    pub sync: Vec<bool>,
    pub data_bus: Vec<u8>,
    pub cm_rom: Vec<u8>,
    pub cm_ram: Vec<u8>,
    pub phase: Vec<BusCycle>,
}

impl SignalTrace {
    /// Whether all vectors have the same length.
    pub open spec fn aligned(self) -> bool {
        &&& self.phi1@.len() == self.timestamps@.len()
        &&& self.phi2@.len() == self.timestamps@.len()
        &&& self.sync@.len() == self.timestamps@.len()
        &&& self.data_bus@.len() == self.timestamps@.len()
        &&& self.cm_rom@.len() == self.timestamps@.len()
        &&& self.cm_ram@.len() == self.timestamps@.len()
        &&& self.phase@.len() == self.timestamps@.len()
    }

    /// An empty trace.
    pub fn new() -> (trace: SignalTrace)
        ensures
            trace.timestamps@.len() == 0,
            trace.aligned(),
    {
        SignalTrace {
            timestamps: Vec::new(),
            phi1: Vec::new(),
            phi2: Vec::new(),
            sync: Vec::new(),
            data_bus: Vec::new(),
            cm_rom: Vec::new(),
            cm_ram: Vec::new(),
            phase: Vec::new(),
        }
    }

    /// Appends one sample. The data bus and CM-ROM are kept as nibbles,
    /// CM-RAM in two bits.
    pub fn capture(
        &mut self,
        tick: u64,
        phi1: bool,
        phi2: bool,
        sync: bool,
        data: u8,
        cm_rom: u8,
        cm_ram: u8,
        phase: BusCycle,
    )
        ensures
            final(self).timestamps@ == old(self).timestamps@.push(tick),
            final(self).phi1@ == old(self).phi1@.push(phi1),
            final(self).phi2@ == old(self).phi2@.push(phi2),
            final(self).sync@ == old(self).sync@.push(sync),
            final(self).data_bus@ == old(self).data_bus@.push(data % 16),
            final(self).cm_rom@ == old(self).cm_rom@.push(cm_rom % 16),
            final(self).cm_ram@ == old(self).cm_ram@.push(cm_ram % 4),
            final(self).phase@ == old(self).phase@.push(phase),
            old(self).aligned() ==> final(self).aligned(),
    {
        self.timestamps.push(tick);
        self.phi1.push(phi1);
        self.phi2.push(phi2);
        self.sync.push(sync);
        self.data_bus.push(data % 16);
        self.cm_rom.push(cm_rom % 16);
        self.cm_ram.push(cm_ram % 4);
        self.phase.push(phase);
    }
}

} // verus!
