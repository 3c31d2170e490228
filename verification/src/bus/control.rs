//! The control lines of the bus: SYNC, CM-ROM, CM-RAM, TEST, RESET and,
//! on the MCS-40, STP, STOP and INT.

use vstd::prelude::*;
use crate::sim::signal::{
    drive_lines,
    lemma_lines_driven,
    lemma_lines_set,
    lemma_update_keeps_wf,
    line_states,
    lines_driven,
    lines_nibble,
    lines_set,
    lines_wf,
    read_lines,
    set_lines,
    Signal,
    SignalLevel,
    SignalState,
};
use crate::sim::timing::Time;

verus! {

/// Chip select.
#[derive(Clone, Copy, Debug, PartialEq, Eq, Structural)]
pub enum ChipSelect {
    /// No chip selected.
    NoChip,
    /// A ROM chip selected.
    Rom(u8),
    /// A RAM chip selected.
    Ram(u8),
}

/// The I/O operation of the instruction that the CPU executes in the
/// current machine cycle. The CPU publishes it at X1, after decoding;
/// the memory chips act on it at X2 and X3.
#[derive(Clone, Copy, Debug, PartialEq, Eq, Structural)]
pub enum IoOperation {
    /// The instruction does no I/O.
    Idle,
    /// WRM: the accumulator goes to the addressed RAM character.
    WriteRam,
    /// WMP: the accumulator goes to the RAM output port.
    WriteRamPort,
    /// WRR: the accumulator goes to the ROM output port.
    WriteRomPort,
    /// WPM: the accumulator goes to program RAM.
    WriteProgramRam,
    /// WR0 to WR3: the accumulator goes to a RAM status character.
    WriteStatus(u8),
    /// RDM, ADM, SBM: the addressed RAM character comes to the CPU.
    ReadRam,
    /// RDR: the ROM input port comes to the CPU.
    ReadRomPort,
    /// RD0 to RD3: a RAM status character comes to the CPU.
    ReadStatus(u8),
}

impl IoOperation {
    /// Whether the CPU drives the bus at X2.
    pub open spec fn writes(self) -> bool {
        self is WriteRam || self is WriteRamPort || self is WriteRomPort || self is WriteProgramRam
            || self is WriteStatus
    }

    /// Whether a memory chip drives the bus at X3.
    pub open spec fn reads(self) -> bool {
        self is ReadRam || self is ReadRomPort || self is ReadStatus
    }

    /// Whether the CPU drives the bus at X2.
    pub fn is_write(self) -> (yes: bool)
        ensures
            yes == self.writes(),
    {
        match self {
            IoOperation::WriteRam
            | IoOperation::WriteRamPort
            | IoOperation::WriteRomPort
            | IoOperation::WriteProgramRam
            | IoOperation::WriteStatus(_) => true,
            _ => false,
        }
    }

    /// Whether a memory chip drives the bus at X3.
    pub fn is_read(self) -> (yes: bool)
        ensures
            yes == self.reads(),
    {
        match self {
            IoOperation::ReadRam | IoOperation::ReadRomPort | IoOperation::ReadStatus(_) => true,
            _ => false,
        }
    }
}

/// What the control lines are.
pub struct ControlState {
    pub sync: SignalState,
    pub cm_rom: Seq<SignalState>,
    pub cm_ram: Seq<SignalState>,
    pub test: SignalState,
    pub reset: SignalState,
    pub stp: Option<SignalState>,
    pub stop: Option<SignalState>,
    pub int: Option<SignalState>,
    pub io: IoOperation,
}

/// Whether a line that may be absent keeps its history within bounds.
pub open spec fn optional_wf(line: Option<SignalState>) -> bool {
    line is Some ==> line->0.wf()
}

/// Whether a line that may be absent is present and `High`.
pub open spec fn optional_high(line: Option<SignalState>) -> bool {
    line is Some && line->0.current == SignalLevel::High
}

/// The view of a line that may be absent.
pub open spec fn optional_state(line: Option<Signal>) -> Option<SignalState> {
    match line {
        Some(s) => Some(s@),
        None => None,
    }
}

impl ControlState {
    /// Every line keeps its history within bounds.
    pub open spec fn wf(self) -> bool {
        &&& self.sync.wf()
        &&& lines_wf(self.cm_rom)
        &&& lines_wf(self.cm_ram)
        &&& self.test.wf()
        &&& self.reset.wf()
        &&& optional_wf(self.stp)
        &&& optional_wf(self.stop)
        &&& optional_wf(self.int)
    }

    /// The number on the CM-ROM lines.
    pub open spec fn rom_select(self) -> int {
        lines_nibble(self.cm_rom)
    }

    /// The number on the CM-RAM lines.
    pub open spec fn ram_select(self) -> int {
        lines_nibble(self.cm_ram)
    }

    pub open spec fn with_sync(self, time: Time, level: SignalLevel) -> ControlState {
        ControlState { sync: self.sync.updated(time, level), ..self }
    }

    pub open spec fn with_reset(self, time: Time, level: SignalLevel) -> ControlState {
        ControlState { reset: self.reset.updated(time, level), ..self }
    }

    /// CM-ROM carrying `bank` modulo 16.
    pub open spec fn with_rom_select(self, bank: u8, time: Time) -> ControlState {
        ControlState { cm_rom: lines_driven(self.cm_rom, time, (bank % 16) as int), ..self }
    }

    /// CM-RAM carrying `bank` modulo 16.
    pub open spec fn with_ram_select(self, bank: u8, time: Time) -> ControlState {
        ControlState { cm_ram: lines_driven(self.cm_ram, time, (bank % 16) as int), ..self }
    }

    pub open spec fn with_rom_deselected(self, time: Time) -> ControlState {
        ControlState { cm_rom: lines_set(self.cm_rom, time, SignalLevel::Low), ..self }
    }

    pub open spec fn with_ram_deselected(self, time: Time) -> ControlState {
        ControlState { cm_ram: lines_set(self.cm_ram, time, SignalLevel::Low), ..self }
    }

    pub open spec fn with_io(self, io: IoOperation) -> ControlState {
        ControlState { io, ..self }
    }

    /// The lines of a system at power-up, without the MCS-40 lines:
    /// everything `Low` but TEST, which is active low and at rest.
    pub open spec fn initial_mcs4() -> ControlState {
        ControlState {
            sync: SignalState::fresh("SYNC"@, SignalLevel::Low, 10_000),
            cm_rom: seq![
                SignalState::fresh("CM-ROM0"@, SignalLevel::Low, 10_000),
                SignalState::fresh("CM-ROM1"@, SignalLevel::Low, 10_000),
                SignalState::fresh("CM-ROM2"@, SignalLevel::Low, 10_000),
                SignalState::fresh("CM-ROM3"@, SignalLevel::Low, 10_000),
            ],
            cm_ram: seq![
                SignalState::fresh("CM-RAM0"@, SignalLevel::Low, 10_000),
                SignalState::fresh("CM-RAM1"@, SignalLevel::Low, 10_000),
                SignalState::fresh("CM-RAM2"@, SignalLevel::Low, 10_000),
                SignalState::fresh("CM-RAM3"@, SignalLevel::Low, 10_000),
            ],
            test: SignalState::fresh("TEST"@, SignalLevel::High, 10_000),
            reset: SignalState::fresh("RESET"@, SignalLevel::Low, 10_000),
            stp: None,
            stop: None,
            int: None,
            io: IoOperation::Idle,
        }
    }

    /// The lines of an MCS-40 system at power-up.
    pub open spec fn initial_mcs40() -> ControlState {
        ControlState {
            stp: Some(SignalState::fresh("STP"@, SignalLevel::Low, 10_000)),
            stop: Some(SignalState::fresh("STOP"@, SignalLevel::Low, 10_000)),
            int: Some(SignalState::fresh("INT"@, SignalLevel::Low, 10_000)),
            ..ControlState::initial_mcs4()
        }
    }
}

/// A selected bank can be read back: after CM-ROM or CM-RAM was set to
/// `bank`, the lines carry `bank` modulo 16, and deselected lines carry 0.
pub proof fn lemma_select_reads_back(c: ControlState, bank: u8, time: Time)
    requires
        c.wf(),
    ensures
        c.with_rom_select(bank, time).rom_select() == bank % 16,
        c.with_ram_select(bank, time).ram_select() == bank % 16,
        c.with_rom_deselected(time).rom_select() == 0,
        c.with_ram_deselected(time).ram_select() == 0,
        c.with_rom_select(bank, time).wf(),
        c.with_ram_select(bank, time).wf(),
        c.with_rom_deselected(time).wf(),
        c.with_ram_deselected(time).wf(),
{
    lemma_lines_driven(c.cm_rom, time, (bank % 16) as int);
    lemma_lines_driven(c.cm_ram, time, (bank % 16) as int);
    lemma_lines_set(c.cm_rom, time, SignalLevel::Low);
    lemma_lines_set(c.cm_ram, time, SignalLevel::Low);
}

/// Control lines of the MCS-4 bus.
#[derive(Debug)]
pub struct ControlSignals {
    /// SYNC: marks the start of a machine cycle.
    pub sync: Signal,
    /// CM-ROM0 to CM-ROM3: ROM bank select.
    pub cm_rom: [Signal; 4],
    /// CM-RAM0 to CM-RAM3: RAM bank select.
    pub cm_ram: [Signal; 4],
    /// TEST: external test input, active low.
    pub test: Signal,
    /// RESET: system reset.
    pub reset: Signal,
    /// STP: stop acknowledge (4040).
    pub stp: Option<Signal>,
    /// STOP: stop request (4040).
    pub stop: Option<Signal>,
    /// INT: interrupt request (4040).
    pub int: Option<Signal>,
    /// I/O operation of the instruction in execution.
    pub io: IoOperation,
}

impl View for ControlSignals {
    type V = ControlState;

    open spec fn view(&self) -> ControlState {
        ControlState {
            sync: self.sync@,
            cm_rom: line_states(self.cm_rom),
            cm_ram: line_states(self.cm_ram),
            test: self.test@,
            reset: self.reset@,
            stp: optional_state(self.stp),
            stop: optional_state(self.stop),
            int: optional_state(self.int),
            io: self.io,
        }
    }
}

/// A copy of a line that may be absent.
fn clone_optional(line: &Option<Signal>) -> (copy: Option<Signal>)
    ensures
        optional_state(copy) == optional_state(*line),
{
    match line {
        Some(s) => Some(s.clone()),
        None => None,
    }
}

impl Clone for ControlSignals {
    fn clone(&self) -> (copy: ControlSignals)
        ensures
            copy@ == self@,
    {
        let copy = ControlSignals {
            sync: self.sync.clone(),
            cm_rom: [
                self.cm_rom[0].clone(),
                self.cm_rom[1].clone(),
                self.cm_rom[2].clone(),
                self.cm_rom[3].clone(),
            ],
            cm_ram: [
                self.cm_ram[0].clone(),
                self.cm_ram[1].clone(),
                self.cm_ram[2].clone(),
                self.cm_ram[3].clone(),
            ],
            test: self.test.clone(),
            reset: self.reset.clone(),
            stp: clone_optional(&self.stp),
            stop: clone_optional(&self.stop),
            int: clone_optional(&self.int),
            io: self.io,
        };
        assert(copy@.cm_rom =~= self@.cm_rom);
        assert(copy@.cm_ram =~= self@.cm_ram);
        copy
    }
}

impl ControlSignals {
    /// The control lines of an MCS-4 (4004) system.
    pub fn mcs4() -> (ctrl: ControlSignals)
        ensures
            ctrl@ == ControlState::initial_mcs4(),
            ctrl@.wf(),
    {
        let ctrl = ControlSignals {
            sync: Signal::new("SYNC", SignalLevel::Low),
            cm_rom: [
                Signal::new("CM-ROM0", SignalLevel::Low),
                Signal::new("CM-ROM1", SignalLevel::Low),
                Signal::new("CM-ROM2", SignalLevel::Low),
                Signal::new("CM-ROM3", SignalLevel::Low),
            ],
            cm_ram: [
                Signal::new("CM-RAM0", SignalLevel::Low),
                Signal::new("CM-RAM1", SignalLevel::Low),
                Signal::new("CM-RAM2", SignalLevel::Low),
                Signal::new("CM-RAM3", SignalLevel::Low),
            ],
            test: Signal::new("TEST", SignalLevel::High),
            reset: Signal::new("RESET", SignalLevel::Low),
            stp: None,
            stop: None,
            int: None,
            io: IoOperation::Idle,
        };
        assert(ctrl@.cm_rom =~= ControlState::initial_mcs4().cm_rom);
        assert(ctrl@.cm_ram =~= ControlState::initial_mcs4().cm_ram);
        ctrl
    }

    /// The control lines of an MCS-40 (4040) system.
    pub fn mcs40() -> (ctrl: ControlSignals)
        ensures
            ctrl@ == ControlState::initial_mcs40(),
            ctrl@.wf(),
    {
        let ctrl = ControlSignals {
            sync: Signal::new("SYNC", SignalLevel::Low),
            cm_rom: [
                Signal::new("CM-ROM0", SignalLevel::Low),
                Signal::new("CM-ROM1", SignalLevel::Low),
                Signal::new("CM-ROM2", SignalLevel::Low),
                Signal::new("CM-ROM3", SignalLevel::Low),
            ],
            cm_ram: [
                Signal::new("CM-RAM0", SignalLevel::Low),
                Signal::new("CM-RAM1", SignalLevel::Low),
                Signal::new("CM-RAM2", SignalLevel::Low),
                Signal::new("CM-RAM3", SignalLevel::Low),
            ],
            test: Signal::new("TEST", SignalLevel::High),
            reset: Signal::new("RESET", SignalLevel::Low),
            stp: Some(Signal::new("STP", SignalLevel::Low)),
            stop: Some(Signal::new("STOP", SignalLevel::Low)),
            int: Some(Signal::new("INT", SignalLevel::Low)),
            io: IoOperation::Idle,
        };
        assert(ctrl@.cm_rom =~= ControlState::initial_mcs40().cm_rom);
        assert(ctrl@.cm_ram =~= ControlState::initial_mcs40().cm_ram);
        ctrl
    }

    /// Raises SYNC.
    pub fn assert_sync(&mut self, time: Time)
        requires
            old(self)@.wf(),
        ensures
            final(self)@ == old(self)@.with_sync(time, SignalLevel::High),
            final(self)@.wf(),
    {
        self.sync.update(time, SignalLevel::High);
    }

    /// Lowers SYNC.
    pub fn deassert_sync(&mut self, time: Time)
        requires
            old(self)@.wf(),
        ensures
            final(self)@ == old(self)@.with_sync(time, SignalLevel::Low),
            final(self)@.wf(),
    {
        self.sync.update(time, SignalLevel::Low);
    }

    /// Puts `bank` modulo 16 on the CM-ROM lines.
    pub fn select_rom(&mut self, bank: u8, time: Time)
        requires
            old(self)@.wf(),
        ensures
            final(self)@ == old(self)@.with_rom_select(bank, time),
            final(self)@.wf(),
            final(self)@.rom_select() == bank % 16,
    {
        proof {
            lemma_select_reads_back(self@, bank, time);
        }
        drive_lines(&mut self.cm_rom, time, bank);
    }

    /// Puts `bank` modulo 16 on the CM-RAM lines.
    pub fn select_ram(&mut self, bank: u8, time: Time)
        requires
            old(self)@.wf(),
        ensures
            final(self)@ == old(self)@.with_ram_select(bank, time),
            final(self)@.wf(),
            final(self)@.ram_select() == bank % 16,
    {
        proof {
            lemma_select_reads_back(self@, bank, time);
        }
        drive_lines(&mut self.cm_ram, time, bank);
    }

    /// Lowers all CM-ROM lines.
    pub fn deselect_rom(&mut self, time: Time)
        requires
            old(self)@.wf(),
        ensures
            final(self)@ == old(self)@.with_rom_deselected(time),
            final(self)@.wf(),
    {
        set_lines(&mut self.cm_rom, time, SignalLevel::Low);
    }

    /// Lowers all CM-RAM lines.
    pub fn deselect_ram(&mut self, time: Time)
        requires
            old(self)@.wf(),
        ensures
            final(self)@ == old(self)@.with_ram_deselected(time),
            final(self)@.wf(),
    {
        set_lines(&mut self.cm_ram, time, SignalLevel::Low);
    }

    /// The number on the CM-ROM lines, or `None` where no line is high.
    pub fn selected_rom(&self) -> (bank: Option<u8>)
        ensures
            bank == (if self@.rom_select() == 0 {
                None
            } else {
                Some(self@.rom_select() as u8)
            }),
    {
        let value: u8 = read_lines(&self.cm_rom);
        if value != 0 {
            Some(value)
        } else {
            None
        }
    }

    /// The number on the CM-RAM lines, or `None` where no line is high.
    pub fn selected_ram(&self) -> (bank: Option<u8>)
        ensures
            bank == (if self@.ram_select() == 0 {
                None
            } else {
                Some(self@.ram_select() as u8)
            }),
    {
        let value: u8 = read_lines(&self.cm_ram);
        if value != 0 {
            Some(value)
        } else {
            None
        }
    }

    /// Whether TEST is active, that is, low.
    pub fn test_active(&self) -> (active: bool)
        ensures
            active == (self@.test.current == SignalLevel::Low),
    {
        self.test.level() == SignalLevel::Low
    }

    /// Whether RESET is high.
    pub fn in_reset(&self) -> (yes: bool)
        ensures
            yes == (self@.reset.current == SignalLevel::High),
    {
        self.reset.level() == SignalLevel::High
    }

    /// Raises RESET.
    pub fn assert_reset(&mut self, time: Time)
        requires
            old(self)@.wf(),
        ensures
            final(self)@ == old(self)@.with_reset(time, SignalLevel::High),
            final(self)@.wf(),
    {
        self.reset.update(time, SignalLevel::High);
    }

    /// Lowers RESET.
    pub fn deassert_reset(&mut self, time: Time)
        requires
            old(self)@.wf(),
        ensures
            final(self)@ == old(self)@.with_reset(time, SignalLevel::Low),
            final(self)@.wf(),
    {
        self.reset.update(time, SignalLevel::Low);
    }

    /// Whether there is an INT line and it is high.
    pub fn interrupt_pending(&self) -> (pending: bool)
        ensures
            pending == optional_high(self@.int),
    {
        match &self.int {
            Some(s) => s.level() == SignalLevel::High,
            None => false,
        }
    }

    /// Whether there is a STOP line and it is high.
    pub fn stop_requested(&self) -> (requested: bool)
        ensures
            requested == optional_high(self@.stop),
    {
        match &self.stop {
            Some(s) => s.level() == SignalLevel::High,
            None => false,
        }
    }

    /// The number on the CM-ROM lines.
    pub fn cm_rom(&self) -> (value: u8)
        ensures
            value == self@.rom_select(),
            value < 16,
    {
        read_lines(&self.cm_rom)
    }

    /// The number on the CM-RAM lines.
    pub fn cm_ram(&self) -> (value: u8)
        ensures
            value == self@.ram_select(),
            value < 16,
    {
        read_lines(&self.cm_ram)
    }

    /// Publishes the I/O operation of the instruction in execution.
    pub fn publish_io(&mut self, io: IoOperation)
        ensures
            final(self)@ == old(self)@.with_io(io),
    {
        self.io = io;
    }

    /// Whether the instruction in execution writes to a port or to RAM.
    pub fn is_io_write(&self) -> (yes: bool)
        ensures
            yes == self@.io.writes(),
    {
        self.io.is_write()
    }

    /// Whether the instruction in execution reads from a port or from RAM.
    pub fn is_io_read(&self) -> (yes: bool)
        ensures
            yes == self@.io.reads(),
    {
        self.io.is_read()
    }
}

} // verus!
