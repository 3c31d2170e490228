//! Intel 4001: 256 bytes of ROM and a 4-bit I/O port.
//!
//! Up to 16 chips share the bus; CM-ROM selects among them.

use vstd::prelude::*;
use crate::bus::control::{ControlSignals, IoOperation};
use crate::bus::cycle::BusCycle;
use crate::bus::data_bus::DataBus;
use crate::chips::Chip;
use crate::nibble;
use crate::sim::timing::Time;

verus! {

/// What a 4001 holds.
pub struct RomState {
    /// The 256 bytes.
    pub rom: Seq<u8>,
    /// Output latch of the I/O port.
    pub io_output: u8,
    /// Input of the I/O port.
    pub io_input: u8,
    /// The chip's number, 0 to 15.
    pub chip_id: u8,
    /// The address latched at A1 and A2.
    pub address: u8,
    /// Whether CM-ROM named this chip at A3.
    pub selected: bool,
    /// The phase last seen.
    pub phase: BusCycle,
}

impl RomState {
    /// 256 bytes, a chip number below 16 and port latches that hold
    /// nibbles.
    pub open spec fn wf(self) -> bool {
        &&& self.rom.len() == 256
        &&& self.chip_id < 16
        &&& self.io_output < 16
        &&& self.io_input < 16
    }

    /// An empty chip numbered `chip_id` modulo 16.
    pub open spec fn blank(chip_id: u8) -> RomState {
        RomState {
            rom: Seq::new(256, |i: int| 0u8),
            io_output: 0,
            io_input: 0,
            chip_id: chip_id % 16,
            address: 0,
            selected: false,
            phase: BusCycle::A1,
        }
    }

    /// The contents after `data` was written from `offset` on; what
    /// would fall beyond byte 255 is dropped.
    pub open spec fn loaded_at(self, offset: int, data: Seq<u8>) -> RomState {
        RomState {
            rom: Seq::new(
                256,
                |i: int|
                    if offset <= i < offset + data.len() {
                        data[i - offset]
                    } else {
                        self.rom[i]
                    },
            ),
            ..self
        }
    }

    pub open spec fn written(self, addr: u8, value: u8) -> RomState {
        RomState { rom: self.rom.update(addr as int, value), ..self }
    }

    /// The byte at the latched address.
    pub open spec fn addressed_byte(self) -> u8 {
        self.rom[self.address as int]
    }

    /// What the chip puts on the bus in `phase`: when selected, the low
    /// nibble of the addressed byte at M1 and the high nibble at M2, and
    /// the port's input at X3 of an instruction that reads the ROM port.
    pub open spec fn output(self, phase: BusCycle, io: IoOperation) -> Option<u8> {
        if !self.selected {
            None
        } else if phase == BusCycle::M1 {
            Some(self.addressed_byte() % 16)
        } else if phase == BusCycle::M2 {
            Some(self.addressed_byte() / 16)
        } else if phase == BusCycle::X3 && io == IoOperation::ReadRomPort {
            Some(self.io_input)
        } else {
            None
        }
    }

    /// The chip after it sampled the bus in `phase`. A1 latches the low
    /// address nibble and drops the selection, A2 latches the high
    /// nibble, A3 compares CM-ROM with the chip number, and X2 of an
    /// instruction that writes the ROM port latches the port's output.
    pub open spec fn latched(self, phase: BusCycle, bus: u8, cm_rom: u8, io: IoOperation) -> RomState {
        let seen = RomState { phase, ..self };
        match phase {
            BusCycle::A1 => RomState {
                address: ((self.address / 16) * 16 + bus % 16) as u8,
                selected: false,
                ..seen
            },
            BusCycle::A2 => RomState {
                address: ((bus % 16) * 16 + self.address % 16) as u8,
                ..seen
            },
            BusCycle::A3 => RomState { selected: cm_rom == self.chip_id, ..seen },
            BusCycle::X2 => if self.selected && io == IoOperation::WriteRomPort {
                RomState { io_output: bus % 16, ..seen }
            } else {
                seen
            },
            _ => seen,
        }
    }

    /// The chip after reset: the ROM's contents, the chip number and the
    /// port's input stay.
    pub open spec fn after_reset(self) -> RomState {
        RomState { io_output: 0, address: 0, selected: false, phase: BusCycle::A1, ..self }
    }
}

/// A byte written through the back door is the byte that a fetch from
/// its address delivers: once the chip has latched the address at A1
/// and A2 and was selected at A3, it sends the byte's low nibble at M1
/// and its high nibble at M2.
pub proof fn lemma_fetch_observes_write(
    chip: RomState,
    addr: u8,
    value: u8,
    cm_rom: u8,
    io: IoOperation,
)
    requires
        chip.wf(),
        cm_rom == chip.chip_id,
    ensures
        ({
            let fetched = chip.written(addr, value).latched(BusCycle::A1, addr % 16, cm_rom, io).latched(
                BusCycle::A2,
                addr / 16,
                cm_rom,
                io,
            ).latched(BusCycle::A3, (addr / 16) as u8, cm_rom, io);
            &&& fetched.output(BusCycle::M1, io) == Some((value % 16) as u8)
            &&& fetched.latched(BusCycle::M1, value % 16, cm_rom, io).output(BusCycle::M2, io)
                == Some((value / 16) as u8)
        }),
{
    let written = chip.written(addr, value);
    let a1 = written.latched(BusCycle::A1, addr % 16, cm_rom, io);
    lemma_address_latch(written.address, addr, 0);
    assert(a1.address % 16 == addr % 16);
    assert(a1.rom == written.rom);
    let a2 = a1.latched(BusCycle::A2, addr / 16, cm_rom, io);
    lemma_address_latch(written.address, addr, a1.address);
    assert(a2.address == addr);
    assert(a2.rom == written.rom);
    let a3 = a2.latched(BusCycle::A3, (addr / 16) as u8, cm_rom, io);
    assert(a3.selected);
    assert(a3.address == addr);
    assert(a3.rom == written.rom);
    assert(a3.addressed_byte() == value);
    let m1 = a3.latched(BusCycle::M1, value % 16, cm_rom, io);
    assert(m1.selected && m1.address == addr && m1.rom == written.rom);
}

/// The arithmetic of latching an address nibble by nibble.
proof fn lemma_address_latch(old_address: u8, addr: u8, low: u8)
    ensures
        (old_address / 16) * 16 + (addr % 16) % 16 <= 255,
        ((old_address / 16) * 16 + (addr % 16) % 16) % 16 == addr % 16,
        low % 16 == addr % 16 ==> ((addr / 16) % 16) * 16 + low % 16 == addr,
{
}

/// A chip that CM-ROM does not name at A3 stays off the bus for the
/// rest of the machine cycle.
pub proof fn lemma_unselected_stays_silent(
    chip: RomState,
    cm_rom: u8,
    bus: u8,
    io: IoOperation,
    phase: BusCycle,
)
    requires
        cm_rom != chip.chip_id,
    ensures
        chip.latched(BusCycle::A3, bus, cm_rom, io).output(phase, io) is None,
{
}

/// Intel 4001: 256x8 ROM with a 4-bit I/O port.
#[derive(Debug)]
pub struct I4001 {
    /// ROM contents.
    rom: [u8; 256],
    /// Output latch of the I/O port.
    io_output: u8,
    /// Input of the I/O port.
    io_input: u8,
    /// The chip's number, 0 to 15.
    pub chip_id: u8,
    /// Address latched at A1 and A2.
    address: u8,
    /// Whether the chip is selected for the current machine cycle.
    selected: bool,
    /// The phase last seen.
    phase: BusCycle,
}

impl View for I4001 {
    type V = RomState;

    closed spec fn view(&self) -> RomState {
        RomState {
            rom: self.rom@,
            io_output: self.io_output,
            io_input: self.io_input,
            chip_id: self.chip_id,
            address: self.address,
            selected: self.selected,
            phase: self.phase,
        }
    }
}

impl I4001 {
    /// An empty ROM numbered `chip_id` modulo 16.
    pub fn new(chip_id: u8) -> (chip: I4001)
        ensures
            chip@ == RomState::blank(chip_id),
            chip@.wf(),
    {
        let chip = I4001 {
            rom: [0;256],
            io_output: 0,
            io_input: 0,
            chip_id: chip_id % 16,
            address: 0,
            selected: false,
            phase: BusCycle::A1,
        };
        assert(chip@.rom =~= RomState::blank(chip_id).rom);
        chip
    }

    /// Writes `data` from address 0 on; bytes beyond the 256th are
    /// dropped.
    pub fn load(&mut self, data: &[u8])
        requires
            old(self)@.wf(),
        ensures
            final(self)@ == old(self)@.loaded_at(0, data@),
            final(self)@.wf(),
    {
        self.load_at(0, data);
    }

    /// Writes `data` from address `offset` on; what would fall beyond
    /// byte 255 is dropped.
    pub fn load_at(&mut self, offset: usize, data: &[u8])
        requires
            old(self)@.wf(),
        ensures
            final(self)@ == old(self)@.loaded_at(offset as int, data@),
            final(self)@.wf(),
    {
        let mut i: usize = 0;
        while i < data.len() && offset < 256 && i < 256 - offset
            invariant
                old(self)@.wf(),
                i <= data@.len(),
                offset < 256 ==> i <= 256 - offset,
                self.rom@.len() == 256,
                self.io_output == old(self).io_output,
                self.io_input == old(self).io_input,
                self.chip_id == old(self).chip_id,
                self.address == old(self).address,
                self.selected == old(self).selected,
                self.phase == old(self).phase,
                forall|k: int|
                    0 <= k < 256 ==> #[trigger] self.rom@[k] == (if offset <= k < offset + i {
                        data@[k - offset]
                    } else {
                        old(self).rom@[k]
                    }),
            decreases data@.len() - i,
        {
            self.rom[offset + i] = data[i];
            i += 1;
        }
        assert(self@.rom =~= old(self)@.loaded_at(offset as int, data@).rom);
    }

    /// The byte at `addr`, read through the back door.
    pub fn read_direct(&self, addr: u8) -> (value: u8)
        ensures
            value == self@.rom[addr as int],
    {
        self.rom[addr as usize]
    }

    /// Writes the byte at `addr` through the back door.
    pub fn write_direct(&mut self, addr: u8, value: u8)
        ensures
            final(self)@ == old(self)@.written(addr, value),
            old(self)@.wf() ==> final(self)@.wf(),
    {
        self.rom[addr as usize] = value;
    }

    /// The low nibble of the port's output latch.
    pub fn io_output(&self) -> (value: u8)
        ensures
            value == self@.io_output % 16,
            value < 16,
    {
        nibble::low(self.io_output)
    }

    /// Sets the port's input to the low nibble of `value`.
    pub fn set_io_input(&mut self, value: u8)
        ensures
            final(self)@ == (RomState { io_input: value % 16, ..old(self)@ }),
            old(self)@.wf() ==> final(self)@.wf(),
    {
        self.io_input = nibble::low(value);
    }

    /// The low nibble of the port's input.
    pub fn io_input(&self) -> (value: u8)
        ensures
            value == self@.io_input % 16,
            value < 16,
    {
        nibble::low(self.io_input)
    }

    /// The chip's number.
    pub fn chip_id(&self) -> (id: u8)
        ensures
            id == self@.chip_id,
    {
        self.chip_id
    }

    /// Whether the chip is selected for the current machine cycle.
    pub fn is_selected(&self) -> (selected: bool)
        ensures
            selected == self@.selected,
    {
        self.selected
    }

    /// What the chip puts on the bus in `phase`, if anything.
    pub fn bus_output(&self, phase: BusCycle, io: IoOperation) -> (out: Option<u8>)
        requires
            self@.wf(),
        ensures
            out == self@.output(phase, io),
            out is Some ==> out->0 < 16,
    {
        if !self.selected {
            return None;
        }
        match phase {
            BusCycle::M1 => Some(self.rom[self.address as usize] % 16),
            BusCycle::M2 => Some(self.rom[self.address as usize] / 16),
            BusCycle::X3 => {
                if io == IoOperation::ReadRomPort {
                    Some(self.io_input)
                } else {
                    None
                }
            },
            _ => None,
        }
    }

    /// Samples the bus in `phase`: `bus` is the nibble on the data bus,
    /// `cm_rom` the number on the CM-ROM lines and `io` the I/O
    /// operation in execution.
    pub fn latch(&mut self, phase: BusCycle, bus: u8, cm_rom: u8, io: IoOperation)
        requires
            old(self)@.wf(),
        ensures
            final(self)@ == old(self)@.latched(phase, bus, cm_rom, io),
            final(self)@.wf(),
    {
        self.phase = phase;
        match phase {
            BusCycle::A1 => {
                self.address = (self.address / 16) * 16 + bus % 16;
                self.selected = false;
            },
            BusCycle::A2 => {
                self.address = (bus % 16) * 16 + self.address % 16;
            },
            BusCycle::A3 => {
                self.selected = cm_rom == self.chip_id;
            },
            BusCycle::X2 => {
                if self.selected && io == IoOperation::WriteRomPort {
                    self.io_output = bus % 16;
                }
            },
            _ => {},
        }
    }

    /// Processes one bus phase: the chip drives the bus through its
    /// driver `driver` or lets go of it, and then samples bus and
    /// control lines.
    pub fn tick_bus(
        &mut self,
        phase: BusCycle,
        bus: &mut DataBus,
        ctrl: &ControlSignals,
        driver: usize,
        now: Time,
    )
        requires
            old(self)@.wf(),
            old(bus)@.wf(),
        ensures
            final(bus)@ == (match old(self)@.output(phase, ctrl@.io) {
                Some(v) => old(bus)@.driven(driver as int, v, now),
                None => old(bus)@.released(driver as int, now),
            }),
            final(self)@ == old(self)@.latched(
                phase,
                final(bus)@.nibble() as u8,
                ctrl@.rom_select() as u8,
                ctrl@.io,
            ),
            final(self)@.wf(),
            final(bus)@.wf(),
    {
        let io: IoOperation = ctrl.io;
        match self.bus_output(phase, io) {
            Some(v) => bus.drive(driver, v, now),
            None => bus.release(driver, now),
        }
        let nibble: u8 = bus.read();
        let cm_rom: u8 = ctrl.cm_rom();
        self.latch(phase, nibble, cm_rom, io);
    }
}

impl Clone for I4001 {
    fn clone(&self) -> (chip: I4001)
        ensures
            chip@ == self@,
    {
        I4001 {
            rom: self.rom,
            io_output: self.io_output,
            io_input: self.io_input,
            chip_id: self.chip_id,
            address: self.address,
            selected: self.selected,
            phase: self.phase,
        }
    }
}

impl Default for I4001 {
    fn default() -> (chip: I4001)
        ensures
            chip@ == RomState::blank(0),
    {
        I4001::new(0)
    }
}

impl Chip for I4001 {
    open spec fn can_tick(&self) -> bool {
        true
    }

    fn name(&self) -> (name: &'static str)
        ensures
            name@ == "4001"@,
    {
        "4001"
    }

    /// Clears the port's output and the bus state; the ROM's contents
    /// stay.
    fn reset(&mut self)
        ensures
            final(self)@ == old(self)@.after_reset(),
    {
        self.io_output = 0;
        self.address = 0;
        self.selected = false;
        self.phase = BusCycle::A1;
    }

    /// Notes the phase.
    fn tick(&mut self, phase: BusCycle)
        ensures
            final(self)@ == (RomState { phase, ..old(self)@ }),
    {
        self.phase = phase;
    }
}

} // verus!
