//! Intel 4002: 320 bits of RAM and a 4-bit output port.
//!
//! Four registers of sixteen 4-bit characters, and four status
//! characters.

use vstd::prelude::*;
use crate::bus::control::{ControlSignals, IoOperation};
use crate::bus::cycle::BusCycle;
use crate::bus::data_bus::DataBus;
use crate::chips::Chip;
use crate::nibble;
use crate::sim::timing::Time;

verus! {

/// What a 4002 holds.
pub struct RamState {
    /// Main memory: four registers of sixteen nibbles.
    pub ram: Seq<Seq<u8>>,
    /// Four status nibbles.
    pub status: Seq<u8>,
    /// Output port latch.
    pub output: u8,
    /// Chip number within the bank, 0 to 3.
    pub chip_id: u8,
    /// Bank number, 0 to 3.
    pub bank_id: u8,
    /// Register latched from SRC.
    pub selected_register: u8,
    /// Character latched from SRC.
    pub selected_char: u8,
    /// Whether CM-RAM named this chip's bank at X1.
    pub selected: bool,
    /// The phase last seen.
    pub phase: BusCycle,
}

impl RamState {
    /// Every cell is a nibble and every index is in range.
    pub open spec fn wf(self) -> bool {
        &&& self.ram.len() == 4
        &&& forall|r: int| 0 <= r < 4 ==> (#[trigger] self.ram[r]).len() == 16
        &&& forall|r: int, c: int| 0 <= r < 4 && 0 <= c < 16 ==> #[trigger] self.ram[r][c] < 16
        &&& self.status.len() == 4
        &&& forall|r: int| 0 <= r < 4 ==> #[trigger] self.status[r] < 16
        &&& self.output < 16
        &&& self.chip_id < 4
        &&& self.bank_id < 4
        &&& self.selected_register < 4
        &&& self.selected_char < 16
    }

    /// A cleared chip numbered `chip_id` modulo 4 in bank `bank_id`
    /// modulo 4.
    pub open spec fn blank(chip_id: u8, bank_id: u8) -> RamState {
        RamState {
            ram: Seq::new(4, |r: int| Seq::new(16, |c: int| 0u8)),
            status: Seq::new(4, |r: int| 0u8),
            output: 0,
            chip_id: chip_id % 4,
            bank_id: bank_id % 4,
            selected_register: 0,
            selected_char: 0,
            selected: false,
            phase: BusCycle::A1,
        }
    }

    /// The character at register `reg` modulo 4, position `index`
    /// modulo 16.
    pub open spec fn character(self, reg: u8, index: u8) -> u8 {
        self.ram[(reg % 4) as int][(index % 16) as int]
    }

    pub open spec fn with_character(self, reg: u8, index: u8, value: u8) -> RamState {
        RamState {
            ram: self.ram.update(
                (reg % 4) as int,
                self.ram[(reg % 4) as int].update((index % 16) as int, value % 16),
            ),
            ..self
        }
    }

    pub open spec fn with_status(self, reg: u8, value: u8) -> RamState {
        RamState { status: self.status.update((reg % 4) as int, value % 16), ..self }
    }

    pub open spec fn with_output(self, value: u8) -> RamState {
        RamState { output: value % 16, ..self }
    }

    /// The character that SRC addressed.
    pub open spec fn addressed(self) -> u8 {
        self.ram[self.selected_register as int][self.selected_char as int]
    }

    /// WRM: the addressed character becomes the low nibble of `value`.
    pub open spec fn wrm(self, value: u8) -> RamState {
        self.with_character(self.selected_register, self.selected_char, value)
    }

    /// SRC: where `chip` modulo 4 is this chip's number, the chip latches
    /// `reg` modulo 4 and `char_addr` modulo 16; else nothing changes.
    pub open spec fn with_src(self, chip: u8, reg: u8, char_addr: u8) -> RamState {
        if chip % 4 == self.chip_id {
            RamState { selected_register: reg % 4, selected_char: char_addr % 16, ..self }
        } else {
            self
        }
    }

    /// What the chip puts on the bus in `phase`: when selected, at X3,
    /// the addressed character for an instruction that reads RAM and a
    /// status character for one that reads status.
    pub open spec fn output_at(self, phase: BusCycle, io: IoOperation) -> Option<u8> {
        if self.selected && phase == BusCycle::X3 {
            match io {
                IoOperation::ReadRam => Some(self.addressed()),
                IoOperation::ReadStatus(i) => Some(self.status[(i % 4) as int]),
                _ => None,
            }
        } else {
            None
        }
    }

    /// The chip after it sampled the bus in `phase`. X1 compares CM-RAM
    /// with the bank number; X2 of a write, when selected, stores the
    /// bus nibble in the addressed character, the output port or a
    /// status character.
    pub open spec fn latched(self, phase: BusCycle, bus: u8, cm_ram: u8, io: IoOperation) -> RamState {
        let seen = RamState { phase, ..self };
        match phase {
            BusCycle::X1 => RamState { selected: cm_ram == self.bank_id, ..seen },
            BusCycle::X2 => if self.selected {
                match io {
                    IoOperation::WriteRam => seen.wrm(bus),
                    IoOperation::WriteRamPort => seen.with_output(bus),
                    IoOperation::WriteStatus(i) => seen.with_status(i, bus),
                    _ => seen,
                }
            } else {
                seen
            },
            _ => seen,
        }
    }

    /// The chip after reset: memory, status, port and latches cleared;
    /// chip and bank number stay.
    pub open spec fn after_reset(self) -> RamState {
        RamState::blank(self.chip_id, self.bank_id)
    }
}

/// Every operation keeps all cells nibbles.
pub proof fn lemma_operations_keep_wf(
    s: RamState,
    a: u8,
    b: u8,
    c: u8,
    phase: BusCycle,
    io: IoOperation,
)
    requires
        s.wf(),
    ensures
        s.with_character(a, b, c).wf(),
        s.with_status(a, c).wf(),
        s.with_output(c).wf(),
        s.wrm(c).wf(),
        s.with_src(a, b, c).wf(),
        s.latched(phase, a, b, io).wf(),
        s.after_reset().wf(),
        RamState::blank(a, b).wf(),
        s.character(a, b) < 16,
        s.addressed() < 16,
        s.output_at(phase, io) is Some ==> s.output_at(phase, io)->0 < 16,
{
    lemma_character_keeps_wf(s, a, b, c);
    lemma_character_keeps_wf(s, s.selected_register, s.selected_char, c);
    let seen = RamState { phase, ..s };
    lemma_character_keeps_wf(seen, seen.selected_register, seen.selected_char, a);
}

/// Storing a character keeps all cells nibbles.
pub proof fn lemma_character_keeps_wf(s: RamState, reg: u8, index: u8, value: u8)
    requires
        s.wf(),
    ensures
        s.with_character(reg, index, value).wf(),
{
    let t = s.with_character(reg, index, value);
    assert forall|r: int, c: int| 0 <= r < 4 && 0 <= c < 16 implies #[trigger] t.ram[r][c] < 16 by {
        assert(s.ram[r][c] < 16);
    }
    assert forall|r: int| 0 <= r < 4 implies (#[trigger] t.ram[r]).len() == 16 by {
        assert(s.ram[r].len() == 16);
    }
}

/// A character that was written is read back, and no other character
/// changes.
pub proof fn lemma_write_then_read(s: RamState, reg: u8, index: u8, value: u8, r2: u8, i2: u8)
    requires
        s.wf(),
    ensures
        s.with_character(reg, index, value).character(reg, index) == value % 16,
        (r2 % 4 != reg % 4 || i2 % 16 != index % 16) ==> s.with_character(reg, index, value).character(
            r2,
            i2,
        ) == s.character(r2, i2),
{
}

/// Intel 4002: RAM with a 4-bit output port.
#[derive(Debug)]
pub struct I4002 {
    /// Main memory: four registers of sixteen nibbles.
    ram: [[u8; 16]; 4],
    /// Status characters.
    status: [u8; 4],
    /// Output port latch.
    output: u8,
    /// Chip number within the bank, 0 to 3.
    chip_id: u8,
    /// Bank number, 0 to 3.
    bank_id: u8,
    /// Register latched from SRC.
    selected_register: u8,
    /// Character latched from SRC.
    selected_char: u8,
    /// Whether the chip is selected for the current machine cycle.
    selected: bool,
    /// The phase last seen.
    phase: BusCycle,
}

impl View for I4002 {
    type V = RamState;

    closed spec fn view(&self) -> RamState {
        RamState {
            ram: Seq::new(4, |r: int| self.ram@[r]@),
            status: self.status@,
            output: self.output,
            chip_id: self.chip_id,
            bank_id: self.bank_id,
            selected_register: self.selected_register,
            selected_char: self.selected_char,
            selected: self.selected,
            phase: self.phase,
        }
    }
}

impl I4002 {
    #[verifier::type_invariant]
    spec fn nibbles(self) -> bool {
        self@.wf()
    }

    /// A cleared RAM numbered `chip_id` modulo 4 in bank `bank_id`
    /// modulo 4.
    pub fn new(chip_id: u8, bank_id: u8) -> (chip: I4002)
        ensures
            chip@ == RamState::blank(chip_id, bank_id),
            chip@.wf(),
    {
        let chip = I4002 {
            ram: [[0;16];4],
            status: [0;4],
            output: 0,
            chip_id: chip_id % 4,
            bank_id: bank_id % 4,
            selected_register: 0,
            selected_char: 0,
            selected: false,
            phase: BusCycle::A1,
        };
        proof {
            let blank = RamState::blank(chip_id, bank_id);
            assert forall|r: int| 0 <= r < 4 implies #[trigger] chip@.ram[r] == blank.ram[r] by {
                assert(chip@.ram[r] =~= blank.ram[r]);
            }
            assert(chip@.ram =~= blank.ram);
            assert(chip@.status =~= blank.status);
        }
        chip
    }

    /// A cleared RAM numbered `chip_id` in bank 0.
    pub fn with_chip_id(chip_id: u8) -> (chip: I4002)
        ensures
            chip@ == RamState::blank(chip_id, 0),
            chip@.wf(),
    {
        I4002::new(chip_id, 0)
    }

    /// The character at register `reg` modulo 4, position `char_idx`
    /// modulo 16; always a nibble.
    pub fn read_direct(&self, reg: u8, char_idx: u8) -> (value: u8)
        ensures
            value == self@.character(reg, char_idx),
            value < 16,
            self@.wf(),
    {
        proof {
            use_type_invariant(self);
        }
        let r: usize = (reg % 4) as usize;
        let c: usize = (char_idx % 16) as usize;
        assert(self@.ram[r as int][c as int] < 16);
        self.ram[r][c]
    }

    /// Stores the low nibble of `value` at register `reg` modulo 4,
    /// position `char_idx` modulo 16.
    pub fn write_direct(&mut self, reg: u8, char_idx: u8, value: u8)
        ensures
            final(self)@ == old(self)@.with_character(reg, char_idx, value),
            final(self)@.wf(),
    {
        proof {
            use_type_invariant(&*self);
            lemma_character_keeps_wf(self@, reg, char_idx, value);
        }
        let r: usize = (reg % 4) as usize;
        let c: usize = (char_idx % 16) as usize;
        let ghost before = self@;
        let mut row: [u8; 16] = self.ram[r];
        assert(row@ == before.ram[r as int]);
        row[c] = value % 16;
        assert forall|k: int| 0 <= k < 16 implies #[trigger] row@[k] < 16 by {
            assert(before.ram[r as int][k] < 16);
        }
        assert forall|j: int, k: int| 0 <= j < 4 && 0 <= k < 16 implies #[trigger] self.ram@.update(
            r as int,
            row,
        )[j]@[k] < 16 by {
            assert(before.ram[j][k] < 16);
        }
        self.ram[r] = row;
        proof {
            let after = before.with_character(reg, char_idx, value);
            assert forall|k: int| 0 <= k < 4 implies #[trigger] self@.ram[k] == after.ram[k] by {
                assert(self@.ram[k] =~= after.ram[k]);
            }
            assert(self@.ram =~= after.ram);
        }
    }

    /// Status character `reg` modulo 4.
    pub fn read_status(&self, reg: u8) -> (value: u8)
        ensures
            value == self@.status[(reg % 4) as int],
            value < 16,
            self@.wf(),
    {
        proof {
            use_type_invariant(self);
        }
        self.status[(reg % 4) as usize]
    }

    /// Stores the low nibble of `value` in status character `reg`
    /// modulo 4.
    pub fn write_status(&mut self, reg: u8, value: u8)
        ensures
            final(self)@ == old(self)@.with_status(reg, value),
            final(self)@.wf(),
    {
        proof {
            use_type_invariant(&*self);
        }
        let ghost before = self@;
        self.status[(reg % 4) as usize] = value % 16;
        assert(self@.ram =~= before.ram);
    }

    /// The output port.
    pub fn output(&self) -> (value: u8)
        ensures
            value == self@.output,
            value < 16,
            self@.wf(),
    {
        proof {
            use_type_invariant(self);
        }
        self.output
    }

    /// The chip's number within its bank.
    pub fn chip_id(&self) -> (id: u8)
        ensures
            id == self@.chip_id,
            id < 4,
            self@.wf(),
    {
        proof {
            use_type_invariant(self);
        }
        self.chip_id
    }

    /// The chip's bank.
    pub fn bank_id(&self) -> (id: u8)
        ensures
            id == self@.bank_id,
            id < 4,
            self@.wf(),
    {
        proof {
            use_type_invariant(self);
        }
        self.bank_id
    }

    /// Whether the chip is selected for the current machine cycle.
    pub fn is_selected(&self) -> (selected: bool)
        ensures
            selected == self@.selected,
    {
        self.selected
    }

    /// SRC: where `chip` modulo 4 is this chip's number, latches `reg`
    /// and `char_addr` for the X phases that follow.
    pub fn set_src_address(&mut self, chip: u8, reg: u8, char_addr: u8)
        ensures
            final(self)@ == old(self)@.with_src(chip, reg, char_addr),
            final(self)@.wf(),
    {
        proof {
            use_type_invariant(&*self);
        }
        let ghost before = self@;
        if chip % 4 == self.chip_id {
            self.selected_register = reg % 4;
            self.selected_char = char_addr % 16;
        }
        assert(self@.ram =~= before.ram);
    }

    /// What the chip puts on the bus in `phase`, if anything.
    pub fn bus_output(&self, phase: BusCycle, io: IoOperation) -> (out: Option<u8>)
        ensures
            out == self@.output_at(phase, io),
            out is Some ==> out->0 < 16,
            self@.wf(),
    {
        proof {
            use_type_invariant(self);
            lemma_operations_keep_wf(self@, 0, 0, 0, phase, io);
        }
        if self.selected && phase == BusCycle::X3 {
            match io {
                IoOperation::ReadRam => Some(self.rdm()),
                IoOperation::ReadStatus(i) => Some(self.rdx(i)),
                _ => None,
            }
        } else {
            None
        }
    }

    /// Samples the bus in `phase`: `bus` is the nibble on the data bus,
    /// `cm_ram` the number on the CM-RAM lines and `io` the I/O
    /// operation in execution.
    pub fn latch(&mut self, phase: BusCycle, bus: u8, cm_ram: u8, io: IoOperation)
        ensures
            final(self)@ == old(self)@.latched(phase, bus, cm_ram, io),
            final(self)@.wf(),
    {
        proof {
            use_type_invariant(&*self);
        }
        let ghost before = self@;
        self.phase = phase;
        assert(self@.ram =~= before.ram);
        match phase {
            BusCycle::X1 => {
                let ghost seen = self@;
                self.selected = cm_ram == self.bank_id;
                assert(self@.ram =~= seen.ram);
            },
            BusCycle::X2 => {
                if self.selected {
                    match io {
                        IoOperation::WriteRam => self.wrm(bus),
                        IoOperation::WriteRamPort => self.wmp(bus),
                        IoOperation::WriteStatus(i) => self.wrx(i, bus),
                        _ => {},
                    }
                }
            },
            _ => {},
        }
    }

    /// Processes one bus phase: the chip drives the bus through its
    /// driver `driver` or lets go of it, and then samples bus and
    /// control lines.
    pub fn tick_bus(
        &mut self,
        phase: BusCycle,
        bus: &mut DataBus,
        ctrl: &ControlSignals,
        driver: usize,
        now: Time,
    )
        requires
            old(bus)@.wf(),
        ensures
            final(bus)@ == (match old(self)@.output_at(phase, ctrl@.io) {
                Some(v) => old(bus)@.driven(driver as int, v, now),
                None => old(bus)@.released(driver as int, now),
            }),
            final(self)@ == old(self)@.latched(
                phase,
                final(bus)@.nibble() as u8,
                ctrl@.ram_select() as u8,
                ctrl@.io,
            ),
            final(self)@.wf(),
            final(bus)@.wf(),
    {
        let io: IoOperation = ctrl.io;
        match self.bus_output(phase, io) {
            Some(v) => bus.drive(driver, v, now),
            None => bus.release(driver, now),
        }
        let nibble: u8 = bus.read();
        let cm_ram: u8 = ctrl.cm_ram();
        self.latch(phase, nibble, cm_ram, io);
    }

    /// WRM: stores the low nibble of `value` in the addressed character.
    pub fn wrm(&mut self, value: u8)
        ensures
            final(self)@ == old(self)@.wrm(value),
            final(self)@.wf(),
    {
        proof {
            use_type_invariant(&*self);
        }
        let reg: u8 = self.selected_register;
        let index: u8 = self.selected_char;
        self.write_direct(reg, index, value);
    }

    /// RDM: the addressed character.
    pub fn rdm(&self) -> (value: u8)
        ensures
            value == self@.addressed(),
            value < 16,
            self@.wf(),
    {
        proof {
            use_type_invariant(self);
        }
        self.read_direct(self.selected_register, self.selected_char)
    }

    /// WMP: stores the low nibble of `value` in the output port.
    pub fn wmp(&mut self, value: u8)
        ensures
            final(self)@ == old(self)@.with_output(value),
            final(self)@.wf(),
    {
        proof {
            use_type_invariant(&*self);
        }
        let ghost before = self@;
        self.output = value % 16;
        assert(self@.ram =~= before.ram);
    }

    /// WR0 to WR3: stores the low nibble of `value` in status character
    /// `status_idx` modulo 4.
    pub fn wrx(&mut self, status_idx: u8, value: u8)
        ensures
            final(self)@ == old(self)@.with_status(status_idx, value),
            final(self)@.wf(),
    {
        self.write_status(status_idx, value);
    }

    /// RD0 to RD3: status character `status_idx` modulo 4.
    pub fn rdx(&self, status_idx: u8) -> (value: u8)
        ensures
            value == self@.status[(status_idx % 4) as int],
            value < 16,
            self@.wf(),
    {
        self.read_status(status_idx)
    }
}

impl Clone for I4002 {
    fn clone(&self) -> (chip: I4002)
        ensures
            chip@ == self@,
    {
        proof {
            use_type_invariant(self);
        }
        let chip = I4002 {
            ram: self.ram,
            status: self.status,
            output: self.output,
            chip_id: self.chip_id,
            bank_id: self.bank_id,
            selected_register: self.selected_register,
            selected_char: self.selected_char,
            selected: self.selected,
            phase: self.phase,
        };
        assert(chip@.ram =~= self@.ram);
        chip
    }
}

impl Default for I4002 {
    fn default() -> (chip: I4002)
        ensures
            chip@ == RamState::blank(0, 0),
    {
        I4002::new(0, 0)
    }
}

impl Chip for I4002 {
    open spec fn can_tick(&self) -> bool {
        true
    }

    fn name(&self) -> (name: &'static str)
        ensures
            name@ == "4002"@,
    {
        "4002"
    }

    /// Clears memory, status, port and latches.
    fn reset(&mut self)
        ensures
            final(self)@ == old(self)@.after_reset(),
            final(self)@.wf(),
    {
        proof {
            use_type_invariant(&*self);
        }
        let chip_id: u8 = self.chip_id;
        let bank_id: u8 = self.bank_id;
        *self = I4002::new(chip_id, bank_id);
    }

    /// Notes the phase.
    fn tick(&mut self, phase: BusCycle)
        ensures
            final(self)@ == (RamState { phase, ..old(self)@ }),
    {
        proof {
            use_type_invariant(&*self);
        }
        let ghost before = self@;
        self.phase = phase;
        assert(self@.ram =~= before.ram);
    }
}

} // verus!
