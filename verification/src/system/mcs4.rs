//! The MCS-4 system: a 4004 with its 4001 ROMs and 4002 RAMs on one bus.
//!
//! A step is one bus phase. In every phase the devices that have nothing
//! to send let go of the bus, then the one that has something drives it,
//! and then all of them sample it: the CPU first, since the memories act
//! on the control lines that it sets.

use vstd::prelude::*;
use vstd::slice::slice_subrange;
use crate::bus::clock::{ClockState, TwoPhaseClockTwoPhaseClock};
use crate::bus::control::{ControlSignals, ControlState, IoOperation};
use crate::bus::cycle::{BusCycle, CycleState, MachineState};
use crate::bus::data_bus::{BusState, DataBus};
use crate::chips::i4001::{RomState, I4001};
use crate::chips::i4002::{lemma_operations_keep_wf, RamState, I4002};
use crate::chips::i4004::{lemma_latched_keeps_wf, CpuState, Instruction, I4004};
use crate::sim::signal::SignalLevel;
use crate::sim::timing::Time;
use crate::system::signal_trace::SignalTrace;

verus! {

/// The bus after every device below `n` that sends nothing has let go
/// of it. Device `id` holds driver `id`.
pub open spec fn released_idle(bus: BusState, outputs: Seq<Option<u8>>, time: Time, n: int) -> BusState
    decreases n,
{
    if n <= 0 {
        bus
    } else {
        let before = released_idle(bus, outputs, time, n - 1);
        if outputs[n - 1] is None {
            before.released(n - 1, time)
        } else {
            before
        }
    }
}

/// The bus after every device below `n` that sends something has driven
/// it.
pub open spec fn driven_active(bus: BusState, outputs: Seq<Option<u8>>, time: Time, n: int) -> BusState
    decreases n,
{
    if n <= 0 {
        bus
    } else {
        let before = driven_active(bus, outputs, time, n - 1);
        if outputs[n - 1] is Some {
            before.driven(n - 1, outputs[n - 1]->0, time)
        } else {
            before
        }
    }
}

/// The name of the driver of device `id` in a system with `roms` ROM
/// chips.
pub open spec fn device_name(id: int, roms: int) -> Seq<char> {
    if id == 0 {
        "CPU"@
    } else if id <= roms {
        "ROM"@
    } else {
        "RAM"@
    }
}

/// Whether `bus` is the bus of a system with `roms` ROM and `rams` RAM
/// chips on which nothing has happened yet: the lines float and have no
/// history, and every device has its driver, inactive.
pub open spec fn untouched_bus(bus: BusState, roms: int, rams: int) -> bool {
    &&& bus.wf()
    &&& bus.lines == BusState::initial().lines
    &&& bus.drivers.len() == 1 + roms + rams
    &&& forall|id: int|
        0 <= id < bus.drivers.len() ==> !(#[trigger] bus.drivers[id]).active && bus.drivers[id].value
            == 0 && bus.drivers[id].name@ == device_name(id, roms)
}

/// The test for an address other than `addr`.
pub open spec fn other_than(addr: u16) -> spec_fn(u16) -> bool {
    |a: u16| a != addr
}

/// The time one clock period after `now`, or the last time there is.
pub open spec fn time_after(now: Time, period: Time) -> Time {
    if now + period > u64::MAX {
        u64::MAX
    } else {
        (now + period) as u64
    }
}

/// What an MCS-4 system is.
pub struct SystemState {
    pub cpu: CpuState,
    /// ROM chips; chip `i` has number `i`.
    pub rom: Seq<RomState>,
    /// RAM chips; chip `j` has number `j % 4` in bank `j / 4`.
    pub ram: Seq<RamState>,
    pub bus: BusState,
    pub control: ControlState,
    pub clock: ClockState,
    /// The phase that the next step performs.
    pub cycle: CycleState,
    /// Machine cycles completed.
    pub total_cycles: u64,
    /// Breakpoint addresses.
    pub breakpoints: Seq<u16>,
    /// The time of the next step.
    pub now: Time,
}

impl SystemState {
    /// The number of devices on the bus: the CPU, the ROMs and the RAMs.
    pub open spec fn devices(self) -> int {
        (1 + self.rom.len() + self.ram.len()) as int
    }

    /// The system is well formed: every part is; ROM `i` has number
    /// `i` and RAM `j` has number `j % 4` in bank `j / 4`; every
    /// device has its driver on the bus; and CPU and system are in the
    /// same phase of the same machine cycle.
    pub open spec fn wf(self) -> bool {
        &&& self.cpu.wf()
        &&& self.rom.len() <= 16
        &&& self.ram.len() <= 16
        &&& forall|i: int|
            0 <= i < self.rom.len() ==> (#[trigger] self.rom[i]).wf() && self.rom[i].chip_id == i
        &&& forall|j: int|
            0 <= j < self.ram.len() ==> (#[trigger] self.ram[j]).wf() && self.ram[j].chip_id == j % 4
                && self.ram[j].bank_id == j / 4
        &&& self.bus.wf()
        &&& self.bus.drivers.len() == self.devices()
        &&& self.control.wf()
        &&& self.cpu.cycle.phase == self.cycle.phase
        &&& self.cpu.cycle.cycle_count == self.total_cycles
        &&& self.cpu.cycle.instruction_count <= self.total_cycles
        &&& self.cycle.cycle_count == self.total_cycles
        &&& self.cycle.instruction_count == self.total_cycles
        &&& self.cycle.state == MachineState::Fetch1
        &&& !self.cycle.two_cycle
    }

    /// What each device sends in this phase: the CPU first, then the
    /// ROMs, then the RAMs.
    pub open spec fn outputs(self) -> Seq<Option<u8>> {
        Seq::new(
            self.devices() as nat,
            |id: int|
                if id == 0 {
                    self.cpu.output(self.cycle.phase)
                } else if id <= self.rom.len() {
                    self.rom[id - 1].output(self.cycle.phase, self.control.io)
                } else {
                    self.ram[id - 1 - self.rom.len()].output_at(self.cycle.phase, self.control.io)
                },
        )
    }

    /// The bus in this phase: first the idle devices let go, then the
    /// sending ones drive.
    #[verifier::opaque]
    pub open spec fn bus_in_phase(self) -> BusState {
        driven_active(
            released_idle(self.bus, self.outputs(), self.now, self.devices()),
            self.outputs(),
            self.now,
            self.devices(),
        )
    }

    /// The nibble that the devices sample in this phase.
    #[verifier::opaque]
    pub open spec fn sampled_nibble(self) -> u8 {
        self.bus_in_phase().nibble() as u8
    }

    /// The control lines after the CPU's part of this phase.
    #[verifier::opaque]
    pub open spec fn control_in_phase(self) -> ControlState {
        self.cpu.control_after(self.cycle.phase, self.control, self.now)
    }

    /// The CPU after this phase.
    pub open spec fn cpu_after(self) -> CpuState {
        self.cpu.latched(self.cycle.phase, self.sampled_nibble())
    }

    /// Whether this phase completes an SRC.
    pub open spec fn completes_src(self) -> bool {
        self.cycle.phase == BusCycle::X3 && self.cpu_after().decoder.instruction is Some
            && self.cpu_after().decoder.instruction->0 is Src
    }

    /// RAM chip `j` after this phase: it samples the bus, and at the end
    /// of an SRC it takes the address that the CPU sent, whose high
    /// nibble holds the chip in its upper and the register in its lower
    /// two bits.
    pub open spec fn ram_after(self, j: int) -> RamState {
        let sampled = self.ram[j].latched(
            self.cycle.phase,
            self.sampled_nibble(),
            self.control_in_phase().ram_select() as u8,
            self.control_in_phase().io,
        );
        if self.completes_src() {
            sampled.with_src(
                self.cpu_after().ram_chip / 4,
                self.cpu_after().ram_chip % 4,
                self.cpu_after().ram_address,
            )
        } else {
            sampled
        }
    }

    /// ROM chip `i` after this phase.
    pub open spec fn rom_after(self, i: int) -> RomState {
        self.rom[i].latched(
            self.cycle.phase,
            self.sampled_nibble(),
            self.control_in_phase().rom_select() as u8,
            self.control_in_phase().io,
        )
    }

    /// The system one bus phase later.
    #[verifier::opaque]
    pub open spec fn stepped(self) -> SystemState {
        SystemState {
            cpu: self.cpu_after(),
            rom: Seq::new(self.rom.len(), |i: int| self.rom_after(i)),
            ram: Seq::new(self.ram.len(), |j: int| self.ram_after(j)),
            bus: self.bus_in_phase(),
            control: self.control_in_phase(),
            clock: self.clock,
            cycle: self.cycle.advanced(),
            total_cycles: if self.cycle.phase == BusCycle::X3 {
                (self.total_cycles + 1) as u64
            } else {
                self.total_cycles
            },
            breakpoints: self.breakpoints,
            now: time_after(self.now, self.clock.config.period),
        }
    }

    /// The system `n` bus phases later.
    #[verifier::opaque]
    pub open spec fn stepped_by(self, n: nat) -> SystemState
        decreases n,
    {
        if n == 0 {
            self
        } else {
            self.stepped().stepped_by((n - 1) as nat)
        }
    }

    /// Whether the system stands at the start of a machine cycle with
    /// the program counter on a breakpoint.
    pub open spec fn at_breakpoint(self) -> bool {
        self.cycle.phase == BusCycle::A1 && self.breakpoints.contains(self.cpu.regs.pc)
    }

    /// The index of the ROM chip that holds `addr`.
    pub open spec fn rom_chip_of(addr: u16) -> int {
        ((addr / 256) % 16) as int
    }

    /// The byte at `addr`, where the system has the ROM chip for it.
    pub open spec fn rom_byte(self, addr: u16) -> Option<u8> {
        if SystemState::rom_chip_of(addr) < self.rom.len() {
            Some(self.rom[SystemState::rom_chip_of(addr)].rom[(addr % 256) as int])
        } else {
            None
        }
    }

    /// The RAM character at the given place, where the system has the
    /// RAM chip for it.
    pub open spec fn ram_character(self, bank: u8, chip: u8, reg: u8, char_addr: u8) -> Option<u8> {
        if bank < 4 && chip < 4 && bank * 4 + chip < self.ram.len() {
            Some(self.ram[bank * 4 + chip].character(reg, char_addr))
        } else {
            None
        }
    }

    /// The ROMs after an image was loaded from address 0: chip `i`
    /// takes the image's bytes from `256 * i` on.
    pub open spec fn rom_loaded(self, data: Seq<u8>) -> Seq<RomState> {
        Seq::new(self.rom.len(), |i: int| self.rom[i].loaded_at(-256 * i, data))
    }

    /// The ROMs after `data` was loaded from `address` on: chip `i`
    /// takes the bytes that fall into its 256 addresses. Bytes for
    /// chips that the system lacks, and bytes beyond address 4095, are
    /// dropped.
    pub open spec fn rom_loaded_at(self, address: u16, data: Seq<u8>) -> Seq<RomState> {
        Seq::new(self.rom.len(), |i: int| self.rom[i].loaded_at(address - 256 * i, data))
    }

    /// The breakpoints without `addr`.
    pub open spec fn breakpoints_without(self, addr: u16) -> Seq<u16> {
        self.breakpoints.filter(other_than(addr))
    }
}

/// The release pass leaves the bus well formed and changes no driver
/// that it does not release.
pub proof fn lemma_released_idle(bus: BusState, outputs: Seq<Option<u8>>, time: Time, n: int)
    requires
        bus.wf(),
        0 <= n <= outputs.len(),
    ensures
        released_idle(bus, outputs, time, n).wf(),
        released_idle(bus, outputs, time, n).drivers.len() == bus.drivers.len(),
        forall|id: int|
            0 <= id < bus.drivers.len() ==> (#[trigger] released_idle(
                bus,
                outputs,
                time,
                n,
            ).drivers[id]).value == bus.drivers[id].value && (released_idle(
                bus,
                outputs,
                time,
                n,
            ).drivers[id].active <==> bus.drivers[id].active && !(id < n && outputs[id] is None)),
        bus.ordered_until(time) ==> released_idle(bus, outputs, time, n).ordered_until(time),
    decreases n,
{
    if n > 0 {
        lemma_released_idle(bus, outputs, time, n - 1);
        let before = released_idle(bus, outputs, time, n - 1);
        if outputs[n - 1] is None {
            let loose = BusState { drivers: before.drivers_without(n - 1), ..before };
            crate::bus::data_bus::lemma_settled(loose, time);
        }
    }
}

/// The drive pass leaves the bus well formed; afterwards each device
/// that sends is active with what it sends.
pub proof fn lemma_driven_active(bus: BusState, outputs: Seq<Option<u8>>, time: Time, n: int)
    requires
        bus.wf(),
        0 <= n <= outputs.len(),
        forall|id: int| 0 <= id < outputs.len() && (#[trigger] outputs[id]) is Some ==> outputs[id]->0 < 16,
    ensures
        driven_active(bus, outputs, time, n).wf(),
        driven_active(bus, outputs, time, n).drivers.len() == bus.drivers.len(),
        forall|id: int|
            0 <= id < bus.drivers.len() ==> (#[trigger] driven_active(
                bus,
                outputs,
                time,
                n,
            ).drivers[id]) == (if id < n && outputs[id] is Some {
                crate::bus::data_bus::BusDriver {
                    name: bus.drivers[id].name,
                    active: true,
                    value: outputs[id]->0,
                }
            } else {
                bus.drivers[id]
            }),
        bus.ordered_until(time) ==> driven_active(bus, outputs, time, n).ordered_until(time),
    decreases n,
{
    if n > 0 {
        lemma_driven_active(bus, outputs, time, n - 1);
        let before = driven_active(bus, outputs, time, n - 1);
        if outputs[n - 1] is Some {
            let v = outputs[n - 1]->0;
            assert(v % 16 == v);
            let held = BusState { drivers: before.drivers_with(n - 1, v), ..before };
            assert forall|i: int| 0 <= i < held.drivers.len() implies (#[trigger] held.drivers[i]).value
                < 16 by {
                if i != n - 1 {
                    assert(before.drivers[i].value < 16);
                }
            }
            crate::bus::data_bus::lemma_settled(held, time);
        }
    }
}

/// What the devices send is always a nibble.
pub proof fn lemma_outputs_are_nibbles(s: SystemState)
    requires
        s.wf(),
    ensures
        s.outputs().len() == s.devices(),
        forall|id: int| 0 <= id < s.outputs().len() && (#[trigger] s.outputs()[id]) is Some ==> s.outputs()[id]->0 < 16,
{
    let outs = s.outputs();
    assert forall|id: int| 0 <= id < outs.len() && (#[trigger] outs[id]) is Some implies outs[id]->0
        < 16 by {
        if id == 0 {
        } else if id <= s.rom.len() {
            assert(s.rom[id - 1].wf());
        } else {
            let j = id - 1 - s.rom.len();
            assert(s.ram[j].wf());
            lemma_operations_keep_wf(s.ram[j], 0, 0, 0, s.cycle.phase, s.control.io);
        }
    }
}

/// A step keeps the system well formed.
pub proof fn lemma_step_keeps_wf(s: SystemState)
    requires
        s.wf(),
        s.total_cycles < u64::MAX,
    ensures
        s.stepped().wf(),
        s.stepped().breakpoints == s.breakpoints,
        s.stepped().rom.len() == s.rom.len(),
        s.stepped().ram.len() == s.ram.len(),
        s.stepped().cycle.phase == s.cycle.phase.successor(),
        s.stepped().total_cycles == s.total_cycles + (if s.cycle.phase == BusCycle::X3 {
            1int
        } else {
            0int
        }),
        s.stepped().now >= s.now,
{
    reveal(SystemState::stepped);
    reveal(SystemState::bus_in_phase);
    reveal(SystemState::control_in_phase);
    let t = s.stepped();
    lemma_outputs_are_nibbles(s);
    lemma_released_idle(s.bus, s.outputs(), s.now, s.devices());
    lemma_driven_active(
        released_idle(s.bus, s.outputs(), s.now, s.devices()),
        s.outputs(),
        s.now,
        s.devices(),
    );
    lemma_latched_keeps_wf(s.cpu, s.cycle.phase, s.sampled_nibble());
    crate::chips::i4004::lemma_completed_cycle(s.cpu, s.sampled_nibble());
    assert(t.control.wf()) by {
        crate::bus::control::lemma_select_reads_back(
            s.control,
            ((s.cpu.fetch_address() / 256) % 16) as u8,
            s.now,
        );
        crate::sim::signal::lemma_update_keeps_wf(
            s.control.with_io(IoOperation::Idle).sync,
            s.now,
            SignalLevel::High,
        );
        crate::sim::signal::lemma_update_keeps_wf(s.control.sync, s.now, SignalLevel::Low);
    }
    assert forall|i: int| 0 <= i < t.rom.len() implies (#[trigger] t.rom[i]).wf() && t.rom[i].chip_id
        == i by {
        assert(s.rom[i].wf());
    }
    assert forall|j: int| 0 <= j < t.ram.len() implies (#[trigger] t.ram[j]).wf() && t.ram[j].chip_id
        == j % 4 && t.ram[j].bank_id == j / 4 by {
        assert(s.ram[j].wf());
        let sampled = s.ram[j].latched(
            s.cycle.phase,
            s.sampled_nibble(),
            s.control_in_phase().ram_select() as u8,
            s.control_in_phase().io,
        );
        lemma_operations_keep_wf(
            s.ram[j],
            s.sampled_nibble(),
            s.control_in_phase().ram_select() as u8,
            0,
            s.cycle.phase,
            s.control_in_phase().io,
        );
        lemma_operations_keep_wf(
            sampled,
            s.cpu_after().ram_chip / 4,
            s.cpu_after().ram_chip % 4,
            s.cpu_after().ram_address,
            s.cycle.phase,
            s.control_in_phase().io,
        );
    }
}

/// The views of a system's ROM chips.
pub open spec fn rom_states(roms: Seq<I4001>) -> Seq<RomState> {
    Seq::new(roms.len(), |i: int| roms[i]@)
}

/// The views of a system's RAM chips.
pub open spec fn ram_states(rams: Seq<I4002>) -> Seq<RamState> {
    Seq::new(rams.len(), |j: int| rams[j]@)
}

/// Lets every ROM chip sample the bus.
fn latch_roms(roms: &mut Vec<I4001>, phase: BusCycle, nibble: u8, cm_rom: u8, io: IoOperation)
    requires
        forall|i: int| 0 <= i < old(roms)@.len() ==> (#[trigger] old(roms)@[i])@.wf(),
    ensures
        final(roms)@.len() == old(roms)@.len(),
        forall|i: int|
            0 <= i < old(roms)@.len() ==> (#[trigger] final(roms)@[i])@ == old(roms)@[i]@.latched(
                phase,
                nibble,
                cm_rom,
                io,
            ),
{
    let mut i: usize = 0;
    while i < roms.len()
        invariant
            i <= roms@.len(),
            roms@.len() == old(roms)@.len(),
            forall|k: int| 0 <= k < i ==> (#[trigger] roms@[k])@ == old(roms)@[k]@.latched(phase, nibble, cm_rom, io),
            forall|k: int| i <= k < roms@.len() ==> (#[trigger] roms@[k]) == old(roms)@[k],
            forall|k: int| 0 <= k < old(roms)@.len() ==> (#[trigger] old(roms)@[k])@.wf(),
        decreases roms@.len() - i,
    {
        roms[i].latch(phase, nibble, cm_rom, io);
        i += 1;
    }
}

/// Lets every RAM chip sample the bus; where `src` holds the chip, the
/// register and the character that an SRC sent, every chip then takes
/// that address.
fn latch_rams(
    rams: &mut Vec<I4002>,
    phase: BusCycle,
    nibble: u8,
    cm_ram: u8,
    io: IoOperation,
    src: Option<(u8, u8, u8)>,
)
    ensures
        final(rams)@.len() == old(rams)@.len(),
        forall|j: int|
            0 <= j < old(rams)@.len() ==> (#[trigger] final(rams)@[j])@ == (match src {
                Some(a) => old(rams)@[j]@.latched(phase, nibble, cm_ram, io).with_src(a.0, a.1, a.2),
                None => old(rams)@[j]@.latched(phase, nibble, cm_ram, io),
            }),
{
    let mut j: usize = 0;
    while j < rams.len()
        invariant
            j <= rams@.len(),
            rams@.len() == old(rams)@.len(),
            forall|k: int|
                0 <= k < j ==> (#[trigger] rams@[k])@ == (match src {
                    Some(a) => old(rams)@[k]@.latched(phase, nibble, cm_ram, io).with_src(a.0, a.1, a.2),
                    None => old(rams)@[k]@.latched(phase, nibble, cm_ram, io),
                }),
            forall|k: int| j <= k < rams@.len() ==> (#[trigger] rams@[k]) == old(rams)@[k],
        decreases rams@.len() - j,
    {
        rams[j].latch(phase, nibble, cm_ram, io);
        match src {
            Some(a) => {
                rams[j].set_src_address(a.0, a.1, a.2);
            },
            None => {},
        }
        j += 1;
    }
}

/// Asks every device what it sends in `phase`: the CPU first, then the
/// ROMs, then the RAMs.
fn collect_outputs(
    cpu: &I4004,
    roms: &Vec<I4001>,
    rams: &Vec<I4002>,
    phase: BusCycle,
    io: IoOperation,
) -> (outs: Vec<Option<u8>>)
    requires
        forall|i: int| 0 <= i < roms@.len() ==> (#[trigger] roms@[i])@.wf(),
    ensures
        outs@.len() == 1 + roms@.len() + rams@.len(),
        outs@[0] == cpu@.output(phase),
        forall|i: int| 0 <= i < roms@.len() ==> #[trigger] outs@[1 + i] == roms@[i]@.output(phase, io),
        forall|j: int|
            0 <= j < rams@.len() ==> #[trigger] outs@[1 + roms@.len() + j] == rams@[j]@.output_at(
                phase,
                io,
            ),
{
    let mut outs: Vec<Option<u8>> = Vec::new();
    outs.push(cpu.bus_output(phase));
    let mut i: usize = 0;
    while i < roms.len()
        invariant
            i <= roms@.len(),
            outs@.len() == 1 + i,
            outs@[0] == cpu@.output(phase),
            forall|k: int| 0 <= k < i ==> #[trigger] outs@[1 + k] == roms@[k]@.output(phase, io),
            forall|k: int| 0 <= k < roms@.len() ==> (#[trigger] roms@[k])@.wf(),
        decreases roms@.len() - i,
    {
        outs.push(roms[i].bus_output(phase, io));
        i += 1;
    }
    let mut j: usize = 0;
    while j < rams.len()
        invariant
            j <= rams@.len(),
            outs@.len() == 1 + roms@.len() + j,
            outs@[0] == cpu@.output(phase),
            forall|k: int| 0 <= k < roms@.len() ==> #[trigger] outs@[1 + k] == roms@[k]@.output(phase, io),
            forall|k: int|
                0 <= k < j ==> #[trigger] outs@[1 + roms@.len() + k] == rams@[k]@.output_at(phase, io),
        decreases rams@.len() - j,
    {
        outs.push(rams[j].bus_output(phase, io));
        j += 1;
    }
    outs
}

/// First every device that sends nothing lets go of the bus, then
/// every device that sends drives it.
fn settle_bus(bus: &mut DataBus, outs: &Vec<Option<u8>>, now: Time)
    requires
        old(bus)@.wf(),
        forall|id: int| 0 <= id < outs@.len() && (#[trigger] outs@[id]) is Some ==> outs@[id]->0 < 16,
    ensures
        final(bus)@ == driven_active(
            released_idle(old(bus)@, outs@, now, outs@.len() as int),
            outs@,
            now,
            outs@.len() as int,
        ),
        final(bus)@.wf(),
{
    let mut id: usize = 0;
    while id < outs.len()
        invariant
            id <= outs@.len(),
            old(bus)@.wf(),
            bus@ == released_idle(old(bus)@, outs@, now, id as int),
            bus@.wf(),
        decreases outs@.len() - id,
    {
        proof {
            lemma_released_idle(old(bus)@, outs@, now, id as int + 1);
        }
        if outs[id].is_none() {
            bus.release(id, now);
        }
        id += 1;
    }
    let ghost loose = bus@;
    let mut id: usize = 0;
    while id < outs.len()
        invariant
            id <= outs@.len(),
            loose.wf(),
            bus@ == driven_active(loose, outs@, now, id as int),
            bus@.wf(),
            forall|k: int| 0 <= k < outs@.len() && (#[trigger] outs@[k]) is Some ==> outs@[k]->0 < 16,
        decreases outs@.len() - id,
    {
        proof {
            lemma_driven_active(loose, outs@, now, id as int + 1);
        }
        match outs[id] {
            Some(v) => {
                bus.drive(id, v, now);
            },
            None => {},
        }
        id += 1;
    }
}

/// A bus with the drivers of a CPU, `roms` ROM chips and `rams` RAM
/// chips.
fn assemble_bus(roms: usize, rams: usize) -> (bus: DataBus)
    requires
        roms <= 16,
        rams <= 16,
    ensures
        untouched_bus(bus@, roms as int, rams as int),
{
    let mut bus = DataBus::new();
    let _ = bus.add_driver("CPU");
    let mut i: usize = 0;
    while i < roms + rams
        invariant
            i <= roms + rams <= 32,
            bus@.wf(),
            bus@.lines == BusState::initial().lines,
            bus@.drivers.len() == 1 + i,
            forall|id: int|
                0 <= id < bus@.drivers.len() ==> !(#[trigger] bus@.drivers[id]).active && bus@.drivers[id].value
                    == 0 && bus@.drivers[id].name@ == device_name(id, roms as int),
        decreases roms + rams - i,
    {
        let ghost before = bus@;
        let _ = if i < roms {
            bus.add_driver("ROM")
        } else {
            bus.add_driver("RAM")
        };
        proof {
            assert forall|id: int| 0 <= id < bus@.drivers.len() implies !(#[trigger] bus@.drivers[id]).active
                && bus@.drivers[id].value == 0 && bus@.drivers[id].name@ == device_name(
                id,
                roms as int,
            ) by {
                if id < before.drivers.len() {
                    assert(bus@.drivers[id] == before.drivers[id]);
                    assert(!before.drivers[id].active);
                }
            }
        }
        i += 1;
    }
    bus
}

/// Whether `breakpoints` holds `addr`.
fn holds_breakpoint(breakpoints: &Vec<u16>, addr: u16) -> (found: bool)
    ensures
        found == breakpoints@.contains(addr),
{
    let mut i: usize = 0;
    while i < breakpoints.len()
        invariant
            i <= breakpoints@.len(),
            forall|k: int| 0 <= k < i ==> breakpoints@[k] != addr,
        decreases breakpoints@.len() - i,
    {
        if breakpoints[i] == addr {
            return true;
        }
        i += 1;
    }
    false
}

/// Complete MCS-4 system.
pub struct Mcs4System {
    /// The 4004.
    pub cpu: I4004,
    /// ROM chips, up to 16; chip `i` has number `i`.
    pub rom: Vec<I4001>,
    /// RAM chips, up to 16; chip `j` has number `j % 4` in bank `j / 4`.
    pub ram: Vec<I4002>,
    /// The data bus. The CPU holds driver 0, the ROMs the next ones and
    /// the RAMs the last.
    pub bus: DataBus,
    /// The control lines.
    pub control: ControlSignals,
    /// The clock. A step takes one of its periods.
    pub clock: TwoPhaseClockTwoPhaseClock,
    /// The phase that the next step performs.
    cycle: CycleState,
    /// Machine cycles completed.
    total_cycles: u64,
    /// Breakpoint addresses, each once.
    breakpoints: Vec<u16>,
    /// The time of the next step.
    now: Time,
}

impl View for Mcs4System {
    type V = SystemState;

    closed spec fn view(&self) -> SystemState {
        SystemState {
            cpu: self.cpu@,
            rom: rom_states(self.rom@),
            ram: ram_states(self.ram@),
            bus: self.bus@,
            control: self.control@,
            clock: self.clock@,
            cycle: self.cycle,
            total_cycles: self.total_cycles,
            breakpoints: self.breakpoints@,
            now: self.now,
        }
    }
}

impl Mcs4System {
    /// Whether `s` is a system fresh from assembly with `roms` ROM and
    /// `rams` RAM chips: everything in its reset state, the memories
    /// empty, the bus floating and no breakpoint set.
    pub open spec fn fresh(s: SystemState, roms: nat, rams: nat) -> bool {
        &&& s.wf()
        &&& s.cpu == CpuState::initial()
        &&& s.rom == Seq::new(roms, |i: int| RomState::blank(i as u8))
        &&& s.ram == Seq::new(rams, |j: int| RamState::blank((j % 4) as u8, (j / 4) as u8))
        &&& untouched_bus(s.bus, roms as int, rams as int)
        &&& s.control == ControlState::initial_mcs4()
        &&& s.clock == ClockState::at_rest(crate::bus::clock::ClockConfig::typical())
        &&& s.cycle == CycleState::initial()
        &&& s.total_cycles == 0
        &&& s.breakpoints.len() == 0
        &&& s.now == 0
    }

    /// Whether a run from `s` goes on for `n` steps: none of the states
    /// after the first and before the `n`th step is at a breakpoint,
    /// and before each of the steps fewer than `max_cycles` machine
    /// cycles have passed.
    pub open spec fn ran_on(s: SystemState, n: nat, max_cycles: u64) -> bool {
        &&& forall|k: nat| 0 < k < n ==> !(#[trigger] s.stepped_by(k)).at_breakpoint()
        &&& forall|k: nat| k < n ==> (#[trigger] s.stepped_by(k)).total_cycles - s.total_cycles < max_cycles
    }

    /// Puts a system together: `roms` ROM chips numbered from 0 and
    /// `rams` RAM chips, four to a bank.
    fn assemble(roms: u8, rams: u8) -> (sys: Mcs4System)
        requires
            roms <= 16,
            rams <= 16,
        ensures
            Mcs4System::fresh(sys@, roms as nat, rams as nat),
    {
        let bus = assemble_bus(roms as usize, rams as usize);
        let mut rom: Vec<I4001> = Vec::new();
        let mut i: u8 = 0;
        while i < roms
            invariant
                i <= roms <= 16,
                rom@.len() == i,
                forall|k: int| 0 <= k < i ==> (#[trigger] rom@[k])@ == RomState::blank(k as u8),
            decreases roms - i,
        {
            rom.push(I4001::new(i));
            i += 1;
        }
        let mut ram: Vec<I4002> = Vec::new();
        let mut j: u8 = 0;
        while j < rams
            invariant
                j <= rams <= 16,
                ram@.len() == j,
                forall|k: int|
                    0 <= k < j ==> (#[trigger] ram@[k])@ == RamState::blank((k % 4) as u8, (k / 4) as u8),
            decreases rams - j,
        {
            ram.push(I4002::new(j % 4, j / 4));
            j += 1;
        }
        let sys = Mcs4System {
            cpu: I4004::new(),
            rom,
            ram,
            bus,
            control: ControlSignals::mcs4(),
            clock: TwoPhaseClockTwoPhaseClock::default_config(),
            cycle: CycleState::new(),
            total_cycles: 0,
            breakpoints: Vec::new(),
            now: 0,
        };
        proof {
            assert(sys@.rom =~= Seq::new(roms as nat, |i: int| RomState::blank(i as u8)));
            assert(sys@.ram =~= Seq::new(
                rams as nat,
                |j: int| RamState::blank((j % 4) as u8, (j / 4) as u8),
            ));
            assert forall|k: int| 0 <= k < sys@.ram.len() implies (#[trigger] sys@.ram[k]).wf() by {
                lemma_operations_keep_wf(
                    RamState::blank(0, 0),
                    (k % 4) as u8,
                    (k / 4) as u8,
                    0,
                    BusCycle::A1,
                    IoOperation::Idle,
                );
            }
        }
        sys
    }

    /// A minimal system: one ROM, one RAM.
    pub fn minimal() -> (sys: Mcs4System)
        ensures
            Mcs4System::fresh(sys@, 1, 1),
    {
        Mcs4System::assemble(1, 1)
    }

    /// A standard system: four ROMs and two banks of four RAMs.
    pub fn standard() -> (sys: Mcs4System)
        ensures
            Mcs4System::fresh(sys@, 4, 8),
    {
        Mcs4System::assemble(4, 8)
    }

    /// A maximal system: sixteen ROMs and four banks of four RAMs.
    pub fn maximal() -> (sys: Mcs4System)
        ensures
            Mcs4System::fresh(sys@, 16, 16),
    {
        Mcs4System::assemble(16, 16)
    }

    /// Loads a program from address 0 on: ROM chip `i` takes the bytes
    /// from `256 * i` on. Bytes for chips that the system lacks are
    /// dropped.
    pub fn load_rom(&mut self, data: &[u8])
        requires
            old(self)@.wf(),
        ensures
            final(self)@ == (SystemState { rom: old(self)@.rom_loaded(data@), ..old(self)@ }),
            final(self)@.wf(),
    {
        self.load_rom_at(0, data);
        assert(self@.rom =~= old(self)@.rom_loaded(data@));
    }

    /// Loads `data` from `address` on. Bytes for chips that the system
    /// lacks, and bytes beyond address 4095, are dropped.
    pub fn load_rom_at(&mut self, address: u16, data: &[u8])
        requires
            old(self)@.wf(),
        ensures
            final(self)@ == (SystemState { rom: old(self)@.rom_loaded_at(address, data@), ..old(self)@ }),
            final(self)@.wf(),
    {
        let mut i: usize = 0;
        while i < self.rom.len()
            invariant
                i <= self.rom@.len(),
                old(self)@.wf(),
                self.rom@.len() == old(self).rom@.len(),
                self.cpu == old(self).cpu,
                self.ram == old(self).ram,
                self.bus == old(self).bus,
                self.control == old(self).control,
                self.clock == old(self).clock,
                self.cycle == old(self).cycle,
                self.total_cycles == old(self).total_cycles,
                self.breakpoints == old(self).breakpoints,
                self.now == old(self).now,
                forall|k: int|
                    0 <= k < i ==> (#[trigger] self.rom@[k])@ == old(self).rom@[k]@.loaded_at(
                        address - 256 * k,
                        data@,
                    ),
                forall|k: int| i <= k < self.rom@.len() ==> (#[trigger] self.rom@[k]) == old(self).rom@[k],
            decreases self.rom@.len() - i,
        {
            assert(old(self)@.rom[i as int].wf());
            let base: usize = 256 * i;
            let start: usize = address as usize;
            if start >= base {
                // The data begins within or beyond this chip.
                if start - base < 256 {
                    self.rom[i].load_at(start - base, data);
                } else {
                    proof {
                        assert(self.rom@[i as int]@.loaded_at(address - 256 * i, data@).rom
                            =~= self.rom@[i as int]@.rom);
                    }
                }
            } else {
                // The data begins before this chip: skip what lies before.
                let skip: usize = base - start;
                if skip < data.len() {
                    let rest = slice_subrange(data, skip, data.len());
                    let ghost before = self.rom@[i as int]@;
                    self.rom[i].load_at(0, rest);
                    proof {
                        assert(before.loaded_at(0, rest@).rom =~= before.loaded_at(
                            address - 256 * i,
                            data@,
                        ).rom);
                    }
                } else {
                    proof {
                        assert(self.rom@[i as int]@.loaded_at(address - 256 * i, data@).rom
                            =~= self.rom@[i as int]@.rom);
                    }
                }
            }
            i += 1;
        }
        proof {
            assert(self@.rom =~= old(self)@.rom_loaded_at(address, data@));
            assert(self@.ram =~= old(self)@.ram);
            assert forall|k: int| 0 <= k < self@.rom.len() implies (#[trigger] self@.rom[k]).wf()
                && self@.rom[k].chip_id == k by {
                assert(old(self)@.rom[k].wf());
            }
        }
    }

    /// Performs one bus phase, an eighth of a machine cycle.
    pub fn step(&mut self)
        requires
            old(self)@.wf(),
            old(self)@.total_cycles < u64::MAX,
        ensures
            final(self)@ == old(self)@.stepped(),
            final(self)@.wf(),
            final(self)@.cycle.phase == old(self)@.cycle.phase.successor(),
            final(self)@.total_cycles == old(self)@.total_cycles + (if old(self)@.cycle.phase
                == BusCycle::X3 {
                1int
            } else {
                0int
            }),
            final(self)@.now >= old(self)@.now,
            final(self)@.breakpoints == old(self)@.breakpoints,
            final(self)@.rom.len() == old(self)@.rom.len(),
            final(self)@.ram.len() == old(self)@.ram.len(),
    {
        proof {
            reveal(SystemState::stepped);
            reveal(SystemState::sampled_nibble);
            reveal(SystemState::bus_in_phase);
            reveal(SystemState::control_in_phase);
            lemma_step_keeps_wf(self@);
            lemma_outputs_are_nibbles(self@);
            assert forall|i: int| 0 <= i < self.rom@.len() implies (#[trigger] self.rom@[i])@.wf() by {
                assert(self@.rom[i].wf());
            }
        }
        let phase: BusCycle = self.cycle.phase;
        let now: Time = self.now;
        let outs = collect_outputs(&self.cpu, &self.rom, &self.ram, phase, self.control.io);
        proof {
            assert(outs@ =~= self@.outputs()) by {
                assert forall|id: int| 0 <= id < outs@.len() implies outs@[id] == self@.outputs()[id] by {
                    if id == 0 {
                    } else if id <= self.rom@.len() {
                        assert(outs@[1 + (id - 1)] == self.rom@[id - 1]@.output(phase, self.control.io));
                    } else {
                        let j = id - 1 - self.rom@.len();
                        assert(outs@[1 + self.rom@.len() + j] == self.ram@[j]@.output_at(
                            phase,
                            self.control.io,
                        ));
                    }
                }
            }
        }
        settle_bus(&mut self.bus, &outs, now);
        let nibble: u8 = self.bus.read();
        self.cpu.latch(phase, nibble, &mut self.control, now);
        let cm_rom: u8 = self.control.cm_rom();
        let cm_ram: u8 = self.control.cm_ram();
        let io: IoOperation = self.control.io;
        latch_roms(&mut self.rom, phase, nibble, cm_rom, io);
        let src: Option<(u8, u8, u8)> = match (phase, self.cpu.current_instruction()) {
            (BusCycle::X3, Some(Instruction::Src { .. })) => {
                let chip: u8 = self.cpu.ram_chip();
                Some((chip / 4, chip % 4, self.cpu.ram_address()))
            },
            _ => None,
        };
        latch_rams(&mut self.ram, phase, nibble, cm_ram, io, src);
        self.cycle.advance();
        if self.cycle.phase == BusCycle::A1 {
            self.total_cycles += 1;
        }
        let period: Time = self.clock.config().period;
        self.now = if period > u64::MAX - self.now {
            u64::MAX
        } else {
            self.now + period
        };
        proof {
            assert(self@.rom =~= old(self)@.stepped().rom);
            assert(self@.ram =~= old(self)@.stepped().ram);
        }
    }

    /// Runs for `cycles` machine cycles of eight phases each.
    pub fn run_cycles(&mut self, cycles: usize)
        requires
            old(self)@.wf(),
            old(self)@.total_cycles + cycles < u64::MAX,
            cycles * 8 <= usize::MAX,
        ensures
            final(self)@ == old(self)@.stepped_by((cycles * 8) as nat),
            final(self)@.wf(),
            final(self)@.total_cycles == old(self)@.total_cycles + cycles,
            final(self)@.cycle.phase == old(self)@.cycle.phase,
            final(self)@.breakpoints == old(self)@.breakpoints,
    {
        let steps: usize = cycles * 8;
        let mut done: usize = 0;
        proof {
            lemma_stepped_by_unfold(self@, 0);
        }
        while done < steps
            invariant
                done <= steps,
                steps == cycles * 8,
                old(self)@.wf(),
                old(self)@.total_cycles + cycles < u64::MAX,
                self@ == old(self)@.stepped_by(done as nat),
            decreases steps - done,
        {
            proof {
                lemma_stepped_by_cycles(old(self)@, done as nat);
                lemma_stepped_by_unfold(old(self)@, done as nat);
            }
            self.step();
            done += 1;
        }
        proof {
            lemma_stepped_by_cycles(old(self)@, steps as nat);
        }
    }

    /// Runs until the program counter is on a breakpoint at the start
    /// of a machine cycle, or until `max_cycles` machine cycles have
    /// passed. Returns whether a breakpoint was reached.
    ///
    /// The system stops after the least number of steps, at least one
    /// if any, after which it is at a breakpoint or has used up its
    /// cycles.
    pub fn run_until_breakpoint(&mut self, max_cycles: u64) -> (hit: bool)
        requires
            old(self)@.wf(),
            old(self)@.total_cycles + max_cycles < u64::MAX,
        ensures
            final(self)@.wf(),
            exists|n: nat|
                final(self)@ == old(self)@.stepped_by(n) && Mcs4System::ran_on(
                    old(self)@,
                    n,
                    max_cycles,
                ),
            hit ==> final(self)@.at_breakpoint() && max_cycles > 0,
            !hit ==> final(self)@.total_cycles - old(self)@.total_cycles == max_cycles,
            !hit && max_cycles > 0 ==> !final(self)@.at_breakpoint(),
            old(self)@.total_cycles <= final(self)@.total_cycles <= old(self)@.total_cycles + max_cycles,
            final(self)@.breakpoints == old(self)@.breakpoints,
    {
        let start: u64 = self.total_cycles;
        let ghost mut n: nat = 0;
        proof {
            lemma_stepped_by_unfold(self@, 0);
        }
        while self.total_cycles - start < max_cycles
            invariant
                old(self)@.wf(),
                start == old(self)@.total_cycles,
                start + max_cycles < u64::MAX,
                self@.wf(),
                start <= self@.total_cycles <= start + max_cycles,
                self@ == old(self)@.stepped_by(n),
                Mcs4System::ran_on(old(self)@, n, max_cycles),
                n > 0 ==> !self@.at_breakpoint(),
                self@.breakpoints == old(self)@.breakpoints,
            decreases (start + max_cycles - self@.total_cycles) * 8 + 8 - self@.cycle.phase.number(),
        {
            proof {
                lemma_step_keeps_wf(self@);
                lemma_stepped_by_unfold(old(self)@, n);
            }
            let ghost before = self@;
            self.step();
            proof {
                assert(Mcs4System::ran_on(old(self)@, n + 1, max_cycles)) by {
                    assert forall|k: nat| 0 < k < n + 1 implies !(#[trigger] old(self)@.stepped_by(k)).at_breakpoint() by {
                        if k == n {
                            assert(old(self)@.stepped_by(k) == before);
                        }
                    }
                    assert forall|k: nat| k < n + 1 implies (#[trigger] old(self)@.stepped_by(k)).total_cycles
                        - old(self)@.total_cycles < max_cycles by {
                        if k == n {
                            assert(old(self)@.stepped_by(k) == before);
                        }
                    }
                }
                n = n + 1;
            }
            if self.cycle.phase == BusCycle::A1 {
                let pc: u16 = self.cpu.pc();
                if holds_breakpoint(&self.breakpoints, pc) {
                    return true;
                }
            }
        }
        false
    }

    /// Sets a breakpoint at `addr`; one that is set already stays as it
    /// is.
    pub fn add_breakpoint(&mut self, addr: u16)
        ensures
            final(self)@ == (SystemState {
                breakpoints: if old(self)@.breakpoints.contains(addr) {
                    old(self)@.breakpoints
                } else {
                    old(self)@.breakpoints.push(addr)
                },
                ..old(self)@
            }),
            final(self)@.breakpoints.contains(addr),
            forall|a: u16| a != addr ==> (final(self)@.breakpoints.contains(a) <==> old(self)@.breakpoints.contains(a)),
    {
        let ghost before = self.breakpoints@;
        if !holds_breakpoint(&self.breakpoints, addr) {
            self.breakpoints.push(addr);
            proof {
                let after = self.breakpoints@;
                assert(after[after.len() - 1] == addr);
                assert forall|a: u16| a != addr implies (after.contains(a) <==> before.contains(a)) by {
                    if after.contains(a) {
                        let k = choose|k: int| 0 <= k < after.len() && after[k] == a;
                        assert(before[k] == a);
                    }
                    if before.contains(a) {
                        let k = choose|k: int| 0 <= k < before.len() && before[k] == a;
                        assert(after[k] == a);
                    }
                }
            }
        }
    }

    /// Removes the breakpoint at `addr`, if there is one.
    pub fn remove_breakpoint(&mut self, addr: u16)
        ensures
            final(self)@ == (SystemState {
                breakpoints: old(self)@.breakpoints_without(addr),
                ..old(self)@
            }),
            !final(self)@.breakpoints.contains(addr),
            forall|a: u16| a != addr ==> (final(self)@.breakpoints.contains(a) <==> old(self)@.breakpoints.contains(a)),
    {
        let ghost keep = other_than(addr);
        let ghost before = self.breakpoints@;
        let mut kept: Vec<u16> = Vec::new();
        let mut i: usize = 0;
        assert(before.subrange(0, 0).filter(keep) =~= Seq::<u16>::empty()) by {
            reveal(Seq::filter);
        }
        while i < self.breakpoints.len()
            invariant
                i <= before.len(),
                self.breakpoints@ == before,
                *self == *old(self),
                keep == other_than(addr),
                kept@ == before.subrange(0, i as int).filter(keep),
            decreases before.len() - i,
        {
            let a: u16 = self.breakpoints[i];
            proof {
                let shorter = before.subrange(0, i as int);
                let longer = before.subrange(0, i as int + 1);
                assert(longer.drop_last() =~= shorter);
                assert(longer.last() == a);
                reveal(Seq::filter);
            }
            if a != addr {
                kept.push(a);
            }
            i += 1;
        }
        proof {
            assert(before.subrange(0, i as int) =~= before);
            assert forall|a: u16| a != addr implies (before.filter(keep).contains(a) <==> before.contains(a)) by {
                if before.contains(a) {
                    let k = choose|k: int| 0 <= k < before.len() && before[k] == a;
                    before.lemma_filter_contains(keep, k);
                }
                if before.filter(keep).contains(a) {
                    before.lemma_filter_contains_rev(keep, a);
                }
            }
            if before.filter(keep).contains(addr) {
                before.lemma_filter_contains_rev(keep, addr);
            }
        }
        self.breakpoints = kept;
    }

    /// Removes all breakpoints.
    pub fn clear_breakpoints(&mut self)
        ensures
            final(self)@ == (SystemState { breakpoints: Seq::empty(), ..old(self)@ }),
    {
        self.breakpoints.clear();
    }

    /// Brings the system to its initial state: CPU, stack, bus, control
    /// lines and RAM are cleared and the cycle counters are zero. The
    /// ROM chips stay as they are, and so do the breakpoints.
    pub fn reset(&mut self)
        requires
            old(self)@.wf(),
        ensures
            final(self)@.wf(),
            final(self)@.cpu == CpuState::initial(),
            final(self)@.rom == old(self)@.rom,
            final(self)@.ram == Seq::new(old(self)@.ram.len(), |j: int| old(self)@.ram[j].after_reset()),
            untouched_bus(
                final(self)@.bus,
                old(self)@.rom.len() as int,
                old(self)@.ram.len() as int,
            ),
            final(self)@.control == ControlState::initial_mcs4(),
            final(self)@.cycle == CycleState::initial(),
            final(self)@.total_cycles == 0,
            final(self)@.now == 0,
            final(self)@.breakpoints == old(self)@.breakpoints,
            final(self)@.clock == old(self)@.clock,
    {
        let bus = assemble_bus(self.rom.len(), self.ram.len());
        self.cpu = I4004::new();
        self.bus = bus;
        self.control = ControlSignals::mcs4();
        self.cycle = CycleState::new();
        self.total_cycles = 0;
        self.now = 0;
        reset_rams(&mut self.ram);
        proof {
            assert(self@.rom =~= old(self)@.rom);
            assert(self@.ram =~= Seq::new(
                old(self)@.ram.len(),
                |j: int| old(self)@.ram[j].after_reset(),
            ));
            assert forall|k: int| 0 <= k < self@.rom.len() implies (#[trigger] self@.rom[k]).wf()
                && self@.rom[k].chip_id == k by {
                assert(old(self)@.rom[k].wf());
            }
            assert forall|k: int| 0 <= k < self@.ram.len() implies (#[trigger] self@.ram[k]).wf()
                && self@.ram[k].chip_id == k % 4 && self@.ram[k].bank_id == k / 4 by {
                assert(old(self)@.ram[k].wf());
                lemma_operations_keep_wf(old(self)@.ram[k], 0, 0, 0, BusCycle::A1, IoOperation::Idle);
            }
        }
    }

    /// Appends the current state of the bus to `trace`: the time, the
    /// clock phases, SYNC, the nibble on the data bus, CM-ROM, CM-RAM
    /// and the phase that the next step performs.
    pub fn capture(&self, trace: &mut SignalTrace)
        ensures
            final(trace).timestamps@ == old(trace).timestamps@.push(self@.now),
            final(trace).phi1@ == old(trace).phi1@.push(self@.clock.phi1_high()),
            final(trace).phi2@ == old(trace).phi2@.push(self@.clock.phi2_high()),
            final(trace).sync@ == old(trace).sync@.push(self@.control.sync.current == SignalLevel::High),
            final(trace).data_bus@ == old(trace).data_bus@.push(self@.bus.nibble() as u8),
            final(trace).cm_rom@ == old(trace).cm_rom@.push(self@.control.rom_select() as u8),
            final(trace).cm_ram@ == old(trace).cm_ram@.push((self@.control.ram_select() % 4) as u8),
            final(trace).phase@ == old(trace).phase@.push(self@.cycle.phase),
            old(trace).aligned() ==> final(trace).aligned(),
    {
        trace.capture(
            self.now,
            self.clock.phi1_high(),
            self.clock.phi2_high(),
            self.control.sync.level() == SignalLevel::High,
            self.bus.read(),
            self.control.cm_rom(),
            self.control.cm_ram(),
            self.cycle.phase,
        );
    }

    /// Sets the CPU's TEST input.
    pub fn set_test_pin(&mut self, state: bool)
        ensures
            final(self)@ == (SystemState {
                cpu: CpuState { test_pin: state, ..old(self)@.cpu },
                ..old(self)@
            }),
            old(self)@.wf() ==> final(self)@.wf(),
    {
        self.cpu.set_test_pin(state);
    }

    /// The program counter, always below 4096.
    pub fn pc(&self) -> (pc: u16)
        ensures
            pc == self@.cpu.regs.pc,
            pc < 4096,
    {
        self.cpu.pc()
    }

    /// The accumulator, always below 16.
    pub fn accumulator(&self) -> (acc: u8)
        ensures
            acc == self@.cpu.alu.acc,
            acc < 16,
    {
        self.cpu.accumulator()
    }

    /// The carry flag.
    pub fn carry(&self) -> (carry: bool)
        ensures
            carry == self@.cpu.alu.carry,
    {
        self.cpu.carry()
    }

    /// Machine cycles completed.
    pub fn cycles(&self) -> (cycles: u64)
        ensures
            cycles == self@.total_cycles,
    {
        self.total_cycles
    }

    /// The phase that the next step performs.
    pub fn phase(&self) -> (phase: BusCycle)
        ensures
            phase == self@.cycle.phase,
    {
        self.cycle.phase
    }

    /// The time of the next step.
    pub fn time(&self) -> (now: Time)
        ensures
            now == self@.now,
    {
        self.now
    }

    /// Register pair `pair` modulo 8.
    pub fn register_pair(&self, pair: u8) -> (value: u8)
        ensures
            value == self@.cpu.regs.pair(pair),
    {
        self.cpu.register_pair(pair)
    }

    /// Index register `r` modulo 16, always below 16.
    pub fn register(&self, r: u8) -> (value: u8)
        ensures
            value == self@.cpu.regs.r(r),
            value < 16,
    {
        self.cpu.register(r)
    }

    /// The ROM byte at `addr` modulo 4096, or `None` where the system
    /// lacks the chip for it.
    pub fn read_rom(&self, addr: u16) -> (byte: Option<u8>)
        requires
            self@.wf(),
        ensures
            byte == self@.rom_byte(addr),
    {
        let chip: usize = ((addr / 256) % 16) as usize;
        if chip < self.rom.len() {
            Some(self.rom[chip].read_direct((addr % 256) as u8))
        } else {
            None
        }
    }

    /// The RAM character at register `reg`, position `char_addr` of chip
    /// `chip` in bank `bank`, or `None` where the system lacks that
    /// chip.
    pub fn read_ram(&self, bank: u8, chip: u8, reg: u8, char_addr: u8) -> (value: Option<u8>)
        requires
            self@.wf(),
        ensures
            value == self@.ram_character(bank, chip, reg, char_addr),
            value is Some ==> value->0 < 16,
    {
        if bank < 4 && chip < 4 {
            let index: usize = (bank * 4 + chip) as usize;
            if index < self.ram.len() {
                return Some(self.ram[index].read_direct(reg, char_addr));
            }
        }
        None
    }
}

/// Resets every RAM chip.
fn reset_rams(rams: &mut Vec<I4002>)
    ensures
        final(rams)@.len() == old(rams)@.len(),
        forall|j: int| 0 <= j < old(rams)@.len() ==> (#[trigger] final(rams)@[j])@ == old(rams)@[j]@.after_reset(),
{
    let mut j: usize = 0;
    while j < rams.len()
        invariant
            j <= rams@.len(),
            rams@.len() == old(rams)@.len(),
            forall|k: int| 0 <= k < j ==> (#[trigger] rams@[k])@ == old(rams)@[k]@.after_reset(),
            forall|k: int| j <= k < rams@.len() ==> (#[trigger] rams@[k]) == old(rams)@[k],
        decreases rams@.len() - j,
    {
        crate::chips::Chip::reset(&mut rams[j]);
        j += 1;
    }
}

impl Default for Mcs4System {
    fn default() -> (sys: Mcs4System)
        ensures
            Mcs4System::fresh(sys@, 1, 1),
    {
        Mcs4System::minimal()
    }
}

/// No phase later is now, and one phase more is one step more.
pub proof fn lemma_stepped_by_unfold(s: SystemState, n: nat)
    ensures
        s.stepped_by(0) == s,
        s.stepped_by(n + 1) == s.stepped_by(n).stepped(),
        s.stepped_by(n + 1) == s.stepped().stepped_by(n),
    decreases n,
{
    reveal(SystemState::stepped_by);
    if n > 0 {
        lemma_stepped_by_unfold(s.stepped(), (n - 1) as nat);
        assert(s.stepped_by(n) == s.stepped().stepped_by((n - 1) as nat));
        assert(s.stepped_by(n + 1) == s.stepped().stepped_by(n));
        assert(s.stepped().stepped_by(n) == s.stepped().stepped_by((n - 1) as nat).stepped());
    } else {
        assert(s.stepped_by(1) == s.stepped().stepped_by(0));
    }
}

/// What a step does to each part of the system.
pub proof fn lemma_stepped_parts(s: SystemState)
    ensures
        s.stepped().cpu == s.cpu_after(),
        s.stepped().control == s.control_in_phase(),
        s.stepped().bus == s.bus_in_phase(),
        s.stepped().rom.len() == s.rom.len(),
        s.stepped().ram.len() == s.ram.len(),
        forall|i: int| 0 <= i < s.rom.len() ==> #[trigger] s.stepped().rom[i] == s.rom_after(i),
        forall|j: int| 0 <= j < s.ram.len() ==> #[trigger] s.stepped().ram[j] == s.ram_after(j),
        s.stepped().cycle == s.cycle.advanced(),
{
    reveal(SystemState::stepped);
}

/// After `n` phases a well-formed system is well formed, in the phase
/// `n` places on, and has completed the machine cycles that ended on
/// the way.
pub proof fn lemma_stepped_by_cycles(s: SystemState, n: nat)
    requires
        s.wf(),
        s.total_cycles + (s.cycle.phase.number() + n) / 8 < u64::MAX,
    ensures
        s.stepped_by(n).wf(),
        s.stepped_by(n).total_cycles == s.total_cycles + (s.cycle.phase.number() + n) / 8,
        s.stepped_by(n).cycle.phase.number() == (s.cycle.phase.number() + n) % 8,
        s.stepped_by(n).breakpoints == s.breakpoints,
        s.stepped_by(n).rom.len() == s.rom.len(),
        s.stepped_by(n).ram.len() == s.ram.len(),
    decreases n,
{
    lemma_stepped_by_unfold(s, 0);
    if n > 0 {
        lemma_step_keeps_wf(s);
        lemma_stepped_by_unfold(s, (n - 1) as nat);
        let t = s.stepped();
        let p = s.cycle.phase.number();
        assert(t.cycle.phase.number() == (p + 1) % 8);
        lemma_phase_arithmetic(p, n as int);
        lemma_stepped_by_cycles(t, (n - 1) as nat);
    }
}

/// The arithmetic of counting cycles phase by phase.
proof fn lemma_phase_arithmetic(p: int, n: int)
    requires
        0 <= p < 8,
        n >= 1,
    ensures
        (p + 1) / 8 + ((p + 1) % 8 + (n - 1)) / 8 == (p + n) / 8,
        ((p + 1) % 8 + (n - 1)) % 8 == (p + n) % 8,
{
}

} // verus!
