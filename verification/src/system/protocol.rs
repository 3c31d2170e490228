//! Facts about the bus protocol of the MCS-4 system: who is on the bus
//! in a phase, and what an instruction fetch delivers.

use vstd::prelude::*;
use crate::bus::cycle::BusCycle;
use crate::bus::data_bus::{lemma_sole_driver, BusState};
use crate::chips::i4001::RomState;
use crate::system::mcs4::{
    driven_active,
    lemma_driven_active,
    lemma_outputs_are_nibbles,
    lemma_released_idle,
    lemma_step_keeps_wf,
    lemma_stepped_by_unfold,
    lemma_stepped_parts,
    released_idle,
    SystemState,
};

verus! {

/// Where exactly one device sends in a phase, the bus carries what it
/// sends, and no other device is on the bus.
pub proof fn lemma_single_sender(s: SystemState, id: int)
    requires
        s.wf(),
        0 <= id < s.devices(),
        s.outputs()[id] is Some,
        forall|other: int| 0 <= other < s.devices() && other != id ==> (#[trigger] s.outputs()[other]) is None,
    ensures
        s.bus_in_phase().driven_only_by(id),
        s.bus_in_phase().valid(),
        s.sampled_nibble() == s.outputs()[id]->0,
{
    reveal(SystemState::sampled_nibble);
    reveal(SystemState::bus_in_phase);
    lemma_outputs_are_nibbles(s);
    let outs = s.outputs();
    let n = s.devices();
    lemma_released_idle(s.bus, outs, s.now, n);
    let loose = released_idle(s.bus, outs, s.now, n);
    lemma_driven_active(loose, outs, s.now, n);
    let bus = driven_active(loose, outs, s.now, n);
    assert forall|i: int| 0 <= i < bus.drivers.len() implies ((#[trigger] bus.drivers[i]).active <==> i
        == id) by {
        if i != id {
            assert(outs[i] is None);
            assert(!loose.drivers[i].active);
        }
    }
    lemma_sole_driver(bus, id);
}

/// Where no device sends in a phase, the bus floats.
pub proof fn lemma_no_sender(s: SystemState)
    requires
        s.wf(),
        forall|id: int| 0 <= id < s.devices() ==> (#[trigger] s.outputs()[id]) is None,
    ensures
        s.bus_in_phase().idle(),
        s.bus_in_phase().all_lines(crate::sim::signal::SignalLevel::Z),
{
    reveal(SystemState::bus_in_phase);
    lemma_outputs_are_nibbles(s);
    let outs = s.outputs();
    let n = s.devices();
    lemma_released_idle(s.bus, outs, s.now, n);
    let loose = released_idle(s.bus, outs, s.now, n);
    lemma_driven_active(loose, outs, s.now, n);
    let bus = driven_active(loose, outs, s.now, n);
    assert forall|i: int| 0 <= i < bus.drivers.len() implies !(#[trigger] bus.drivers[i]).active by {
        assert(outs[i] is None);
        assert(!loose.drivers[i].active);
    }
}

/// In an address phase the CPU alone is on the bus, and the bus
/// carries the nibble of the address that belongs to the phase.
pub proof fn lemma_address_phase(s: SystemState)
    requires
        s.wf(),
        s.cycle.phase == BusCycle::A1 || s.cycle.phase == BusCycle::A2 || s.cycle.phase
            == BusCycle::A3,
    ensures
        s.bus_in_phase().driven_only_by(0),
        s.sampled_nibble() == s.cpu.output(s.cycle.phase)->0,
{
    assert(s.outputs()[0] == s.cpu.output(s.cycle.phase));
    assert forall|other: int| 0 <= other < s.devices() && other != 0 implies (#[trigger] s.outputs()[other]) is None by {
    }
    lemma_single_sender(s, 0);
}

/// In a memory phase the one ROM chip that was selected at A3 is alone
/// on the bus, where ROM chip `chip` is selected and no other is.
pub proof fn lemma_memory_phase(s: SystemState, chip: int)
    requires
        s.wf(),
        s.cycle.phase == BusCycle::M1 || s.cycle.phase == BusCycle::M2,
        0 <= chip < s.rom.len(),
        forall|i: int| 0 <= i < s.rom.len() ==> ((#[trigger] s.rom[i]).selected <==> i == chip),
    ensures
        s.bus_in_phase().driven_only_by(chip + 1),
        s.sampled_nibble() == s.rom[chip].output(s.cycle.phase, s.control.io)->0,
{
    assert(s.outputs()[chip + 1] == s.rom[chip + 1 - 1].output(s.cycle.phase, s.control.io));
    assert(s.rom[chip].selected);
    assert forall|other: int| 0 <= other < s.devices() && other != chip + 1 implies (#[trigger] s.outputs()[other]) is None by {
        if 1 <= other <= s.rom.len() {
            assert(!s.rom[other - 1].selected);
        }
    }
    lemma_single_sender(s, chip + 1);
}

/// What a phase of a fetch leaves as it was: the CPU's registers and
/// decoder, the kind of the machine cycle, and the ROMs' contents.
pub open spec fn carried(s: SystemState, t: SystemState) -> bool {
    &&& t.wf()
    &&& t.total_cycles == s.total_cycles
    &&& t.cpu.regs == s.cpu.regs
    &&& t.cpu.alu == s.cpu.alu
    &&& t.cpu.decoder == s.cpu.decoder
    &&& t.cpu.io_data == s.cpu.io_data
    &&& t.cpu.operand == s.cpu.operand
    &&& t.cpu.ram_chip == s.cpu.ram_chip
    &&& t.cpu.ram_address == s.cpu.ram_address
    &&& t.cpu.test_pin == s.cpu.test_pin
    &&& t.cpu.cycle.second_cycle == s.cpu.cycle.second_cycle
    &&& t.cpu.cycle.two_cycle == s.cpu.cycle.two_cycle
    &&& t.cpu.cycle.state == s.cpu.cycle.state
    &&& t.cpu.fetch_address() == s.cpu.fetch_address()
    &&& t.rom.len() == s.rom.len()
    &&& forall|i: int| 0 <= i < s.rom.len() ==> (#[trigger] t.rom[i]).rom == s.rom[i].rom
}

/// Whether every ROM chip has latched the low byte of `addr`, and the
/// chip that holds `addr`, and no other, is selected.
pub open spec fn addressed(s: SystemState, addr: u16) -> bool {
    forall|i: int|
        0 <= i < s.rom.len() ==> (#[trigger] s.rom[i]).address == addr % 256 && (s.rom[i].selected
            <==> i == SystemState::rom_chip_of(addr))
}

/// The address and memory phases carry the state of the fetch over.
pub proof fn lemma_fetch_phase_carries(s: SystemState)
    requires
        s.wf(),
        s.total_cycles < u64::MAX,
        s.cycle.phase.number() <= 4,
    ensures
        carried(s, s.stepped()),
        s.stepped().cycle.phase == s.cycle.phase.successor(),
{
    lemma_step_keeps_wf(s);
    lemma_stepped_parts(s);
    let t = s.stepped();
    assert forall|i: int| 0 <= i < s.rom.len() implies (#[trigger] t.rom[i]).rom == s.rom[i].rom by {
        assert(t.rom[i] == s.rom_after(i));
    }
}

/// What a ROM chip latches in the address phases.
proof fn lemma_rom_latches(rom: RomState, bus: u8, cm_rom: u8, io: crate::bus::control::IoOperation)
    requires
        bus < 16,
    ensures
        rom.latched(BusCycle::A1, bus, cm_rom, io).address % 16 == bus,
        rom.latched(BusCycle::A2, bus, cm_rom, io).address == bus * 16 + rom.address % 16,
        rom.latched(BusCycle::A3, bus, cm_rom, io).address == rom.address,
        rom.latched(BusCycle::A3, bus, cm_rom, io).selected == (cm_rom == rom.chip_id),
        rom.latched(BusCycle::M1, bus, cm_rom, io).address == rom.address,
        rom.latched(BusCycle::M1, bus, cm_rom, io).selected == rom.selected,
        rom.latched(BusCycle::M2, bus, cm_rom, io).address == rom.address,
        rom.latched(BusCycle::M2, bus, cm_rom, io).selected == rom.selected,
{
}

/// The nibbles of an address.
proof fn lemma_address_arithmetic(addr: u16)
    requires
        addr < 4096,
    ensures
        ((addr / 16) % 16) * 16 + addr % 16 == addr % 256,
        (addr / 256) % 16 == addr / 256,
        addr % 16 < 16,
        (addr / 16) % 16 < 16,
{
}

/// At A3 the control lines carry the page of the address on CM-ROM.
proof fn lemma_control_names_page(s: SystemState)
    requires
        s.wf(),
        s.cycle.phase == BusCycle::A3,
    ensures
        s.control_in_phase().rom_select() == (s.cpu.fetch_address() / 256) % 16,
{
    reveal(SystemState::control_in_phase);
    crate::bus::control::lemma_select_reads_back(
        s.control,
        ((s.cpu.fetch_address() / 256) % 16) as u8,
        s.now,
    );
}

/// At M1 and M2 the CPU takes the nibble on the bus into the byte that
/// it is receiving.
proof fn lemma_cpu_takes_nibble(s: SystemState)
    requires
        s.cycle.phase == BusCycle::M1 || s.cycle.phase == BusCycle::M2,
        s.sampled_nibble() < 16,
    ensures
        s.cycle.phase == BusCycle::M1 ==> s.cpu_after().instruction_byte % 16 == s.sampled_nibble(),
        s.cycle.phase == BusCycle::M2 ==> s.cpu_after().instruction_byte / 16 == s.sampled_nibble()
            && s.cpu_after().instruction_byte % 16 == s.cpu.instruction_byte % 16,
{
    crate::chips::i4004::lemma_memory_phases(s.cpu, s.sampled_nibble());
}

/// A1: every ROM chip latches the low nibble of the address.
pub proof fn lemma_phase_a1(s: SystemState)
    requires
        s.wf(),
        s.total_cycles < u64::MAX,
        s.cycle.phase == BusCycle::A1,
    ensures
        forall|i: int|
            0 <= i < s.rom.len() ==> (#[trigger] s.stepped().rom[i]).address % 16 == s.cpu.fetch_address()
                % 16,
{
    lemma_address_phase(s);
    lemma_stepped_parts(s);
    let t = s.stepped();
    let nib = s.sampled_nibble();
    assert(nib == s.cpu.fetch_address() % 16);
    assert forall|i: int| 0 <= i < s.rom.len() implies (#[trigger] t.rom[i]).address % 16
        == s.cpu.fetch_address() % 16 by {
        assert(t.rom[i] == s.rom_after(i));
        lemma_rom_latches(
            s.rom[i],
            nib,
            s.control_in_phase().rom_select() as u8,
            s.control_in_phase().io,
        );
    }
}

/// A2: every ROM chip latches the middle nibble, and so holds the low
/// byte of the address.
pub proof fn lemma_phase_a2(s: SystemState)
    requires
        s.wf(),
        s.total_cycles < u64::MAX,
        s.cycle.phase == BusCycle::A2,
        s.cpu.fetch_address() < 4096,
        forall|i: int| 0 <= i < s.rom.len() ==> (#[trigger] s.rom[i]).address % 16 == s.cpu.fetch_address() % 16,
    ensures
        forall|i: int| 0 <= i < s.rom.len() ==> (#[trigger] s.stepped().rom[i]).address == s.cpu.fetch_address() % 256,
{
    lemma_address_phase(s);
    lemma_stepped_parts(s);
    lemma_address_arithmetic(s.cpu.fetch_address());
    let t = s.stepped();
    let nib = s.sampled_nibble();
    assert(nib == (s.cpu.fetch_address() / 16) % 16);
    assert forall|i: int| 0 <= i < s.rom.len() implies (#[trigger] t.rom[i]).address
        == s.cpu.fetch_address() % 256 by {
        assert(t.rom[i] == s.rom_after(i));
        assert(s.rom[i].address % 16 == s.cpu.fetch_address() % 16);
        lemma_rom_latches(
            s.rom[i],
            nib,
            s.control_in_phase().rom_select() as u8,
            s.control_in_phase().io,
        );
    }
}

/// A3: CM-ROM carries the page of the address, and the chip with that
/// number, and no other, is selected.
pub proof fn lemma_phase_a3(s: SystemState)
    requires
        s.wf(),
        s.total_cycles < u64::MAX,
        s.cycle.phase == BusCycle::A3,
        s.cpu.fetch_address() < 4096,
        forall|i: int| 0 <= i < s.rom.len() ==> (#[trigger] s.rom[i]).address == s.cpu.fetch_address() % 256,
    ensures
        addressed(s.stepped(), s.cpu.fetch_address()),
{
    let addr = s.cpu.fetch_address();
    lemma_address_phase(s);
    lemma_control_names_page(s);
    lemma_stepped_parts(s);
    lemma_address_arithmetic(addr);
    let t = s.stepped();
    let nib = s.sampled_nibble();
    let cm = s.control_in_phase().rom_select() as u8;
    assert(cm == addr / 256);
    assert forall|i: int| 0 <= i < t.rom.len() implies (#[trigger] t.rom[i]).address == addr % 256 && (
    t.rom[i].selected <==> i == SystemState::rom_chip_of(addr)) by {
        assert(t.rom[i] == s.rom_after(i));
        assert(s.rom[i].address == addr % 256);
        assert(s.rom[i].wf() && s.rom[i].chip_id == i);
        lemma_rom_latches(s.rom[i], nib, cm, s.control_in_phase().io);
    }
}

/// M1 and M2: the selected chip sends a nibble of the addressed byte,
/// and the CPU takes it; selection and address stay.
pub proof fn lemma_phase_m(s: SystemState, addr: u16)
    requires
        s.wf(),
        s.total_cycles < u64::MAX,
        s.cycle.phase == BusCycle::M1 || s.cycle.phase == BusCycle::M2,
        SystemState::rom_chip_of(addr) < s.rom.len(),
        addressed(s, addr),
    ensures
        addressed(s.stepped(), addr),
        s.cycle.phase == BusCycle::M1 ==> s.stepped().cpu.instruction_byte % 16 == s.rom[SystemState::rom_chip_of(
            addr,
        )].rom[(addr % 256) as int] % 16,
        s.cycle.phase == BusCycle::M2 ==> s.stepped().cpu.instruction_byte / 16 == s.rom[SystemState::rom_chip_of(
            addr,
        )].rom[(addr % 256) as int] / 16 && s.stepped().cpu.instruction_byte % 16
            == s.cpu.instruction_byte % 16,
{
    let chip = SystemState::rom_chip_of(addr);
    assert(s.rom[chip].address == addr % 256);
    assert(s.rom[chip].selected);
    assert forall|i: int| 0 <= i < s.rom.len() implies ((#[trigger] s.rom[i]).selected <==> i == chip) by {
    }
    lemma_memory_phase(s, chip);
    lemma_stepped_parts(s);
    let t = s.stepped();
    let nib = s.sampled_nibble();
    assert(nib == s.rom[chip].output(s.cycle.phase, s.control.io)->0);
    assert(nib < 16);
    lemma_cpu_takes_nibble(s);
    assert forall|i: int| 0 <= i < t.rom.len() implies (#[trigger] t.rom[i]).address == addr % 256 && (
    t.rom[i].selected <==> i == chip) by {
        assert(t.rom[i] == s.rom_after(i));
        assert(s.rom[i].address == addr % 256);
        assert(s.rom[i].selected <==> i == chip);
        lemma_rom_latches(
            s.rom[i],
            nib,
            s.control_in_phase().rom_select() as u8,
            s.control_in_phase().io,
        );
    }
}

/// An instruction fetch delivers the byte that the ROM holds at the
/// address fetched: from phase A1, five phases later the CPU has
/// received the byte at the address that it sent, provided that the system
/// has the ROM chip for that address. So a byte written through the
/// back door is the byte that the next fetch from its address observes.
pub proof fn lemma_fetch_delivers_rom_byte(s: SystemState)
    requires
        s.wf(),
        s.cycle.phase == BusCycle::A1,
        s.total_cycles < u64::MAX,
        SystemState::rom_chip_of(s.cpu.fetch_address()) < s.rom.len(),
    ensures
        s.stepped_by(5).cycle.phase == BusCycle::X1,
        Some(s.stepped_by(5).cpu.instruction_byte) == s.rom_byte(s.cpu.fetch_address()),
        s.stepped_by(5).cpu.regs == s.cpu.regs,
        s.stepped_by(5).wf(),
{
    let addr = s.cpu.fetch_address();
    let chip = SystemState::rom_chip_of(addr);
    let s1 = s.stepped();
    lemma_fetch_phase_carries(s);
    lemma_phase_a1(s);
    let s2 = s1.stepped();
    lemma_fetch_phase_carries(s1);
    lemma_phase_a2(s1);
    let s3 = s2.stepped();
    lemma_fetch_phase_carries(s2);
    lemma_phase_a3(s2);
    let s4 = s3.stepped();
    lemma_fetch_phase_carries(s3);
    lemma_phase_m(s3, addr);
    let s5 = s4.stepped();
    lemma_fetch_phase_carries(s4);
    lemma_phase_m(s4, addr);
    assert(s4.rom[chip].rom == s3.rom[chip].rom);
    assert(s3.rom[chip].rom == s2.rom[chip].rom);
    assert(s2.rom[chip].rom == s1.rom[chip].rom);
    assert(s1.rom[chip].rom == s.rom[chip].rom);
    lemma_stepped_by_unfold(s, 0);
    lemma_stepped_by_unfold(s, 1);
    lemma_stepped_by_unfold(s, 2);
    lemma_stepped_by_unfold(s, 3);
    lemma_stepped_by_unfold(s, 4);
    assert(s.stepped_by(5) == s5);
}


/// The execution phases of a one-cycle instruction: from X1, with the
/// fetched byte in the CPU, three phases later the program counter has
/// moved past the instruction and the instruction has taken effect. An
/// instruction that reads from RAM or from a port has taken the nibble
/// that the bus carried at X3.
pub proof fn lemma_execution_phases(s: SystemState)
    requires
        s.wf(),
        s.cycle.phase == BusCycle::X1,
        s.total_cycles < u64::MAX,
        !s.cpu.cycle.second_cycle,
        !crate::chips::i4004::instruction_decode::announces_second_byte(
            s.cpu.instruction_byte / 16,
            s.cpu.instruction_byte % 16,
        ),
    ensures
        ({
            let instr = crate::chips::i4004::instruction_decode::single_byte_instruction(
                s.cpu.instruction_byte / 16,
                s.cpu.instruction_byte % 16,
            );
            let end = s.stepped().stepped().stepped();
            let bus = s.stepped().stepped().sampled_nibble();
            let stepped = crate::chips::i4004::CpuState {
                regs: s.cpu.regs.increment_pc(),
                ..s.cpu
            };
            &&& end.wf()
            &&& end.cycle.phase == BusCycle::A1
            &&& end.total_cycles == s.total_cycles + 1
            &&& end.cpu.regs == stepped.executed(instr, bus).regs
            &&& end.cpu.alu == stepped.executed(instr, bus).alu
            &&& end.cpu.ram_chip == stepped.executed(instr, bus).ram_chip
            &&& end.cpu.ram_address == stepped.executed(instr, bus).ram_address
        }),
{
    let byte = s.cpu.instruction_byte;
    let instr = crate::chips::i4004::instruction_decode::single_byte_instruction(
        byte / 16,
        byte % 16,
    );
    let s1 = s.stepped();
    lemma_step_keeps_wf(s);
    lemma_stepped_parts(s);
    crate::chips::i4004::lemma_decode_phase(s.cpu, s.sampled_nibble());
    assert(s1.cpu == s.cpu.latched(BusCycle::X1, s.sampled_nibble()));
    let s2 = s1.stepped();
    lemma_step_keeps_wf(s1);
    lemma_stepped_parts(s1);
    crate::chips::i4004::lemma_idle_phase(s1.cpu, s1.sampled_nibble());
    assert(s2.cpu == s1.cpu.latched(BusCycle::X2, s1.sampled_nibble()));
    let s3 = s2.stepped();
    lemma_step_keeps_wf(s2);
    lemma_stepped_parts(s2);
    let bus = s2.sampled_nibble();
    assert(s2.cpu.decoder.instruction == Some(instr));
    crate::chips::i4004::lemma_completion_phase(s2.cpu, bus);
    assert(s3.cpu == s2.cpu.latched(BusCycle::X3, bus));
    let stepped = crate::chips::i4004::CpuState { regs: s.cpu.regs.increment_pc(), ..s.cpu };
    let stepped2 = crate::chips::i4004::CpuState { regs: s2.cpu.regs.increment_pc(), ..s2.cpu };
    crate::chips::i4004::lemma_executed_frame(stepped2, stepped, instr, bus);
}

/// A one-cycle instruction from fetch to effect: from phase A1 of a
/// first fetch, with the ROM chip for the program counter in the
/// system, eight phases later the instruction at the program counter
/// has taken effect on a CPU whose program counter points behind it.
pub proof fn lemma_one_cycle_instruction(s: SystemState)
    requires
        s.wf(),
        s.cycle.phase == BusCycle::A1,
        s.total_cycles < u64::MAX,
        !s.cpu.cycle.second_cycle,
        s.rom_byte(s.cpu.regs.pc) is Some,
        !crate::chips::i4004::instruction_decode::announces_second_byte(
            s.rom_byte(s.cpu.regs.pc)->0 / 16,
            s.rom_byte(s.cpu.regs.pc)->0 % 16,
        ),
    ensures
        ({
            let byte = s.rom_byte(s.cpu.regs.pc)->0;
            let instr = crate::chips::i4004::instruction_decode::single_byte_instruction(
                byte / 16,
                byte % 16,
            );
            let end = s.stepped_by(8);
            let bus = s.stepped_by(7).sampled_nibble();
            let stepped = crate::chips::i4004::CpuState {
                regs: s.cpu.regs.increment_pc(),
                ..s.cpu
            };
            &&& end.wf()
            &&& end.cycle.phase == BusCycle::A1
            &&& end.total_cycles == s.total_cycles + 1
            &&& end.cpu.regs == stepped.executed(instr, bus).regs
            &&& end.cpu.alu == stepped.executed(instr, bus).alu
            &&& end.cpu.ram_chip == stepped.executed(instr, bus).ram_chip
            &&& end.cpu.ram_address == stepped.executed(instr, bus).ram_address
        }),
{
    assert(s.cpu.fetch_address() == s.cpu.regs.pc);
    lemma_fetch_keeps_cpu(s);
    let s5 = s.stepped_by(5);
    lemma_execution_phases(s5);
    lemma_stepped_by_unfold(s, 5);
    lemma_stepped_by_unfold(s, 6);
    lemma_stepped_by_unfold(s, 7);
    assert(s.stepped_by(6) == s5.stepped());
    assert(s.stepped_by(7) == s5.stepped().stepped());
    assert(s.stepped_by(8) == s5.stepped().stepped().stepped());
    let byte = s.rom_byte(s.cpu.regs.pc)->0;
    let instr = crate::chips::i4004::instruction_decode::single_byte_instruction(
        byte / 16,
        byte % 16,
    );
    let bus = s.stepped_by(7).sampled_nibble();
    let from_start = crate::chips::i4004::CpuState { regs: s.cpu.regs.increment_pc(), ..s.cpu };
    let from_fetch = crate::chips::i4004::CpuState { regs: s5.cpu.regs.increment_pc(), ..s5.cpu };
    crate::chips::i4004::lemma_executed_frame(from_fetch, from_start, instr, bus);
}

/// A fetch changes nothing in the CPU but the byte received and the
/// place in the machine cycle.
pub proof fn lemma_fetch_keeps_cpu(s: SystemState)
    requires
        s.wf(),
        s.cycle.phase == BusCycle::A1,
        s.total_cycles < u64::MAX,
        SystemState::rom_chip_of(s.cpu.fetch_address()) < s.rom.len(),
    ensures
        s.stepped_by(5).wf(),
        s.stepped_by(5).cycle.phase == BusCycle::X1,
        s.stepped_by(5).total_cycles == s.total_cycles,
        Some(s.stepped_by(5).cpu.instruction_byte) == s.rom_byte(s.cpu.fetch_address()),
        s.stepped_by(5).cpu.regs == s.cpu.regs,
        s.stepped_by(5).cpu.alu == s.cpu.alu,
        s.stepped_by(5).cpu.ram_chip == s.cpu.ram_chip,
        s.stepped_by(5).cpu.ram_address == s.cpu.ram_address,
        s.stepped_by(5).cpu.test_pin == s.cpu.test_pin,
        s.stepped_by(5).cpu.io_data == s.cpu.io_data,
        s.stepped_by(5).cpu.operand == s.cpu.operand,
        s.stepped_by(5).cpu.decoder == s.cpu.decoder,
        s.stepped_by(5).cpu.cycle.second_cycle == s.cpu.cycle.second_cycle,
        s.stepped_by(5).cpu.cycle.two_cycle == s.cpu.cycle.two_cycle,
        s.stepped_by(5).cpu.cycle.state == s.cpu.cycle.state,
{
    lemma_fetch_delivers_rom_byte(s);
    let s1 = s.stepped();
    lemma_fetch_phase_carries(s);
    let s2 = s1.stepped();
    lemma_fetch_phase_carries(s1);
    let s3 = s2.stepped();
    lemma_fetch_phase_carries(s2);
    let s4 = s3.stepped();
    lemma_fetch_phase_carries(s3);
    let s5 = s4.stepped();
    lemma_fetch_phase_carries(s4);
    lemma_stepped_by_unfold(s, 0);
    lemma_stepped_by_unfold(s, 1);
    lemma_stepped_by_unfold(s, 2);
    lemma_stepped_by_unfold(s, 3);
    lemma_stepped_by_unfold(s, 4);
    assert(s.stepped_by(5) == s5);
}

/// The execution phases of the first cycle of a two-byte instruction:
/// from X1, three phases later the program counter points at the
/// second byte, the decoder waits for it, and the second cycle has
/// begun. Nothing else has changed in the CPU.
pub proof fn lemma_announcing_phases(s: SystemState)
    requires
        s.wf(),
        s.cycle.phase == BusCycle::X1,
        s.total_cycles < u64::MAX,
        !s.cpu.cycle.second_cycle,
        s.cpu.cycle.state == crate::bus::cycle::MachineState::Fetch1,
        crate::chips::i4004::instruction_decode::announces_second_byte(
            s.cpu.instruction_byte / 16,
            s.cpu.instruction_byte % 16,
        ),
    ensures
        ({
            let end = s.stepped().stepped().stepped();
            &&& end.wf()
            &&& end.cycle.phase == BusCycle::A1
            &&& end.total_cycles == s.total_cycles + 1
            &&& end.cpu.regs == s.cpu.regs.increment_pc()
            &&& end.cpu.alu == s.cpu.alu
            &&& end.cpu.ram_chip == s.cpu.ram_chip
            &&& end.cpu.ram_address == s.cpu.ram_address
            &&& end.cpu.test_pin == s.cpu.test_pin
            &&& end.cpu.decoder == crate::chips::i4004::InstructionDecoder::after_first(
                s.cpu.instruction_byte,
            )
            &&& end.cpu.cycle.second_cycle
            &&& end.cpu.cycle.state == crate::bus::cycle::MachineState::Fetch2
            &&& end.rom.len() == s.rom.len()
            &&& forall|i: int| 0 <= i < s.rom.len() ==> (#[trigger] end.rom[i]).rom == s.rom[i].rom
        }),
{
    let s1 = s.stepped();
    lemma_step_keeps_wf(s);
    lemma_stepped_parts(s);
    crate::chips::i4004::lemma_decode_phase(s.cpu, s.sampled_nibble());
    assert(s1.cpu == s.cpu.latched(BusCycle::X1, s.sampled_nibble()));
    let s2 = s1.stepped();
    lemma_step_keeps_wf(s1);
    lemma_stepped_parts(s1);
    crate::chips::i4004::lemma_idle_phase(s1.cpu, s1.sampled_nibble());
    assert(s2.cpu == s1.cpu.latched(BusCycle::X2, s1.sampled_nibble()));
    let s3 = s2.stepped();
    lemma_step_keeps_wf(s2);
    lemma_stepped_parts(s2);
    crate::chips::i4004::lemma_announce_phase(s2.cpu, s2.sampled_nibble());
    assert(s3.cpu == s2.cpu.latched(BusCycle::X3, s2.sampled_nibble()));
    assert forall|i: int| 0 <= i < s.rom.len() implies (#[trigger] s3.rom[i]).rom == s.rom[i].rom by {
        assert(s1.rom[i] == s.rom_after(i));
        assert(s2.rom[i] == s1.rom_after(i));
        assert(s3.rom[i] == s2.rom_after(i));
    }
}

/// The execution phases of the second cycle of a two-byte instruction:
/// from X1, with the second byte in the CPU, three phases later the
/// program counter has moved past the instruction and the instruction
/// has taken effect.
pub proof fn lemma_completing_phases(s: SystemState)
    requires
        s.wf(),
        s.cycle.phase == BusCycle::X1,
        s.total_cycles < u64::MAX,
        s.cpu.cycle.second_cycle,
        s.cpu.decoder.instruction is None,
    ensures
        ({
            let instr = crate::chips::i4004::instruction_decode::two_byte_instruction(
                s.cpu.decoder.opr,
                s.cpu.decoder.opa,
                s.cpu.instruction_byte,
            );
            let end = s.stepped().stepped().stepped();
            let bus = s.stepped().stepped().sampled_nibble();
            let stepped = crate::chips::i4004::CpuState {
                regs: s.cpu.regs.increment_pc(),
                ..s.cpu
            };
            &&& end.wf()
            &&& end.cycle.phase == BusCycle::A1
            &&& end.total_cycles == s.total_cycles + 1
            &&& end.cpu.regs == stepped.executed(instr, bus).regs
            &&& end.cpu.alu == stepped.executed(instr, bus).alu
            &&& end.cpu.ram_chip == stepped.executed(instr, bus).ram_chip
            &&& end.cpu.ram_address == stepped.executed(instr, bus).ram_address
        }),
{
    let instr = crate::chips::i4004::instruction_decode::two_byte_instruction(
        s.cpu.decoder.opr,
        s.cpu.decoder.opa,
        s.cpu.instruction_byte,
    );
    let s1 = s.stepped();
    lemma_step_keeps_wf(s);
    lemma_stepped_parts(s);
    crate::chips::i4004::lemma_decode_second_phase(s.cpu, s.sampled_nibble());
    assert(s1.cpu == s.cpu.latched(BusCycle::X1, s.sampled_nibble()));
    let s2 = s1.stepped();
    lemma_step_keeps_wf(s1);
    lemma_stepped_parts(s1);
    crate::chips::i4004::lemma_idle_phase(s1.cpu, s1.sampled_nibble());
    assert(s2.cpu == s1.cpu.latched(BusCycle::X2, s1.sampled_nibble()));
    let s3 = s2.stepped();
    lemma_step_keeps_wf(s2);
    lemma_stepped_parts(s2);
    let bus = s2.sampled_nibble();
    assert(s2.cpu.decoder.instruction == Some(instr));
    assert(!(instr is Fin));
    crate::chips::i4004::lemma_completion_phase(s2.cpu, bus);
    assert(s3.cpu == s2.cpu.latched(BusCycle::X3, bus));
    let stepped = crate::chips::i4004::CpuState { regs: s.cpu.regs.increment_pc(), ..s.cpu };
    let stepped2 = crate::chips::i4004::CpuState { regs: s2.cpu.regs.increment_pc(), ..s2.cpu };
    crate::chips::i4004::lemma_executed_frame(stepped2, stepped, instr, bus);
}

/// A two-byte instruction from fetch to effect: from phase A1 of a
/// first fetch, with both bytes in ROM chips of the system, sixteen
/// phases later the instruction that the two bytes encode has taken
/// effect on a CPU whose program counter points behind it.
pub proof fn lemma_two_byte_instruction(s: SystemState)
    requires
        s.wf(),
        s.cycle.phase == BusCycle::A1,
        s.total_cycles < u64::MAX - 1,
        !s.cpu.cycle.second_cycle,
        s.cpu.cycle.state == crate::bus::cycle::MachineState::Fetch1,
        s.rom_byte(s.cpu.regs.pc) is Some,
        s.rom_byte(s.cpu.regs.increment_pc().pc) is Some,
        crate::chips::i4004::instruction_decode::announces_second_byte(
            s.rom_byte(s.cpu.regs.pc)->0 / 16,
            s.rom_byte(s.cpu.regs.pc)->0 % 16,
        ),
    ensures
        ({
            let first = s.rom_byte(s.cpu.regs.pc)->0;
            let second = s.rom_byte(s.cpu.regs.increment_pc().pc)->0;
            let instr = crate::chips::i4004::instruction_decode::two_byte_instruction(
                first / 16,
                first % 16,
                second,
            );
            let end = s.stepped_by(16);
            let bus = s.stepped_by(15).sampled_nibble();
            let stepped = crate::chips::i4004::CpuState {
                regs: s.cpu.regs.increment_pc().increment_pc(),
                ..s.cpu
            };
            &&& end.wf()
            &&& end.cycle.phase == BusCycle::A1
            &&& end.total_cycles == s.total_cycles + 2
            &&& end.cpu.regs == stepped.executed(instr, bus).regs
            &&& end.cpu.alu == stepped.executed(instr, bus).alu
            &&& end.cpu.ram_chip == stepped.executed(instr, bus).ram_chip
            &&& end.cpu.ram_address == stepped.executed(instr, bus).ram_address
        }),
{
    let first = s.rom_byte(s.cpu.regs.pc)->0;
    let second = s.rom_byte(s.cpu.regs.increment_pc().pc)->0;
    let instr = crate::chips::i4004::instruction_decode::two_byte_instruction(
        first / 16,
        first % 16,
        second,
    );
    // First cycle.
    assert(s.cpu.fetch_address() == s.cpu.regs.pc);
    lemma_fetch_keeps_cpu(s);
    let s5 = s.stepped_by(5);
    lemma_announcing_phases(s5);
    lemma_stepped_by_unfold(s, 5);
    lemma_stepped_by_unfold(s, 6);
    lemma_stepped_by_unfold(s, 7);
    let s8 = s.stepped_by(8);
    assert(s8 == s5.stepped().stepped().stepped());
    lemma_fetch_keeps_roms(s);
    // Second cycle.
    assert(!s8.cpu.in_indirect_fetch());
    assert(s8.cpu.fetch_address() == s8.cpu.regs.pc);
    assert(s8.rom_byte(s8.cpu.regs.pc) == Some(second)) by {
        let chip = SystemState::rom_chip_of(s8.cpu.regs.pc);
        assert(s8.rom[chip].rom == s5.rom[chip].rom);
        assert(s5.rom[chip].rom == s.rom[chip].rom);
    }
    lemma_fetch_keeps_cpu(s8);
    let s13 = s8.stepped_by(5);
    lemma_completing_phases(s13);
    lemma_stepped_by_unfold(s8, 5);
    lemma_stepped_by_unfold(s8, 6);
    lemma_stepped_by_unfold(s8, 7);
    assert(s8.stepped_by(8) == s13.stepped().stepped().stepped());
    assert(s8.stepped_by(7) == s13.stepped().stepped());
    lemma_stepped_by_split(s, 8, 7);
    lemma_stepped_by_split(s, 8, 8);
    let bus = s.stepped_by(15).sampled_nibble();
    let from_start = crate::chips::i4004::CpuState {
        regs: s.cpu.regs.increment_pc().increment_pc(),
        ..s.cpu
    };
    let from_fetch = crate::chips::i4004::CpuState { regs: s13.cpu.regs.increment_pc(), ..s13.cpu };
    crate::chips::i4004::lemma_executed_frame(from_fetch, from_start, instr, bus);
}

/// A fetch leaves the contents of the ROMs as they are.
pub proof fn lemma_fetch_keeps_roms(s: SystemState)
    requires
        s.wf(),
        s.cycle.phase == BusCycle::A1,
        s.total_cycles < u64::MAX,
    ensures
        s.stepped_by(5).rom.len() == s.rom.len(),
        forall|i: int| 0 <= i < s.rom.len() ==> (#[trigger] s.stepped_by(5).rom[i]).rom == s.rom[i].rom,
{
    let s1 = s.stepped();
    lemma_fetch_phase_carries(s);
    let s2 = s1.stepped();
    lemma_fetch_phase_carries(s1);
    let s3 = s2.stepped();
    lemma_fetch_phase_carries(s2);
    let s4 = s3.stepped();
    lemma_fetch_phase_carries(s3);
    let s5 = s4.stepped();
    lemma_fetch_phase_carries(s4);
    lemma_stepped_by_unfold(s, 0);
    lemma_stepped_by_unfold(s, 1);
    lemma_stepped_by_unfold(s, 2);
    lemma_stepped_by_unfold(s, 3);
    lemma_stepped_by_unfold(s, 4);
    assert(s.stepped_by(5) == s5);
    assert forall|i: int| 0 <= i < s.rom.len() implies (#[trigger] s5.rom[i]).rom == s.rom[i].rom by {
        assert(s4.rom[i].rom == s3.rom[i].rom);
        assert(s3.rom[i].rom == s2.rom[i].rom);
        assert(s2.rom[i].rom == s1.rom[i].rom);
        assert(s1.rom[i].rom == s.rom[i].rom);
    }
}

/// Stepping by `a + b` phases is stepping by `a` and then by `b`.
pub proof fn lemma_stepped_by_split(s: SystemState, a: nat, b: nat)
    ensures
        s.stepped_by(a + b) == s.stepped_by(a).stepped_by(b),
    decreases b,
{
    lemma_stepped_by_unfold(s.stepped_by(a), 0);
    if b > 0 {
        lemma_stepped_by_split(s, a, (b - 1) as nat);
        lemma_stepped_by_unfold(s, (a + b - 1) as nat);
        lemma_stepped_by_unfold(s.stepped_by(a), (b - 1) as nat);
    }
}

} // verus!
