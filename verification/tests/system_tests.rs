use mcs4_emu::bus::cycle::BusCycle;
use mcs4_emu::sim::signal::SignalLevel;
use mcs4_emu::system::mcs4::Mcs4System;
use mcs4_emu::system::signal_trace::SignalTrace;

#[test]
fn test_minimal_system() {
    let sys = Mcs4System::minimal();
    assert_eq!(sys.rom.len(), 1);
    assert_eq!(sys.ram.len(), 1);
    assert_eq!(sys.pc(), 0);
}

#[test]
fn test_standard_system() {
    let sys = Mcs4System::standard();
    assert_eq!(sys.rom.len(), 4);
    assert_eq!(sys.ram.len(), 8);
}

#[test]
fn test_load_and_run() {
    let mut sys = Mcs4System::minimal();

    sys.load_rom(&[0x00, 0x00, 0x00]);

    sys.run_cycles(6);

    assert!(sys.pc() > 0);
}

#[test]
fn test_ldm_instruction() {
    let mut sys = Mcs4System::minimal();

    sys.load_rom(&[0xD5]);

    sys.run_cycles(2);

    assert_eq!(sys.accumulator(), 5);
}

#[test]
fn test_breakpoint() {
    let mut sys = Mcs4System::minimal();

    sys.load_rom(&[0x00; 16]);
    sys.add_breakpoint(4);

    let hit = sys.run_until_breakpoint(100);
    assert!(hit);
    assert_eq!(sys.pc(), 4);
}

#[test]
fn scenario_ldm() {
    let mut sys = Mcs4System::minimal();
    sys.load_rom(&[0xD5]);
    sys.run_cycles(1);
    assert_eq!(sys.accumulator(), 5);
    assert!(!sys.carry());
    assert_eq!(sys.pc(), 1);
    assert_eq!(sys.cycles(), 1);
    assert_eq!(sys.phase(), BusCycle::A1);
}

#[test]
fn scenario_ldm_add() {
    let mut sys = Mcs4System::minimal();
    sys.load_rom(&[0xD5, 0xDA, 0xB0, 0x80]);
    sys.run_cycles(4);
    assert_eq!(sys.accumulator(), 0xA);
    assert!(!sys.carry());
    assert_eq!(sys.register(0), 0xA);
    assert_eq!(sys.pc(), 4);
}

#[test]
fn scenario_carry_addition() {
    let mut sys = Mcs4System::minimal();
    sys.load_rom(&[0xDF, 0xF2]);
    sys.run_cycles(2);
    assert_eq!(sys.accumulator(), 0);
    assert!(sys.carry());
}

#[test]
fn scenario_jump() {
    let mut sys = Mcs4System::minimal();
    sys.load_rom(&[0x41, 0x23]);
    sys.run_cycles(2);
    assert_eq!(sys.pc(), 0x123);
    assert_eq!(sys.cpu.cycle_state().instruction_count, 1);
}

#[test]
fn scenario_subroutine() {
    let mut sys = Mcs4System::minimal();
    let mut image = vec![0u8; 0x20];
    image[0] = 0x50; // JMS 0x010
    image[1] = 0x10;
    image[0x10] = 0xD7; // LDM 7
    image[0x11] = 0xC0; // BBL 0
    sys.load_rom(&image);
    sys.run_cycles(2);
    assert_eq!(sys.pc(), 0x010);
    sys.run_cycles(1);
    assert_eq!(sys.accumulator(), 7);
    sys.run_cycles(1);
    assert_eq!(sys.pc(), 0x002);
    assert_eq!(sys.accumulator(), 0);
    // The stack pointer is back at 0: the next call uses the first slot
    // again, so that three more calls and returns come back here.
    assert_eq!(sys.cpu.cycle_state().instruction_count, 3);
}

#[test]
fn scenario_breakpoint() {
    let mut sys = Mcs4System::minimal();
    sys.load_rom(&[0x00; 16]);
    sys.add_breakpoint(4);
    sys.add_breakpoint(4);
    assert!(sys.run_until_breakpoint(100));
    assert_eq!(sys.pc(), 4);
    assert_eq!(sys.cycles(), 4);
    sys.remove_breakpoint(4);
    assert!(!sys.run_until_breakpoint(10));
    assert_eq!(sys.cycles(), 14);
    sys.add_breakpoint(20);
    sys.clear_breakpoints();
    assert!(!sys.run_until_breakpoint(10));
    assert!(!sys.run_until_breakpoint(0));
    assert_eq!(sys.cycles(), 24);
}

#[test]
fn instruction_counter_counts_each_instruction_once() {
    let mut sys = Mcs4System::minimal();
    // NOP; JUN 0x004; (skipped); LDM 1; FIM pair 0, 0x08; FIN pair 1; data
    sys.load_rom(&[0x00, 0x40, 0x04, 0xFF, 0xD1, 0x20, 0x08, 0x32, 0xAB]);
    sys.run_cycles(1);
    assert_eq!(sys.cpu.cycle_state().instruction_count, 1);
    sys.run_cycles(1);
    assert_eq!(sys.cpu.cycle_state().instruction_count, 1);
    sys.run_cycles(1);
    assert_eq!(sys.cpu.cycle_state().instruction_count, 2);
    assert_eq!(sys.pc(), 4);
    sys.run_cycles(1);
    assert_eq!(sys.cpu.cycle_state().instruction_count, 3);
    sys.run_cycles(2);
    assert_eq!(sys.cpu.cycle_state().instruction_count, 4);
    assert_eq!(sys.register_pair(0), 0x08);
    // FIN takes two cycles and leaves the program counter behind itself.
    sys.run_cycles(1);
    assert_eq!(sys.cpu.cycle_state().instruction_count, 4);
    sys.run_cycles(1);
    assert_eq!(sys.cpu.cycle_state().instruction_count, 5);
    assert_eq!(sys.register_pair(1), 0xAB);
    assert_eq!(sys.pc(), 8);
}

#[test]
fn rom_back_door_write_is_fetched() {
    let mut sys = Mcs4System::standard();
    sys.rom[2].write_direct(0x34, 0xD9); // LDM 9 at 0x234
    sys.load_rom(&[0x42, 0x34]); // JUN 0x234
    assert_eq!(sys.read_rom(0x234), Some(0xD9));
    sys.run_cycles(3);
    assert_eq!(sys.accumulator(), 9);
    assert_eq!(sys.pc(), 0x235);
}

#[test]
fn ram_write_and_read_through_the_bus() {
    let mut sys = Mcs4System::minimal();
    // FIM P0, 0x25; SRC P0; LDM 0xC; WRM; LDM 0; RDM; WMP; WR1; LDM 0; RD1
    sys.load_rom(&[0x20, 0x25, 0x21, 0xDC, 0xE0, 0xD0, 0xE9, 0xE1, 0xE5, 0xD0, 0xED]);
    sys.run_cycles(5);
    assert_eq!(sys.read_ram(0, 0, 2, 5), Some(0xC));
    assert!(!sys.bus.has_contention());
    sys.run_cycles(1);
    assert_eq!(sys.accumulator(), 0);
    sys.run_cycles(1);
    assert_eq!(sys.accumulator(), 0xC);
    sys.run_cycles(2);
    assert_eq!(sys.ram[0].output(), 0xC);
    assert_eq!(sys.ram[0].read_status(1), 0xC);
    sys.run_cycles(2);
    assert_eq!(sys.accumulator(), 0xC);
    assert_eq!(sys.cpu.ram_chip(), 2);
    assert_eq!(sys.cpu.ram_address(), 5);
}

#[test]
fn rom_port_write_and_read_through_the_bus() {
    let mut sys = Mcs4System::minimal();
    sys.rom[0].set_io_input(0x6);
    // LDM 0xB; WRR; RDR
    sys.load_rom(&[0xDB, 0xE2, 0xEA]);
    sys.run_cycles(2);
    assert_eq!(sys.rom[0].io_output(), 0xB);
    sys.run_cycles(1);
    assert_eq!(sys.accumulator(), 6);
}

#[test]
fn jcn_uses_the_test_pin() {
    let mut sys = Mcs4System::minimal();
    // JCN test, 0x10; at 0x10: LDM 3
    let mut image = vec![0u8; 0x20];
    image[0] = 0x11;
    image[1] = 0x10;
    image[2] = 0xD1;
    image[0x10] = 0xD3;
    sys.load_rom(&image);
    sys.set_test_pin(true);
    sys.run_cycles(3);
    assert_eq!(sys.accumulator(), 3);
    sys.reset();
    sys.run_cycles(3);
    assert_eq!(sys.accumulator(), 1);
}

#[test]
fn reset_keeps_rom_and_clears_the_rest() {
    let mut sys = Mcs4System::minimal();
    sys.load_rom(&[0xD5, 0xE0]);
    sys.add_breakpoint(9);
    sys.run_cycles(2);
    assert_eq!(sys.read_ram(0, 0, 0, 0), Some(5));
    sys.step();
    sys.reset();
    assert_eq!(sys.pc(), 0);
    assert_eq!(sys.accumulator(), 0);
    assert_eq!(sys.cycles(), 0);
    assert_eq!(sys.time(), 0);
    assert_eq!(sys.phase(), BusCycle::A1);
    assert_eq!(sys.read_rom(0), Some(0xD5));
    assert_eq!(sys.read_ram(0, 0, 0, 0), Some(0));
    assert_eq!(sys.bus.driver_count(), 3);
    assert!(!sys.bus.is_valid());
    sys.run_cycles(1);
    assert_eq!(sys.accumulator(), 5);
}

#[test]
fn load_rom_distributes_in_chunks() {
    let mut sys = Mcs4System::standard();
    let image: Vec<u8> = (0..1100u32).map(|i| (i % 253) as u8).collect();
    sys.load_rom(&image);
    assert_eq!(sys.read_rom(0), Some(0));
    assert_eq!(sys.read_rom(255), Some((255 % 253) as u8));
    assert_eq!(sys.read_rom(256), Some((256 % 253) as u8));
    assert_eq!(sys.read_rom(0x3FF), Some((1023 % 253) as u8));
    assert_eq!(sys.read_rom(0x400), None);
    assert_eq!(sys.read_rom(0x1000), Some(0));
}

#[test]
fn load_rom_at_crosses_chips_and_clips() {
    let mut sys = Mcs4System::standard();
    sys.load_rom_at(0x0FE, &[1, 2, 3, 4]);
    assert_eq!(sys.read_rom(0x0FE), Some(1));
    assert_eq!(sys.read_rom(0x0FF), Some(2));
    assert_eq!(sys.read_rom(0x100), Some(3));
    assert_eq!(sys.read_rom(0x101), Some(4));
    sys.load_rom_at(0x3FF, &[9, 8, 7]);
    assert_eq!(sys.read_rom(0x3FF), Some(9));
    assert_eq!(sys.read_rom(0x000), Some(0));
    sys.load_rom_at(0x800, &[5]);
    assert_eq!(sys.read_rom(0x800), None);
    let mut max = Mcs4System::maximal();
    max.load_rom_at(0xFFF, &[0x77, 0x66]);
    assert_eq!(max.read_rom(0xFFF), Some(0x77));
    assert_eq!(max.read_rom(0x000), Some(0));
}

#[test]
fn topologies() {
    let max = Mcs4System::maximal();
    assert_eq!(max.rom.len(), 16);
    assert_eq!(max.ram.len(), 16);
    assert_eq!(max.bus.driver_count(), 33);
    for (i, rom) in max.rom.iter().enumerate() {
        assert_eq!(rom.chip_id() as usize, i);
    }
    for (j, ram) in max.ram.iter().enumerate() {
        assert_eq!(ram.chip_id() as usize, j % 4);
        assert_eq!(ram.bank_id() as usize, j / 4);
    }
    assert_eq!(max.read_ram(3, 3, 0, 0), Some(0));
    assert_eq!(max.read_ram(4, 0, 0, 0), None);
    let std = Mcs4System::standard();
    assert_eq!(std.read_ram(1, 3, 0, 0), Some(0));
    assert_eq!(std.read_ram(2, 0, 0, 0), None);
    assert_eq!(std.read_ram(0, 4, 0, 0), None);
    let min = Mcs4System::default();
    assert_eq!(min.rom.len(), 1);
    assert_eq!(min.read_rom(0x100), None);
}

#[test]
fn bus_protocol_within_a_cycle() {
    let mut sys = Mcs4System::minimal();
    sys.load_rom(&[0xD5]);
    assert_eq!(sys.phase(), BusCycle::A1);
    sys.step();
    assert_eq!(sys.control.sync.current, SignalLevel::High);
    assert_eq!(sys.bus.read(), 0);
    assert!(sys.bus.is_valid());
    sys.step();
    assert_eq!(sys.control.sync.current, SignalLevel::Low);
    sys.step();
    assert_eq!(sys.phase(), BusCycle::M1);
    assert!(sys.rom[0].is_selected());
    sys.step();
    assert_eq!(sys.bus.read(), 0x5);
    sys.step();
    assert_eq!(sys.bus.read(), 0xD);
    assert!(!sys.bus.has_contention());
    sys.step();
    assert!(!sys.bus.is_valid());
    assert_eq!(sys.cycles(), 0);
    sys.step();
    sys.step();
    assert_eq!(sys.cycles(), 1);
    assert_eq!(sys.time(), 8 * 1_350_000);
    for line in sys.bus.lines.iter() {
        let h = line.history();
        for w in h.windows(2) {
            assert!(w[0].0 <= w[1].0);
        }
    }
}

#[test]
fn registers_and_pc_stay_in_range() {
    let mut sys = Mcs4System::minimal();
    let image: Vec<u8> = (0..256u32).map(|i| ((i * 37 + 11) % 256) as u8).collect();
    sys.load_rom(&image);
    for _ in 0..400 {
        sys.step();
        assert!(sys.pc() <= 0xFFF);
        assert!(sys.accumulator() <= 0xF);
        for r in 0..16 {
            assert!(sys.register(r) <= 0xF);
        }
        for reg in 0..4 {
            for ch in 0..16 {
                assert!(sys.read_ram(0, 0, reg, ch).unwrap() <= 0xF);
            }
        }
    }
}

#[test]
fn trace_captures_the_bus() {
    let mut sys = Mcs4System::minimal();
    sys.load_rom(&[0xD5]);
    let mut trace = SignalTrace::new();
    for _ in 0..5 {
        sys.step();
        sys.capture(&mut trace);
    }
    assert_eq!(trace.timestamps, vec![1_350_000, 2_700_000, 4_050_000, 5_400_000, 6_750_000]);
    assert_eq!(trace.sync, vec![true, false, false, false, false]);
    assert_eq!(trace.data_bus, vec![0, 0, 0, 5, 0xD]);
    assert_eq!(trace.cm_rom, vec![0, 0, 0, 0, 0]);
    assert_eq!(trace.phase[0], BusCycle::A2);
    assert_eq!(trace.phase[4], BusCycle::X1);
    assert_eq!(trace.phi1.len(), 5);
    assert_eq!(trace.phi2.len(), 5);
    trace.capture(9, true, false, true, 0xAB, 0x1C, 0x07, BusCycle::M1);
    assert_eq!(trace.data_bus[5], 0xB);
    assert_eq!(trace.cm_rom[5], 0xC);
    assert_eq!(trace.cm_ram[5], 0x3);
    assert!(trace.phi1[5]);
}
