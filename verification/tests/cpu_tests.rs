use mcs4_emu::bus::control::{ControlSignals, IoOperation};
use mcs4_emu::bus::cycle::{BusCycle, MachineState};
use mcs4_emu::bus::data_bus::DataBus;
use mcs4_emu::chips::i4004::{io_operation, Alu, Instruction, InstructionDecoder, Registers, TimingIo, I4004};
use mcs4_emu::chips::Chip;
use mcs4_emu::sim::signal::SignalLevel;

#[test]
fn test_add() {
    let mut alu = Alu::new();
    alu.set_accumulator(5);
    alu.add(3);
    assert_eq!(alu.accumulator(), 8);
    assert!(!alu.carry());

    alu.set_accumulator(15);
    alu.add(1);
    assert_eq!(alu.accumulator(), 0);
    assert!(alu.carry());
}

#[test]
fn test_rotate() {
    let mut alu = Alu::new();
    alu.set_accumulator(0b1010);
    alu.set_carry(false);

    alu.ral();
    assert_eq!(alu.accumulator(), 0b0100);
    assert!(alu.carry());
}

#[test]
fn test_kbp() {
    let mut alu = Alu::new();

    alu.set_accumulator(0x01);
    alu.kbp();
    assert_eq!(alu.accumulator(), 1);

    alu.set_accumulator(0x08);
    alu.kbp();
    assert_eq!(alu.accumulator(), 4);

    alu.set_accumulator(0x03); // Invalid
    alu.kbp();
    assert_eq!(alu.accumulator(), 0x0F);
}

#[test]
fn test_decode_nop() {
    let mut decoder = InstructionDecoder::new();
    decoder.decode_first(0x00);
    assert_eq!(decoder.get_instruction(), Some(Instruction::Nop));
    assert!(!decoder.two_byte);
}

#[test]
fn test_decode_ldm() {
    let mut decoder = InstructionDecoder::new();
    decoder.decode_first(0xD5); // LDM 5
    assert_eq!(decoder.get_instruction(), Some(Instruction::Ldm { data: 5 }));
}

#[test]
fn test_decode_add() {
    let mut decoder = InstructionDecoder::new();
    decoder.decode_first(0x8A); // ADD R10
    assert_eq!(decoder.get_instruction(), Some(Instruction::Add { reg: 10 }));
}

#[test]
fn test_decode_jun() {
    let mut decoder = InstructionDecoder::new();
    decoder.decode_first(0x42); // JUN 2xx
    assert!(decoder.two_byte);
    assert!(decoder.needs_second_byte());

    decoder.decode_second(0xAB);
    assert_eq!(
        decoder.get_instruction(),
        Some(Instruction::Jun { addr_high: 2, addr_low: 0xAB })
    );
}

#[test]
fn test_decode_fim() {
    let mut decoder = InstructionDecoder::new();
    decoder.decode_first(0x20); // FIM P0
    assert!(decoder.two_byte);

    decoder.decode_second(0x42);
    assert_eq!(
        decoder.get_instruction(),
        Some(Instruction::Fim { pair: 0, data: 0x42 })
    );
}

#[test]
fn test_decode_src() {
    let mut decoder = InstructionDecoder::new();
    decoder.decode_first(0x21); // SRC P0
    assert!(!decoder.two_byte);
    assert_eq!(decoder.get_instruction(), Some(Instruction::Src { pair: 0 }));
}

#[test]
fn test_decode_accumulator_group() {
    let mut decoder = InstructionDecoder::new();

    decoder.decode_first(0xF0);
    assert_eq!(decoder.get_instruction(), Some(Instruction::Clb));

    decoder.decode_first(0xF5);
    assert_eq!(decoder.get_instruction(), Some(Instruction::Ral));

    decoder.decode_first(0xFB);
    assert_eq!(decoder.get_instruction(), Some(Instruction::Daa));
}

#[test]
fn test_decode_io() {
    let mut decoder = InstructionDecoder::new();

    decoder.decode_first(0xE0);
    assert_eq!(decoder.get_instruction(), Some(Instruction::Wrm));

    decoder.decode_first(0xE9);
    assert_eq!(decoder.get_instruction(), Some(Instruction::Rdm));
}

#[test]
fn test_instruction_metadata() {
    assert_eq!(Instruction::Nop.length(), 1);
    assert_eq!(Instruction::Nop.cycles(), 1);
    assert_eq!(Instruction::Nop.mnemonic(), "NOP");

    let jun = Instruction::Jun { addr_high: 0, addr_low: 0 };
    assert_eq!(jun.length(), 2);
    assert_eq!(jun.cycles(), 2);
    assert_eq!(jun.mnemonic(), "JUN");
}

#[test]
fn test_pc() {
    let mut regs = Registers::new();
    assert_eq!(regs.pc(), 0);

    regs.increment_pc();
    assert_eq!(regs.pc(), 1);

    regs.set_pc(0xFFF);
    regs.increment_pc();
    assert_eq!(regs.pc(), 0); // Wrap
}

#[test]
fn test_index_registers() {
    let mut regs = Registers::new();

    regs.set_r(5, 0xA);
    assert_eq!(regs.get_r(5), 0xA);

    regs.set_r(5, 0xFF);
    assert_eq!(regs.get_r(5), 0x0F);
}

#[test]
fn test_pairs() {
    let mut regs = Registers::new();

    regs.set_pair(0, 0xAB);
    assert_eq!(regs.get_r(0), 0xA);
    assert_eq!(regs.get_r(1), 0xB);
    assert_eq!(regs.get_pair(0), 0xAB);
}

#[test]
fn test_stack() {
    let mut regs = Registers::new();

    regs.set_pc(0x100);
    regs.call(0x200);
    assert_eq!(regs.pc(), 0x200);

    regs.call(0x300);
    assert_eq!(regs.pc(), 0x300);

    regs.ret();
    assert_eq!(regs.pc(), 0x200);

    regs.ret();
    assert_eq!(regs.pc(), 0x100);
}

#[test]
fn alu_table() {
    // (acc, carry) before, operation, (acc, carry) after
    let mut alu = Alu::new();
    assert_eq!((alu.accumulator(), alu.carry()), (0, false));

    alu.set_accumulator(0xF);
    alu.iac();
    assert_eq!((alu.accumulator(), alu.carry()), (0, true));
    alu.iac();
    assert_eq!((alu.accumulator(), alu.carry()), (1, false));

    alu.set_accumulator(0);
    alu.dac();
    assert_eq!((alu.accumulator(), alu.carry()), (0xF, false));
    alu.dac();
    assert_eq!((alu.accumulator(), alu.carry()), (0xE, true));

    alu.set_accumulator(0b0101);
    alu.set_carry(true);
    alu.rar();
    assert_eq!((alu.accumulator(), alu.carry()), (0b1010, true));
    alu.set_accumulator(0b0100);
    alu.set_carry(false);
    alu.rar();
    assert_eq!((alu.accumulator(), alu.carry()), (0b0010, false));
    alu.set_carry(true);
    alu.ral();
    assert_eq!((alu.accumulator(), alu.carry()), (0b0101, false));

    alu.set_accumulator(0b0110);
    alu.cma();
    assert_eq!(alu.accumulator(), 0b1001);
    alu.cmc();
    assert!(alu.carry());
    alu.cmc();
    assert!(!alu.carry());
    alu.stc();
    assert!(alu.carry());
    alu.clb();
    assert_eq!((alu.accumulator(), alu.carry()), (0, false));
}

#[test]
fn alu_add_and_sub_with_carry() {
    let mut alu = Alu::new();
    alu.set_accumulator(9);
    alu.set_carry(true);
    alu.add(6);
    assert_eq!((alu.accumulator(), alu.carry()), (0, true));
    alu.add(0);
    assert_eq!((alu.accumulator(), alu.carry()), (1, false));

    // 5 - 3 with carry set (no borrow): 5 + 12 + 1 = 18
    alu.set_accumulator(5);
    alu.set_carry(true);
    alu.sub(3);
    assert_eq!((alu.accumulator(), alu.carry()), (2, true));
    // 3 - 5 with carry set: 3 + 10 + 1 = 14, borrow
    alu.set_accumulator(3);
    alu.set_carry(true);
    alu.sub(5);
    assert_eq!((alu.accumulator(), alu.carry()), (0xE, false));
    // with carry clear one more is taken
    alu.set_accumulator(5);
    alu.set_carry(false);
    alu.sub(3);
    assert_eq!((alu.accumulator(), alu.carry()), (1, true));
}

#[test]
fn alu_daa_tcc_tcs_kbp_xch() {
    let mut alu = Alu::new();
    alu.set_accumulator(0xB);
    alu.daa();
    assert_eq!((alu.accumulator(), alu.carry()), (1, true));
    alu.set_accumulator(4);
    alu.daa();
    assert_eq!((alu.accumulator(), alu.carry()), (0xA, true));
    alu.set_carry(false);
    alu.set_accumulator(9);
    alu.daa();
    assert_eq!((alu.accumulator(), alu.carry()), (9, false));

    alu.set_carry(true);
    alu.tcc();
    assert_eq!((alu.accumulator(), alu.carry()), (1, false));
    alu.tcc();
    assert_eq!((alu.accumulator(), alu.carry()), (0, false));

    alu.tcs();
    assert_eq!((alu.accumulator(), alu.carry()), (9, false));
    alu.set_carry(true);
    alu.tcs();
    assert_eq!((alu.accumulator(), alu.carry()), (10, false));

    let table = [(0u8, 0u8), (1, 1), (2, 2), (4, 3), (8, 4), (3, 15), (5, 15), (15, 15)];
    for (input, code) in table.iter() {
        alu.set_accumulator(*input);
        alu.kbp();
        assert_eq!(alu.accumulator(), *code);
    }

    alu.load(0x37);
    assert_eq!(alu.accumulator(), 7);
    let old = alu.xch(0xF2);
    assert_eq!(old, 7);
    assert_eq!(alu.accumulator(), 2);
    let copy = alu.clone();
    assert_eq!(copy.accumulator(), 2);
    assert_eq!(Alu::default().accumulator(), 0);
}

#[test]
fn load_then_xch_swaps() {
    for data in [0u8, 5, 0xF, 0x3A] {
        for r in 0..16u8 {
            let mut cpu = I4004::new();
            cpu.registers.set_r(r, r ^ 0x9);
            let prior = cpu.registers.get_r(r);
            cpu.alu.load(data);
            cpu.execute(Instruction::Xch { reg: r }, 0);
            assert_eq!(cpu.accumulator(), prior);
            assert_eq!(cpu.registers.get_r(r), data & 0xF);
        }
    }
}

#[test]
fn fim_then_src_publishes_the_byte() {
    for p in 0..8u8 {
        let mut cpu = I4004::new();
        let d = 0x5A_u8.wrapping_add(p.wrapping_mul(37));
        cpu.execute(Instruction::Fim { pair: p, data: d }, 0);
        cpu.execute(Instruction::Src { pair: p }, 0);
        assert_eq!(cpu.ram_chip(), d >> 4);
        assert_eq!(cpu.ram_address(), d & 0xF);
    }
}

#[test]
fn jms_then_bbl_restores_pc() {
    let mut cpu = I4004::new();
    cpu.registers.set_pc(0x2A7);
    cpu.execute(Instruction::Jms { addr_high: 0x5, addr_low: 0x40 }, 0);
    assert_eq!(cpu.pc(), 0x540);
    cpu.execute(Instruction::Bbl { data: 0xC }, 0);
    assert_eq!(cpu.pc(), 0x2A7);
    assert_eq!(cpu.accumulator(), 0xC);
}

#[test]
fn stack_is_three_deep_and_circular() {
    let mut regs = Registers::new();
    regs.set_pc(0x001);
    regs.call(0x100);
    regs.call(0x200);
    regs.call(0x300);
    regs.call(0x400); // overwrites the return address 0x001
    regs.ret();
    assert_eq!(regs.pc(), 0x300);
    regs.ret();
    assert_eq!(regs.pc(), 0x200);
    regs.ret();
    assert_eq!(regs.pc(), 0x100);
    regs.ret();
    assert_eq!(regs.pc(), 0x300);
}

#[test]
fn registers_stay_in_range() {
    let mut regs = Registers::default();
    regs.set_pc(0xFFFF);
    assert_eq!(regs.pc(), 0xFFF);
    regs.call(0xABCD);
    assert_eq!(regs.pc(), 0xBCD);
    for i in 0..32u8 {
        regs.set_r(i, 0xF0 | i);
        assert!(regs.get_r(i) < 16);
    }
    regs.set_pair(9, 0x12);
    assert_eq!(regs.get_pair(1), 0x12);
    assert_eq!(regs.get_r(2), 1);
    assert_eq!(regs.get_r(3), 2);
    regs.set_pair(0, 0xFF);
    assert!(regs.inc_pair(0));
    assert_eq!(regs.get_pair(0), 0);
    assert!(!regs.inc_pair(0));
    assert_eq!(regs.get_pair(0), 1);
    regs.set_r(4, 0xE);
    assert!(!regs.inc_r(4));
    assert!(regs.inc_r(4));
    assert_eq!(regs.get_r(4), 0);
    let copy = regs.clone();
    assert_eq!(copy.get_pair(1), 0x12);
}

#[test]
fn decoder_covers_every_byte() {
    let mut decoder = InstructionDecoder::default();
    for byte in 0..=255u8 {
        decoder.decode(byte);
        let opr = byte >> 4;
        let opa = byte & 0xF;
        assert_eq!(decoder.opr, opr);
        assert_eq!(decoder.opa, opa);
        let two = matches!(opr, 1 | 4 | 5 | 7) || (opr == 2 && opa % 2 == 0);
        assert_eq!(decoder.two_byte, two);
        assert_eq!(decoder.needs_second_byte(), two);
        if two {
            assert_eq!(decoder.get_instruction(), None);
            decoder.decode_second(0x5C);
            let instr = decoder.get_instruction().unwrap();
            assert_eq!(instr.length(), 2);
            assert_eq!(instr.cycles(), 2);
            assert!(!decoder.needs_second_byte());
            assert_eq!(decoder.operand, 0x5C);
        } else {
            let instr = decoder.get_instruction().unwrap();
            assert_eq!(instr.length(), 1);
            assert_eq!(instr, decoder.decode_single_byte());
        }
    }
}

#[test]
fn decoder_operands() {
    let mut d = InstructionDecoder::new();
    d.decode_first(0x1A);
    d.decode_second(0x33);
    assert_eq!(d.get_instruction(), Some(Instruction::Jcn { condition: 0xA, addr_low: 0x33 }));
    d.decode_first(0x5F);
    d.decode_second(0x01);
    assert_eq!(d.get_instruction(), Some(Instruction::Jms { addr_high: 0xF, addr_low: 1 }));
    d.decode_first(0x7B);
    d.decode_second(0x80);
    assert_eq!(d.get_instruction(), Some(Instruction::Isz { reg: 0xB, addr_low: 0x80 }));
    d.decode_first(0x2E);
    d.decode_second(0x99);
    assert_eq!(d.get_instruction(), Some(Instruction::Fim { pair: 7, data: 0x99 }));
    assert_eq!(d.decode_two_byte(), Instruction::Fim { pair: 7, data: 0x99 });
    d.decode_first(0x2F);
    assert_eq!(d.get_instruction(), Some(Instruction::Src { pair: 7 }));
    d.decode_first(0x34);
    assert_eq!(d.get_instruction(), Some(Instruction::Fin { pair: 2 }));
    d.decode_first(0x35);
    assert_eq!(d.get_instruction(), Some(Instruction::Jin { pair: 2 }));
    d.decode_first(0x6C);
    assert_eq!(d.get_instruction(), Some(Instruction::Inc { reg: 0xC }));
    d.decode_first(0x93);
    assert_eq!(d.get_instruction(), Some(Instruction::Sub { reg: 3 }));
    d.decode_first(0xA4);
    assert_eq!(d.get_instruction(), Some(Instruction::Ld { reg: 4 }));
    d.decode_first(0xB5);
    assert_eq!(d.get_instruction(), Some(Instruction::Xch { reg: 5 }));
    d.decode_first(0xC6);
    assert_eq!(d.get_instruction(), Some(Instruction::Bbl { data: 6 }));
    d.decode_first(0xFE);
    assert_eq!(d.get_instruction(), Some(Instruction::Invalid { opcode: 0xFE }));
    d.decode_first(0xFF);
    assert_eq!(d.get_instruction(), Some(Instruction::Invalid { opcode: 0xFF }));
    d.decode_first(0x0B);
    assert_eq!(d.get_instruction(), Some(Instruction::Nop));
    // A first byte of a two-byte family, taken as a whole instruction,
    // is none.
    d.decode_first(0x40);
    assert_eq!(d.decode_single_byte(), Instruction::Invalid { opcode: 0x40 });
    d.decode_first(0x80);
    assert_eq!(d.decode_two_byte(), Instruction::Invalid { opcode: 0x80 });
}

#[test]
fn every_mnemonic() {
    let table: Vec<(u8, &str)> = vec![
        (0x00, "NOP"), (0x21, "SRC"), (0x30, "FIN"), (0x31, "JIN"), (0x60, "INC"),
        (0x80, "ADD"), (0x90, "SUB"), (0xA0, "LD"), (0xB0, "XCH"), (0xC0, "BBL"),
        (0xD0, "LDM"), (0xE0, "WRM"), (0xE1, "WMP"), (0xE2, "WRR"), (0xE3, "WPM"),
        (0xE4, "WR0"), (0xE5, "WR1"), (0xE6, "WR2"), (0xE7, "WR3"), (0xE8, "SBM"),
        (0xE9, "RDM"), (0xEA, "RDR"), (0xEB, "ADM"), (0xEC, "RD0"), (0xED, "RD1"),
        (0xEE, "RD2"), (0xEF, "RD3"), (0xF0, "CLB"), (0xF1, "CLC"), (0xF2, "IAC"),
        (0xF3, "CMC"), (0xF4, "CMA"), (0xF5, "RAL"), (0xF6, "RAR"), (0xF7, "TCC"),
        (0xF8, "DAC"), (0xF9, "TCS"), (0xFA, "STC"), (0xFB, "DAA"), (0xFC, "KBP"),
        (0xFD, "DCL"), (0xFE, "???"),
    ];
    let mut d = InstructionDecoder::new();
    for (byte, name) in table.iter() {
        d.decode_first(*byte);
        assert_eq!(d.get_instruction().unwrap().mnemonic(), *name);
    }
    let two: Vec<(u8, &str)> = vec![(0x10, "JCN"), (0x20, "FIM"), (0x40, "JUN"), (0x50, "JMS"), (0x70, "ISZ")];
    for (byte, name) in two.iter() {
        d.decode_first(*byte);
        d.decode_second(0);
        assert_eq!(d.get_instruction().unwrap().mnemonic(), *name);
    }
    assert_eq!(Instruction::Fin { pair: 0 }.cycles(), 2);
    assert_eq!(Instruction::Jin { pair: 0 }.cycles(), 2);
    assert_eq!(Instruction::Fin { pair: 0 }.length(), 1);
    assert_eq!(Instruction::Src { pair: 0 }.cycles(), 1);
}

#[test]
fn io_operations_of_instructions() {
    assert_eq!(io_operation(Instruction::Wrm), IoOperation::WriteRam);
    assert_eq!(io_operation(Instruction::Wmp), IoOperation::WriteRamPort);
    assert_eq!(io_operation(Instruction::Wrr), IoOperation::WriteRomPort);
    assert_eq!(io_operation(Instruction::Wpm), IoOperation::WriteProgramRam);
    assert_eq!(io_operation(Instruction::Wr2), IoOperation::WriteStatus(2));
    assert_eq!(io_operation(Instruction::Rdm), IoOperation::ReadRam);
    assert_eq!(io_operation(Instruction::Adm), IoOperation::ReadRam);
    assert_eq!(io_operation(Instruction::Sbm), IoOperation::ReadRam);
    assert_eq!(io_operation(Instruction::Rdr), IoOperation::ReadRomPort);
    assert_eq!(io_operation(Instruction::Rd3), IoOperation::ReadStatus(3));
    assert_eq!(io_operation(Instruction::Nop), IoOperation::Idle);
    assert_eq!(io_operation(Instruction::Ldm { data: 1 }), IoOperation::Idle);
}

#[test]
fn jcn_conditions() {
    let mut cpu = I4004::new();
    // accumulator zero, carry clear, test pin low
    assert!(cpu.evaluate_condition(0b0100));
    assert!(!cpu.evaluate_condition(0b0010));
    assert!(!cpu.evaluate_condition(0b0001));
    assert!(!cpu.evaluate_condition(0b0000));
    assert!(cpu.evaluate_condition(0b1000));
    assert!(!cpu.evaluate_condition(0b1100));
    assert!(cpu.evaluate_condition(0b1010));
    cpu.alu.set_accumulator(3);
    cpu.alu.set_carry(true);
    cpu.set_test_pin(true);
    assert!(!cpu.evaluate_condition(0b0100));
    assert!(cpu.evaluate_condition(0b0010));
    assert!(cpu.evaluate_condition(0b0001));
    assert!(cpu.evaluate_condition(0b0111));
    assert!(!cpu.evaluate_condition(0b1011));
    assert!(cpu.evaluate_condition(0b1100));
}

#[test]
fn execute_control_flow() {
    let mut cpu = I4004::new();
    cpu.registers.set_pc(0x3A2);
    cpu.execute(Instruction::Jun { addr_high: 0x1, addr_low: 0x23 }, 0);
    assert_eq!(cpu.pc(), 0x123);
    cpu.execute(Instruction::Jcn { condition: 0b0100, addr_low: 0x77 }, 0);
    assert_eq!(cpu.pc(), 0x177);
    cpu.execute(Instruction::Jcn { condition: 0b0010, addr_low: 0x11 }, 0);
    assert_eq!(cpu.pc(), 0x177);
    cpu.registers.set_pair(3, 0xEE);
    cpu.execute(Instruction::Jin { pair: 3 }, 0);
    assert_eq!(cpu.pc(), 0x1EE);
    cpu.registers.set_r(5, 0xE);
    cpu.execute(Instruction::Isz { reg: 5, addr_low: 0x40 }, 0);
    assert_eq!(cpu.pc(), 0x140);
    assert_eq!(cpu.register(5), 0xF);
    cpu.execute(Instruction::Isz { reg: 5, addr_low: 0x80 }, 0);
    assert_eq!(cpu.pc(), 0x140);
    assert_eq!(cpu.register(5), 0);
    cpu.execute(Instruction::Inc { reg: 5 }, 0);
    assert_eq!(cpu.register(5), 1);
}

#[test]
fn execute_data_and_io() {
    let mut cpu = I4004::new();
    cpu.execute(Instruction::Ldm { data: 7 }, 0);
    cpu.registers.set_r(2, 9);
    cpu.execute(Instruction::Add { reg: 2 }, 0);
    assert_eq!((cpu.accumulator(), cpu.carry()), (0, true));
    cpu.execute(Instruction::Ld { reg: 2 }, 0);
    assert_eq!(cpu.accumulator(), 9);
    cpu.execute(Instruction::Sub { reg: 2 }, 0);
    assert_eq!((cpu.accumulator(), cpu.carry()), (0, true));
    cpu.execute(Instruction::Rdm, 0xB);
    assert_eq!(cpu.accumulator(), 0xB);
    cpu.execute(Instruction::Clc, 0);
    cpu.execute(Instruction::Adm, 0x6);
    assert_eq!((cpu.accumulator(), cpu.carry()), (1, true));
    cpu.execute(Instruction::Sbm, 0x1);
    assert_eq!((cpu.accumulator(), cpu.carry()), (0, true));
    cpu.execute(Instruction::Rdr, 0x4);
    assert_eq!(cpu.accumulator(), 4);
    cpu.execute(Instruction::Rd2, 0xD);
    assert_eq!(cpu.accumulator(), 0xD);
    for instr in [
        Instruction::Nop,
        Instruction::Wrm,
        Instruction::Wmp,
        Instruction::Wrr,
        Instruction::Wpm,
        Instruction::Wr0,
        Instruction::Dcl,
        Instruction::Invalid { opcode: 0xFE },
    ] {
        cpu.execute(instr, 0x2);
        assert_eq!(cpu.accumulator(), 0xD);
    }
    cpu.execute(Instruction::Tcs, 0);
    assert_eq!((cpu.accumulator(), cpu.carry()), (10, false));
    cpu.execute(Instruction::Stc, 0);
    cpu.execute(Instruction::Daa, 0);
    assert_eq!((cpu.accumulator(), cpu.carry()), (0, true));
    cpu.execute(Instruction::Cma, 0);
    assert_eq!(cpu.accumulator(), 0xF);
    cpu.execute(Instruction::Iac, 0);
    cpu.execute(Instruction::Cmc, 0);
    cpu.execute(Instruction::Ral, 0);
    cpu.execute(Instruction::Rar, 0);
    cpu.execute(Instruction::Dac, 0);
    cpu.execute(Instruction::Tcc, 0);
    cpu.execute(Instruction::Kbp, 0);
    cpu.execute(Instruction::Clb, 0);
    assert_eq!((cpu.accumulator(), cpu.carry()), (0, false));
    cpu.registers.set_pair(0, 0x5C);
    cpu.execute(Instruction::Fin { pair: 3 }, 0);
    assert_eq!(cpu.register_pair(3), 0);
}

#[test]
fn cpu_phases_fetch_and_execute() {
    let mut cpu = I4004::new();
    let mut ctrl = ControlSignals::mcs4();
    cpu.registers.set_pc(0x2B7);
    assert_eq!(cpu.bus_output(BusCycle::A1), Some(0x7));
    cpu.latch(BusCycle::A1, 0x7, &mut ctrl, 0);
    assert_eq!(ctrl.sync.current, SignalLevel::High);
    assert_eq!(cpu.bus_output(BusCycle::A2), Some(0xB));
    cpu.latch(BusCycle::A2, 0xB, &mut ctrl, 1);
    assert_eq!(ctrl.sync.current, SignalLevel::Low);
    assert_eq!(cpu.bus_output(BusCycle::A3), Some(0x2));
    cpu.latch(BusCycle::A3, 0x2, &mut ctrl, 2);
    assert_eq!(ctrl.cm_rom(), 2);
    assert_eq!(cpu.bus_output(BusCycle::M1), None);
    // WRM = 0xE0
    cpu.latch(BusCycle::M1, 0x0, &mut ctrl, 3);
    cpu.latch(BusCycle::M2, 0xE, &mut ctrl, 4);
    cpu.alu.set_accumulator(0x9);
    cpu.latch(BusCycle::X1, 0, &mut ctrl, 5);
    assert_eq!(cpu.current_instruction(), Some(Instruction::Wrm));
    assert_eq!(ctrl.io, IoOperation::WriteRam);
    assert_eq!(cpu.bus_output(BusCycle::X2), Some(0x9));
    cpu.latch(BusCycle::X2, 0x9, &mut ctrl, 6);
    assert_eq!(cpu.bus_output(BusCycle::X3), None);
    cpu.latch(BusCycle::X3, 0, &mut ctrl, 7);
    assert_eq!(cpu.pc(), 0x2B8);
    let cycle = cpu.cycle_state();
    assert_eq!(cycle.instruction_count, 1);
    assert_eq!(cycle.cycle_count, 1);
    assert_eq!(cycle.phase, BusCycle::A1);
    assert_eq!(cycle.state, MachineState::Fetch1);
    cpu.latch(BusCycle::A1, 0, &mut ctrl, 8);
    assert_eq!(ctrl.io, IoOperation::Idle);
}

#[test]
fn cpu_tick_drives_the_bus() {
    let mut cpu = I4004::new();
    let mut ctrl = ControlSignals::mcs4();
    let mut bus = DataBus::new();
    let id = bus.add_driver("CPU");
    cpu.registers.set_pc(0x0C5);
    cpu.tick(BusCycle::A1, &mut bus, &mut ctrl, id, 0);
    assert_eq!(bus.read(), 0x5);
    cpu.tick(BusCycle::A2, &mut bus, &mut ctrl, id, 1);
    assert_eq!(bus.read(), 0xC);
    cpu.tick(BusCycle::A3, &mut bus, &mut ctrl, id, 2);
    assert_eq!(bus.read(), 0x0);
    assert!(bus.is_valid());
    cpu.tick(BusCycle::M1, &mut bus, &mut ctrl, id, 3);
    assert!(!bus.is_valid());
}

#[test]
fn cpu_chip_trait() {
    let mut cpu = I4004::default();
    assert_eq!(cpu.name(), "4004");
    cpu.alu.set_accumulator(3);
    cpu.registers.set_pc(0x10);
    Chip::tick(&mut cpu, BusCycle::A1);
    assert_eq!(cpu.cycle_state().phase, BusCycle::A2);
    cpu.reset();
    assert_eq!(cpu.pc(), 0);
    assert_eq!(cpu.accumulator(), 0);
    assert_eq!(cpu.cycle_state().phase, BusCycle::A1);
    let _ = TimingIo::new();
    let _ = TimingIo::default();
}
