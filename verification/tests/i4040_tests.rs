use mcs4_emu::chips::i4040::{decode_ext, CallStack, InterruptCtrl, Opcode4040, RegFile, I4040};
use mcs4_emu::system::mcs40::Mcs40System;

#[test]
fn interrupt_vectors_and_bbs_restore() {
    let mut cpu = I4040::new();
    cpu.pc = 0x100;
    cpu.intr.ein();
    cpu.intr.request();
    cpu.step();
    assert_eq!(cpu.pc, 0x003);
    // Simulate BBS restore
    let saved = cpu.intr.bbs_restore();
    assert_eq!(saved, 0);
}

#[test]
fn get_set_low_nibble_masking() {
    let mut rf = RegFile::new();
    rf.set(0, 0x1F);
    assert_eq!(rf.get(0), 0x0F);
}

#[test]
fn bank_switch_maps_r0_r7() {
    let mut rf = RegFile::new();
    rf.set(0, 0x3);
    assert_eq!(rf.get(0), 0x3);
    rf.db1();
    assert_eq!(rf.get(0), 0x0); // default value at index 16
    rf.set(0, 0x7);
    assert_eq!(rf.get(0), 0x7);
    rf.db0();
    assert_eq!(rf.get(0), 0x3);
}

#[test]
fn r8_r15_unaffected_by_bank() {
    let mut rf = RegFile::new();
    rf.set(8, 0x9);
    rf.db1();
    assert_eq!(rf.get(8), 0x9);
    rf.db0();
    assert_eq!(rf.get(8), 0x9);
}

#[test]
fn pair_helpers_work() {
    let mut rf = RegFile::new();
    rf.set_pair(0, 0xA, 0x5);
    assert_eq!(rf.get_pair(0), (0xA, 0x5));
    rf.db1();
    assert_eq!(rf.get_pair(0), (0x0, 0x0));
    rf.set_pair(0, 0x1, 0x2);
    assert_eq!(rf.get_pair(0), (0x1, 0x2));
    rf.db0();
    assert_eq!(rf.get_pair(0), (0xA, 0x5));
}

#[test]
fn push_pop_invariants() {
    let mut s = CallStack::new();
    for i in 0..7 {
        assert!(s.push(i).is_ok());
    }
    assert!(s.is_full());
    assert!(s.push(7).is_err());
    for i in (0..7).rev() {
        assert_eq!(s.pop().unwrap(), i);
    }
    assert!(s.is_empty());
    assert!(s.pop().is_err());
}

#[test]
fn stack_errors_and_masking() {
    let mut s = CallStack::default();
    assert_eq!(s.pop(), Err("stack_underflow"));
    assert_eq!(s.peek(), None);
    assert_eq!(s.push(0xF123), Ok(()));
    assert_eq!(s.peek(), Some(0x123));
    assert_eq!(s.depth(), 1);
    for i in 0..6 {
        s.push(i).unwrap();
    }
    assert_eq!(s.push(0x55), Err("stack_overflow"));
    assert_eq!(s.depth(), 7);
    assert_eq!(s.peek(), Some(5));
    let copy = s.clone();
    assert_eq!(copy.depth(), 7);
    assert_eq!(s.pop(), Ok(5));
    assert_eq!(copy.peek(), Some(5));
}

#[test]
fn push_then_pop_restores() {
    let mut s = CallStack::new();
    s.push(0x111).unwrap();
    for addr in [0u16, 1, 0xABC, 0xFFF] {
        s.push(addr).unwrap();
        assert_eq!(s.pop(), Ok(addr));
        assert_eq!(s.depth(), 1);
        assert_eq!(s.peek(), Some(0x111));
    }
}

#[test]
fn decode_ext_table() {
    let table = [
        (0x01u8, Opcode4040::Hlt),
        (0x02, Opcode4040::Bbs),
        (0x03, Opcode4040::Lcr),
        (0x04, Opcode4040::Or4),
        (0x05, Opcode4040::Or5),
        (0x06, Opcode4040::An6),
        (0x07, Opcode4040::An7),
        (0x08, Opcode4040::Db0),
        (0x09, Opcode4040::Db1),
        (0x0A, Opcode4040::Sb0),
        (0x0B, Opcode4040::Sb1),
        (0x0C, Opcode4040::Ein),
        (0x0D, Opcode4040::Din),
        (0x0E, Opcode4040::Rpm),
    ];
    for (byte, op) in table.iter() {
        assert_eq!(decode_ext(*byte), Some(*op));
    }
    assert_eq!(decode_ext(0x00), None);
    assert_eq!(decode_ext(0x0F), None);
    assert_eq!(decode_ext(0x10), None);
    assert_eq!(decode_ext(0xFF), None);
}

#[test]
fn interrupt_needs_enable() {
    let mut c = InterruptCtrl::default();
    c.request();
    assert!(!c.pending);
    assert_eq!(c.service(5), None);
    c.ein();
    assert_eq!(c.service(5), None);
    c.request();
    assert!(c.pending);
    c.din();
    assert_eq!(c.service(5), None);
    assert_eq!(c.src_save, 0);
    c.ein();
    assert_eq!(c.service(0x5A), Some(0x003));
    assert!(!c.enabled);
    assert!(!c.pending);
    assert_eq!(c.bbs_restore(), 0x5A);
    assert_eq!(c.service(1), None);
}

#[test]
fn interrupt_and_bbs_round_trip() {
    let mut cpu = I4040::new();
    cpu.pc = 0x2F0;
    cpu.src = 0x3C;
    cpu.execute(Opcode4040::Ein);
    cpu.intr.request();
    cpu.step();
    assert_eq!(cpu.pc, 0x003);
    assert_eq!(cpu.stack.depth(), 1);
    assert!(!cpu.intr.enabled);
    cpu.src = 0x11;
    cpu.step();
    assert_eq!(cpu.pc, 0x003);
    cpu.execute(Opcode4040::Bbs);
    assert_eq!(cpu.pc, 0x2F0);
    assert_eq!(cpu.src, 0x3C);
    assert_eq!(cpu.current_src(), 0x3C);
    assert!(cpu.stack.is_empty());
}

#[test]
fn halt_ends_on_interrupt() {
    let mut cpu = I4040::default();
    cpu.execute(Opcode4040::Hlt);
    assert!(cpu.halted);
    cpu.step();
    assert!(cpu.halted);
    cpu.execute(Opcode4040::Ein);
    cpu.intr.request();
    cpu.step();
    assert!(!cpu.halted);
    assert_eq!(cpu.pc, 0x003);
    cpu.hlt();
    assert!(cpu.halted);
    cpu.resume();
    assert!(!cpu.halted);
}

#[test]
fn bank_and_interrupt_switches() {
    let mut cpu = I4040::new();
    cpu.execute(Opcode4040::Db1);
    assert_eq!(cpu.regs.bank, 1);
    cpu.execute(Opcode4040::Db0);
    assert_eq!(cpu.regs.bank, 0);
    cpu.execute(Opcode4040::Ein);
    assert!(cpu.intr.enabled);
    cpu.execute(Opcode4040::Din);
    assert!(!cpu.intr.enabled);
    cpu.execute(Opcode4040::Lcr);
    cpu.execute(Opcode4040::Rpm);
    assert_eq!(cpu.pc, 0);
    cpu.execute(Opcode4040::Bbs);
    assert_eq!(cpu.pc, 0);
    assert_eq!(cpu.regs.map_index(3), 3);
    cpu.regs.db1();
    assert_eq!(cpu.regs.map_index(3), 19);
    assert_eq!(cpu.regs.map_index(12), 12);
    assert_eq!(RegFile::default().bank, 0);
}

#[test]
fn mcs40_system_starts_at_reset() {
    let sys = Mcs40System::new();
    assert_eq!(sys.cpu.pc, 0);
    assert!(!sys.cpu.halted);
    assert_eq!(Mcs40System::default().cpu.acc, 0);
}
