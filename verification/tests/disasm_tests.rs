use mcs4_emu::chips::disasm::{CpuType, Disassembler};

#[test]
fn disasm_one_labels_the_byte() {
    let d = Disassembler::new(CpuType::I4004);
    let line = d.disasm_one(&[0x00, 0xD5, 0x0F], 1);
    assert_eq!(line.address, 1);
    assert_eq!(line.bytes, vec![0xD5]);
    assert_eq!(line.mnemonic, "OPD5");
    assert_eq!(line.operands, "");
    assert_eq!(d.disasm_one(&[0x00, 0xD5, 0x0F], 2).mnemonic, "OP0F");
    let beyond = d.disasm_one(&[0x12], 7);
    assert_eq!(beyond.bytes, vec![0]);
    assert_eq!(beyond.mnemonic, "OP00");
}

#[test]
fn disasm_range_is_inclusive() {
    let d = Disassembler::new(CpuType::I4040);
    assert_eq!(d.cpu_type, CpuType::I4040);
    let rom = [0xA1u8, 0xB2, 0xC3, 0xD4];
    let lines = d.disasm_range(&rom, 1, 3);
    assert_eq!(lines.len(), 3);
    assert_eq!(lines[0].address, 1);
    assert_eq!(lines[0].mnemonic, "OPB2");
    assert_eq!(lines[2].address, 3);
    assert_eq!(lines[2].mnemonic, "OPD4");
    assert_eq!(d.disasm_range(&rom, 3, 1).len(), 0);
    assert_eq!(d.disasm_range(&rom, 2, 2).len(), 1);
    let tail = d.disasm_range(&rom, 65534, 65535);
    assert_eq!(tail.len(), 2);
    assert_eq!(tail[1].address, 65535);
    assert_eq!(tail[1].mnemonic, "OP00");
}
