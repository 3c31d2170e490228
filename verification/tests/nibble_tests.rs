use mcs4_emu::nibble;

#[test]
fn nibble_low_and_high() {
    assert_eq!(nibble::low(0xAB), 0xB);
    assert_eq!(nibble::high(0xAB), 0xA);
    assert_eq!(nibble::low(0x0F), 0xF);
    assert_eq!(nibble::high(0x0F), 0);
}

#[test]
fn nibble_join_drops_high_bits() {
    assert_eq!(nibble::join(0xA, 0xB), 0xAB);
    assert_eq!(nibble::join(0x1A, 0xFB), 0xAB);
}

#[test]
fn nibble_bits_round_trip() {
    for v in 0u8..16 {
        let n = nibble::from_bits(
            nibble::test_bit(v, 0),
            nibble::test_bit(v, 1),
            nibble::test_bit(v, 2),
            nibble::test_bit(v, 3),
        );
        assert_eq!(n, v);
    }
    assert!(nibble::test_bit(0b1000, 3));
    assert!(!nibble::test_bit(0b1000, 2));
    assert!(nibble::test_bit(0xF8, 3));
}
