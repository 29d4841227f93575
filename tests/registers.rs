use gameboy::registers::{FlagsRegister, Register};

#[test]
fn paired_registers_round_trip() {
    let mut r = Register::new();
    for v in [0u16, 1, 0x00FF, 0x0100, 0x1234, 0xABCD, 0xFF00, 0xFFFF] {
        r.set_hl(v);
        assert_eq!(r.get_hl(), v);
        r.set_bc(v);
        assert_eq!(r.get_bc(), v);
        r.set_de(v);
        assert_eq!(r.get_de(), v);
    }
}

#[test]
fn paired_registers_split_big_endian() {
    let mut r = Register::new();
    r.set_hl(0x1234);
    assert_eq!((r.h, r.l), (0x12, 0x34));
    r.set_bc(0xBEEF);
    assert_eq!((r.b, r.c), (0xBE, 0xEF));
    r.set_de(0x0102);
    assert_eq!((r.d, r.e), (0x01, 0x02));
    assert_eq!(r.get_hl(), 0x1234);
}

#[test]
fn stack_pointer_accessors() {
    let mut r = Register::new();
    r.set_sp(0xFFFE);
    assert_eq!(r.get_sp(), 0xFFFE);
}

#[test]
fn flags_byte_low_nibble_clears() {
    for b in 0..=255u8 {
        assert_eq!(u8::from(FlagsRegister::from(b)), b & 0xF0);
    }
}

#[test]
fn flags_bit_positions() {
    let f = FlagsRegister::from(0x80);
    assert!(f.zero && !f.subtract && !f.half_carry && !f.carry);
    let f = FlagsRegister::from(0x10);
    assert!(!f.zero && !f.subtract && !f.half_carry && f.carry);
    let f = FlagsRegister { zero: false, subtract: true, half_carry: true, carry: false };
    assert_eq!(u8::from(f), 0x60);
}
