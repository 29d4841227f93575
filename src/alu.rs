use vstd::prelude::*;

use crate::registers::FlagsRegister;

verus! {

/// 8-bit addition with a carry-in: the low byte of the sum, with zero,
/// half-carry (out of the low nibble) and carry (out of bit 7).
pub open spec fn alu_add(a: u8, v: u8, carry_in: bool) -> (u8, FlagsRegister) {
    let c: int = if carry_in { 1 } else { 0 };
    let sum = a + v + c;
    let r = (sum % 256) as u8;
    (r, FlagsRegister { zero: r == 0, subtract: false, half_carry: a % 16 + v % 16 + c > 15, carry: sum > 255 })
}

/// 8-bit subtraction with a borrow-in: the difference modulo 256, with
/// half-carry when the low nibble borrows and carry when the whole byte does.
pub open spec fn alu_sub(a: u8, v: u8, carry_in: bool) -> (u8, FlagsRegister) {
    let c: int = if carry_in { 1 } else { 0 };
    let r = ((a - v - c) % 256) as u8;
    (r, FlagsRegister { zero: r == 0, subtract: true, half_carry: a % 16 < v % 16 + c, carry: a < v + c })
}

pub open spec fn logic_flags(r: u8, half_carry: bool) -> FlagsRegister {
    FlagsRegister { zero: r == 0, subtract: false, half_carry, carry: false }
}

pub open spec fn alu_and(a: u8, v: u8) -> (u8, FlagsRegister) {
    ((a & v) as u8, logic_flags((a & v) as u8, true))
}

pub open spec fn alu_or(a: u8, v: u8) -> (u8, FlagsRegister) {
    ((a | v) as u8, logic_flags((a | v) as u8, false))
}

pub open spec fn alu_xor(a: u8, v: u8) -> (u8, FlagsRegister) {
    ((a ^ v) as u8, logic_flags((a ^ v) as u8, false))
}

/// Increment: carry is left as it was.
pub open spec fn alu_inc(v: u8, f: FlagsRegister) -> (u8, FlagsRegister) {
    let r = ((v + 1) % 256) as u8;
    (r, FlagsRegister { zero: r == 0, subtract: false, half_carry: v % 16 == 15, carry: f.carry })
}

/// Decrement: carry is left as it was.
pub open spec fn alu_dec(v: u8, f: FlagsRegister) -> (u8, FlagsRegister) {
    let r = ((v + 255) % 256) as u8;
    (r, FlagsRegister { zero: r == 0, subtract: true, half_carry: v % 16 == 0, carry: f.carry })
}

/// Flags of the rotate and shift family: the bit shifted out goes to carry.
pub open spec fn shift_flags(r: u8, out: bool) -> FlagsRegister {
    FlagsRegister { zero: r == 0, subtract: false, half_carry: false, carry: out }
}

/// The byte rotated left by one place.
pub open spec fn rotate_left(v: u8) -> u8 {
    ((v % 128) * 2 + v / 128) as u8
}

/// Rotate left; bit 7 goes to bit 0 and to carry.
pub open spec fn alu_rlc(v: u8) -> (u8, FlagsRegister) {
    (rotate_left(v), shift_flags(rotate_left(v), v >= 128))
}

/// The byte after `n` rotations to the left.
pub open spec fn rlc_times(v: u8, n: nat) -> u8
    decreases n,
{
    if n == 0 {
        v
    } else {
        alu_rlc(rlc_times(v, (n - 1) as nat)).0
    }
}

/// Eight left rotations give the byte back; the carry that the eighth one
/// leaves is bit 0 of the byte, which is the bit 7 it started with whenever
/// the two bits agree.
pub proof fn rlc_eight_times(v: u8)
    ensures
        rlc_times(v, 8) == v,
        alu_rlc(rlc_times(v, 7)).1.carry == (v % 2 == 1),
        v / 128 == v % 2 ==> alu_rlc(rlc_times(v, 7)).1.carry == (v >= 128),
{
    reveal_with_fuel(rlc_times, 9);
    assert(rotate_left(rotate_left(rotate_left(rotate_left(rotate_left(rotate_left(rotate_left(
        rotate_left(v),
    ))))))) == v && (rotate_left(rotate_left(rotate_left(rotate_left(rotate_left(rotate_left(
        rotate_left(v),
    )))))) >= 128) == (v % 2 == 1)) by (bit_vector);
}

/// Rotate right; bit 0 goes to bit 7 and to carry.
pub open spec fn alu_rrc(v: u8) -> (u8, FlagsRegister) {
    let r = (v / 2 + (v % 2) * 128) as u8;
    (r, shift_flags(r, v % 2 == 1))
}

/// Rotate left through carry.
pub open spec fn alu_rl(v: u8, carry_in: bool) -> (u8, FlagsRegister) {
    let r = ((v % 128) * 2 + (if carry_in { 1int } else { 0 })) as u8;
    (r, shift_flags(r, v >= 128))
}

/// Rotate right through carry.
pub open spec fn alu_rr(v: u8, carry_in: bool) -> (u8, FlagsRegister) {
    let r = (v / 2 + (if carry_in { 128int } else { 0 })) as u8;
    (r, shift_flags(r, v % 2 == 1))
}

/// Shift left; bit 0 becomes 0.
pub open spec fn alu_sla(v: u8) -> (u8, FlagsRegister) {
    let r = ((v % 128) * 2) as u8;
    (r, shift_flags(r, v >= 128))
}

/// Arithmetic shift right; bit 7 keeps its value.
pub open spec fn alu_sra(v: u8) -> (u8, FlagsRegister) {
    let r = (v / 2 + (v / 128) * 128) as u8;
    (r, shift_flags(r, v % 2 == 1))
}

/// Logical shift right; bit 7 becomes 0.
pub open spec fn alu_srl(v: u8) -> (u8, FlagsRegister) {
    let r = (v / 2) as u8;
    (r, shift_flags(r, v % 2 == 1))
}

/// Exchange the nibbles; carry is cleared.
pub open spec fn alu_swap(v: u8) -> (u8, FlagsRegister) {
    let r = ((v % 16) * 16 + v / 16) as u8;
    (r, shift_flags(r, false))
}

/// Whether bit `n` (below 8) of `v` is set.
pub open spec fn bit_is_set(v: u8, n: u8) -> bool {
    v & (1u8 << n) != 0
}

/// BIT: zero tells whether the bit is clear; half-carry is set, carry kept.
pub open spec fn alu_bit(v: u8, n: u8, f: FlagsRegister) -> FlagsRegister {
    FlagsRegister { zero: !bit_is_set(v, n), subtract: false, half_carry: true, carry: f.carry }
}

/// SET: the byte with bit `n` set and the other bits kept.
pub open spec fn with_bit_set(v: u8, n: u8) -> u8 {
    v | (1u8 << n)
}

/// RES: the byte with bit `n` clear and the other bits kept.
pub open spec fn with_bit_reset(v: u8, n: u8) -> u8 {
    v & !(1u8 << n)
}

/// 16-bit addition into HL: half-carry out of bit 11, carry out of bit 15,
/// zero left as it was.
pub open spec fn alu_add_hl(hl: u16, v: u16, f: FlagsRegister) -> (u16, FlagsRegister) {
    let r = ((hl + v) % 65536) as u16;
    (r, FlagsRegister { zero: f.zero, subtract: false, half_carry: hl % 4096 + v % 4096 > 4095, carry: hl + v > 65535 })
}

/// The stack pointer plus a signed byte offset, with the flags that the
/// low-byte unsigned addition sets (zero and subtract clear).
pub open spec fn alu_sp_offset(sp: u16, e: u8) -> (u16, FlagsRegister) {
    let offset: int = if e < 128 { e as int } else { e - 256 };
    let r = ((sp + offset) % 65536) as u16;
    (r, FlagsRegister { zero: false, subtract: false, half_carry: sp % 16 + e % 16 > 15, carry: sp % 256 + e > 255 })
}

} // verus!
