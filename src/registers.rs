use vstd::prelude::*;

verus! {

pub const ZERO_FLAG_BYTE_POSITION: u8 = 7;
pub const SUBTRACT_FLAG_BYTE_POSITION: u8 = 6;
pub const HALF_CARRY_FLAG_BYTE_POSITION: u8 = 5;
pub const CARRY_FLAG_BYTE_POSITION: u8 = 4;

/// The four condition flags of the processor.
#[derive(Clone, Copy, Debug, PartialEq, Eq, Structural)]
pub struct FlagsRegister {
    pub zero: bool,
    pub subtract: bool,
    pub half_carry: bool,
    pub carry: bool,
}

/// The packed form of the flags: zero in bit 7, subtract in bit 6,
/// half-carry in bit 5, carry in bit 4, the low nibble clear.
pub open spec fn flags_to_byte(f: FlagsRegister) -> u8 {
    ((if f.zero { 0x80u8 } else { 0u8 }) | (if f.subtract { 0x40u8 } else { 0u8 }) | (if f.half_carry {
        0x20u8
    } else {
        0u8
    }) | (if f.carry { 0x10u8 } else { 0u8 })) as u8
}

/// The flags that a packed byte holds; its low nibble is ignored.
pub open spec fn flags_from_byte(b: u8) -> FlagsRegister {
    FlagsRegister {
        zero: b & 0x80 != 0,
        subtract: b & 0x40 != 0,
        half_carry: b & 0x20 != 0,
        carry: b & 0x10 != 0,
    }
}

impl FlagsRegister {
    pub fn new() -> (r: FlagsRegister)
        ensures
            !r.zero && !r.subtract && !r.half_carry && !r.carry,
    {
        FlagsRegister { zero: false, subtract: false, half_carry: false, carry: false }
    }
}

impl From<FlagsRegister> for u8 {
    fn from(flag: FlagsRegister) -> (r: u8) {
        let z: u8 = if flag.zero { 1 } else { 0 };
        let s: u8 = if flag.subtract { 1 } else { 0 };
        let h: u8 = if flag.half_carry { 1 } else { 0 };
        let c: u8 = if flag.carry { 1 } else { 0 };
        let r = (z << ZERO_FLAG_BYTE_POSITION) | (s << SUBTRACT_FLAG_BYTE_POSITION) | (h
            << HALF_CARRY_FLAG_BYTE_POSITION) | (c << CARRY_FLAG_BYTE_POSITION);
        proof {
            assert(z <= 1 && s <= 1 && h <= 1 && c <= 1 ==> ((z << 7u8) | (s << 6u8) | (h << 5u8) | (c
                << 4u8)) == ((if z == 1 { 0x80u8 } else { 0u8 }) | (if s == 1 { 0x40u8 } else { 0u8 })
                | (if h == 1 { 0x20u8 } else { 0u8 }) | (if c == 1 { 0x10u8 } else { 0u8 })))
                by (bit_vector);
        }
        r
    }
}

impl vstd::std_specs::convert::FromSpecImpl<FlagsRegister> for u8 {
    open spec fn obeys_from_spec() -> bool {
        true
    }

    open spec fn from_spec(flag: FlagsRegister) -> u8 {
        flags_to_byte(flag)
    }
}

impl From<u8> for FlagsRegister {
    fn from(byte: u8) -> (r: FlagsRegister) {
        let zero = ((byte >> ZERO_FLAG_BYTE_POSITION) & 1) != 0;
        let subtract = ((byte >> SUBTRACT_FLAG_BYTE_POSITION) & 1) != 0;
        let half_carry = ((byte >> HALF_CARRY_FLAG_BYTE_POSITION) & 1) != 0;
        let carry = ((byte >> CARRY_FLAG_BYTE_POSITION) & 1) != 0;
        proof {
            assert((((byte >> 7u8) & 1) != 0) == (byte & 0x80 != 0) && (((byte >> 6u8) & 1) != 0) == (
            byte & 0x40 != 0) && (((byte >> 5u8) & 1) != 0) == (byte & 0x20 != 0) && (((byte >> 4u8)
                & 1) != 0) == (byte & 0x10 != 0)) by (bit_vector);
        }
        FlagsRegister { zero, subtract, half_carry, carry }
    }
}

impl vstd::std_specs::convert::FromSpecImpl<u8> for FlagsRegister {
    open spec fn obeys_from_spec() -> bool {
        true
    }

    open spec fn from_spec(byte: u8) -> FlagsRegister {
        flags_from_byte(byte)
    }
}

/// Packing the flags that a byte holds gives the byte back with its low
/// nibble cleared.
pub proof fn flags_byte_round_trip(b: u8)
    ensures
        flags_to_byte(flags_from_byte(b)) == b & 0xF0,
{
    assert(((if b & 0x80 != 0 { 0x80u8 } else { 0u8 }) | (if b & 0x40 != 0 { 0x40u8 } else { 0u8 })
        | (if b & 0x20 != 0 { 0x20u8 } else { 0u8 }) | (if b & 0x10 != 0 { 0x10u8 } else { 0u8 }))
        == b & 0xF0) by (bit_vector);
}

/// A flags value survives packing into a byte and reading it back.
pub proof fn flags_value_round_trip(f: FlagsRegister)
    ensures
        flags_from_byte(flags_to_byte(f)) == f,
{
    let (z, s, h, c) = (f.zero, f.subtract, f.half_carry, f.carry);
    let b = flags_to_byte(f);
    assert(b == ((if z { 0x80u8 } else { 0u8 }) | (if s { 0x40u8 } else { 0u8 }) | (if h { 0x20u8 } else { 0u8 }) | (if c { 0x10u8 } else { 0u8 })));
    assert(((b & 0x80 != 0) == z && (b & 0x40 != 0) == s && (b & 0x20 != 0) == h && (b & 0x10 != 0) == c)) by (bit_vector)
        requires
            b == ((if z { 0x80u8 } else { 0u8 }) | (if s { 0x40u8 } else { 0u8 }) | (if h { 0x20u8 } else { 0u8 }) | (if c { 0x10u8 } else { 0u8 })),
    ;
}

/// A 16-bit value made of a high and a low byte.
pub open spec fn pair(hi: u8, lo: u8) -> u16 {
    (hi * 256 + lo) as u16
}

proof fn lemma_pair_bits(hi: u8, lo: u8)
    ensures
        ((hi as u16) << 8u16) | (lo as u16) == pair(hi, lo),
{
    assert(((hi as u16) << 8u16) | (lo as u16) == (hi * 256 + lo) as u16) by (bit_vector);
}

proof fn lemma_split_bits(v: u16)
    ensures
        ((v >> 8u16) & 0xFF) as u8 == v / 256,
        (v & 0xFF) as u8 == v % 256,
        pair((v / 256) as u8, (v % 256) as u8) == v,
{
    assert(((v >> 8u16) & 0xFF) as u8 == v / 256 && (v & 0xFF) as u8 == v % 256) by (bit_vector);
}

/// Writing a pair with the value it reads back changes nothing.
pub proof fn paired_register_identity(r: Register)
    ensures
        (Register { h: (r.hl() / 256) as u8, l: (r.hl() % 256) as u8, ..r }) == r,
        (Register { b: (r.bc() / 256) as u8, c: (r.bc() % 256) as u8, ..r }) == r,
        (Register { d: (r.de() / 256) as u8, e: (r.de() % 256) as u8, ..r }) == r,
{
}

/// The register file: seven 8-bit registers, the flags, and the stack pointer.
#[derive(Clone, Copy, Debug, PartialEq, Eq, Structural)]
pub struct Register {
    pub a: u8,
    pub b: u8,
    pub c: u8,
    pub d: u8,
    pub e: u8,
    pub f: FlagsRegister,
    pub h: u8,
    pub l: u8,
    pub sp: u16,
}

impl Register {
    pub open spec fn hl(&self) -> u16 {
        pair(self.h, self.l)
    }

    pub open spec fn bc(&self) -> u16 {
        pair(self.b, self.c)
    }

    pub open spec fn de(&self) -> u16 {
        pair(self.d, self.e)
    }

    pub open spec fn new_spec() -> Register {
        Register {
            a: 0,
            b: 0,
            c: 0,
            d: 0,
            e: 0,
            f: FlagsRegister { zero: false, subtract: false, half_carry: false, carry: false },
            h: 0,
            l: 0,
            sp: 0,
        }
    }

    /// All registers zero, all flags clear.
    pub fn new() -> (r: Register)
        ensures
            r == Register::new_spec(),
    {
        Register { a: 0, b: 0, c: 0, d: 0, e: 0, f: FlagsRegister::new(), h: 0, l: 0, sp: 0 }
    }

    pub fn get_hl(&self) -> (r: u16)
        ensures
            r == self.hl(),
    {
        proof {
            lemma_pair_bits(self.h, self.l);
        }
        ((self.h as u16) << 8) | self.l as u16
    }

    /// Afterwards `get_hl` returns `value`; no other register changes.
    pub fn set_hl(&mut self, value: u16)
        ensures
            final(self).hl() == value,
            *final(self) == (Register { h: (value / 256) as u8, l: (value % 256) as u8, ..*old(self) }),
    {
        proof {
            lemma_split_bits(value);
        }
        self.h = ((value >> 8) & 0xFF) as u8;
        self.l = (value & 0xFF) as u8;
    }

    pub fn get_bc(&self) -> (r: u16)
        ensures
            r == self.bc(),
    {
        proof {
            lemma_pair_bits(self.b, self.c);
        }
        ((self.b as u16) << 8) | self.c as u16
    }

    /// Afterwards `get_bc` returns `value`; no other register changes.
    pub fn set_bc(&mut self, value: u16)
        ensures
            final(self).bc() == value,
            *final(self) == (Register { b: (value / 256) as u8, c: (value % 256) as u8, ..*old(self) }),
    {
        proof {
            lemma_split_bits(value);
        }
        self.b = ((value >> 8) & 0xFF) as u8;
        self.c = (value & 0xFF) as u8;
    }

    pub fn get_de(&self) -> (r: u16)
        ensures
            r == self.de(),
    {
        proof {
            lemma_pair_bits(self.d, self.e);
        }
        ((self.d as u16) << 8) | self.e as u16
    }

    /// Afterwards `get_de` returns `value`; no other register changes.
    pub fn set_de(&mut self, value: u16)
        ensures
            final(self).de() == value,
            *final(self) == (Register { d: (value / 256) as u8, e: (value % 256) as u8, ..*old(self) }),
    {
        proof {
            lemma_split_bits(value);
        }
        self.d = ((value >> 8) & 0xFF) as u8;
        self.e = (value & 0xFF) as u8;
    }

    pub fn get_sp(&self) -> (r: u16)
        ensures
            r == self.sp,
    {
        self.sp
    }

    pub fn set_sp(&mut self, value: u16)
        ensures
            *final(self) == (Register { sp: value, ..*old(self) }),
    {
        self.sp = value;
    }
}

} // verus!
