use vstd::prelude::*;

verus! {

/// Offsets of the cartridge header fields that the loader reads.
pub const TITLE_BEGIN: usize = 0x0134;
pub const TITLE_END: usize = 0x0143;
pub const CARTRIDGE_TYPE: usize = 0x0147;
/// Bytes of a ROM image up to the end of its header.
pub const HEADER_END: usize = 0x0150;
/// Size of the external RAM that a cartridge starts with.
pub const RAM_SIZE: usize = 0x8000;

/// The bank controller that the header names.
#[derive(Clone, Copy, Debug, PartialEq, Eq, Structural)]
pub enum MbcType {
    RomOnly,
    Mbc1,
    Mbc2,
    Mbc3,
    Mbc5,
    Unknown,
}

pub open spec fn mbc_type_of(b: u8) -> MbcType {
    if b == 0x00 {
        MbcType::RomOnly
    } else if 0x01 <= b <= 0x03 {
        MbcType::Mbc1
    } else if 0x05 <= b <= 0x06 {
        MbcType::Mbc2
    } else if 0x0F <= b <= 0x13 {
        MbcType::Mbc3
    } else if 0x19 <= b <= 0x1E {
        MbcType::Mbc5
    } else {
        MbcType::Unknown
    }
}

/// Cartridge types that carry a battery.
pub open spec fn has_battery_of(b: u8) -> bool {
    b == 0x03 || b == 0x06 || b == 0x09 || b == 0x0D || b == 0x0F || b == 0x10 || b == 0x13 || b == 0x1B
        || b == 0x1E
}

/// What `String::from_utf8_lossy` makes of a byte string.
pub uninterp spec fn utf8_lossy(bytes: Seq<u8>) -> Seq<char>;

/// Relies on `String::from_utf8_lossy`: the text that the bytes encode, with
/// each invalid sequence replaced; no bytes give no text.
#[verifier::external_body]
fn lossy_text(bytes: &[u8]) -> (r: String)
    ensures
        r@ == utf8_lossy(bytes@),
        bytes@.len() == 0 ==> r@.len() == 0,
{
    String::from_utf8_lossy(bytes).into_owned()
}

/// Index of the first non-zero byte at or after `i`.
pub open spec fn skip_zeros(s: Seq<u8>, i: int) -> int
    decreases s.len() - i,
{
    if 0 <= i < s.len() && s[i] == 0 {
        skip_zeros(s, i + 1)
    } else {
        i
    }
}

/// End of `s[lo..j]` once its trailing zero bytes are dropped.
pub open spec fn drop_zeros(s: Seq<u8>, lo: int, j: int) -> int
    decreases j - lo,
{
    if lo < j && s[j - 1] == 0 {
        drop_zeros(s, lo, j - 1)
    } else {
        j
    }
}

/// The bytes with leading and trailing zero bytes removed.
pub open spec fn trim_zeros(s: Seq<u8>) -> Seq<u8> {
    let lo = skip_zeros(s, 0);
    s.subrange(lo, drop_zeros(s, lo, s.len() as int))
}

/// The cartridge title: the header's title bytes without surrounding NULs.
/// (A NUL byte is always the one-byte character U+0000, so trimming bytes
/// and then decoding gives what decoding and trimming NULs would.)
fn title_of(header: &[u8]) -> (r: String)
    ensures
        r@ == utf8_lossy(trim_zeros(header@)),
{
    let n = header.len();
    let mut lo: usize = 0;
    while lo < n && header[lo] == 0
        invariant
            lo <= n,
            n == header@.len(),
            skip_zeros(header@, lo as int) == skip_zeros(header@, 0),
        decreases n - lo,
    {
        lo += 1;
    }
    let mut hi: usize = n;
    while hi > lo && header[hi - 1] == 0
        invariant
            lo <= hi <= n,
            n == header@.len(),
            lo == skip_zeros(header@, 0),
            drop_zeros(header@, lo as int, hi as int) == drop_zeros(header@, lo as int, n as int),
        decreases hi,
    {
        hi -= 1;
    }
    let mut bytes: Vec<u8> = Vec::new();
    let mut i: usize = lo;
    while i < hi
        invariant
            lo <= i <= hi <= n,
            n == header@.len(),
            bytes@ == header@.subrange(lo as int, i as int),
        decreases hi - i,
    {
        bytes.push(header[i]);
        i += 1;
    }
    proof {
        assert(bytes@ == trim_zeros(header@));
    }
    lossy_text(bytes.as_slice())
}

/// A cartridge: its ROM image, external RAM and bank controller state.
pub struct Cartridge {
    pub rom: Vec<u8>,
    pub ram: Vec<u8>,
    pub has_battery: bool,
    pub mbc_type: MbcType,
    pub rom_bank: u16,
    pub ram_bank: u8,
    pub ram_enabled: bool,
    pub title: String,
}

impl Cartridge {
    /// Build a cartridge from a ROM image; `None` when the image is too short
    /// to hold a header. Type and battery come from byte 0x147, the title
    /// from bytes 0x134-0x142; RAM starts as 32 KiB of zeros, disabled, with
    /// ROM bank 1 switched in.
    pub fn from_rom(rom: Vec<u8>) -> (r: Option<Cartridge>)
        ensures
            rom@.len() < HEADER_END <==> r is None,
            r matches Some(c) ==> {
                &&& c.rom@ == rom@
                &&& c.ram@ == Seq::new(RAM_SIZE as nat, |i: int| 0u8)
                &&& c.mbc_type == mbc_type_of(rom@[CARTRIDGE_TYPE as int])
                &&& c.has_battery == has_battery_of(rom@[CARTRIDGE_TYPE as int])
                &&& c.rom_bank == 1
                &&& c.ram_bank == 0
                &&& !c.ram_enabled
                &&& c.title@ == utf8_lossy(trim_zeros(rom@.subrange(TITLE_BEGIN as int, TITLE_END as int)))
            },
    {
        if rom.len() < HEADER_END {
            return None;
        }
        let mut header: Vec<u8> = Vec::new();
        let mut i: usize = TITLE_BEGIN;
        while i < TITLE_END
            invariant
                TITLE_BEGIN <= i <= TITLE_END,
                rom@.len() >= HEADER_END,
                header@ == rom@.subrange(TITLE_BEGIN as int, i as int),
            decreases TITLE_END - i,
        {
            header.push(rom[i]);
            i += 1;
        }
        let title = title_of(header.as_slice());
        let mbc_byte = rom[CARTRIDGE_TYPE];
        let mbc_type = if mbc_byte == 0x00 {
            MbcType::RomOnly
        } else if 0x01 <= mbc_byte && mbc_byte <= 0x03 {
            MbcType::Mbc1
        } else if 0x05 <= mbc_byte && mbc_byte <= 0x06 {
            MbcType::Mbc2
        } else if 0x0F <= mbc_byte && mbc_byte <= 0x13 {
            MbcType::Mbc3
        } else if 0x19 <= mbc_byte && mbc_byte <= 0x1E {
            MbcType::Mbc5
        } else {
            MbcType::Unknown
        };
        let has_battery = match mbc_byte {
            0x03 | 0x06 | 0x09 | 0x0D | 0x0F | 0x10 | 0x13 | 0x1B | 0x1E => true,
            _ => false,
        };
        let ram = vec![0u8; RAM_SIZE];
        proof {
            assert(ram@ == Seq::new(RAM_SIZE as nat, |i: int| 0u8));
        }
        Some(
            Cartridge {
                rom,
                ram,
                has_battery,
                mbc_type,
                rom_bank: 1,
                ram_bank: 0,
                ram_enabled: false,
                title,
            },
        )
    }

    /// The ROM byte that a read of 0x0000-0x7FFF sees: bank 0 below 0x4000,
    /// the switched bank above it (wrapping round the image); 0xFF where the
    /// image has no such byte or for any other address.
    pub open spec fn rom_byte(&self, address: u16) -> u8 {
        let len = self.rom@.len();
        if address <= 0x3FFF {
            if address < len { self.rom@[address as int] } else { 0xFF }
        } else if address <= 0x7FFF && len > 0 {
            self.rom@[(self.rom_bank * 0x4000 + (address - 0x4000)) % len as int]
        } else {
            0xFF
        }
    }

    pub fn read_rom(&self, address: u16) -> (r: u8)
        ensures
            r == self.rom_byte(address),
    {
        if address <= 0x3FFF {
            if (address as usize) < self.rom.len() {
                self.rom[address as usize]
            } else {
                0xFF
            }
        } else if address <= 0x7FFF && self.rom.len() > 0 {
            let offset = (self.rom_bank as usize) * 0x4000;
            let actual_addr = offset + (address as usize - 0x4000);
            self.rom[actual_addr % self.rom.len()]
        } else {
            0xFF
        }
    }

    /// A write to the ROM area drives the bank controller; only the MBC1
    /// responds, the others ignore it.
    pub fn write_rom(&mut self, address: u16, value: u8)
        ensures
            *final(self) == if old(self).mbc_type == MbcType::Mbc1 {
                old(self).mbc1_after(address, value)
            } else {
                *old(self)
            },
    {
        match self.mbc_type {
            MbcType::Mbc1 => self.handle_mbc1_write(address, value),
            _ => {},
        }
    }

    /// MBC1: 0x0000-0x1FFF enables RAM when the low nibble is 0xA;
    /// 0x2000-0x3FFF selects ROM bank `value & 0x1F`, where 0 means 1.
    pub open spec fn mbc1_after(self, address: u16, value: u8) -> Cartridge {
        if address <= 0x1FFF {
            Cartridge { ram_enabled: value % 16 == 0x0A, ..self }
        } else if address <= 0x3FFF {
            Cartridge { rom_bank: if value % 32 == 0 { 1 } else { (value % 32) as u16 }, ..self }
        } else {
            self
        }
    }

    fn handle_mbc1_write(&mut self, address: u16, value: u8)
        ensures
            *final(self) == old(self).mbc1_after(address, value),
    {
        if address <= 0x1FFF {
            self.ram_enabled = (value % 16) == 0x0A;
        } else if address <= 0x3FFF {
            let mut bank = (value % 32) as u16;
            if bank == 0 {
                bank = 1;
            }
            self.rom_bank = bank;
        }
    }

    /// Index in RAM of external address `address` (0xA000 and up).
    pub open spec fn ram_index(&self, address: u16) -> int {
        self.ram_bank * 0x2000 + (address - 0xA000)
    }

    /// The byte that a read of external RAM sees: 0xFF while RAM is disabled
    /// or past its end.
    pub open spec fn ram_byte(&self, address: u16) -> u8 {
        if self.ram_enabled && self.ram_index(address) < self.ram@.len() {
            self.ram@[self.ram_index(address)]
        } else {
            0xFF
        }
    }

    pub fn read_ram(&self, address: u16) -> (r: u8)
        requires
            address >= 0xA000,
        ensures
            r == self.ram_byte(address),
    {
        if !self.ram_enabled {
            return 0xFF;
        }
        let index = (self.ram_bank as usize) * 0x2000 + (address as usize - 0xA000);
        if index < self.ram.len() {
            self.ram[index]
        } else {
            0xFF
        }
    }

    /// Store into external RAM; ignored while RAM is disabled or past its end.
    pub fn write_ram(&mut self, address: u16, value: u8)
        requires
            address >= 0xA000,
        ensures
            final(self).ram@ == if old(self).ram_enabled && old(self).ram_index(address) < old(
                self,
            ).ram@.len() {
                old(self).ram@.update(old(self).ram_index(address), value)
            } else {
                old(self).ram@
            },
            final(self).rom == old(self).rom,
            final(self).title == old(self).title,
            final(self).has_battery == old(self).has_battery,
            final(self).mbc_type == old(self).mbc_type,
            final(self).rom_bank == old(self).rom_bank,
            final(self).ram_bank == old(self).ram_bank,
            final(self).ram_enabled == old(self).ram_enabled,
    {
        if !self.ram_enabled {
            return;
        }
        let index = (self.ram_bank as usize) * 0x2000 + (address as usize - 0xA000);
        if index < self.ram.len() {
            self.ram.set(index, value);
        }
    }
}

} // verus!
