use vstd::prelude::*;

use crate::cartridge::Cartridge;
use crate::gpu::{GPU, LcdRegisters, Object};
use crate::timer::Timer;

verus! {

pub const VRAM_BEGIN: usize = 0x8000;
pub const VRAM_END: usize = 0x9FFF;
pub const VRAM_SIZE: usize = 0x2000;

pub const WRAM_BEGIN: usize = 0xC000;
pub const WRAM_END: usize = 0xCFFF;
pub const WRAM_SIZE: usize = 0x1000;

pub const SWITCH_BEGIN: usize = 0xA000;
pub const SWITCH_END: usize = 0xBFFF;
pub const SWITCH_SIZE: usize = 0x2000;

pub const OAM_BEGIN: usize = 0xFE00;
pub const OAM_END: usize = 0xFE9F;
pub const OAM_SIZE: usize = 0xA0;

pub const IO_BEGIN: usize = 0xFF00;
pub const IO_END: usize = 0xFF7F;
pub const IO_SIZE: usize = 0x80;

pub const HRAM_BEGIN: usize = 0xFF80;
pub const HRAM_END: usize = 0xFFFE;
pub const HRAM_SIZE: usize = 0x7F;

/// The address that DMA copies from for source page `value`.
pub open spec fn dma_source(value: u8) -> int {
    value * 256
}

impl Object {
    /// The object after the first `n` bytes of an attribute record apply.
    pub open spec fn with_record(self, record: Seq<u8>, n: int) -> Object
        decreases n,
    {
        if n <= 0 {
            self
        } else {
            self.with_record(record, n - 1).with_attribute(n - 1, record[n - 1])
        }
    }
}

/// The system bus: routes each address to the cartridge, video memory,
/// work RAM, attribute memory, the timer and display registers, I/O, high
/// RAM or the interrupt enable register.
pub struct MemoryBus {
    pub gpu: GPU,
    pub timer: Timer,
    pub cartridge: Cartridge,
    pub wram_bank: [u8; WRAM_SIZE],
    pub hram: [u8; HRAM_SIZE],
    pub io: [u8; IO_SIZE],
    pub interrupt_enable: u8,
}

impl MemoryBus {
    pub open spec fn wf(&self) -> bool {
        self.gpu.wf() && self.timer.wf()
    }

    /// The byte that a read of `address` returns.
    pub open spec fn read_spec(&self, address: u16) -> u8 {
        let a = address as int;
        let lcd = self.gpu.lcd;
        if a == 0xFF04 {
            (self.timer.divider / 256) as u8
        } else if a == 0xFF05 {
            self.timer.tima
        } else if a == 0xFF06 {
            self.timer.tma
        } else if a == 0xFF07 {
            self.timer.tac
        } else if a <= 0x7FFF {
            self.cartridge.rom_byte(address)
        } else if a <= VRAM_END {
            self.gpu.vram@[a - VRAM_BEGIN]
        } else if a <= SWITCH_END {
            self.cartridge.ram_byte(address)
        } else if a <= WRAM_END {
            self.wram_bank@[a - WRAM_BEGIN]
        } else if 0xE000 <= a <= 0xFDFF {
            if a - 0xE000 < WRAM_SIZE { self.wram_bank@[a - 0xE000] } else { 0xFF }
        } else if OAM_BEGIN <= a <= OAM_END {
            self.gpu.oam@[a - OAM_BEGIN]
        } else if a == 0xFF40 {
            lcd.control.raw
        } else if a == 0xFF42 {
            lcd.scroll_y
        } else if a == 0xFF43 {
            lcd.scroll_x
        } else if a == 0xFF44 {
            lcd.ly
        } else if a == 0xFF45 {
            lcd.lyc
        } else if a == 0xFF47 {
            lcd.bg_palette
        } else if a == 0xFF48 {
            lcd.obj_palette_0
        } else if a == 0xFF49 {
            lcd.obj_palette_1
        } else if a == 0xFF4A {
            lcd.window_y
        } else if a == 0xFF4B {
            lcd.window_x
        } else if IO_BEGIN <= a <= IO_END {
            self.io@[a - IO_BEGIN]
        } else if HRAM_BEGIN <= a <= HRAM_END {
            self.hram@[a - HRAM_BEGIN]
        } else if a == 0xFFFF {
            self.interrupt_enable
        } else {
            0xFF
        }
    }

    /// `self` and `old` agree on every part but the ones marked.
    pub open spec fn same_but(
        &self,
        old: &MemoryBus,
        gpu: bool,
        timer: bool,
        cartridge: bool,
        ram: bool,
        io: bool,
    ) -> bool {
        &&& !gpu ==> self.gpu == old.gpu
        &&& !timer ==> self.timer == old.timer
        &&& !cartridge ==> self.cartridge == old.cartridge
        &&& !ram ==> self.wram_bank == old.wram_bank && self.hram == old.hram
        &&& !io ==> self.io == old.io && self.interrupt_enable == old.interrupt_enable
    }

    /// `self.gpu` is `old` with the display registers `lcd`.
    pub open spec fn lcd_is(&self, old: &MemoryBus, lcd: LcdRegisters) -> bool {
        self.gpu == (GPU { lcd, ..old.gpu }) && self.same_but(old, true, false, false, false, false)
    }

    /// After a DMA from page `value`: attribute memory holds the 160 bytes
    /// that were readable from `value * 256` on, and every object holds the
    /// record that its four bytes give.
    pub open spec fn dma_done(&self, old: &MemoryBus, value: u8) -> bool {
        &&& self.gpu.oam@ == Seq::new(OAM_SIZE as nat, |j: int| old.read_spec((dma_source(value) + j) as u16))
        &&& forall|k: int|
            0 <= k < 40 ==> #[trigger] self.gpu.object_data@[k] == old.gpu.object_data@[k].with_record(
                self.gpu.oam@.subrange(4 * k, 4 * k + 4),
                4,
            )
        &&& self.gpu.object_data@.len() == 40
        &&& self.gpu == (GPU { oam: self.gpu.oam, object_data: self.gpu.object_data, ..old.gpu })
        &&& self.same_but(old, true, false, false, false, false)
    }

    /// What a write of `value` to `address` does.
    pub open spec fn written(&self, old: &MemoryBus, address: u16, value: u8) -> bool {
        let a = address as int;
        let lcd = old.gpu.lcd;
        if a == 0xFF04 {
            self.timer == (Timer { divider: 0, ..old.timer }) && self.same_but(old, false, true, false, false, false)
        } else if a == 0xFF05 {
            self.timer == (Timer { tima: value, ..old.timer }) && self.same_but(old, false, true, false, false, false)
        } else if a == 0xFF06 {
            self.timer == (Timer { tma: value, ..old.timer }) && self.same_but(old, false, true, false, false, false)
        } else if a == 0xFF07 {
            self.timer == (Timer { tac: value, ..old.timer }) && self.same_but(old, false, true, false, false, false)
        } else if a <= 0x7FFF {
            self.cartridge == (if old.cartridge.mbc_type == crate::cartridge::MbcType::Mbc1 {
                old.cartridge.mbc1_after(address, value)
            } else {
                old.cartridge
            }) && self.same_but(old, false, false, true, false, false)
        } else if a <= VRAM_END {
            self.gpu.vram_written(&old.gpu, a - VRAM_BEGIN, value) && self.same_but(old, true, false, false, false, false)
        } else if a <= SWITCH_END {
            &&& self.cartridge.ram@ == if old.cartridge.ram_enabled && old.cartridge.ram_index(address)
                < old.cartridge.ram@.len() {
                old.cartridge.ram@.update(old.cartridge.ram_index(address), value)
            } else {
                old.cartridge.ram@
            }
            &&& self.cartridge == (Cartridge { ram: self.cartridge.ram, ..old.cartridge })
            &&& self.same_but(old, false, false, true, false, false)
        } else if a <= WRAM_END {
            self.wram_bank@ == old.wram_bank@.update(a - WRAM_BEGIN, value) && self.hram == old.hram
                && self.same_but(old, false, false, false, true, false)
        } else if 0xE000 <= a <= 0xFDFF {
            self.wram_bank@ == (if a - 0xE000 < WRAM_SIZE {
                old.wram_bank@.update(a - 0xE000, value)
            } else {
                old.wram_bank@
            }) && self.hram == old.hram && self.same_but(old, false, false, false, true, false)
        } else if OAM_BEGIN <= a <= OAM_END {
            self.gpu.oam_written(&old.gpu, a - OAM_BEGIN, value) && self.same_but(old, true, false, false, false, false)
        } else if a == 0xFF46 {
            self.dma_done(old, value)
        } else if a == 0xFF40 {
            self.lcd_is(old, LcdRegisters { control: crate::lcdc::LCDC { raw: value }, ..lcd })
        } else if a == 0xFF42 {
            self.lcd_is(old, LcdRegisters { scroll_y: value, ..lcd })
        } else if a == 0xFF43 {
            self.lcd_is(old, LcdRegisters { scroll_x: value, ..lcd })
        } else if a == 0xFF45 {
            self.lcd_is(old, LcdRegisters { lyc: value, ..lcd })
        } else if a == 0xFF47 {
            self.lcd_is(old, LcdRegisters { bg_palette: value, ..lcd })
        } else if a == 0xFF48 {
            self.lcd_is(old, LcdRegisters { obj_palette_0: value, ..lcd })
        } else if a == 0xFF49 {
            self.lcd_is(old, LcdRegisters { obj_palette_1: value, ..lcd })
        } else if a == 0xFF4A {
            self.lcd_is(old, LcdRegisters { window_y: value, ..lcd })
        } else if a == 0xFF4B {
            self.lcd_is(old, LcdRegisters { window_x: value, ..lcd })
        } else if IO_BEGIN <= a <= IO_END {
            self.io@ == old.io@.update(a - IO_BEGIN, value) && self.interrupt_enable == old.interrupt_enable
                && self.same_but(old, false, false, false, false, true)
        } else if HRAM_BEGIN <= a <= HRAM_END {
            self.hram@ == old.hram@.update(a - HRAM_BEGIN, value) && self.wram_bank == old.wram_bank
                && self.same_but(old, false, false, false, true, false)
        } else if a == 0xFFFF {
            self.interrupt_enable == value && self.io == old.io && self.same_but(old, false, false, false, false, true)
        } else {
            self.same_but(old, false, false, false, false, false)
        }
    }

    /// A bus with a fresh display and timer, the given cartridge, and every
    /// RAM byte zero.
    pub fn new(cartridge: Cartridge) -> (r: MemoryBus)
        ensures
            r.wf(),
            r.cartridge == cartridge,
            r.timer.divider == 0 && r.timer.tima == 0 && r.timer.tma == 0 && r.timer.tac == 0,
            r.gpu.modes == crate::gpu::Modes::OAM && r.gpu.lcd == LcdRegisters::new_spec(),
            forall|i: int| 0 <= i < WRAM_SIZE ==> r.wram_bank@[i] == 0,
            forall|i: int| 0 <= i < HRAM_SIZE ==> r.hram@[i] == 0,
            forall|i: int| 0 <= i < IO_SIZE ==> r.io@[i] == 0,
            r.interrupt_enable == 0,
    {
        MemoryBus {
            gpu: GPU::new(),
            timer: Timer::new(),
            cartridge,
            wram_bank: [0u8; WRAM_SIZE],
            hram: [0u8; HRAM_SIZE],
            io: [0u8; IO_SIZE],
            interrupt_enable: 0,
        }
    }

    #[verifier::rlimit(60)]
    pub fn read_byte(&self, address: u16) -> (r: u8)
        ensures
            r == self.read_spec(address),
    {
        let addr = address as usize;
        if addr == 0xFF04 {
            let d = self.timer.divider;
            proof {
                assert((d >> 8u16) as u8 == (d / 256) as u8) by (bit_vector);
            }
            (d >> 8) as u8
        } else if addr == 0xFF05 {
            self.timer.tima
        } else if addr == 0xFF06 {
            self.timer.tma
        } else if addr == 0xFF07 {
            self.timer.tac
        } else if addr <= 0x7FFF {
            self.cartridge.read_rom(address)
        } else if addr <= VRAM_END {
            self.gpu.vram[addr - VRAM_BEGIN]
        } else if addr <= SWITCH_END {
            self.cartridge.read_ram(address)
        } else if addr <= WRAM_END {
            self.wram_bank[addr - WRAM_BEGIN]
        } else if 0xE000 <= addr && addr <= 0xFDFF {
            // Echo RAM mirrors work RAM; past its end nothing answers.
            if addr - 0xE000 < WRAM_SIZE {
                self.wram_bank[addr - 0xE000]
            } else {
                0xFF
            }
        } else if OAM_BEGIN <= addr && addr <= OAM_END {
            self.gpu.oam[addr - OAM_BEGIN]
        } else if addr == 0xFF40 {
            self.gpu.lcd.control.raw
        } else if addr == 0xFF42 {
            self.gpu.lcd.scroll_y
        } else if addr == 0xFF43 {
            self.gpu.lcd.scroll_x
        } else if addr == 0xFF44 {
            self.gpu.lcd.ly
        } else if addr == 0xFF45 {
            self.gpu.lcd.lyc
        } else if addr == 0xFF47 {
            self.gpu.lcd.bg_palette
        } else if addr == 0xFF48 {
            self.gpu.lcd.obj_palette_0
        } else if addr == 0xFF49 {
            self.gpu.lcd.obj_palette_1
        } else if addr == 0xFF4A {
            self.gpu.lcd.window_y
        } else if addr == 0xFF4B {
            self.gpu.lcd.window_x
        } else if IO_BEGIN <= addr && addr <= IO_END {
            self.io[addr - IO_BEGIN]
        } else if HRAM_BEGIN <= addr && addr <= HRAM_END {
            self.hram[addr - HRAM_BEGIN]
        } else if addr == 0xFFFF {
            self.interrupt_enable
        } else {
            0xFF
        }
    }

    #[verifier::rlimit(100)]
    pub fn write_byte(&mut self, address: u16, value: u8)
        requires
            old(self).wf(),
        ensures
            final(self).wf(),
            final(self).written(old(self), address, value),
    {
        let addr = address as usize;
        if addr == 0xFF04 {
            // Any write resets the divider.
            self.timer.divider = 0;
        } else if addr == 0xFF05 {
            self.timer.tima = value;
        } else if addr == 0xFF06 {
            self.timer.tma = value;
        } else if addr == 0xFF07 {
            self.timer.tac = value;
        } else if addr <= 0x7FFF {
            self.cartridge.write_rom(address, value);
        } else if addr <= VRAM_END {
            self.gpu.write_vram(addr - VRAM_BEGIN, value);
        } else if addr <= SWITCH_END {
            self.cartridge.write_ram(address, value);
        } else if addr <= WRAM_END {
            self.wram_bank[addr - WRAM_BEGIN] = value;
        } else if 0xE000 <= addr && addr <= 0xFDFF {
            if addr - 0xE000 < WRAM_SIZE {
                self.wram_bank[addr - 0xE000] = value;
            }
        } else if OAM_BEGIN <= addr && addr <= OAM_END {
            self.gpu.write_oam(addr - OAM_BEGIN, value);
        } else if addr == 0xFF46 {
            self.perform_dma(value);
        } else {
            self.write_register(address, value);
        }
    }

    /// Writes to the display registers, I/O, high RAM and interrupt enable.
    #[verifier::rlimit(60)]
    fn write_register(&mut self, address: u16, value: u8)
        requires
            old(self).wf(),
            address > WRAM_END,
            !(0xE000 <= address <= OAM_END),
            address != 0xFF04 && address != 0xFF05 && address != 0xFF06 && address != 0xFF07,
            address != 0xFF46,
        ensures
            final(self).wf(),
            final(self).written(old(self), address, value),
    {
        let addr = address as usize;
        if addr == 0xFF40 {
            self.gpu.lcd.control.raw = value;
        } else if addr == 0xFF42 {
            self.gpu.lcd.scroll_y = value;
        } else if addr == 0xFF43 {
            self.gpu.lcd.scroll_x = value;
        } else if addr == 0xFF45 {
            self.gpu.lcd.lyc = value;
        } else if addr == 0xFF47 {
            self.gpu.lcd.bg_palette = value;
        } else if addr == 0xFF48 {
            self.gpu.lcd.obj_palette_0 = value;
        } else if addr == 0xFF49 {
            self.gpu.lcd.obj_palette_1 = value;
        } else if addr == 0xFF4A {
            self.gpu.lcd.window_y = value;
        } else if addr == 0xFF4B {
            self.gpu.lcd.window_x = value;
        } else if IO_BEGIN <= addr && addr <= IO_END {
            self.io[addr - IO_BEGIN] = value;
        } else if HRAM_BEGIN <= addr && addr <= HRAM_END {
            self.hram[addr - HRAM_BEGIN] = value;
        } else if addr == 0xFFFF {
            self.interrupt_enable = value;
        }
    }

    /// Copy 160 bytes from `value * 256` on into attribute memory, one byte
    /// at a time through the normal read path.
    #[verifier::rlimit(100)]
    fn perform_dma(&mut self, value: u8)
        requires
            old(self).wf(),
        ensures
            final(self).wf(),
            final(self).dma_done(old(self), value),
    {
        let base_address = value as u16 * 256;
        let ghost g = *old(self);
        let ghost reads = Seq::new(OAM_SIZE as nat, |j: int| g.read_spec((dma_source(value) + j) as u16));
        let mut i: u16 = 0;
        while i < 0xA0
            invariant
                i <= 0xA0,
                base_address == dma_source(value),
                self.wf(),
                self.gpu.object_data@.len() == 40,
                self.same_but(&g, true, false, false, false, false),
                self.gpu == (GPU { oam: self.gpu.oam, object_data: self.gpu.object_data, ..g.gpu }),
                reads == Seq::new(OAM_SIZE as nat, |j: int| g.read_spec((dma_source(value) + j) as u16)),
                forall|j: int| 0 <= j < i ==> #[trigger] self.gpu.oam@[j] == reads[j],
                forall|j: int| i <= j < OAM_SIZE ==> #[trigger] self.gpu.oam@[j] == g.gpu.oam@[j],
                forall|k: int|
                    0 <= k < 40 ==> #[trigger] self.gpu.object_data@[k] == g.gpu.object_data@[k].with_record(
                        reads.subrange(4 * k, 4 * k + 4),
                        if i - 4 * k <= 0 {
                            0
                        } else if i - 4 * k >= 4 {
                            4
                        } else {
                            i - 4 * k
                        },
                    ),
            decreases 0xA0 - i,
        {
            let data = self.read_byte(base_address + i);
            proof {
                assert(data == reads[i as int]);
            }
            let ghost before = self.gpu.object_data@;
            self.gpu.write_oam(i as usize, data);
            proof {
                let k0 = i as int / 4;
                let rec = reads.subrange(4 * k0, 4 * k0 + 4);
                assert(rec[i as int - 4 * k0] == data);
                assert forall|k: int| 0 <= k < 40 implies #[trigger] self.gpu.object_data@[k]
                    == g.gpu.object_data@[k].with_record(
                    reads.subrange(4 * k, 4 * k + 4),
                    if i + 1 - 4 * k <= 0 {
                        0
                    } else if i + 1 - 4 * k >= 4 {
                        4
                    } else {
                        i + 1 - 4 * k
                    },
                ) by {
                    if k == k0 {
                        assert(self.gpu.object_data@[k] == before[k].with_attribute(i as int % 4, data));
                    }
                }
            }
            i += 1;
        }
        proof {
            assert(self.gpu.oam@ =~= reads);
        }
    }
}

} // verus!
