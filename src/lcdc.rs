use vstd::prelude::*;

verus! {

/// The LCD control register: one byte whose bits switch the display
/// features on and off and select memory regions.
#[derive(Clone, Copy, Debug, PartialEq, Eq, Structural)]
pub struct LCDC {
    pub raw: u8,
}

impl LCDC {
    pub fn new() -> (r: LCDC)
        ensures
            r.raw == 0,
    {
        LCDC { raw: 0 }
    }

    /// Bit 7: the display and pixel unit are on.
    pub fn lcd_ppu_enable(&self) -> (r: bool)
        ensures
            r == (self.raw & 0x80 != 0),
    {
        self.raw & 0x80 != 0
    }

    /// Bit 6: the window's tile map is at 0x9C00, else at 0x9800.
    pub fn window_tile_map_area(&self) -> (r: u16)
        ensures
            r == (if self.raw & 0x40 != 0 { 0x9C00u16 } else { 0x9800u16 }),
    {
        if self.raw & 0x40 != 0 {
            0x9C00
        } else {
            0x9800
        }
    }

    /// Bit 5: the window layer is shown.
    pub fn window_enable(&self) -> (r: bool)
        ensures
            r == (self.raw & 0x20 != 0),
    {
        self.raw & 0x20 != 0
    }

    /// Bit 4: background and window tiles are indexed from 0x8000
    /// (unsigned), else from 0x8800 (signed).
    pub fn bg_window_tile_data_area(&self) -> (r: u16)
        ensures
            r == (if self.raw & 0x10 != 0 { 0x8000u16 } else { 0x8800u16 }),
    {
        if self.raw & 0x10 != 0 {
            0x8000
        } else {
            0x8800
        }
    }

    /// Bit 3: the background's tile map is at 0x9C00, else at 0x9800.
    pub fn bg_tile_map_area(&self) -> (r: u16)
        ensures
            r == (if self.raw & 0x08 != 0 { 0x9C00u16 } else { 0x9800u16 }),
    {
        if self.raw & 0x08 != 0 {
            0x9C00
        } else {
            0x9800
        }
    }

    /// Bit 2: objects are 8x16 pixels, else 8x8; returns (width, height).
    pub fn obj_size(&self) -> (r: (u8, u8))
        ensures
            r == (if self.raw & 0x04 != 0 { (8u8, 16u8) } else { (8u8, 8u8) }),
    {
        if self.raw & 0x04 != 0 {
            (8, 16)
        } else {
            (8, 8)
        }
    }

    /// Bit 1: objects are shown.
    pub fn obj_enable(&self) -> (r: bool)
        ensures
            r == (self.raw & 0x02 != 0),
    {
        self.raw & 0x02 != 0
    }

    /// Bit 0: background and window are shown.
    pub fn bg_window_enable(&self) -> (r: bool)
        ensures
            r == (self.raw & 0x01 != 0),
    {
        self.raw & 0x01 != 0
    }
}

} // verus!
