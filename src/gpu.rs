use vstd::prelude::*;

use crate::bus::{OAM_SIZE, VRAM_SIZE};
use crate::lcdc::LCDC;
use crate::tile::{color_id_at, Tile};

verus! {

pub const NUM_OBJ: usize = 40;
pub const NUM_TILES: usize = 384;
pub const SCREEN_WIDTH: usize = 160;
pub const SCREEN_HEIGHT: usize = 144;
/// Bytes of the RGBA framebuffer: four per pixel, row-major.
pub const CANVAS_SIZE: usize = 92160;

/// Which palette register an object's colors go through.
#[derive(Clone, Copy, Debug, PartialEq, Eq, Structural)]
pub enum Palette {
    BGP,
    OBJ,
}

/// An opaque display color.
#[derive(Clone, Copy, Debug, PartialEq, Eq, Structural)]
pub struct Rgb {
    pub r: u8,
    pub g: u8,
    pub b: u8,
}

/// The four shades of the display, lightest first.
pub open spec fn shade_color(shade: int) -> Rgb {
    if shade == 0 {
        Rgb { r: 155, g: 188, b: 15 }
    } else if shade == 1 {
        Rgb { r: 139, g: 172, b: 15 }
    } else if shade == 2 {
        Rgb { r: 48, g: 98, b: 48 }
    } else {
        Rgb { r: 15, g: 56, b: 15 }
    }
}

impl Palette {
    /// The display color of a shade 0-3; `None` for any other value.
    pub fn map_color(&self, color: u8) -> (r: Option<Rgb>)
        ensures
            r == (if color < 4 { Some(shade_color(color as int)) } else { None }),
    {
        match color {
            0 => Some(Rgb { r: 155, g: 188, b: 15 }),
            1 => Some(Rgb { r: 139, g: 172, b: 15 }),
            2 => Some(Rgb { r: 48, g: 98, b: 48 }),
            3 => Some(Rgb { r: 15, g: 56, b: 15 }),
            _ => None,
        }
    }
}

/// The interrupts that one update requests: none, one of the two, or both.
#[derive(Clone, Copy, Debug, PartialEq, Eq, Structural)]
pub enum Interrupt {
    NoInterrupt,
    VBlank,
    LCDStat,
    Both,
}

/// The request that holds `a` and `b` together.
pub open spec fn combine(a: Interrupt, b: Interrupt) -> Interrupt {
    match (a, b) {
        (Interrupt::NoInterrupt, _) => b,
        (_, Interrupt::NoInterrupt) => a,
        (Interrupt::VBlank, Interrupt::VBlank) => Interrupt::VBlank,
        (Interrupt::LCDStat, Interrupt::LCDStat) => Interrupt::LCDStat,
        _ => Interrupt::Both,
    }
}

impl Interrupt {
    /// Add the request `other` to this one.
    pub fn add(&mut self, other: Interrupt)
        ensures
            *final(self) == combine(*old(self), other),
    {
        match *self {
            Interrupt::NoInterrupt => *self = other,
            Interrupt::VBlank => {
                if other == Interrupt::LCDStat || other == Interrupt::Both {
                    *self = Interrupt::Both;
                }
            },
            Interrupt::LCDStat => {
                if other == Interrupt::VBlank || other == Interrupt::Both {
                    *self = Interrupt::Both;
                }
            },
            Interrupt::Both => {},
        }
    }
}

/// The four display modes.
#[derive(Clone, Copy, Debug, PartialEq, Eq, Structural)]
pub enum Modes {
    HBlank,
    VBlank,
    OAM,
    Pixel,
}

/// One sprite, with its screen position already unbiased (y - 16, x - 8).
#[derive(Clone, Copy, Debug, PartialEq, Eq, Structural)]
pub struct Object {
    pub x: i16,
    pub y: i16,
    pub tile_index: usize,
    pub palette: Palette,
    pub x_flip: bool,
    pub y_flip: bool,
    pub priority: bool,
}

impl Object {
    pub open spec fn default_spec() -> Object {
        Object {
            x: -16i16,
            y: -8i16,
            tile_index: 0,
            palette: Palette::BGP,
            x_flip: false,
            y_flip: false,
            priority: false,
        }
    }

    /// The object after byte `byte` (0-3) of its attribute record is written:
    /// y, x, tile index, then the flags byte.
    pub open spec fn with_attribute(self, byte: int, value: u8) -> Object {
        if byte == 0 {
            Object { y: (value - 16) as i16, ..self }
        } else if byte == 1 {
            Object { x: (value - 8) as i16, ..self }
        } else if byte == 2 {
            Object { tile_index: value as usize, ..self }
        } else {
            Object {
                palette: if value & 0x10 != 0 { Palette::OBJ } else { Palette::BGP },
                x_flip: value & 0x20 != 0,
                y_flip: value & 0x40 != 0,
                priority: value & 0x80 == 0,
                ..self
            }
        }
    }
}

impl Default for Object {
    /// A hidden object, off the top left of the screen.
    fn default() -> (r: Object)
        ensures
            r == Object::default_spec(),
    {
        Object {
            x: -16,
            y: -8,
            tile_index: 0,
            palette: Palette::BGP,
            x_flip: false,
            y_flip: false,
            priority: false,
        }
    }
}

/// The display's registers: control, scroll, scanline, compare, palettes
/// and window position.
#[derive(Clone, Copy, Debug, PartialEq, Eq, Structural)]
pub struct LcdRegisters {
    pub control: LCDC,
    pub scroll_y: u8,
    pub scroll_x: u8,
    pub ly: u8,
    pub lyc: u8,
    pub bg_palette: u8,
    pub obj_palette_0: u8,
    pub obj_palette_1: u8,
    pub window_y: u8,
    pub window_x: u8,
}

impl LcdRegisters {
    pub open spec fn new_spec() -> LcdRegisters {
        LcdRegisters {
            control: LCDC { raw: 0 },
            scroll_y: 0,
            scroll_x: 0,
            ly: 0,
            lyc: 0,
            bg_palette: 0,
            obj_palette_0: 0,
            obj_palette_1: 0,
            window_y: 0,
            window_x: 0,
        }
    }

    /// All registers zero.
    pub fn new() -> (r: LcdRegisters)
        ensures
            r == LcdRegisters::new_spec(),
    {
        LcdRegisters {
            control: LCDC::new(),
            scroll_y: 0,
            scroll_x: 0,
            ly: 0,
            lyc: 0,
            bg_palette: 0,
            obj_palette_0: 0,
            obj_palette_1: 0,
            window_y: 0,
            window_x: 0,
        }
    }
}

/// The color index of one pixel of a tile row, from the row's low and high
/// bit planes; `bit` is 7 for the leftmost pixel.
pub open spec fn plane_pixel(lo: u8, hi: u8, bit: u8) -> u8 {
    (((hi >> bit) & 1) * 2 + ((lo >> bit) & 1)) as u8
}

/// The color index of pixel (row, column) of tile `t` as the 16 raw bytes
/// of video memory give it.
pub open spec fn raw_tile_pixel(vram: Seq<u8>, t: int, row: int, column: int) -> u8 {
    plane_pixel(vram[16 * t + 2 * row], vram[16 * t + 2 * row + 1], (7 - column) as u8)
}

/// The two bits of a packed tile at pixel position `q`.
spec fn field2(c: u128, q: int) -> u128 {
    (c >> (2 * q) as u128) & 3
}

proof fn lemma_or_field(packed: u128, c: u128, p: u128, q: u128)
    requires
        c < 4,
        p < 64,
        q < 64,
    ensures
        ((packed | (c << (2 * p))) >> (2 * q)) & 3 == (if q == p {
            ((packed >> (2 * p)) & 3) | c
        } else {
            (packed >> (2 * q)) & 3
        }),
        (0u128 >> (2 * q)) & 3 == 0,
        (0u128 | c) == c,
{
    assert(((packed | (c << (2 * p))) >> (2 * q)) & 3 == (if q == p {
        ((packed >> (2 * p)) & 3) | c
    } else {
        (packed >> (2 * q)) & 3
    }) && (0u128 >> (2 * q)) & 3 == 0 && (0u128 | c) == c) by (bit_vector)
        requires
            c < 4,
            p < 64,
            q < 64,
    ;
}

/// The shade (0-3) that a palette register gives a color index (0-3):
/// bits `2 * id` and `2 * id + 1` of the register.
pub open spec fn shade_of(palette: u8, color_id: u8) -> u8 {
    (palette >> ((color_id * 2) as u8)) & 3
}

/// Index in the framebuffer of the first byte of pixel (x, line).
pub open spec fn pixel_base(line: int, x: int) -> int {
    (line * 160 + x) * 4
}

/// Byte `j` (0-3) of the RGBA form of a color.
pub open spec fn rgba(c: Rgb, j: int) -> u8 {
    if j == 0 {
        c.r
    } else if j == 1 {
        c.g
    } else if j == 2 {
        c.b
    } else {
        255
    }
}

/// The framebuffer shows pixel (x, line) as `shown` says: a color, or, for
/// `None`, the bytes that `before` held there.
pub open spec fn shows(canvas: Seq<u8>, before: Seq<u8>, line: int, x: int, shown: Option<Rgb>) -> bool {
    forall|j: int|
        0 <= j < 4 ==> #[trigger] canvas[pixel_base(line, x) + j] == match shown {
            Some(c) => rgba(c, j),
            None => before[pixel_base(line, x) + j],
        }
}

/// Every byte of the framebuffer outside row `line` is as in `before`.
pub open spec fn other_rows_kept(canvas: Seq<u8>, before: Seq<u8>, line: int) -> bool {
    forall|i: int|
        0 <= i < CANVAS_SIZE && !(line * 640 <= i < line * 640 + 640) ==> #[trigger] canvas[i] == before[i]
}

/// The tile store index of a tile-map entry: unsigned from 0x8000, or
/// signed around tile 256 from 0x8800 (bytes 128-255 give tiles 128-255,
/// bytes 0-127 give tiles 256-383).
pub open spec fn tile_of_map_entry(unsigned_area: bool, raw: u8) -> int {
    if unsigned_area || raw >= 128 {
        raw as int
    } else {
        raw + 256
    }
}

/// With object display off, or with none of the first n objects painting
/// pixel x, the pixel keeps what the background pass gave it.
proof fn lemma_no_objects_drawn(g: GPU, n: int, x: int)
    requires
        g.lcd.control.raw & 0x02 == 0,
    ensures
        g.after_objects(n, x) == g.after_objects(0, x),
    decreases n,
{
    if n > 0 {
        lemma_no_objects_drawn(g, n - 1, x);
    }
}

/// A transparent object pixel (color index 0) never changes what the line
/// shows there, whatever the object's priority.
pub proof fn transparent_object_pixel(g: GPU, k: int, x: int)
    requires
        0 <= k,
        g.obj_cid(g.object_data@[k], x) == 0,
    ensures
        !g.obj_draws(k, x),
        g.after_objects(k + 1, x) == g.after_objects(k, x),
{
}

/// Background priority: an object pixel with color index other than 0 is
/// hidden where the object lacks priority and the background's color index
/// is not 0, and drawn over the background wherever the object has priority.
pub proof fn object_priority(g: GPU, k: int, x: int)
    requires
        0 <= k,
        g.lcd.control.raw & 0x02 != 0,
        g.on_line(g.object_data@[k]),
        g.object_data@[k].x <= x < g.object_data@[k].x + 8,
        g.obj_tile(g.object_data@[k]) < NUM_TILES,
        g.obj_cid(g.object_data@[k], x) != 0,
    ensures
        !g.object_data@[k].priority && g.bg_id(x) != 0 ==> g.after_objects(k + 1, x) == g.after_objects(k, x),
        g.object_data@[k].priority ==> g.after_objects(k + 1, x) == Some(g.obj_color(k, x)),
{
}

pub struct GPU {
    pub vram: [u8; VRAM_SIZE],
    pub oam: [u8; OAM_SIZE],
    pub canvas_buffer: [u8; CANVAS_SIZE],
    pub tiles: Vec<Tile>,
    pub object_data: [Object; NUM_OBJ],
    pub lcd: LcdRegisters,
    pub modes: Modes,
    pub cycles: u32,
    pub lyc_flag: bool,
    pub lyc_interrupt_bool: bool,
}

impl GPU {
    /// The tile store has its 384 entries, and the scanline stays on the
    /// screen outside vertical blank and at most 153 within it.
    pub open spec fn wf(&self) -> bool {
        &&& self.tiles@.len() == NUM_TILES
        &&& self.lcd.ly <= 153
        &&& self.modes != Modes::VBlank ==> self.lcd.ly < 144
    }

    /// All fields but the framebuffer agree.
    pub open spec fn same_but_canvas(&self, other: &GPU) -> bool {
        &&& self.vram == other.vram
        &&& self.oam == other.oam
        &&& self.tiles == other.tiles
        &&& self.object_data == other.object_data
        &&& self.lcd == other.lcd
        &&& self.modes == other.modes
        &&& self.cycles == other.cycles
        &&& self.lyc_flag == other.lyc_flag
        &&& self.lyc_interrupt_bool == other.lyc_interrupt_bool
    }

    pub open spec fn bg_enabled(&self) -> bool {
        self.lcd.control.raw & 0x01 != 0
    }

    /// Whether pixel x of the current line belongs to the window layer.
    pub open spec fn in_window(&self, x: int) -> bool {
        let lcd = self.lcd;
        let wx7: int = if lcd.window_x >= 7 { lcd.window_x - 7 } else { lcd.window_x + 249 };
        lcd.control.raw & 0x20 != 0 && lcd.ly >= lcd.window_y && x >= wx7
    }

    /// Coordinates of pixel x of the current line in the tile map it reads:
    /// window-relative, or scrolled and wrapped on the 256x256 background.
    pub open spec fn map_coords(&self, x: int) -> (int, int) {
        let lcd = self.lcd;
        if self.in_window(x) {
            (x + 7 - lcd.window_x, lcd.ly - lcd.window_y)
        } else {
            ((x + lcd.scroll_x) % 256, (lcd.ly + lcd.scroll_y) % 256)
        }
    }

    /// Offset in video memory of the tile map that pixel x reads.
    pub open spec fn map_base(&self, x: int) -> int {
        let raw = self.lcd.control.raw;
        let high = if self.in_window(x) { raw & 0x40 != 0 } else { raw & 0x08 != 0 };
        if high { 0x1C00 } else { 0x1800 }
    }

    /// The tile store index that pixel x of the current line reads.
    pub open spec fn bg_tile(&self, x: int) -> int {
        let (mx, my) = self.map_coords(x);
        let raw = self.vram@[self.map_base(x) + (my / 8) * 32 + mx / 8];
        tile_of_map_entry(self.lcd.control.raw & 0x10 != 0, raw)
    }

    /// The background or window color index at pixel x of the current line
    /// (0 where that layer is off).
    pub open spec fn bg_id(&self, x: int) -> u8 {
        if self.bg_enabled() {
            let (mx, my) = self.map_coords(x);
            color_id_at(self.tiles@[self.bg_tile(x)].color, my % 8, mx % 8)
        } else {
            0
        }
    }

    pub open spec fn bg_color(&self, x: int) -> Rgb {
        shade_color(shade_of(self.lcd.bg_palette, self.bg_id(x)) as int)
    }

    pub open spec fn obj_height(&self) -> int {
        if self.lcd.control.raw & 0x04 != 0 { 16 } else { 8 }
    }

    /// Whether object `o` spans the current line.
    pub open spec fn on_line(&self, o: Object) -> bool {
        o.y <= self.lcd.ly && o.y + self.obj_height() > self.lcd.ly
    }

    /// The row of the object that the current line crosses, after a
    /// vertical flip.
    pub open spec fn obj_row(&self, o: Object) -> int {
        let r = self.lcd.ly - o.y;
        if o.y_flip { self.obj_height() - 1 - r } else { r }
    }

    /// The tile that the current line of the object is drawn from; a tall
    /// object uses an even/odd tile pair.
    pub open spec fn obj_tile(&self, o: Object) -> int {
        if self.obj_height() == 16 {
            (o.tile_index & 0xFE) + (if self.obj_row(o) >= 8 { 1int } else { 0 })
        } else {
            o.tile_index as int
        }
    }

    pub open spec fn obj_cid(&self, o: Object, x: int) -> u8 {
        let ox = x - o.x;
        let column = if o.x_flip { 7 - ox } else { ox };
        color_id_at(self.tiles@[self.obj_tile(o)].color, self.obj_row(o) % 8, column)
    }

    /// Whether object k paints pixel x of the current line: it spans the
    /// pixel, its tile exists, its color index there is not 0, and it has
    /// priority or the background there has color index 0.
    pub open spec fn obj_draws(&self, k: int, x: int) -> bool {
        let o = self.object_data@[k];
        &&& self.lcd.control.raw & 0x02 != 0
        &&& self.on_line(o)
        &&& o.x <= x < o.x + 8
        &&& self.obj_tile(o) < NUM_TILES
        &&& self.obj_cid(o, x) != 0
        &&& (o.priority || self.bg_id(x) == 0)
    }

    pub open spec fn obj_color(&self, k: int, x: int) -> Rgb {
        let o = self.object_data@[k];
        let pal = if o.palette == Palette::OBJ { self.lcd.obj_palette_0 } else { self.lcd.obj_palette_1 };
        shade_color(shade_of(pal, self.obj_cid(o, x)) as int)
    }

    /// The color of the last of the first n objects that paints pixel x.
    pub open spec fn sprite_top(&self, n: int, x: int) -> Option<Rgb>
        decreases n,
    {
        if n <= 0 {
            None
        } else if self.obj_draws(n - 1, x) {
            Some(self.obj_color(n - 1, x))
        } else {
            self.sprite_top(n - 1, x)
        }
    }

    /// What pixel x of the current line shows once the first n objects are
    /// drawn over the background; `None` where nothing was drawn.
    pub open spec fn after_objects(&self, n: int, x: int) -> Option<Rgb> {
        match self.sprite_top(n, x) {
            Some(c) => Some(c),
            None => if self.bg_enabled() { Some(self.bg_color(x)) } else { None },
        }
    }

    /// What a rendered scanline shows at pixel x.
    pub open spec fn rendered_pixel(&self, x: int) -> Option<Rgb> {
        self.after_objects(NUM_OBJ as int, x)
    }

    /// `self` is `old` after byte `index` of attribute memory took `value`:
    /// the byte is stored and the object that owns it takes the new field.
    pub open spec fn oam_written(&self, old: &GPU, index: int, value: u8) -> bool {
        &&& self.oam@ == old.oam@.update(index, value)
        &&& self.object_data@ == old.object_data@.update(
            index / 4,
            old.object_data@[index / 4].with_attribute(index % 4, value),
        )
        &&& self.vram == old.vram
        &&& self.canvas_buffer == old.canvas_buffer
        &&& self.tiles == old.tiles
        &&& self.lcd == old.lcd
        &&& self.modes == old.modes
        &&& self.cycles == old.cycles
        &&& self.lyc_flag == old.lyc_flag
        &&& self.lyc_interrupt_bool == old.lyc_interrupt_bool
    }

    /// `self` is `old` after byte `addr` of video memory took `value`: the
    /// byte is stored, and when it belongs to one of the 384 tiles that tile
    /// holds, pixel by pixel, what its 16 raw bytes now say.
    pub open spec fn vram_written(&self, old: &GPU, addr: int, value: u8) -> bool {
        &&& self.vram@ == old.vram@.update(addr, value)
        &&& addr / 16 < NUM_TILES ==> self.tiles@ == old.tiles@.update(addr / 16, self.tiles@[addr / 16])
        &&& addr / 16 < NUM_TILES ==> forall|row: int, column: int|
            0 <= row < 8 && 0 <= column < 8 ==> #[trigger] color_id_at(
                self.tiles@[addr / 16].color,
                row,
                column,
            ) == raw_tile_pixel(self.vram@, addr / 16, row, column)
        &&& addr / 16 >= NUM_TILES ==> self.tiles == old.tiles
        &&& self.oam == old.oam
        &&& self.object_data == old.object_data
        &&& self.canvas_buffer == old.canvas_buffer
        &&& self.lcd == old.lcd
        &&& self.modes == old.modes
        &&& self.cycles == old.cycles
        &&& self.lyc_flag == old.lyc_flag
        &&& self.lyc_interrupt_bool == old.lyc_interrupt_bool
    }

    /// The cycle budget of a mode.
    pub open spec fn budget(m: Modes) -> int {
        match m {
            Modes::OAM => 80,
            Modes::Pixel => 172,
            Modes::HBlank => 204,
            Modes::VBlank => 456,
        }
    }

    /// `self` is `old` with the given counter, mode, scanline and
    /// coincidence flag, and the framebuffer unchanged.
    pub open spec fn timing_is(&self, old: &GPU, cycles: int, mode: Modes, ly: int, lyc_flag: bool) -> bool {
        &&& self.cycles == cycles
        &&& self.modes == mode
        &&& self.lcd == (LcdRegisters { ly: ly as u8, ..old.lcd })
        &&& self.lyc_flag == lyc_flag
        &&& self.vram == old.vram
        &&& self.oam == old.oam
        &&& self.tiles == old.tiles
        &&& self.object_data == old.object_data
        &&& self.lyc_interrupt_bool == old.lyc_interrupt_bool
        &&& self.canvas_buffer == old.canvas_buffer
    }

    /// The interrupt that reaching scanline `ly` raises by coincidence.
    pub open spec fn coincidence(old: &GPU, ly: int) -> Interrupt {
        if ly == old.lcd.lyc && old.lyc_interrupt_bool { Interrupt::LCDStat } else { Interrupt::NoInterrupt }
    }

    /// What one update does; `self` is the state after it, `r` its request.
    pub open spec fn update_post(&self, old: &GPU, machine_cycles: u8, r: Interrupt) -> bool {
        let sum = old.cycles + machine_cycles;
        let c: int = if sum > u32::MAX { u32::MAX as int } else { sum };
        let m = old.modes;
        let ly = old.lcd.ly as int;
        if old.lcd.control.raw & 0x80 == 0 {
            r == Interrupt::NoInterrupt && self.timing_is(old, 0, Modes::VBlank, 0, old.lyc_flag)
        } else if c < Self::budget(m) {
            r == Interrupt::NoInterrupt && self.timing_is(old, c, m, ly, old.lyc_flag)
        } else {
            let left = c - Self::budget(m);
            match m {
                Modes::OAM => r == Interrupt::NoInterrupt && self.timing_is(old, left, Modes::Pixel, ly, old.lyc_flag),
                Modes::Pixel => {
                    &&& r == Interrupt::NoInterrupt
                    &&& self.cycles == left
                    &&& self.modes == Modes::HBlank
                    &&& self.lcd == old.lcd
                    &&& self.lyc_flag == old.lyc_flag
                    &&& self.vram == old.vram
                    &&& self.oam == old.oam
                    &&& self.tiles == old.tiles
                    &&& self.object_data == old.object_data
                    &&& self.lyc_interrupt_bool == old.lyc_interrupt_bool
                    &&& other_rows_kept(self.canvas_buffer@, old.canvas_buffer@, ly)
                    &&& forall|x: int|
                        0 <= x < SCREEN_WIDTH ==> shows(
                            self.canvas_buffer@,
                            old.canvas_buffer@,
                            ly,
                            x,
                            #[trigger] old.rendered_pixel(x),
                        )
                },
                Modes::HBlank => {
                    let next = ly + 1;
                    let vblank = next >= 144;
                    &&& self.timing_is(old, left, if vblank { Modes::VBlank } else { Modes::OAM }, next, next == old.lcd.lyc)
                    &&& r == combine(
                        if vblank { Interrupt::VBlank } else { Interrupt::NoInterrupt },
                        Self::coincidence(old, next),
                    )
                },
                Modes::VBlank => {
                    let next = if ly + 1 > 153 { 0 } else { ly + 1 };
                    &&& self.timing_is(old, left, if ly + 1 > 153 { Modes::OAM } else { Modes::VBlank }, next, next == old.lcd.lyc)
                    &&& r == Self::coincidence(old, next)
                },
            }
        }
    }

    /// Everything zero, 384 blank tiles, hidden objects, mode OAM scan.
    pub fn new() -> (r: GPU)
        ensures
            r.wf(),
            forall|i: int| 0 <= i < VRAM_SIZE ==> r.vram@[i] == 0,
            forall|i: int| 0 <= i < OAM_SIZE ==> r.oam@[i] == 0,
            forall|i: int| 0 <= i < CANVAS_SIZE ==> r.canvas_buffer@[i] == 0,
            forall|i: int| 0 <= i < NUM_TILES ==> r.tiles@[i].color == 0,
            forall|i: int| 0 <= i < NUM_OBJ ==> r.object_data@[i] == Object::default_spec(),
            r.lcd == LcdRegisters::new_spec(),
            r.modes == Modes::OAM,
            r.cycles == 0,
            !r.lyc_flag,
            !r.lyc_interrupt_bool,
    {
        let mut tiles: Vec<Tile> = Vec::new();
        let mut i: usize = 0;
        while i < NUM_TILES
            invariant
                i <= NUM_TILES,
                tiles@.len() == i,
                forall|j: int| 0 <= j < i ==> tiles@[j].color == 0,
            decreases NUM_TILES - i,
        {
            tiles.push(Tile::new());
            i += 1;
        }
        let hidden = Object::default();
        GPU {
            vram: [0u8; VRAM_SIZE],
            oam: [0u8; OAM_SIZE],
            canvas_buffer: [0u8; CANVAS_SIZE],
            tiles,
            object_data: [hidden; NUM_OBJ],
            lcd: LcdRegisters::new(),
            modes: Modes::OAM,
            cycles: 0,
            lyc_flag: false,
            lyc_interrupt_bool: false,
        }
    }

    /// Write one byte of object attribute memory; the object that owns it
    /// takes the new field at once.
    pub fn write_oam(&mut self, index: usize, value: u8)
        requires
            index < OAM_SIZE,
        ensures
            final(self).oam_written(old(self), index as int, value),
    {
        self.oam[index] = value;
        let object_index = index / 4;
        let byte = index % 4;
        let mut data = self.object_data[object_index];
        if byte == 0 {
            data.y = value as i16 - 16;
        } else if byte == 1 {
            data.x = value as i16 - 8;
        } else if byte == 2 {
            data.tile_index = value as usize;
        } else {
            data.palette = if (value & 0x10) != 0 {
                Palette::OBJ
            } else {
                Palette::BGP
            };
            data.x_flip = (value & 0x20) != 0;
            data.y_flip = (value & 0x40) != 0;
            data.priority = (value & 0x80) == 0;
        }
        self.object_data[object_index] = data;
    }

    /// Write one byte of video memory. When the byte belongs to one of the
    /// 384 tiles, that tile is rebuilt from its 16 raw bytes.
    pub fn write_vram(&mut self, addr: usize, value: u8)
        requires
            addr < VRAM_SIZE,
            old(self).wf(),
        ensures
            final(self).wf(),
            final(self).vram_written(old(self), addr as int, value),
    {
        self.vram[addr] = value;
        let tile_index = addr / 16;
        if tile_index >= self.tiles.len() {
            return;
        }
        let base = tile_index * 16;
        let mut packed: u128 = 0;
        let mut p: usize = 0;
        proof {
            assert forall|q: int| 0 <= q < 64 implies #[trigger] field2(packed, q) == 0 by {
                lemma_or_field(0, 0, 0, q as u128);
            }
        }
        while p < 64
            invariant
                p <= 64,
                base == tile_index * 16,
                tile_index < NUM_TILES,
                self.vram@.len() == VRAM_SIZE,
                forall|q: int|
                    0 <= q < p ==> #[trigger] field2(packed, q) == raw_tile_pixel(
                        self.vram@,
                        tile_index as int,
                        q / 8,
                        q % 8,
                    ),
                forall|q: int| p <= q < 64 ==> #[trigger] field2(packed, q) == 0,
            decreases 64 - p,
        {
            let row = p / 8;
            let x = p % 8;
            let lo = self.vram[base + row * 2];
            let hi = self.vram[base + row * 2 + 1];
            let bit = (7 - x) as u8;
            let l = (lo >> bit) & 1;
            let h = (hi >> bit) & 1;
            proof {
                assert(l <= 1 && h <= 1) by (bit_vector)
                    requires
                        l == (lo >> bit) & 1,
                        h == (hi >> bit) & 1,
                ;
            }
            let color_num = (h * 2 + l) as u128;
            proof {
                assert(color_num == plane_pixel(lo, hi, bit));
                assert(plane_pixel(lo, hi, bit) == raw_tile_pixel(
                    self.vram@,
                    tile_index as int,
                    p as int / 8,
                    p as int % 8,
                ));
                assert forall|q: int| 0 <= q < 64 implies #[trigger] field2(
                    packed | (color_num << (2 * p) as u128),
                    q,
                ) == (if q == p {
                    field2(packed, p as int) | color_num
                } else {
                    field2(packed, q)
                }) by {
                    lemma_or_field(packed, color_num, p as u128, q as u128);
                }
                lemma_or_field(packed, color_num, p as u128, p as u128);
            }
            packed = packed | (color_num << (p * 2) as u128);
            p += 1;
        }
        proof {
            assert forall|row: int, column: int| 0 <= row < 8 && 0 <= column < 8 implies color_id_at(
                packed,
                row,
                column,
            ) == raw_tile_pixel(self.vram@, tile_index as int, row, column) by {
                let q = row * 8 + column;
                assert(q / 8 == row && q % 8 == column);
                assert((row * 8 + column) * 2 == 2 * q);
                assert(field2(packed, q) == raw_tile_pixel(self.vram@, tile_index as int, row, column));
            }
        }
        self.tiles.set(tile_index, Tile::new_with_color(packed));
    }

    /// Paint pixel (x, line) of the framebuffer with an opaque color.
    fn put_pixel(&mut self, line: usize, x: usize, c: Rgb)
        requires
            line < SCREEN_HEIGHT,
            x < SCREEN_WIDTH,
        ensures
            final(self).same_but_canvas(old(self)),
            forall|i: int|
                0 <= i < CANVAS_SIZE ==> #[trigger] final(self).canvas_buffer@[i] == if pixel_base(
                    line as int,
                    x as int,
                ) <= i < pixel_base(line as int, x as int) + 4 {
                    rgba(c, i - pixel_base(line as int, x as int))
                } else {
                    old(self).canvas_buffer@[i]
                },
    {
        let i = (line * SCREEN_WIDTH + x) * 4;
        self.canvas_buffer[i] = c.r;
        self.canvas_buffer[i + 1] = c.g;
        self.canvas_buffer[i + 2] = c.b;
        self.canvas_buffer[i + 3] = 255;
    }

    /// The color index of the background or window at pixel x of the
    /// current line, as the background pass reads it.
    fn fetch_bg_id(&self, x: u8) -> (r: u8)
        requires
            self.wf(),
            self.lcd.ly < SCREEN_HEIGHT,
            self.bg_enabled(),
            x < SCREEN_WIDTH,
        ensures
            r == self.bg_id(x as int),
            r < 4,
    {
        let lcdc = self.lcd.control;
        let line = self.lcd.ly;
        let wx = self.lcd.window_x;
        let wx7: u8 = if wx >= 7 {
            wx - 7
        } else {
            (wx as u16 + 249) as u8
        };
        let is_window = lcdc.window_enable() && line >= self.lcd.window_y && x >= wx7;
        let (base_addr, map_x, map_y) = if is_window {
            (lcdc.window_tile_map_area(), x + 7 - wx, line - self.lcd.window_y)
        } else {
            (
                lcdc.bg_tile_map_area(),
                ((x as u16 + self.lcd.scroll_x as u16) % 256) as u8,
                ((line as u16 + self.lcd.scroll_y as u16) % 256) as u8,
            )
        };
        let map_offset = base_addr - 0x8000;
        let addr = map_offset + (map_y as u16 / 8) * 32 + map_x as u16 / 8;
        let raw_idx = self.vram[addr as usize];
        // From 0x8800 the map entry is a signed offset around tile 256.
        let tile_idx: usize = if lcdc.bg_window_tile_data_area() == 0x8000 || raw_idx >= 128 {
            raw_idx as usize
        } else {
            raw_idx as usize + 256
        };
        self.tiles[tile_idx].get_color_id((map_y % 8) as usize, (map_x % 8) as usize)
    }

    /// Draw the current line into the framebuffer: the background and
    /// window first, then every object in storage order, so that a later
    /// object paints over an earlier one. This storage order is a
    /// simplification: the hardware orders objects by x and draws at most
    /// ten per line.
    #[verifier::rlimit(60)]
    fn render_scanline(&mut self)
        requires
            old(self).wf(),
            old(self).lcd.ly < SCREEN_HEIGHT,
        ensures
            final(self).same_but_canvas(old(self)),
            other_rows_kept(final(self).canvas_buffer@, old(self).canvas_buffer@, old(self).lcd.ly as int),
            forall|x: int|
                0 <= x < SCREEN_WIDTH ==> shows(
                    final(self).canvas_buffer@,
                    old(self).canvas_buffer@,
                    old(self).lcd.ly as int,
                    x,
                    #[trigger] old(self).rendered_pixel(x),
                ),
    {
        let mut bg_pixel_ids = [0u8; SCREEN_WIDTH];
        let line = self.lcd.ly;
        let lcdc = self.lcd.control;
        let ghost g = *old(self);
        let ghost ln = line as int;

        // 1. background and window
        if lcdc.bg_window_enable() {
            let mut x: u8 = 0;
            while (x as usize) < SCREEN_WIDTH
                invariant
                    x <= SCREEN_WIDTH,
                    self.same_but_canvas(&g),
                    g.wf(),
                    ln == g.lcd.ly,
                    line as int == ln,
                    ln < SCREEN_HEIGHT,
                    g.bg_enabled(),
                    other_rows_kept(self.canvas_buffer@, g.canvas_buffer@, ln),
                    forall|i: int|
                        ln * 640 + 4 * x <= i < ln * 640 + 640 ==> #[trigger] self.canvas_buffer@[i]
                            == g.canvas_buffer@[i],
                    forall|x2: int|
                        0 <= x2 < x ==> shows(
                            self.canvas_buffer@,
                            g.canvas_buffer@,
                            ln,
                            x2,
                            #[trigger] g.after_objects(0, x2),
                        ),
                    forall|x2: int| 0 <= x2 < x ==> #[trigger] bg_pixel_ids@[x2] == g.bg_id(x2),
                    forall|x2: int| x <= x2 < SCREEN_WIDTH ==> #[trigger] bg_pixel_ids@[x2] == 0,
                decreases SCREEN_WIDTH - x as usize,
            {
                let color_id = self.fetch_bg_id(x);
                bg_pixel_ids[x as usize] = color_id;
                let shade = (self.lcd.bg_palette >> (color_id * 2)) & 0b11;
                proof {
                    let p = self.lcd.bg_palette;
                    assert(shade < 4) by (bit_vector)
                        requires
                            shade == (p >> (color_id * 2)) & 0b11,
                    ;
                }
                if let Some(color) = Palette::BGP.map_color(shade) {
                    self.put_pixel(line as usize, x as usize, color);
                }
                x += 1;
            }
        } else {
            proof {
                assert forall|x2: int| 0 <= x2 < SCREEN_WIDTH implies shows(
                    self.canvas_buffer@,
                    g.canvas_buffer@,
                    ln,
                    x2,
                    #[trigger] g.after_objects(0, x2),
                ) by {}
            }
        }

        // 2. objects
        let (_, height) = lcdc.obj_size();
        if lcdc.obj_enable() {
            let mut k: usize = 0;
            while k < NUM_OBJ
                invariant
                    k <= NUM_OBJ,
                    self.same_but_canvas(&g),
                    g.wf(),
                    ln == g.lcd.ly,
                    ln < SCREEN_HEIGHT,
                    height as int == g.obj_height(),
                    g.lcd.control.raw & 0x02 != 0,
                    other_rows_kept(self.canvas_buffer@, g.canvas_buffer@, ln),
                    forall|x2: int| 0 <= x2 < SCREEN_WIDTH ==> #[trigger] bg_pixel_ids@[x2] == g.bg_id(x2),
                    forall|x2: int|
                        0 <= x2 < SCREEN_WIDTH ==> shows(
                            self.canvas_buffer@,
                            g.canvas_buffer@,
                            ln,
                            x2,
                            #[trigger] g.after_objects(k as int, x2),
                        ),
                decreases NUM_OBJ - k,
            {
                self.draw_object(k, height, &bg_pixel_ids, Ghost(g));
                k += 1;
            }
        } else {
            proof {
                assert forall|x2: int| 0 <= x2 < SCREEN_WIDTH implies #[trigger] g.after_objects(
                    NUM_OBJ as int,
                    x2,
                ) == g.after_objects(0, x2) by {
                    lemma_no_objects_drawn(g, NUM_OBJ as int, x2);
                }
            }
        }
    }

    /// Paint object k over the current line.
    #[verifier::rlimit(60)]
    fn draw_object(&mut self, k: usize, height: u8, bg_pixel_ids: &[u8; SCREEN_WIDTH], Ghost(g): Ghost<GPU>)
        requires
            k < NUM_OBJ,
            old(self).same_but_canvas(&g),
            g.wf(),
            g.lcd.ly < SCREEN_HEIGHT,
            height as int == g.obj_height(),
            g.lcd.control.raw & 0x02 != 0,
            other_rows_kept(old(self).canvas_buffer@, g.canvas_buffer@, g.lcd.ly as int),
            forall|x2: int| 0 <= x2 < SCREEN_WIDTH ==> #[trigger] bg_pixel_ids@[x2] == g.bg_id(x2),
            forall|x2: int|
                0 <= x2 < SCREEN_WIDTH ==> shows(
                    old(self).canvas_buffer@,
                    g.canvas_buffer@,
                    g.lcd.ly as int,
                    x2,
                    #[trigger] g.after_objects(k as int, x2),
                ),
        ensures
            final(self).same_but_canvas(&g),
            other_rows_kept(final(self).canvas_buffer@, g.canvas_buffer@, g.lcd.ly as int),
            forall|x2: int|
                0 <= x2 < SCREEN_WIDTH ==> shows(
                    final(self).canvas_buffer@,
                    g.canvas_buffer@,
                    g.lcd.ly as int,
                    x2,
                    #[trigger] g.after_objects(k as int + 1, x2),
                ),
    {
        let ghost ln = g.lcd.ly as int;
        let obj = self.object_data[k];
        let line = self.lcd.ly as i32;
        let obj_y = obj.y as i32;
        let h = height as i32;
        if !(obj_y <= line && obj_y + h > line) {
            proof {
                assert forall|x2: int| 0 <= x2 < SCREEN_WIDTH implies #[trigger] g.after_objects(
                    k as int + 1,
                    x2,
                ) == g.after_objects(k as int, x2) by {}
            }
            return;
        }
        let mut py = if obj.y_flip {
            (h - 1) - (line - obj_y)
        } else {
            line - obj_y
        };
        let t_idx: usize = if height == 16 {
            let base = obj.tile_index & 0xFE;
            proof {
                let ti = obj.tile_index;
                assert(ti & 0xFE <= 0xFE) by (bit_vector);
            }
            if py >= 8 {
                py -= 8;
                base + 1
            } else {
                base
            }
        } else {
            obj.tile_index
        };
        if t_idx >= self.tiles.len() {
            // A tile index past the store (from a malformed attribute) draws nothing.
            proof {
                assert forall|x2: int| 0 <= x2 < SCREEN_WIDTH implies #[trigger] g.after_objects(
                    k as int + 1,
                    x2,
                ) == g.after_objects(k as int, x2) by {}
            }
            return;
        }
        let tile = self.tiles[t_idx];
        let pal = if obj.palette == Palette::OBJ {
            self.lcd.obj_palette_0
        } else {
            self.lcd.obj_palette_1
        };
        let mut ox: i32 = 0;
        while ox < 8
            invariant
                0 <= ox <= 8,
                self.same_but_canvas(&g),
                g.wf(),
                ln == g.lcd.ly,
                ln < SCREEN_HEIGHT,
                k < NUM_OBJ,
                obj == g.object_data@[k as int],
                g.on_line(obj),
                py == g.obj_row(obj) % 8,
                0 <= py < 8,
                t_idx == g.obj_tile(obj),
                t_idx < NUM_TILES,
                tile == g.tiles@[t_idx as int],
                g.lcd.control.raw & 0x02 != 0,
                pal == (if obj.palette == Palette::OBJ { g.lcd.obj_palette_0 } else { g.lcd.obj_palette_1 }),
                other_rows_kept(self.canvas_buffer@, g.canvas_buffer@, ln),
                forall|x2: int| 0 <= x2 < SCREEN_WIDTH ==> #[trigger] bg_pixel_ids@[x2] == g.bg_id(x2),
                forall|x2: int|
                    0 <= x2 < SCREEN_WIDTH ==> shows(
                        self.canvas_buffer@,
                        g.canvas_buffer@,
                        ln,
                        x2,
                        #[trigger] g.after_objects(k as int + 1, x2),
                    ) || (x2 >= obj.x + ox && shows(
                        self.canvas_buffer@,
                        g.canvas_buffer@,
                        ln,
                        x2,
                        g.after_objects(k as int, x2),
                    )),
            decreases 8 - ox,
        {
            let px = obj.x as i32 + ox;
            if px >= 0 && px < SCREEN_WIDTH as i32 {
                let px_off = if obj.x_flip {
                    7 - ox
                } else {
                    ox
                };
                let cid = tile.get_color_id(py as usize, px_off as usize);
                if cid != 0 && (obj.priority || bg_pixel_ids[px as usize] == 0) {
                    let shade = (pal >> (cid * 2)) & 0b11;
                    proof {
                        assert(shade < 4) by (bit_vector)
                            requires
                                shade == (pal >> (cid * 2)) & 0b11,
                        ;
                    }
                    if let Some(c) = Palette::OBJ.map_color(shade) {
                        self.put_pixel(self.lcd.ly as usize, px as usize, c);
                    }
                }
            }
            ox += 1;
        }
    }

    /// Compare the scanline with the compare register: the coincidence
    /// flag takes the result, and a coincidence adds a status interrupt when
    /// that source is enabled.
    fn check_line_comparison(&mut self, interrupt_request: &mut Interrupt)
        ensures
            *final(self) == (GPU { lyc_flag: old(self).lcd.ly == old(self).lcd.lyc, ..*old(self) }),
            *final(interrupt_request) == if old(self).lcd.ly == old(self).lcd.lyc
                && old(self).lyc_interrupt_bool {
                combine(*old(interrupt_request), Interrupt::LCDStat)
            } else {
                *old(interrupt_request)
            },
    {
        let coincidence = self.lcd.ly == self.lcd.lyc;
        if coincidence && self.lyc_interrupt_bool {
            interrupt_request.add(Interrupt::LCDStat);
        }
        self.lyc_flag = coincidence;
    }

    /// Advance the display by `machine_cycles`. The cycles accumulate
    /// (saturating at `u32::MAX`); once they reach the budget of the current
    /// mode (OAM scan 80, pixel transfer 172, horizontal blank 204, a
    /// vertical-blank line 456) the budget is taken off, the remainder kept,
    /// and the mode moves on. The end of pixel transfer renders the line;
    /// the end of a blank line moves to the next scanline, which is compared
    /// with the compare register. Entering vertical blank after line 143
    /// requests the vertical-blank interrupt; after line 153 the frame
    /// starts again at line 0. With the display off nothing runs: counter
    /// and scanline go to 0, the mode to vertical blank, and no interrupt is
    /// requested.
    #[verifier::rlimit(60)]
    pub fn update(&mut self, machine_cycles: u8) -> (r: Interrupt)
        requires
            old(self).wf(),
        ensures
            final(self).wf(),
            final(self).update_post(old(self), machine_cycles, r),
    {
        let mut interrupt_request = Interrupt::NoInterrupt;
        if !self.lcd.control.lcd_ppu_enable() {
            self.cycles = 0;
            self.lcd.ly = 0;
            self.modes = Modes::VBlank;
            return interrupt_request;
        }
        let mc = machine_cycles as u32;
        let cycles = if self.cycles > u32::MAX - mc {
            u32::MAX
        } else {
            self.cycles + mc
        };
        match self.modes {
            Modes::OAM => {
                if cycles >= 80 {
                    self.cycles = cycles - 80;
                    self.modes = Modes::Pixel;
                } else {
                    self.cycles = cycles;
                }
            },
            Modes::Pixel => {
                if cycles >= 172 {
                    self.render_scanline();
                    self.cycles = cycles - 172;
                    self.modes = Modes::HBlank;
                } else {
                    self.cycles = cycles;
                }
            },
            Modes::HBlank => {
                if cycles >= 204 {
                    self.cycles = cycles - 204;
                    self.lcd.ly += 1;
                    if self.lcd.ly >= 144 {
                        self.modes = Modes::VBlank;
                        interrupt_request.add(Interrupt::VBlank);
                    } else {
                        self.modes = Modes::OAM;
                    }
                    self.check_line_comparison(&mut interrupt_request);
                } else {
                    self.cycles = cycles;
                }
            },
            Modes::VBlank => {
                if cycles >= 456 {
                    self.cycles = cycles - 456;
                    self.lcd.ly += 1;
                    if self.lcd.ly > 153 {
                        self.lcd.ly = 0;
                        self.modes = Modes::OAM;
                    }
                    self.check_line_comparison(&mut interrupt_request);
                } else {
                    self.cycles = cycles;
                }
            },
        }
        interrupt_request
    }
}

} // verus!
