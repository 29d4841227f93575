use gameboy::gpu::{Interrupt, Modes, Object, Palette, Rgb, GPU, NUM_OBJ};
use gameboy::lcdc::LCDC;
use gameboy::tile::Tile;

const LIGHTEST: [u8; 4] = [155, 188, 15, 255];
const LIGHT: [u8; 4] = [139, 172, 15, 255];
const DARKEST: [u8; 4] = [15, 56, 15, 255];

fn pixel(gpu: &GPU, line: usize, x: usize) -> [u8; 4] {
    let i = (line * 160 + x) * 4;
    [gpu.canvas_buffer[i], gpu.canvas_buffer[i + 1], gpu.canvas_buffer[i + 2], gpu.canvas_buffer[i + 3]]
}

#[test]
fn tile_decode_low_plane_only() {
    let mut gpu = GPU::new();
    for i in 0..16 {
        gpu.write_vram(i, if i % 2 == 0 { 0xFF } else { 0x00 });
    }
    for row in 0..8 {
        for col in 0..8 {
            assert_eq!(gpu.tiles[0].get_color_id(row, col), 1);
        }
    }
}

#[test]
fn tile_decode_high_plane_only() {
    let mut gpu = GPU::new();
    for i in 0..16 {
        gpu.write_vram(32 + i, if i % 2 == 0 { 0x00 } else { 0xFF });
    }
    for row in 0..8 {
        for col in 0..8 {
            assert_eq!(gpu.tiles[2].get_color_id(row, col), 2);
        }
    }
    assert_eq!(gpu.tiles[0].color, 0);
}

#[test]
fn tile_decode_leftmost_pixel_is_bit_seven() {
    let mut gpu = GPU::new();
    gpu.write_vram(16 * 5 + 2, 0x80);
    gpu.write_vram(16 * 5 + 3, 0x01);
    assert_eq!(gpu.tiles[5].get_color_id(1, 0), 1);
    assert_eq!(gpu.tiles[5].get_color_id(1, 7), 2);
    assert_eq!(gpu.tiles[5].get_color_id(1, 3), 0);
    assert_eq!(gpu.tiles[5].get_color_id(0, 0), 0);
}

#[test]
fn vram_past_tile_store_only_stores_byte() {
    let mut gpu = GPU::new();
    gpu.write_vram(0x1800, 0x42);
    assert_eq!(gpu.vram[0x1800], 0x42);
    assert!(gpu.tiles.iter().all(|t| t.color == 0));
}

#[test]
fn tile_packing_accessors() {
    let mut t = Tile::new();
    assert_eq!(t.get_color_id(7, 7), 0);
    t.set_color(0b11 << 126);
    assert_eq!(t.get_color_id(7, 7), 3);
    let t = Tile::new_with_color(0b10 << 2);
    assert_eq!(t.get_color_id(0, 1), 2);
}

#[test]
fn oam_write_updates_object_fields() {
    let mut gpu = GPU::new();
    gpu.write_oam(4, 16);
    gpu.write_oam(5, 8);
    gpu.write_oam(6, 0x33);
    gpu.write_oam(7, 0x70);
    let o = gpu.object_data[1];
    assert_eq!((o.y, o.x, o.tile_index), (0, 0, 0x33));
    assert_eq!(o.palette, Palette::OBJ);
    assert!(o.x_flip && o.y_flip && o.priority);
    gpu.write_oam(7, 0x80);
    assert!(!gpu.object_data[1].priority && gpu.object_data[1].palette == Palette::BGP);
    assert_eq!(gpu.oam[7], 0x80);
    assert_eq!(gpu.object_data[0], Object::default());
}

#[test]
fn object_default_is_hidden() {
    let o = Object::default();
    assert_eq!((o.x, o.y, o.tile_index), (-16, -8, 0));
    assert!(!o.priority && !o.x_flip && !o.y_flip);
}

#[test]
fn palette_colors() {
    assert_eq!(Palette::BGP.map_color(0), Some(Rgb { r: 155, g: 188, b: 15 }));
    assert_eq!(Palette::OBJ.map_color(3), Some(Rgb { r: 15, g: 56, b: 15 }));
    assert_eq!(Palette::BGP.map_color(4), None);
}

#[test]
fn interrupts_combine() {
    let mut i = Interrupt::NoInterrupt;
    i.add(Interrupt::VBlank);
    assert_eq!(i, Interrupt::VBlank);
    i.add(Interrupt::VBlank);
    assert_eq!(i, Interrupt::VBlank);
    i.add(Interrupt::LCDStat);
    assert_eq!(i, Interrupt::Both);
    let mut j = Interrupt::LCDStat;
    j.add(Interrupt::NoInterrupt);
    assert_eq!(j, Interrupt::LCDStat);
}

#[test]
fn lcdc_bits() {
    let c = LCDC { raw: 0xFF };
    assert!(c.lcd_ppu_enable() && c.window_enable() && c.obj_enable() && c.bg_window_enable());
    assert_eq!(c.window_tile_map_area(), 0x9C00);
    assert_eq!(c.bg_tile_map_area(), 0x9C00);
    assert_eq!(c.bg_window_tile_data_area(), 0x8000);
    assert_eq!(c.obj_size(), (8, 16));
    let c = LCDC::new();
    assert!(!c.lcd_ppu_enable() && !c.window_enable() && !c.obj_enable() && !c.bg_window_enable());
    assert_eq!(c.window_tile_map_area(), 0x9800);
    assert_eq!(c.bg_tile_map_area(), 0x9800);
    assert_eq!(c.bg_window_tile_data_area(), 0x8800);
    assert_eq!(c.obj_size(), (8, 8));
}

#[test]
fn mode_timing_exact_budget() {
    let mut gpu = GPU::new();
    gpu.lcd.control.raw = 0x80;
    assert_eq!(gpu.modes, Modes::OAM);
    assert_eq!(gpu.update(80), Interrupt::NoInterrupt);
    assert_eq!(gpu.modes, Modes::Pixel);
    assert_eq!(gpu.cycles, 0);
}

#[test]
fn mode_timing_carries_remainder() {
    let mut gpu = GPU::new();
    gpu.lcd.control.raw = 0x80;
    gpu.update(81);
    assert_eq!(gpu.modes, Modes::Pixel);
    assert_eq!(gpu.cycles, 1);
    gpu.update(79);
    assert_eq!(gpu.modes, Modes::Pixel);
    assert_eq!(gpu.cycles, 80);
}

#[test]
fn display_off_resets() {
    let mut gpu = GPU::new();
    gpu.cycles = 50;
    gpu.lcd.ly = 3;
    assert_eq!(gpu.update(200), Interrupt::NoInterrupt);
    assert_eq!((gpu.cycles, gpu.lcd.ly, gpu.modes), (0, 0, Modes::VBlank));
}

#[test]
fn full_line_and_frame_timing() {
    let mut gpu = GPU::new();
    gpu.lcd.control.raw = 0x80;
    let mut vblanks = 0;
    // 154 lines of 456 cycles each, fed 4 at a time
    for _ in 0..(154 * 456 / 4) {
        if gpu.update(4) == Interrupt::VBlank {
            vblanks += 1;
        }
    }
    assert_eq!(vblanks, 1);
    assert_eq!(gpu.lcd.ly, 0);
    assert_eq!(gpu.modes, Modes::OAM);
    assert_eq!(gpu.cycles, 0);
}

#[test]
fn coincidence_interrupt_once() {
    let mut gpu = GPU::new();
    gpu.lcd.control.raw = 0x80;
    gpu.lcd.lyc = 10;
    gpu.lyc_interrupt_bool = true;
    let mut hits = Vec::new();
    while gpu.lcd.ly != 10 {
        let before = gpu.lcd.ly;
        let r = gpu.update(4);
        if r == Interrupt::LCDStat || r == Interrupt::Both {
            hits.push((before, gpu.lcd.ly));
        }
    }
    assert_eq!(hits, vec![(9, 10)]);
    assert!(gpu.lyc_flag);
    for _ in 0..200 {
        let r = gpu.update(4);
        assert!(r != Interrupt::LCDStat && r != Interrupt::Both);
    }
}

#[test]
fn coincidence_with_vblank_is_both() {
    let mut gpu = GPU::new();
    gpu.lcd.control.raw = 0x80;
    gpu.lcd.lyc = 144;
    gpu.lyc_interrupt_bool = true;
    let mut last = Interrupt::NoInterrupt;
    while gpu.lcd.ly != 144 {
        last = gpu.update(4);
    }
    assert_eq!(last, Interrupt::Both);
    assert_eq!(gpu.modes, Modes::VBlank);
}

/// A display with background and objects on, tile data from 0x8000, the
/// background of tile 0 everywhere, and object 0 on line 0 drawn from
/// tile 1, whose row 0 has color index 1 in columns 0-3 and 0 in 4-7.
fn sprite_scene(bg_row: (u8, u8), object_flags: u8) -> GPU {
    let mut gpu = GPU::new();
    gpu.lcd.control.raw = 0x80 | 0x10 | 0x02 | 0x01;
    gpu.lcd.bg_palette = 0xE4;
    gpu.lcd.obj_palette_1 = 0xE4;
    for row in 0..8 {
        gpu.write_vram(row * 2, bg_row.0);
        gpu.write_vram(row * 2 + 1, bg_row.1);
    }
    gpu.write_vram(16, 0xF0);
    gpu.write_vram(17, 0x00);
    gpu.write_oam(0, 16);
    gpu.write_oam(1, 8);
    gpu.write_oam(2, 1);
    gpu.write_oam(3, object_flags);
    gpu.modes = Modes::Pixel;
    gpu.update(172);
    assert_eq!(gpu.modes, Modes::HBlank);
    gpu
}

#[test]
fn sprite_over_blank_background() {
    let gpu = sprite_scene((0x00, 0x00), 0x80);
    for x in 0..4 {
        assert_eq!(pixel(&gpu, 0, x), LIGHT);
    }
    for x in 4..160 {
        assert_eq!(pixel(&gpu, 0, x), LIGHTEST);
    }
    assert_eq!(pixel(&gpu, 1, 0), [0, 0, 0, 0]);
}

#[test]
fn transparent_sprite_pixels_keep_background() {
    for flags in [0x00u8, 0x80] {
        let gpu = sprite_scene((0xFF, 0xFF), flags);
        for x in 4..8 {
            assert_eq!(pixel(&gpu, 0, x), DARKEST);
        }
    }
}

#[test]
fn sprite_priority_against_background() {
    let behind = sprite_scene((0xFF, 0xFF), 0x80);
    for x in 0..4 {
        assert_eq!(pixel(&behind, 0, x), DARKEST);
    }
    let over = sprite_scene((0xFF, 0xFF), 0x00);
    for x in 0..4 {
        assert_eq!(pixel(&over, 0, x), LIGHT);
    }
}

#[test]
fn later_object_paints_over_earlier() {
    let mut gpu = sprite_scene((0x00, 0x00), 0x00);
    // object 1 at the same place, tile 2 with color index 3 everywhere
    for i in 32..48 {
        gpu.write_vram(i, 0xFF);
    }
    gpu.write_oam(4, 16);
    gpu.write_oam(5, 8);
    gpu.write_oam(6, 2);
    gpu.write_oam(7, 0x00);
    gpu.lcd.ly = 0;
    gpu.modes = Modes::Pixel;
    gpu.cycles = 0;
    gpu.update(172);
    for x in 0..8 {
        assert_eq!(pixel(&gpu, 0, x), DARKEST);
    }
    assert_eq!(NUM_OBJ, 40);
}

#[test]
fn background_scroll_wraps() {
    let mut gpu = GPU::new();
    gpu.lcd.control.raw = 0x80 | 0x10 | 0x01;
    gpu.lcd.bg_palette = 0xE4;
    // tile 1 is solid color index 3; the map's entry for column 31 uses it
    for i in 16..32 {
        gpu.write_vram(i, 0xFF);
    }
    gpu.write_vram(0x1800 + 31, 1);
    gpu.lcd.scroll_x = 248;
    gpu.modes = Modes::Pixel;
    gpu.update(172);
    for x in 0..8 {
        assert_eq!(pixel(&gpu, 0, x), DARKEST);
    }
    assert_eq!(pixel(&gpu, 0, 8), LIGHTEST);
}

#[test]
fn signed_tile_data_area() {
    let mut gpu = GPU::new();
    gpu.lcd.control.raw = 0x80 | 0x01;
    gpu.lcd.bg_palette = 0xE4;
    // map entry 0 selects tile 256 from the 0x8800 area
    for i in 0..16 {
        gpu.write_vram(256 * 16 + i, 0xFF);
    }
    gpu.modes = Modes::Pixel;
    gpu.update(172);
    assert_eq!(pixel(&gpu, 0, 0), DARKEST);
}
