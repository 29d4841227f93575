use gameboy::bus::MemoryBus;
use gameboy::cartridge::Cartridge;
use gameboy::gpu::Palette;

fn bus() -> MemoryBus {
    let mut rom = vec![0u8; 0x8000];
    rom[0x0100] = 0x3C;
    rom[0x4000] = 0x77;
    rom[0x147] = 0x01;
    MemoryBus::new(Cartridge::from_rom(rom).unwrap())
}

#[test]
fn routes_rom_and_ram() {
    let mut b = bus();
    assert_eq!(b.read_byte(0x0100), 0x3C);
    assert_eq!(b.read_byte(0x4000), 0x77);
    b.write_byte(0xC123, 0x11);
    assert_eq!(b.read_byte(0xC123), 0x11);
    assert_eq!(b.read_byte(0xE123), 0x11);
    b.write_byte(0xE124, 0x22);
    assert_eq!(b.read_byte(0xC124), 0x22);
    b.write_byte(0xFF90, 0x33);
    assert_eq!(b.read_byte(0xFF90), 0x33);
    b.write_byte(0xFFFF, 0x1F);
    assert_eq!(b.read_byte(0xFFFF), 0x1F);
    b.write_byte(0xFF01, 0x44);
    assert_eq!(b.read_byte(0xFF01), 0x44);
    assert_eq!(b.read_byte(0xD000), 0xFF);
    assert_eq!(b.read_byte(0xF000), 0xFF);
    assert_eq!(b.read_byte(0xFEA0), 0xFF);
}

#[test]
fn external_ram_through_bus() {
    let mut b = bus();
    assert_eq!(b.read_byte(0xA000), 0xFF);
    b.write_byte(0x0000, 0x0A);
    b.write_byte(0xA000, 0x99);
    assert_eq!(b.read_byte(0xA000), 0x99);
}

#[test]
fn display_and_timer_registers() {
    let mut b = bus();
    b.write_byte(0xFF40, 0x91);
    b.write_byte(0xFF42, 1);
    b.write_byte(0xFF43, 2);
    b.write_byte(0xFF45, 3);
    b.write_byte(0xFF47, 4);
    b.write_byte(0xFF48, 5);
    b.write_byte(0xFF49, 6);
    b.write_byte(0xFF4A, 7);
    b.write_byte(0xFF4B, 8);
    b.write_byte(0xFF44, 9);
    let got: Vec<u8> = [0xFF40u16, 0xFF42, 0xFF43, 0xFF45, 0xFF47, 0xFF48, 0xFF49, 0xFF4A, 0xFF4B, 0xFF44]
        .iter()
        .map(|a| b.read_byte(*a))
        .collect();
    assert_eq!(got, vec![0x91, 1, 2, 3, 4, 5, 6, 7, 8, 0]);
    b.timer.divider = 0x1234;
    assert_eq!(b.read_byte(0xFF04), 0x12);
    b.write_byte(0xFF04, 0x77);
    assert_eq!(b.timer.divider, 0);
    b.write_byte(0xFF05, 1);
    b.write_byte(0xFF06, 2);
    b.write_byte(0xFF07, 5);
    assert_eq!((b.read_byte(0xFF05), b.read_byte(0xFF06), b.read_byte(0xFF07)), (1, 2, 5));
}

#[test]
fn video_and_attribute_memory_through_bus() {
    let mut b = bus();
    b.write_byte(0x8010, 0xFF);
    assert_eq!(b.read_byte(0x8010), 0xFF);
    assert_eq!(b.gpu.tiles[1].get_color_id(0, 0), 1);
    b.write_byte(0xFE03, 0x10);
    assert_eq!(b.read_byte(0xFE03), 0x10);
    assert_eq!(b.gpu.object_data[0].palette, Palette::OBJ);
}

#[test]
fn dma_copies_attribute_records() {
    let mut b = bus();
    for i in 0..160u16 {
        b.write_byte(0xC000 + i, i as u8);
    }
    b.write_byte(0xFF46, 0xC0);
    for i in 0..160u16 {
        assert_eq!(b.read_byte(0xFE00 + i), i as u8);
    }
    let o = b.gpu.object_data[2];
    assert_eq!((o.y, o.x, o.tile_index), (8 - 16, 9 - 8, 10));
    assert!(o.priority && !o.x_flip);
}
