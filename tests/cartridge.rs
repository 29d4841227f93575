use gameboy::cartridge::{Cartridge, MbcType};

fn image(len: usize, kind: u8, title: &[u8]) -> Vec<u8> {
    let mut rom: Vec<u8> = (0..len).map(|i| (i / 0x4000) as u8).collect();
    for b in rom[0x134..0x143].iter_mut() {
        *b = 0;
    }
    rom[0x134..0x134 + title.len()].copy_from_slice(title);
    rom[0x147] = kind;
    rom
}

#[test]
fn header_is_read() {
    let c = Cartridge::from_rom(image(0x10000, 0x03, b"TETRIS")).unwrap();
    assert_eq!(c.title, "TETRIS");
    assert_eq!(c.mbc_type, MbcType::Mbc1);
    assert!(c.has_battery);
    assert_eq!((c.rom_bank, c.ram_bank, c.ram_enabled), (1, 0, false));
    assert_eq!(c.ram.len(), 0x8000);
    let c = Cartridge::from_rom(image(0x8000, 0x00, b"A")).unwrap();
    assert_eq!(c.mbc_type, MbcType::RomOnly);
    assert!(!c.has_battery);
    let c = Cartridge::from_rom(image(0x8000, 0x1B, b"")).unwrap();
    assert_eq!(c.mbc_type, MbcType::Mbc5);
    assert_eq!(c.title, "");
    let c = Cartridge::from_rom(image(0x8000, 0x42, b"X")).unwrap();
    assert_eq!(c.mbc_type, MbcType::Unknown);
}

#[test]
fn title_trims_nuls_and_replaces_invalid_bytes() {
    let mut rom = image(0x8000, 0x00, b"\0AB\xFFC");
    rom[0x142] = 0;
    let c = Cartridge::from_rom(rom).unwrap();
    assert_eq!(c.title, "AB\u{FFFD}C");
}

#[test]
fn short_image_is_refused() {
    assert!(Cartridge::from_rom(vec![0u8; 0x14F]).is_none());
    assert!(Cartridge::from_rom(vec![0u8; 0x150]).is_some());
}

#[test]
fn mbc1_switches_banks() {
    let mut c = Cartridge::from_rom(image(0x10000, 0x01, b"")).unwrap();
    assert_eq!(c.read_rom(0x0000), 0);
    assert_eq!(c.read_rom(0x4000), 1);
    c.write_rom(0x2000, 2);
    assert_eq!(c.rom_bank, 2);
    assert_eq!(c.read_rom(0x4000), 2);
    c.write_rom(0x2100, 0);
    assert_eq!(c.rom_bank, 1);
    c.write_rom(0x3000, 0x23);
    assert_eq!(c.rom_bank, 3);
    // bank 5 of a four-bank image wraps to bank 1
    c.write_rom(0x2000, 5);
    assert_eq!(c.read_rom(0x4000), 1);
    assert_eq!(c.read_rom(0x8000), 0xFF);
}

#[test]
fn rom_only_ignores_controller_writes() {
    let mut c = Cartridge::from_rom(image(0x8000, 0x00, b"")).unwrap();
    c.write_rom(0x2000, 3);
    c.write_rom(0x0000, 0x0A);
    assert_eq!(c.rom_bank, 1);
    assert!(!c.ram_enabled);
}

#[test]
fn external_ram_needs_enabling() {
    let mut c = Cartridge::from_rom(image(0x8000, 0x03, b"")).unwrap();
    c.write_ram(0xA010, 0x55);
    assert_eq!(c.read_ram(0xA010), 0xFF);
    c.write_rom(0x0000, 0x1A);
    assert!(c.ram_enabled);
    c.write_ram(0xA010, 0x55);
    assert_eq!(c.read_ram(0xA010), 0x55);
    assert_eq!(c.ram[0x10], 0x55);
    c.write_rom(0x0000, 0x00);
    assert_eq!(c.read_ram(0xA010), 0xFF);
}
