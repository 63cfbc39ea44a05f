//! Cartridge header parsing and MBC1 bank switching.

use fegabo::cartrage::{CMtype, CartrageError, CartrageMapper};

fn mbc1_rom() -> Vec<u8> {
    let mut rom = vec![0u8; 0x20000];
    rom[0x147] = 0x03;
    rom[0x148] = 0x02;
    rom
}

#[test]
fn short_image_is_rejected() {
    assert_eq!(CartrageMapper::new(vec![0u8; 0x100]).unwrap_err(), CartrageError::HeaderTooShort);
}

#[test]
fn unknown_mapper_byte_is_rejected() {
    let mut rom = vec![0u8; 0x200];
    rom[0x147] = 0x42;
    assert_eq!(CartrageMapper::new(rom).unwrap_err(), CartrageError::UnknownMapper(0x42));
}

#[test]
fn unknown_ram_size_code_is_rejected() {
    let mut rom = vec![0u8; 0x200];
    rom[0x147] = 0x02;
    rom[0x148] = 0x09;
    assert_eq!(CartrageMapper::new(rom).unwrap_err(), CartrageError::UnknownRamSize(0x09));
}

#[test]
fn ram_size_codes() {
    assert_eq!(CartrageMapper::ram_size(&0), Some(0));
    assert_eq!(CartrageMapper::ram_size(&1), Some(0x0800));
    assert_eq!(CartrageMapper::ram_size(&2), Some(0x2000));
    assert_eq!(CartrageMapper::ram_size(&3), Some(0x8000));
    assert_eq!(CartrageMapper::ram_size(&4), None);
}

#[test]
fn cm_type_selects_chip() {
    assert_eq!(CartrageMapper::cm_type(&0x00, &0).unwrap().0, CMtype::ROM);
    assert_eq!(CartrageMapper::cm_type(&0x01, &0).unwrap().0, CMtype::MBC1);
    assert_eq!(CartrageMapper::cm_type(&0x03, &2).unwrap(), (CMtype::MBC1, Some(0x2000)));
    assert_eq!(CartrageMapper::cm_type(&0x05, &0).unwrap().0, CMtype::MBC2);
    assert_eq!(CartrageMapper::cm_type(&0x11, &0).unwrap().0, CMtype::MBC3);
}

#[test]
fn bank_zero_write_coerces_rom_bank_to_one() {
    let mut cart = CartrageMapper::new(mbc1_rom()).unwrap();
    assert!(cart.write(0x2000, 0x00));
    assert_eq!(cart.rom_page, 1);
}

#[test]
fn bank_select_switches_the_upper_window() {
    let mut rom = mbc1_rom();
    rom[0x4000] = 0x11;
    rom[2 * 0x4000] = 0x22;
    let mut cart = CartrageMapper::new(rom).unwrap();
    assert_eq!(cart.read(0x4000), Some(0x11));
    cart.write(0x2000, 0x02);
    assert_eq!(cart.rom_page, 2);
    assert_eq!(cart.read(0x4000), Some(0x22));
    assert_eq!(cart.read(0x0000), Some(0));
}

#[test]
fn ram_enable_gate_takes_only_a_low_nibble_of_0xa() {
    let mut cart = CartrageMapper::new(mbc1_rom()).unwrap();
    cart.write(0x1000, 0x0A);
    assert!(cart.ram_enable);
    cart.write(0x1000, 0x0B);
    assert!(!cart.ram_enable);
}

#[test]
fn mode_latch_switches_banking_target_and_resets() {
    let mut cart = CartrageMapper::new(mbc1_rom()).unwrap();
    cart.write(0x6000, 0x01);
    assert_eq!(cart.mbc_mode, 1);
    cart.write(0x4000, 0x02);
    assert_eq!(cart.ram_page, 2);
    cart.write(0x6000, 0x00);
    assert_eq!(cart.mbc_mode, 0);
    assert_eq!(cart.ram_page, 0);
}

#[test]
fn cartridge_ram_read_write_uses_bank_offset() {
    let mut cart = CartrageMapper::new(mbc1_rom()).unwrap();
    assert!(cart.write_ram(0xA010, 0x77));
    assert_eq!(cart.read_ram(0xA010), Some(0x77));
    assert_eq!(cart.read_ram(0xA011), Some(0x00));
    assert!(!cart.write_ram(0x9000, 0x01));
}

#[test]
fn plain_rom_drops_writes_silently() {
    let mut rom = vec![0u8; 0x8000];
    rom[0x147] = 0x00;
    let mut cart = CartrageMapper::new(rom).unwrap();
    assert!(cart.write(0x2000, 0x05));
    assert_eq!(cart.rom_page, 1);
}
