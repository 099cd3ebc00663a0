use gbrust::bus::MemorySystem;
use gbrust::cartridge::{Cartridge, CartridgeError, Mbc1, RAM_BANK_SIZE, ROM_BANK_SIZE};

const W_ROM_N: u16 = 0x2000;
const W_RAM_N_OR_HIGH2: u16 = 0x4000;
const W_BANKING_MODE: u16 = 0x6000;
const W_RAM_ENABLE: u16 = 0x0000;

const R_BANK_0: u16 = 0x0100;
const R_BANK_N: u16 = 0x4000;
const ADDR_RAM: u16 = 0xA000;

// Build a ROM where each 16KiB bank is filled with its bank index (0..=0xFF)
fn build_rom(banks: usize) -> Vec<u8> {
    (0..banks).flat_map(|i| std::iter::repeat_n(i as u8, ROM_BANK_SIZE)).collect()
}

// Build a RAM where each 8KiB bank is filled with its bank index (0..=0xFF)
fn build_ram(banks: usize) -> Vec<u8> {
    (0..banks).flat_map(|i| std::iter::repeat_n(i as u8, RAM_BANK_SIZE)).collect()
}

// An empty RAM stands for a cartridge without RAM.
fn init(rom_banks: usize, ram_banks: usize) -> (Mbc1, Vec<u8>, Vec<u8>) {
    let rom = build_rom(rom_banks);
    let mbc = Mbc1::new(rom_banks, ram_banks);
    let ram = if ram_banks > 0 { build_ram(ram_banks) } else { Vec::new() };

    (mbc, rom, ram)
}

#[test]
fn rom_mode0_low5_zero_and_combination() {
    let (mut mbc, rom, mut ram) = init(128, 0);

    // low5=0 maps to 1 while preserving high2
    for n in 0..=3u8 {
        mbc.write(&mut ram, W_RAM_N_OR_HIGH2, n);
        mbc.write(&mut ram, W_ROM_N, 0);

        let expected = ((n as usize) << 5) | 1;
        assert_eq!(mbc.read(&rom, &ram, R_BANK_N), expected as u8);
    }
}

#[test]
fn rom_mode1_split_banks() {
    let (mut mbc, rom, mut ram) = init(128, 0);

    mbc.write(&mut ram, W_BANKING_MODE, 1);

    mbc.write(&mut ram, W_RAM_N_OR_HIGH2, 1);
    assert_eq!(mbc.read(&rom, &ram, R_BANK_0), 0x20); // bank(32)

    mbc.write(&mut ram, W_ROM_N, 0b00);
    assert_eq!(mbc.read(&rom, &ram, R_BANK_N), 0x21); // bank(33)

    mbc.write(&mut ram, W_RAM_N_OR_HIGH2, 0b11);
    assert_eq!(mbc.read(&rom, &ram, R_BANK_0), 0x60); // bank(96)
    assert_eq!(mbc.read(&rom, &ram, R_BANK_N), 0x61); // bank(97)

    mbc.write(&mut ram, W_ROM_N, 17);
    assert_eq!(mbc.read(&rom, &ram, R_BANK_N), 113); // bank(96 + 17)
}

#[test]
fn large_rom_sizes_wrap() {
    let (mut mbc, rom, mut ram) = init(64, 0);

    mbc.write(&mut ram, W_RAM_N_OR_HIGH2, 3);
    mbc.write(&mut ram, W_ROM_N, 31);
    assert_eq!(mbc.read(&rom, &ram, R_BANK_N), 63);

    mbc.write(&mut ram, W_ROM_N, 0);
    assert_eq!(mbc.read(&rom, &ram, R_BANK_N), 33);

    let (mut mbc, rom, mut ram) = init(128, 0);
    mbc.write(&mut ram, W_RAM_N_OR_HIGH2, 2);
    mbc.write(&mut ram, W_ROM_N, 31);

    assert_eq!(mbc.read(&rom, &ram, R_BANK_N), 95);
    mbc.write(&mut ram, W_ROM_N, 0);
    assert_eq!(mbc.read(&rom, &ram, R_BANK_N), 65);

    mbc.write(&mut ram, W_RAM_N_OR_HIGH2, 3);
    mbc.write(&mut ram, W_ROM_N, 31);
    assert_eq!(mbc.read(&rom, &ram, R_BANK_N), 127);
}

#[test]
fn ram_enable_disable_and_banking() {
    let (mut mbc, rom, mut ram) = init(64, 4);
    let mut none: Vec<u8> = Vec::new();

    // RAM disabled: read 0xFF, write ignored
    assert_eq!(mbc.read(&rom, &ram, ADDR_RAM), 0xFF);
    mbc.write(&mut ram, ADDR_RAM, 0x12);
    assert_eq!(mbc.read(&rom, &ram, ADDR_RAM), 0xFF);

    // Only 0x0A (low nibble) enables
    mbc.write(&mut ram, W_RAM_ENABLE, 0x0B);
    assert_eq!(mbc.read(&rom, &ram, 0xA000), 0xFF);
    mbc.write(&mut ram, W_RAM_ENABLE, 0x0A);
    assert_eq!(mbc.read(&rom, &ram, 0xA000), 0x00);

    // Mode 0: RAM bank is 0 => no change
    mbc.write(&mut ram, W_RAM_N_OR_HIGH2, 3);
    assert_eq!(mbc.read(&rom, &ram, ADDR_RAM), 0);
    mbc.write(&mut ram, ADDR_RAM + 0x100, 0xAA);

    // Mode 1: RAM bank
    mbc.write(&mut ram, W_BANKING_MODE, 1);
    mbc.write(&mut ram, W_RAM_N_OR_HIGH2, 1);
    assert_eq!(mbc.read(&rom, &ram, ADDR_RAM), 1);
    mbc.write(&mut ram, W_RAM_N_OR_HIGH2, 2);
    assert_eq!(mbc.read(&rom, &ram, ADDR_RAM), 2);
    mbc.write(&mut ram, W_RAM_N_OR_HIGH2, 3);
    assert_eq!(mbc.read(&rom, &ram, ADDR_RAM), 3);

    // Bank 0 still has previous value
    assert_eq!(ram[0x100], 0xAA);

    mbc.write(&mut none, W_RAM_N_OR_HIGH2, 0);
    assert_eq!(mbc.read(&rom, &ram, ADDR_RAM), 0);
    assert_eq!(mbc.read(&rom, &ram, ADDR_RAM + 0x100), 0xAA);
    mbc.write(&mut none, W_RAM_N_OR_HIGH2, 2);

    mbc.write(&mut none, W_BANKING_MODE, 0);
    assert_eq!(mbc.read(&rom, &ram, ADDR_RAM), 0);
    assert_eq!(mbc.read(&rom, &ram, ADDR_RAM + 0x100), 0xAA);
}

#[test]
fn odd_sizes_behaviour() {
    let (mut mbc, rom, mut ram) = init(7, 3);

    assert_eq!(mbc.read(&rom, &ram, R_BANK_0), 0);
    mbc.write(&mut ram, W_ROM_N, 0); // low5=0 => 1
    assert_eq!(mbc.read(&rom, &ram, R_BANK_N), 1);
    mbc.write(&mut ram, W_RAM_N_OR_HIGH2, 3);
    mbc.write(&mut ram, W_ROM_N, 31);
    // (3<<5)|31 = 127 -> 127 % 7 = 1
    assert_eq!(mbc.read(&rom, &ram, R_BANK_N), (127 % 7) as u8);

    mbc.write(&mut ram, W_RAM_ENABLE, 0x0A);
    mbc.write(&mut ram, W_BANKING_MODE, 1);

    mbc.write(&mut ram, W_RAM_N_OR_HIGH2, 2);
    assert_eq!(mbc.read(&rom, &ram, ADDR_RAM), 2); // bank 2

    mbc.write(&mut ram, ADDR_RAM + 0x100, 0x22);
    assert_eq!(mbc.read(&rom, &ram, ADDR_RAM + 0x100), 0x22);

    mbc.write(&mut ram, W_RAM_N_OR_HIGH2, 3);
    assert_eq!(mbc.read(&rom, &ram, ADDR_RAM), 0); // 3 % 3 => bank 0
}

#[test]
fn bank_zero_quirk_through_bus_writes() {
    let (mut mbc, rom, mut ram) = init(128, 0);
    mbc.write(&mut ram, 0x2100, 0x40);
    assert_eq!(mbc.read(&rom, &ram, 0x4000), 1);
    mbc.write(&mut ram, 0x2100, 0x60);
    assert_eq!(mbc.read(&rom, &ram, 0x4000), 1);
    mbc.write(&mut ram, 0x2100, 0x00);
    assert_eq!(mbc.read(&rom, &ram, 0x4000), 1);
    mbc.write(&mut ram, 0x4000, 1);
    assert_eq!(mbc.read(&rom, &ram, 0x4000), 0x21);
    mbc.write(&mut ram, 0x4000, 2);
    assert_eq!(mbc.read(&rom, &ram, 0x4000), 0x41);
}

#[test]
fn high_banks_never_show_bank_zero() {
    let (mut mbc, rom, mut ram) = init(128, 0);
    for high in 0..4u8 {
        mbc.write(&mut ram, W_RAM_N_OR_HIGH2, high);
        mbc.write(&mut ram, W_ROM_N, 0);
        assert_ne!(mbc.read(&rom, &ram, 0x4000), 0);
        assert_ne!(mbc.read(&rom, &ram, 0x7FFF), 0);
    }
}

fn image(kind: u8, rom_code: u8, ram_code: u8, banks: usize) -> Vec<u8> {
    let mut rom = build_rom(banks);
    for (i, b) in b"TETRIS".iter().enumerate() {
        rom[0x134 + i] = *b;
    }
    for i in 0x13A..=0x143 {
        rom[i] = 0;
    }
    rom[0x147] = kind;
    rom[0x148] = rom_code;
    rom[0x149] = ram_code;
    rom
}

#[test]
fn cartridge_header_selects_mapper() {
    let cart = Cartridge::from_bytes(image(0x00, 0, 0, 2)).unwrap();
    assert_eq!(cart.title(), "TETRIS");
    assert_eq!(cart.read_byte(0x4000), 1);

    let mut cart = Cartridge::from_bytes(image(0x03, 2, 3, 8)).unwrap();
    cart.write_byte(0x2000, 5);
    assert_eq!(cart.read_byte(0x4000), 5);
    cart.write_byte(0x0000, 0x0A);
    cart.write_byte(0xA010, 0x99);
    assert_eq!(cart.read_byte(0xA010), 0x99);
}

#[test]
fn cartridge_errors() {
    assert_eq!(Cartridge::from_bytes(vec![0u8; 0x100]).err(), Some(CartridgeError::MissingHeader));
    assert_eq!(
        Cartridge::from_bytes(image(0x05, 0, 0, 2)).err(),
        Some(CartridgeError::UnsupportedType(0x05))
    );
    assert_eq!(
        Cartridge::from_bytes(image(0x01, 9, 0, 2)).err(),
        Some(CartridgeError::UnsupportedRomSize(9))
    );
    assert_eq!(
        Cartridge::from_bytes(image(0x01, 0, 7, 2)).err(),
        Some(CartridgeError::UnsupportedRamSize(7))
    );
    assert_eq!(Cartridge::from_bytes(image(0x01, 1, 0, 2)).err(), Some(CartridgeError::Truncated));
}

#[test]
fn empty_cartridge_reads_ff() {
    let cart = Cartridge::empty();
    assert_eq!(cart.title(), "EMPTY");
    assert_eq!(cart.read_byte(0x0000), 0xFF);
    assert_eq!(cart.read_byte(0x7FFF), 0xFF);
}

#[test]
fn bus_routes_cartridge_window() {
    let mut bus = MemorySystem::default();
    let cart = Cartridge::from_bytes(image(0x01, 6, 0, 128)).unwrap();
    bus.load_cartridge(cart);
    assert_eq!(bus.read_byte(0x4000), 1);
    bus.write_byte(0x2100, 0x05);
    assert_eq!(bus.read_byte(0x4000), 5);
    // writes into ROM do not change ROM
    bus.write_byte(0x0000, 0x77);
    assert_eq!(bus.read_byte(0x0000), 0);
}

#[test]
fn bus_reset_restores_bank_one() {
    let mut bus = MemorySystem::default();
    bus.load_cartridge(Cartridge::from_bytes(image(0x01, 6, 0, 128)).unwrap());
    bus.write_byte(0x2000, 0x07);
    assert_eq!(bus.read_byte(0x4000), 7);
    bus.reset();
    assert_eq!(bus.read_byte(0x4000), 1);
}
