use gbrust::bus::{MemorySystem, TestBus, REG_DIV, REG_LY};

#[test]
fn test_read_write_byte() {
    let mut memory = MemorySystem::default();

    let test_cases = vec![
        (0x1234, 0xAB, "at a specific address"),
        (0x0000, 0x42, "at address 0"),
        (0xFFFF, 0x55, "at the highest address"),
    ];

    for (address, value, description) in test_cases {
        memory.write_byte(address, value);
        assert_eq!(
            memory.read_byte(address),
            value,
            "Read byte should return the written value {}",
            description
        );
    }
}

#[test]
fn test_read_write_word() {
    let mut memory = MemorySystem::default();
    let test_cases = vec![
        (0x1234, 0xABCD, "at a specific address"),
        (0x0000, 0x4242, "at address 0"),
        (0xFFFE, 0x5555, "at the highest address"),
    ];
    for (address, value, description) in test_cases {
        memory.write_word(address, value);
        assert_eq!(
            memory.read_word(address),
            value,
            "Read word should return the written value {}",
            description
        );

        assert_eq!(memory.read_byte(address), value as u8, "LSB should be at the given address");
        assert_eq!(
            memory.read_byte(address + 1),
            (value >> 8) as u8,
            "MSB should be at the given address"
        );
    }
}

#[test]
fn test_dma_transfer() {
    let mut memory = MemorySystem::default();
    memory.write_byte(0xC000, 80); // y position
    memory.write_byte(0xC001, 88); // x position
    memory.write_byte(0xC002, 1); // tile index
    memory.write_byte(0xC003, 0); // attributes

    // DMA transfer
    memory.write_byte(0xFF46, 0xC0);

    assert_eq!(memory.read_oam(0), 80);
    assert_eq!(memory.read_oam(1), 88);
    assert_eq!(memory.read_oam(2), 1);
    assert_eq!(memory.read_oam(3), 0);
}

#[test]
fn test_bus() {
    let mut bus = TestBus::default();

    // Test byte operations
    bus.write_byte(0x1234, 0x42);
    assert_eq!(bus.read_byte(0x1234), 0x42);

    // Test word operations
    bus.write_word(0x4321, 0xABCD);
    assert_eq!(bus.read_word(0x4321), 0xABCD);
}

#[test]
fn memory_starts_zeroed() {
    let memory = MemorySystem::default();
    assert_eq!(memory.read_byte(0xC000), 0);
    assert_eq!(memory.read_byte(0x8000), 0);
    assert_eq!(memory.read_byte(0xFF80), 0);
}

#[test]
fn echo_ram_aliases_work_ram() {
    let mut memory = MemorySystem::default();
    memory.write_byte(0xC123, 0x5A);
    assert_eq!(memory.read_byte(0xE123), 0x5A);
    memory.write_byte(0xFDFF, 0x77);
    assert_eq!(memory.read_byte(0xDDFF), 0x77);
    for i in [0u16, 0x100, 0x1DFF] {
        memory.write_byte(0xE000 + i, (i % 251) as u8 + 1);
        assert_eq!(memory.read_byte(0xC000 + i), memory.read_byte(0xE000 + i));
    }
}

#[test]
fn unusable_region_reads_ff_and_ignores_writes() {
    let mut memory = MemorySystem::default();
    memory.write_byte(0xFEA0, 0x12);
    memory.write_byte(0xFEFF, 0x34);
    assert_eq!(memory.read_byte(0xFEA0), 0xFF);
    assert_eq!(memory.read_byte(0xFEFF), 0xFF);
}

#[test]
fn div_write_clears_divider() {
    let mut memory = MemorySystem::default();
    memory.write_internal_byte(REG_DIV, 0x37);
    memory.write_byte(REG_DIV, 0x99);
    assert_eq!(memory.read_byte(REG_DIV), 0);
    assert!(memory.take_div_reset());
    assert!(!memory.take_div_reset());
}

#[test]
fn ly_is_read_only_to_programs() {
    let mut memory = MemorySystem::default();
    memory.write_internal_byte(REG_LY, 12);
    memory.write_byte(REG_LY, 200);
    assert_eq!(memory.read_byte(REG_LY), 12);
}

#[test]
fn boot_rom_overlay_until_unmapped() {
    let mut memory = MemorySystem::default();
    memory.write_byte(0x0010, 0x11);
    let image: Vec<u8> = (0..256).map(|i| (i as u8) ^ 0xA5).collect();
    assert!(memory.load_boot_rom(image));
    assert_eq!(memory.read_byte(0x0010), 0x10 ^ 0xA5);
    assert_eq!(memory.read_byte(0x0100), 0);
    // a write of zero keeps it mapped
    memory.write_byte(0xFF50, 0);
    assert_eq!(memory.read_byte(0x0010), 0x10 ^ 0xA5);
    memory.write_byte(0xFF50, 1);
    assert_eq!(memory.read_byte(0x0010), 0x11);
    // reset maps it back in
    memory.reset();
    assert_eq!(memory.read_byte(0x0010), 0x10 ^ 0xA5);
}

#[test]
fn boot_rom_of_wrong_length_is_refused() {
    let mut memory = MemorySystem::default();
    assert!(!memory.load_boot_rom(vec![0u8; 255]));
    assert_eq!(memory.read_byte(0x0000), 0);
}

#[test]
fn reset_clears_vram_only() {
    let mut memory = MemorySystem::default();
    memory.write_byte(0x8000, 1);
    memory.write_byte(0x9FFF, 2);
    memory.write_byte(0xC000, 3);
    memory.reset();
    assert_eq!(memory.read_byte(0x8000), 0);
    assert_eq!(memory.read_byte(0x9FFF), 0);
    assert_eq!(memory.read_byte(0xC000), 3);
}

#[test]
fn dma_copies_full_page() {
    let mut memory = MemorySystem::default();
    for i in 0..0xA0u16 {
        memory.write_byte(0xD100 + i, (i as u8).wrapping_mul(3));
    }
    memory.write_byte(0xFF46, 0xD1);
    for i in 0..0xA0u16 {
        assert_eq!(memory.read_oam(i), (i as u8).wrapping_mul(3));
    }
    assert_eq!(memory.read_byte(0xFF46), 0xD1);
}
