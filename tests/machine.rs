use gbrust::bus::{REG_IE, REG_IF, REG_LY};
use gbrust::cartridge::{CartridgeError, ROM_BANK_SIZE};
use gbrust::joypad::{Button, Joypad};
use gbrust::machine::Machine;
use gbrust::bus::{MemorySystem, REG_JOYP};

fn program(code: &[u8]) -> Vec<u8> {
    let mut rom = vec![0u8; 2 * ROM_BANK_SIZE];
    for (i, b) in code.iter().enumerate() {
        rom[0x100 + i] = *b;
    }
    rom[0x147] = 0;
    rom[0x148] = 0;
    rom[0x149] = 0;
    rom
}

#[test]
fn reset_state() {
    let mut m = Machine::default();
    m.reset();
    assert_eq!(m.cpu().pc(), 0x0100);
    assert_eq!(m.bus().read_byte(REG_IE), 0x00);
    assert_eq!(m.bus().read_byte(REG_IF), 0xE1);
    assert_eq!(m.bus().read_byte(0xFF40), 0x91);
    assert_eq!(m.bus().read_byte(REG_LY), 0);
}

#[test]
fn boot_rom_starts_at_zero() {
    let mut m = Machine::default();
    assert!(m.use_boot_rom(vec![0u8; 256]));
    m.reset();
    assert_eq!(m.cpu().pc(), 0x0000);
    assert!(!m.use_boot_rom(vec![0u8; 10]));
}

#[test]
fn load_and_run_cartridge() {
    let mut m = Machine::default();
    // JP 0x0150 ; at 0x150: JR -2 (loop)
    let mut rom = program(&[0xC3, 0x50, 0x01]);
    rom[0x150] = 0x18;
    rom[0x151] = 0xFE;
    assert_eq!(m.load_cartridge(rom), Ok(2 * ROM_BANK_SIZE));
    m.reset();
    assert_eq!(m.step(), Ok(16));
    assert_eq!(m.cpu().pc(), 0x0150);
    assert_eq!(m.step(), Ok(12));
    assert_eq!(m.cpu().pc(), 0x0150);
}

#[test]
fn refused_cartridge() {
    let mut m = Machine::default();
    let mut rom = program(&[]);
    rom[0x147] = 0x13;
    assert_eq!(m.load_cartridge(rom), Err(CartridgeError::UnsupportedType(0x13)));
}

#[test]
fn step_frame_runs_a_frame_or_stops_at_breakpoint() {
    let mut m = Machine::default();
    let mut rom = program(&[0xC3, 0x50, 0x01]);
    rom[0x150] = 0x00; // NOP
    rom[0x151] = 0x18; // JR -3
    rom[0x152] = 0xFD;
    m.load_cartridge(rom).unwrap();
    m.reset();
    let (total, hit) = m.step_frame().unwrap();
    assert!(!hit);
    assert!(total >= 70224);
    assert!(total < 70224 + 24);

    m.add_breakpoint(0x0151);
    assert!(m.breakpoint_manager().has_breakpoint(0x0151));
    let (_, hit) = m.step_frame().unwrap();
    assert!(hit);
    assert_eq!(m.cpu().pc(), 0x0151);
    m.remove_breakpoint(0x0151);
    assert_eq!(m.breakpoint_manager().len(), 0);
}

#[test]
fn ly_stays_in_range_while_running() {
    let mut m = Machine::default();
    m.load_cartridge(program(&[0x18, 0xFE])).unwrap();
    m.reset();
    for _ in 0..20000 {
        m.step().unwrap();
        assert!(m.bus().read_byte(REG_LY) <= 153);
    }
}

#[test]
fn advance_by_wall_time() {
    let mut m = Machine::default();
    m.load_cartridge(program(&[0x18, 0xFE])).unwrap();
    m.reset();
    m.advance(238 * 12 * 3).unwrap();
    assert_eq!(m.cpu().pc(), 0x0100);
}

#[test]
fn joypad_reports_selected_keys_and_requests_interrupt() {
    let mut joypad = Joypad::default();
    let mut bus = MemorySystem::default();
    joypad.reset(&mut bus);
    bus.write_byte(REG_JOYP, 0x20); // select the D-pad (bit 4 low)
    bus.write_byte(REG_IF, 0);
    joypad.update(&mut bus);
    assert_eq!(bus.read_byte(REG_JOYP) & 0x0F, 0x0F);
    joypad.button_pressed(Button::Left);
    joypad.update(&mut bus);
    assert_eq!(bus.read_byte(REG_JOYP) & 0x0F, 0x0D);
    assert!(bus.read_byte(REG_IF) & 0x10 != 0);
    // buttons are not selected: pressing A changes nothing
    bus.write_byte(REG_IF, 0);
    joypad.button_pressed(Button::A);
    joypad.update(&mut bus);
    assert_eq!(bus.read_byte(REG_JOYP) & 0x0F, 0x0D);
    assert_eq!(bus.read_byte(REG_IF) & 0x10, 0);
    joypad.button_released(Button::Left);
    joypad.update(&mut bus);
    assert_eq!(bus.read_byte(REG_JOYP) & 0x0F, 0x0F);
}

#[test]
fn breakpoints_through_mutable_access() {
    let mut m = Machine::default();
    m.breakpoint_manager_mut().add_breakpoint(0x1234);
    m.breakpoint_manager_mut().add_breakpoint(0x1234);
    m.breakpoint_manager_mut().add_breakpoint(0x0040);
    assert_eq!(m.breakpoint_manager().len(), 2);
    assert!(m.breakpoint_manager().has_breakpoint(0x0040));
    m.breakpoint_manager_mut().remove_breakpoint(0x0040);
    assert!(!m.breakpoint_manager().has_breakpoint(0x0040));
    m.clear_breakpoints();
    assert_eq!(m.breakpoint_manager().len(), 0);
}
