use gbrust::bus::{MemorySystem, REG_BGP, REG_IF, REG_LCDC, REG_LY, REG_LYC, REG_SCX, REG_SCY, REG_STAT};
use gbrust::ppu::Ppu;
use gbrust::sprite::Sprite;

fn lcd_on() -> (Ppu, MemorySystem) {
    let mut ppu = Ppu::default();
    let mut bus = MemorySystem::default();
    ppu.reset(&mut bus);
    (ppu, bus)
}

#[test]
fn background_scanline_render() {
    let (mut ppu, mut bus) = lcd_on();
    bus.write_byte(REG_BGP, 0xE4);
    bus.write_byte(REG_SCX, 0);
    bus.write_byte(REG_SCY, 0);
    bus.write_byte(REG_LCDC, 0x91);
    bus.write_byte(0x8000, 0xFF);
    bus.write_byte(0x8001, 0x00);
    // LY at 153 so that the next completed line is line 0
    bus.write_internal_byte(REG_LY, 153);
    ppu.update(&mut bus, 456);
    assert_eq!(bus.read_byte(REG_LY), 0);
    for x in 0..8 {
        assert_eq!(ppu.frame()[x], 1);
    }
    assert_eq!(ppu.frame()[8], 1);
}

#[test]
fn reset_registers() {
    let (ppu, bus) = lcd_on();
    assert_eq!(bus.read_byte(REG_LCDC), 0x91);
    assert_eq!(bus.read_byte(REG_STAT), 0x80);
    assert_eq!(bus.read_byte(REG_BGP), 0xFC);
    assert_eq!(bus.read_byte(0xFF48), 0xFF);
    assert_eq!(bus.read_byte(0xFF49), 0xFF);
    assert_eq!(bus.read_byte(REG_LY), 0);
    assert_eq!(ppu.frame().len(), 160 * 144);
}

#[test]
fn lines_advance_every_456_cycles() {
    let (mut ppu, mut bus) = lcd_on();
    ppu.update(&mut bus, 455);
    assert_eq!(bus.read_byte(REG_LY), 0);
    ppu.update(&mut bus, 1);
    assert_eq!(bus.read_byte(REG_LY), 1);
    ppu.update(&mut bus, 456 * 3);
    assert_eq!(bus.read_byte(REG_LY), 4);
}

#[test]
fn ly_wraps_after_153_and_vblank_is_requested() {
    let (mut ppu, mut bus) = lcd_on();
    bus.write_byte(REG_IF, 0);
    ppu.update(&mut bus, 456 * 144);
    assert_eq!(bus.read_byte(REG_LY), 144);
    assert!(bus.read_byte(REG_IF) & 0x01 != 0);
    assert_eq!(bus.read_byte(REG_STAT) & 0x03, 1);
    ppu.update(&mut bus, 456 * 10);
    assert_eq!(bus.read_byte(REG_LY), 0);
    for _ in 0..1000 {
        ppu.update(&mut bus, 200);
        assert!(bus.read_byte(REG_LY) <= 153);
    }
}

#[test]
fn lcd_off_changes_nothing() {
    let (mut ppu, mut bus) = lcd_on();
    bus.write_byte(REG_LCDC, 0x11);
    ppu.update(&mut bus, 456 * 5);
    assert_eq!(bus.read_byte(REG_LY), 0);
}

#[test]
fn lyc_match_requests_stat_interrupt() {
    let (mut ppu, mut bus) = lcd_on();
    bus.write_byte(REG_LYC, 2);
    bus.write_byte(REG_STAT, 0x40);
    bus.write_byte(REG_IF, 0);
    ppu.update(&mut bus, 456);
    assert_eq!(bus.read_byte(REG_STAT) & 0x04, 0);
    ppu.update(&mut bus, 456);
    assert!(bus.read_byte(REG_STAT) & 0x04 != 0);
    assert!(bus.read_byte(REG_IF) & 0x02 != 0);
}

#[test]
fn set_lyc_refreshes_match_bit() {
    let (_ppu, mut bus) = lcd_on();
    Ppu::set_lyc(&mut bus, 0);
    Ppu::set_lyc(&mut bus, 5);
    assert_eq!(bus.read_byte(REG_STAT) & 0x04, 0);
    Ppu::set_lyc(&mut bus, 0);
    assert!(bus.read_byte(REG_STAT) & 0x04 != 0);
    assert_eq!(bus.read_byte(REG_LY), 0);
}

#[test]
fn sprites_draw_over_background() {
    let (mut ppu, mut bus) = lcd_on();
    bus.write_byte(REG_LCDC, 0x93); // enable, tiles at 0x8000, objects on
    bus.write_byte(0xFF48, 0xE4);
    // tile 1, first row: colour id 3 everywhere
    bus.write_byte(0x8010, 0xFF);
    bus.write_byte(0x8011, 0xFF);
    // object 0 at screen (10, 1): OAM y = 17, x = 18
    bus.write_internal_byte(0xFE00, 17);
    bus.write_internal_byte(0xFE01, 18);
    bus.write_internal_byte(0xFE02, 1);
    bus.write_internal_byte(0xFE03, 0);
    ppu.update(&mut bus, 456);
    assert_eq!(bus.read_byte(REG_LY), 1);
    let row = 160;
    assert_eq!(ppu.frame()[row + 9], 0);
    for x in 10..18 {
        assert_eq!(ppu.frame()[row + x], 3);
    }
    assert_eq!(ppu.frame()[row + 18], 0);
}

#[test]
fn at_most_ten_sprites_per_line() {
    let (mut ppu, mut bus) = lcd_on();
    bus.write_byte(REG_LCDC, 0x93);
    bus.write_byte(0xFF48, 0xE4);
    bus.write_byte(0x8010, 0xFF);
    bus.write_byte(0x8011, 0x00);
    // twelve objects side by side on line 1
    for i in 0..12u16 {
        bus.write_internal_byte(0xFE00 + i * 4, 17);
        bus.write_internal_byte(0xFE01 + i * 4, 8 + (i as u8) * 8);
        bus.write_internal_byte(0xFE02 + i * 4, 1);
        bus.write_internal_byte(0xFE03 + i * 4, 0);
    }
    ppu.update(&mut bus, 456);
    let row = 160;
    for x in 0..80 {
        assert_eq!(ppu.frame()[row + x], 1);
    }
    for x in 80..96 {
        assert_eq!(ppu.frame()[row + x], 0);
    }
}

#[test]
fn sprite_geometry() {
    let s = Sprite::from([16 + 4, 8 + 2, 0x23, 0x60]);
    assert_eq!(s.x(), 2);
    assert!(s.has_x_flip());
    assert!(s.has_y_flip());
    assert!(!s.palette());
    assert!(s.is_visible_at_line(4, false));
    assert!(s.is_visible_at_line(11, false));
    assert!(!s.is_visible_at_line(12, false));
    assert!(s.is_visible_at_line(19, true));
    // row 0 flipped is row 7
    assert_eq!(s.get_tile_address(4, false), 0x23 * 16 + 14);
    // tall objects use the even tile first; flipped row 0 is row 15
    assert_eq!(s.get_tile_address(4, true), (0x22 + 1) * 16 + 14);
    let off = Sprite::from([16, 0, 0, 0]);
    assert!(!off.is_visible_at_line(0, false));
    let edge = Sprite::from([16, 1, 0, 0x10]);
    assert!(edge.is_visible_at_line(0, false));
    assert!(edge.palette());
}

#[test]
fn test_pattern_fills_frame() {
    let (mut ppu, bus) = lcd_on();
    ppu.update_test(&bus);
    let frame = ppu.frame();
    assert_eq!(frame[0], 0);
    assert_eq!(frame[159], 0);
    assert_eq!(frame[143 * 160 + 5], 0);
    assert_eq!(frame[160 + 1], 3);
    assert_eq!(frame[160 + 8], 1);
    assert_eq!(frame[8 * 160 + 8], 3);
}
