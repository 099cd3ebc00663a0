use gbrust::bus::{MemorySystem, REG_DIV, REG_IF, REG_TAC, REG_TIMA, REG_TMA};
use gbrust::timer::Timer;

const TAC_ENABLE: u8 = 0b100;
const TAC_SELECT1: u8 = 0b010;
const TAC_SELECT0: u8 = 0b001;

#[test]
fn test_div_increment() {
    let mut timer = Timer::default();
    let mut bus = MemorySystem::default();

    timer.step(&mut bus, 255);
    assert_eq!(bus.read_byte(REG_DIV), 0);

    timer.step(&mut bus, 1);
    assert_eq!(bus.read_byte(REG_DIV), 1);
}

#[test]
fn test_tima_frequencies() {
    let run_test = |tac: u8, cycles: usize| {
        let mut timer = Timer::default();
        let mut bus = MemorySystem::default();
        bus.write_byte(REG_TAC, tac);
        timer.step(&mut bus, (cycles - 1) as u8);
        assert_eq!(bus.read_byte(REG_TIMA), 0);
        timer.step(&mut bus, 1);
        assert_eq!(bus.read_byte(REG_TIMA), 1);
    };

    run_test(TAC_ENABLE, 256);
    run_test(TAC_ENABLE | TAC_SELECT0, 4);
    run_test(TAC_ENABLE | TAC_SELECT1, 16);
    run_test(TAC_ENABLE | TAC_SELECT1 | TAC_SELECT0, 64);
}

#[test]
fn test_tima_overflow() {
    let mut timer = Timer::default();
    let mut bus = MemorySystem::default();

    bus.write_byte(REG_TAC, TAC_ENABLE);
    bus.write_byte(REG_TIMA, 0xFF);
    bus.write_byte(REG_TMA, 0x42);

    timer.step(&mut bus, 255);
    assert_eq!(bus.read_byte(REG_TIMA), 0xFF);
    timer.step(&mut bus, 1);
    assert_eq!(bus.read_byte(REG_TIMA), 0x42);
    assert!(bus.read_byte(REG_IF) & 0x04 != 0);
}

#[test]
fn test_timer_disabled() {
    let mut timer = Timer::default();
    let mut bus = MemorySystem::default();

    bus.write_byte(REG_TAC, 0);
    bus.write_byte(REG_TIMA, 0x42);

    timer.step(&mut bus, 255);
    timer.step(&mut bus, 1);

    assert_eq!(bus.read_byte(REG_TIMA), 0x42);
    assert_eq!(bus.read_byte(REG_DIV), 1);
}

#[test]
fn div_write_restarts_the_divider() {
    let mut timer = Timer::default();
    let mut bus = MemorySystem::default();
    timer.step(&mut bus, 255);
    timer.step(&mut bus, 1);
    assert_eq!(bus.read_byte(REG_DIV), 1);
    timer.step(&mut bus, 200);
    bus.write_byte(REG_DIV, 0x5A);
    assert_eq!(bus.read_byte(REG_DIV), 0);
    timer.step(&mut bus, 255);
    assert_eq!(bus.read_byte(REG_DIV), 0);
    timer.step(&mut bus, 1);
    assert_eq!(bus.read_byte(REG_DIV), 1);
}

#[test]
fn fast_rate_counts_many_ticks_per_step() {
    let mut timer = Timer::default();
    let mut bus = MemorySystem::default();
    bus.write_byte(REG_TAC, TAC_ENABLE | TAC_SELECT0);
    timer.step(&mut bus, 40);
    assert_eq!(bus.read_byte(REG_TIMA), 10);
    timer.step(&mut bus, 3);
    assert_eq!(bus.read_byte(REG_TIMA), 10);
    timer.step(&mut bus, 1);
    assert_eq!(bus.read_byte(REG_TIMA), 11);
}

#[test]
fn reset_sets_registers() {
    let mut timer = Timer::default();
    let mut bus = MemorySystem::default();
    bus.write_byte(REG_TIMA, 9);
    bus.write_byte(REG_TMA, 9);
    timer.reset(&mut bus);
    assert_eq!(bus.read_byte(REG_DIV), 0);
    assert_eq!(bus.read_byte(REG_TIMA), 0);
    assert_eq!(bus.read_byte(REG_TMA), 0);
    assert_eq!(bus.read_byte(REG_TAC), 0xF8);
}
