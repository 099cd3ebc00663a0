use gbrust::bus::{MemorySystem, REG_IE, REG_IF};
use gbrust::cpu::{Cpu, CpuError, Flags};
use gbrust::operand::Condition;

#[test]
fn test_flags() {
    let mut cpu = Cpu::default();
    cpu.set_f(0x00); // clear all flags

    assert!(!cpu.flag(Flags::Z));
    assert!(!cpu.flag(Flags::N));
    assert!(!cpu.flag(Flags::H));
    assert!(!cpu.flag(Flags::C));

    cpu.set_flag(Flags::Z);
    assert!(cpu.flag(Flags::Z));
    assert!(!cpu.flag(Flags::N));

    cpu.clear_flag(Flags::Z);
    assert!(!cpu.flag(Flags::Z));

    cpu.set_flag(Flags::N);
    cpu.set_flag(Flags::H);
    assert!(cpu.flag(Flags::N));
    assert!(cpu.flag(Flags::H));
    assert!(!cpu.flag(Flags::C));

    cpu.set_flag_if(Flags::C, true);
    assert!(cpu.flag(Flags::C));
    cpu.set_flag_if(Flags::C, false);
    assert!(!cpu.flag(Flags::C));

    assert!(cpu.flag(Flags::N));
    assert!(cpu.flag(Flags::H));
    assert!(!cpu.flag(Flags::Z));

    assert!(cpu.check_condition(Condition::NZ));
    cpu.set_flag(Flags::Z);
    assert!(cpu.check_condition(Condition::Z));
    assert!(!cpu.check_condition(Condition::NZ));
    cpu.clear_flag(Flags::Z);

    cpu.set_flag(Flags::C);
    assert!(cpu.check_condition(Condition::C));
    assert!(!cpu.check_condition(Condition::NC));
}

#[test]
fn test_stack_operations() {
    let mut cpu = Cpu::default();
    let mut bus = MemorySystem::default();
    cpu.set_sp(0xCFFF);

    let initial_value = 0x1234;

    cpu.sp_push_word(&mut bus, initial_value);
    assert_eq!(cpu.sp(), 0xCFFD, "Stack pointer should be decremented by 2");
    assert_eq!(bus.read_word(cpu.sp()), initial_value, "Stack value should be written");

    let high = bus.read_byte(0xCFFE);
    let low = bus.read_byte(0xCFFD);
    assert_eq!(low, initial_value as u8, "Low byte should be written first");
    assert_eq!(high, (initial_value >> 8) as u8, "High byte should be written second");

    let actual_value = cpu.sp_pop_word(&mut bus);
    assert_eq!(cpu.sp(), 0xCFFF, "Stack pointer should be incremented by 2");
    assert_eq!(actual_value, initial_value, "Stack value should be read");
}

#[test]
fn test_interrupt_handling_ime_disabled() {
    let mut cpu = Cpu::default();
    let mut bus = MemorySystem::default();

    cpu.set_ime(false);
    cpu.set_halted(true);
    bus.write_byte(REG_IE, bus.read_byte(REG_IE) | 0x01);
    bus.write_byte(REG_IF, bus.read_byte(REG_IF) | 0x01);

    let initial_pc = cpu.pc();
    let initial_sp = cpu.sp();

    let cycles = cpu.handle_interrupt(&mut bus);

    assert!(!cpu.halt(), "CPU should exit HALT state");
    assert_eq!(cycles, 0, "No cycles should be consumed when IME is disabled");
    assert_eq!(cpu.pc(), initial_pc, "PC should not change");
    assert_eq!(cpu.sp(), initial_sp, "SP should not change");
    assert!(bus.read_byte(REG_IF) & 0x01 != 0, "Interrupt flag should remain set");
}

#[test]
fn power_on_registers() {
    let cpu = Cpu::default();
    assert_eq!(cpu.af(), 0x01B0);
    assert_eq!(cpu.bc(), 0x0013);
    assert_eq!(cpu.de(), 0x00D8);
    assert_eq!(cpu.hl(), 0x014D);
    assert_eq!(cpu.sp(), 0xFFFE);
    assert_eq!(cpu.pc(), 0x0100);
    assert!(!cpu.ime());
    assert!(!cpu.halt());
}

#[test]
fn register_halves() {
    let mut cpu = Cpu::default();
    cpu.set_bc(0x1234);
    assert_eq!(cpu.b(), 0x12);
    assert_eq!(cpu.c(), 0x34);
    cpu.set_d(0xAB);
    cpu.set_e(0xCD);
    assert_eq!(cpu.de(), 0xABCD);
    cpu.set_h(0x01);
    cpu.set_l(0x02);
    assert_eq!(cpu.hl(), 0x0102);
    cpu.set_a(0x77);
    assert_eq!(cpu.a(), 0x77);
    // the low nibble of F always reads zero
    cpu.set_f(0xFF);
    assert_eq!(cpu.f(), 0xF0);
    cpu.set_af(0x12FF);
    assert_eq!(cpu.af(), 0x12F0);
}

#[test]
fn interrupt_priority_and_dispatch() {
    let mut cpu = Cpu::default();
    let mut bus = MemorySystem::default();
    bus.write_byte(REG_IE, 0x1F);
    bus.write_byte(REG_IF, 0x1F);
    cpu.set_ime(true);
    cpu.set_pc(0x0200);
    cpu.set_sp(0xFFFE);

    assert_eq!(cpu.step(&mut bus), Ok(20));
    assert_eq!(cpu.pc(), 0x0040);
    assert_eq!(bus.read_byte(REG_IF), 0x1E);
    assert!(!cpu.ime());
    assert_eq!(bus.read_byte(0xFFFC), 0x00);
    assert_eq!(bus.read_byte(0xFFFD), 0x02);
}

#[test]
fn each_interrupt_has_its_vector() {
    for (bit, vector) in [(0x01u8, 0x40u16), (0x02, 0x48), (0x04, 0x50), (0x08, 0x58), (0x10, 0x60)] {
        let mut cpu = Cpu::default();
        let mut bus = MemorySystem::default();
        bus.write_byte(REG_IE, 0x1F);
        bus.write_byte(REG_IF, bit);
        cpu.set_ime(true);
        cpu.set_sp(0xDFF0);
        assert_eq!(cpu.handle_interrupt(&mut bus), 20);
        assert_eq!(cpu.pc(), vector);
        assert_eq!(bus.read_byte(REG_IF) & bit, 0);
        assert!(!cpu.ime());
    }
}

#[test]
fn jr_nz_timing() {
    let mut cpu = Cpu::default();
    let mut bus = MemorySystem::default();
    bus.write_byte(0xC000, 0x20); // JR NZ, +4
    bus.write_byte(0xC001, 0x04);
    cpu.set_pc(0xC000);
    cpu.clear_flag(Flags::Z);
    assert_eq!(cpu.step(&mut bus), Ok(12));
    assert_eq!(cpu.pc(), 0xC006);

    cpu.set_pc(0xC000);
    cpu.set_flag(Flags::Z);
    assert_eq!(cpu.step(&mut bus), Ok(8));
    assert_eq!(cpu.pc(), 0xC002);
}

#[test]
fn halt_idles_until_interrupt() {
    let mut cpu = Cpu::default();
    let mut bus = MemorySystem::default();
    bus.write_byte(0xC000, 0x76); // HALT
    cpu.set_pc(0xC000);
    cpu.set_ime(true);
    bus.write_byte(REG_IE, 0x04);
    assert_eq!(cpu.step(&mut bus), Ok(4));
    assert!(cpu.halt());
    assert_eq!(cpu.step(&mut bus), Ok(4));
    assert!(cpu.halt());
    assert_eq!(cpu.pc(), 0xC001);
    bus.write_byte(REG_IF, 0x04);
    assert_eq!(cpu.step(&mut bus), Ok(20));
    assert_eq!(cpu.pc(), 0x0050);
    assert!(!cpu.halt());
}

#[test]
fn ei_takes_effect_after_next_instruction() {
    let mut cpu = Cpu::default();
    let mut bus = MemorySystem::default();
    bus.write_byte(0xC000, 0xFB); // EI
    bus.write_byte(0xC001, 0x00); // NOP
    bus.write_byte(REG_IE, 0x01);
    bus.write_byte(REG_IF, 0x01);
    cpu.set_pc(0xC000);
    assert_eq!(cpu.step(&mut bus), Ok(4));
    assert!(!cpu.ime());
    assert_eq!(cpu.step(&mut bus), Ok(4));
    assert!(cpu.ime());
    assert_eq!(cpu.pc(), 0xC002);
    assert_eq!(cpu.step(&mut bus), Ok(20));
    assert_eq!(cpu.pc(), 0x0040);
}

#[test]
fn undefined_opcode_is_reported() {
    let mut cpu = Cpu::default();
    let mut bus = MemorySystem::default();
    bus.write_byte(0xC100, 0xD3);
    cpu.set_pc(0xC100);
    assert_eq!(cpu.step(&mut bus), Err(CpuError::UndefinedOpcode { pc: 0xC100, opcode: 0xD3 }));
}

#[test]
fn add_then_sub_restores_a_for_all_operands() {
    for a in 0..=255u8 {
        for n in 0..=255u8 {
            let mut cpu = Cpu::default();
            let mut bus = MemorySystem::default();
            bus.write_byte(0xC000, 0xC6); // ADD A, n
            bus.write_byte(0xC001, n);
            bus.write_byte(0xC002, 0xD6); // SUB n
            bus.write_byte(0xC003, n);
            cpu.set_pc(0xC000);
            cpu.set_a(a);
            cpu.step(&mut bus).unwrap();
            cpu.step(&mut bus).unwrap();
            assert_eq!(cpu.a(), a);
        }
    }
}

#[test]
fn pop_then_push_keeps_top_of_stack() {
    for (pop, push) in [(0xC1u8, 0xC5u8), (0xD1, 0xD5), (0xE1, 0xE5), (0xF1, 0xF5)] {
        let mut cpu = Cpu::default();
        let mut bus = MemorySystem::default();
        bus.write_byte(0xC000, pop);
        bus.write_byte(0xC001, push);
        bus.write_word(0xDF00, 0xBEE0);
        cpu.set_pc(0xC000);
        cpu.set_sp(0xDF00);
        assert_eq!(cpu.step(&mut bus), Ok(12));
        assert_eq!(cpu.step(&mut bus), Ok(16));
        assert_eq!(cpu.sp(), 0xDF00);
        assert_eq!(bus.read_word(0xDF00), 0xBEE0);
    }
}

#[test]
fn call_and_ret() {
    let mut cpu = Cpu::default();
    let mut bus = MemorySystem::default();
    bus.write_byte(0xC000, 0xCD); // CALL 0xC010
    bus.write_byte(0xC001, 0x10);
    bus.write_byte(0xC002, 0xC0);
    bus.write_byte(0xC010, 0xC9); // RET
    cpu.set_pc(0xC000);
    cpu.set_sp(0xDFFE);
    assert_eq!(cpu.step(&mut bus), Ok(24));
    assert_eq!(cpu.pc(), 0xC010);
    assert_eq!(bus.read_word(0xDFFC), 0xC003);
    assert_eq!(cpu.step(&mut bus), Ok(16));
    assert_eq!(cpu.pc(), 0xC003);
    assert_eq!(cpu.sp(), 0xDFFE);
}

#[test]
fn cb_prefixed_step() {
    let mut cpu = Cpu::default();
    let mut bus = MemorySystem::default();
    bus.write_byte(0xC000, 0xCB);
    bus.write_byte(0xC001, 0x37); // SWAP A
    cpu.set_pc(0xC000);
    cpu.set_a(0x12);
    assert_eq!(cpu.step(&mut bus), Ok(8));
    assert_eq!(cpu.a(), 0x21);
    assert_eq!(cpu.pc(), 0xC002);
}

#[test]
fn rst_pushes_and_jumps() {
    let mut cpu = Cpu::default();
    let mut bus = MemorySystem::default();
    bus.write_byte(0xC000, 0xEF); // RST 28H
    cpu.set_pc(0xC000);
    cpu.set_sp(0xDFFE);
    assert_eq!(cpu.step(&mut bus), Ok(16));
    assert_eq!(cpu.pc(), 0x0028);
    assert_eq!(bus.read_word(0xDFFC), 0xC001);
}
