//! The CPU: registers, flags, the stack, the interrupt dispatcher, and the
//! fetch-decode-execute step.
use crate::alu::{flag_c, flag_h, flag_n, flag_z, flags_byte, make_flags};
use crate::bus::{
    lemma_high_page_write, next_address, BusView, MemorySystem, REG_IE, REG_IF, REG_LY,
};
use crate::operand::Condition as CC;
use crate::register::{lemma_value_determines, Register16};
use vstd::prelude::*;

verus! {

/// The four flags of `F`.
#[derive(Clone, Copy, Debug, PartialEq, Eq)]
pub enum Flags {
    Z,
    N,
    H,
    C,
}

pub open spec fn flag_of(f: u8, flag: Flags) -> bool {
    match flag {
        Flags::Z => flag_z(f),
        Flags::N => flag_n(f),
        Flags::H => flag_h(f),
        Flags::C => flag_c(f),
    }
}

/// `F` with one flag set to `value` and the others kept; the low nibble
/// reads zero.
pub open spec fn flag_set(f: u8, flag: Flags, value: bool) -> u8 {
    flags_byte(
        if flag is Z {
            value
        } else {
            flag_z(f)
        },
        if flag is N {
            value
        } else {
            flag_n(f)
        },
        if flag is H {
            value
        } else {
            flag_h(f)
        },
        if flag is C {
            value
        } else {
            flag_c(f)
        },
    )
}

/// Bits that are requested in `IF`, enabled in `IE`, and name an interrupt.
pub open spec fn pending_of(m: BusView) -> u8 {
    m.peek(REG_IF) & m.peek(REG_IE) & 0x1F
}

/// The request served first: VBLANK, LCD_STAT, TIMER, SERIAL, JOYPAD.
pub open spec fn priority_bit(pending: u8) -> u8 {
    if pending & 0x01 != 0 {
        0x01
    } else if pending & 0x02 != 0 {
        0x02
    } else if pending & 0x04 != 0 {
        0x04
    } else if pending & 0x08 != 0 {
        0x08
    } else {
        0x10
    }
}

/// The handler address of an interrupt bit.
pub open spec fn vector_of(bit: u8) -> u16 {
    if bit == 0x01 {
        0x0040
    } else if bit == 0x02 {
        0x0048
    } else if bit == 0x04 {
        0x0050
    } else if bit == 0x08 {
        0x0058
    } else {
        0x0060
    }
}

/// `SP` after a push.
pub open spec fn sp_down(sp: u16) -> u16 {
    ((sp + 0x10000 - 2) % 0x10000) as u16
}

/// `SP` after a pop.
pub open spec fn sp_up(sp: u16) -> u16 {
    ((sp + 2) % 0x10000) as u16
}

/// Why the CPU cannot go on.
#[derive(Clone, Copy, Debug, PartialEq, Eq)]
pub enum CpuError {
    /// The opcode fetched at `pc` is in neither decode table.
    UndefinedOpcode { pc: u16, opcode: u8 },
}

/// Register file and control state of the CPU.
pub struct Cpu {
    af: Register16,
    bc: Register16,
    de: Register16,
    hl: Register16,
    sp: u16,
    pc: u16,
    halted: bool,
    stopped: bool,
    ime: bool,
    ime_scheduled: bool,
}

impl Default for Cpu {
    fn default() -> (r: Self)
        ensures
            r.is_power_on(),
    {
        Cpu::new()
    }
}

impl Cpu {
    pub closed spec fn spec_af(self) -> u16 {
        self.af.spec_value()
    }

    pub closed spec fn spec_bc(self) -> u16 {
        self.bc.spec_value()
    }

    pub closed spec fn spec_de(self) -> u16 {
        self.de.spec_value()
    }

    pub closed spec fn spec_hl(self) -> u16 {
        self.hl.spec_value()
    }

    pub closed spec fn spec_sp(self) -> u16 {
        self.sp
    }

    pub closed spec fn spec_pc(self) -> u16 {
        self.pc
    }

    pub closed spec fn spec_halted(self) -> bool {
        self.halted
    }

    pub closed spec fn spec_stopped(self) -> bool {
        self.stopped
    }

    pub closed spec fn spec_ime(self) -> bool {
        self.ime
    }

    pub closed spec fn spec_ime_scheduled(self) -> bool {
        self.ime_scheduled
    }

    pub open spec fn spec_a(self) -> u8 {
        (self.spec_af() / 256) as u8
    }

    pub open spec fn spec_f(self) -> u8 {
        (self.spec_af() % 256) as u8
    }

    pub open spec fn spec_b(self) -> u8 {
        (self.spec_bc() / 256) as u8
    }

    pub open spec fn spec_c(self) -> u8 {
        (self.spec_bc() % 256) as u8
    }

    pub open spec fn spec_d(self) -> u8 {
        (self.spec_de() / 256) as u8
    }

    pub open spec fn spec_e(self) -> u8 {
        (self.spec_de() % 256) as u8
    }

    pub open spec fn spec_h(self) -> u8 {
        (self.spec_hl() / 256) as u8
    }

    pub open spec fn spec_l(self) -> u8 {
        (self.spec_hl() % 256) as u8
    }

    /// The registers after reset without a boot ROM.
    pub open spec fn is_power_on(self) -> bool {
        self.is_power_on_at(0x0100)
    }

    /// The registers after reset, with execution starting at `pc`.
    pub open spec fn is_power_on_at(self, pc: u16) -> bool {
        &&& self.spec_af() == 0x01B0
        &&& self.spec_bc() == 0x0013
        &&& self.spec_de() == 0x00D8
        &&& self.spec_hl() == 0x014D
        &&& self.spec_sp() == 0xFFFE
        &&& self.spec_pc() == pc
        &&& !self.spec_ime()
        &&& !self.spec_ime_scheduled()
        &&& !self.spec_halted()
        &&& !self.spec_stopped()
    }

    /// The CPU as a fetched instruction starts to run: `PC` past its bytes,
    /// not halted, and a pending `EI` committed.
    pub closed spec fn ready(self, pc: u16) -> Cpu {
        Cpu { pc, halted: false, ime: self.ime || self.ime_scheduled, ime_scheduled: false, ..self }
    }

    /// The CPU with `PC` moved to `pc`.
    pub closed spec fn with_pc(self, pc: u16) -> Cpu {
        Cpu { pc, ..self }
    }

    /// Every register and control bit agrees.
    pub open spec fn same_state(self, other: Cpu) -> bool {
        &&& self.same_registers(other)
        &&& self.spec_sp() == other.spec_sp()
        &&& self.spec_pc() == other.spec_pc()
        &&& self.spec_halted() == other.spec_halted()
        &&& self.spec_ime() == other.spec_ime()
        &&& self.spec_ime_scheduled() == other.spec_ime_scheduled()
    }

    /// `SP`, `PC` and the control bits agree.
    pub open spec fn same_control(self, other: Cpu) -> bool {
        &&& self.spec_sp() == other.spec_sp()
        &&& self.spec_pc() == other.spec_pc()
        &&& self.spec_halted() == other.spec_halted()
        &&& self.spec_stopped() == other.spec_stopped()
        &&& self.spec_ime() == other.spec_ime()
        &&& self.spec_ime_scheduled() == other.spec_ime_scheduled()
    }

    /// The four register pairs and `STOP` state agree.
    pub open spec fn same_registers(self, other: Cpu) -> bool {
        &&& self.spec_af() == other.spec_af()
        &&& self.spec_bc() == other.spec_bc()
        &&& self.spec_de() == other.spec_de()
        &&& self.spec_hl() == other.spec_hl()
        &&& self.spec_stopped() == other.spec_stopped()
    }

    pub fn new() -> (r: Self)
        ensures
            r.is_power_on(),
    {
        Cpu {
            af: Register16::new(0x01B0),
            bc: Register16::new(0x0013),
            de: Register16::new(0x00D8),
            hl: Register16::new(0x014D),
            sp: 0xFFFE,
            pc: 0x0100,
            halted: false,
            stopped: false,
            ime: false,
            ime_scheduled: false,
        }
    }

    pub fn reset(&mut self)
        ensures
            final(self).is_power_on(),
    {
        *self = Cpu::new();
    }

    pub fn a(&self) -> (r: u8)
        ensures
            r == self.spec_a(),
    {
        self.af.high()
    }

    pub fn set_a(&mut self, value: u8)
        ensures
            final(self).spec_a() == value,
            final(self).spec_f() == old(self).spec_f(),
            final(self).spec_bc() == old(self).spec_bc(),
            final(self).spec_de() == old(self).spec_de(),
            final(self).spec_hl() == old(self).spec_hl(),
            final(self).same_control(*old(self)),
    {
        self.af.set_high(value);
    }

    pub fn b(&self) -> (r: u8)
        ensures
            r == self.spec_b(),
    {
        self.bc.high()
    }

    pub fn set_b(&mut self, value: u8)
        ensures
            final(self).spec_b() == value,
            final(self).spec_c() == old(self).spec_c(),
            final(self).spec_af() == old(self).spec_af(),
            final(self).spec_de() == old(self).spec_de(),
            final(self).spec_hl() == old(self).spec_hl(),
            final(self).same_control(*old(self)),
    {
        self.bc.set_high(value);
    }

    pub fn c(&self) -> (r: u8)
        ensures
            r == self.spec_c(),
    {
        self.bc.low()
    }

    pub fn set_c(&mut self, value: u8)
        ensures
            final(self).spec_c() == value,
            final(self).spec_b() == old(self).spec_b(),
            final(self).spec_af() == old(self).spec_af(),
            final(self).spec_de() == old(self).spec_de(),
            final(self).spec_hl() == old(self).spec_hl(),
            final(self).same_control(*old(self)),
    {
        self.bc.set_low(value);
    }

    pub fn d(&self) -> (r: u8)
        ensures
            r == self.spec_d(),
    {
        self.de.high()
    }

    pub fn set_d(&mut self, value: u8)
        ensures
            final(self).spec_d() == value,
            final(self).spec_e() == old(self).spec_e(),
            final(self).spec_af() == old(self).spec_af(),
            final(self).spec_bc() == old(self).spec_bc(),
            final(self).spec_hl() == old(self).spec_hl(),
            final(self).same_control(*old(self)),
    {
        self.de.set_high(value);
    }

    pub fn e(&self) -> (r: u8)
        ensures
            r == self.spec_e(),
    {
        self.de.low()
    }

    pub fn set_e(&mut self, value: u8)
        ensures
            final(self).spec_e() == value,
            final(self).spec_d() == old(self).spec_d(),
            final(self).spec_af() == old(self).spec_af(),
            final(self).spec_bc() == old(self).spec_bc(),
            final(self).spec_hl() == old(self).spec_hl(),
            final(self).same_control(*old(self)),
    {
        self.de.set_low(value);
    }

    pub fn f(&self) -> (r: u8)
        ensures
            r == self.spec_f(),
    {
        self.af.low()
    }

    /// Sets the flag byte; its low nibble always reads zero.
    pub fn set_f(&mut self, value: u8)
        ensures
            final(self).spec_f() == value - value % 16,
            final(self).spec_a() == old(self).spec_a(),
            final(self).spec_bc() == old(self).spec_bc(),
            final(self).spec_de() == old(self).spec_de(),
            final(self).spec_hl() == old(self).spec_hl(),
            final(self).same_control(*old(self)),
    {
        self.af.set_low(value - value % 16);
    }

    pub fn h(&self) -> (r: u8)
        ensures
            r == self.spec_h(),
    {
        self.hl.high()
    }

    pub fn set_h(&mut self, value: u8)
        ensures
            final(self).spec_h() == value,
            final(self).spec_l() == old(self).spec_l(),
            final(self).spec_af() == old(self).spec_af(),
            final(self).spec_bc() == old(self).spec_bc(),
            final(self).spec_de() == old(self).spec_de(),
            final(self).same_control(*old(self)),
    {
        self.hl.set_high(value);
    }

    pub fn l(&self) -> (r: u8)
        ensures
            r == self.spec_l(),
    {
        self.hl.low()
    }

    pub fn set_l(&mut self, value: u8)
        ensures
            final(self).spec_l() == value,
            final(self).spec_h() == old(self).spec_h(),
            final(self).spec_af() == old(self).spec_af(),
            final(self).spec_bc() == old(self).spec_bc(),
            final(self).spec_de() == old(self).spec_de(),
            final(self).same_control(*old(self)),
    {
        self.hl.set_low(value);
    }

    pub fn af(&self) -> (r: u16)
        ensures
            r == self.spec_af(),
    {
        self.af.value()
    }

    /// Sets `AF`; the low nibble of `F` always reads zero.
    pub fn set_af(&mut self, value: u16)
        ensures
            final(self).spec_af() == value - value % 16,
            final(self).spec_bc() == old(self).spec_bc(),
            final(self).spec_de() == old(self).spec_de(),
            final(self).spec_hl() == old(self).spec_hl(),
            final(self).same_control(*old(self)),
    {
        self.af.set_value(value - value % 16);
    }

    pub fn bc(&self) -> (r: u16)
        ensures
            r == self.spec_bc(),
    {
        self.bc.value()
    }

    pub fn set_bc(&mut self, value: u16)
        ensures
            final(self).spec_bc() == value,
            final(self).spec_af() == old(self).spec_af(),
            final(self).spec_de() == old(self).spec_de(),
            final(self).spec_hl() == old(self).spec_hl(),
            final(self).same_control(*old(self)),
    {
        self.bc.set_value(value)
    }

    pub fn de(&self) -> (r: u16)
        ensures
            r == self.spec_de(),
    {
        self.de.value()
    }

    pub fn set_de(&mut self, value: u16)
        ensures
            final(self).spec_de() == value,
            final(self).spec_af() == old(self).spec_af(),
            final(self).spec_bc() == old(self).spec_bc(),
            final(self).spec_hl() == old(self).spec_hl(),
            final(self).same_control(*old(self)),
    {
        self.de.set_value(value)
    }

    pub fn hl(&self) -> (r: u16)
        ensures
            r == self.spec_hl(),
    {
        self.hl.value()
    }

    pub fn set_hl(&mut self, value: u16)
        ensures
            final(self).spec_hl() == value,
            final(self).spec_af() == old(self).spec_af(),
            final(self).spec_bc() == old(self).spec_bc(),
            final(self).spec_de() == old(self).spec_de(),
            final(self).same_control(*old(self)),
    {
        self.hl.set_value(value)
    }

    pub fn sp(&self) -> (r: u16)
        ensures
            r == self.spec_sp(),
    {
        self.sp
    }

    pub fn set_sp(&mut self, value: u16)
        ensures
            final(self).spec_sp() == value,
            final(self).same_registers(*old(self)),
            final(self).spec_pc() == old(self).spec_pc(),
            final(self).spec_halted() == old(self).spec_halted(),
            final(self).spec_ime() == old(self).spec_ime(),
            final(self).spec_ime_scheduled() == old(self).spec_ime_scheduled(),
    {
        self.sp = value
    }

    pub fn pc(&self) -> (r: u16)
        ensures
            r == self.spec_pc(),
    {
        self.pc
    }

    pub fn set_pc(&mut self, value: u16)
        ensures
            final(self).spec_pc() == value,
            final(self).spec_sp() == old(self).spec_sp(),
            final(self).same_registers(*old(self)),
            final(self).spec_ime() == old(self).spec_ime(),
            final(self).spec_halted() == old(self).spec_halted(),
            final(self).spec_ime_scheduled() == old(self).spec_ime_scheduled(),
    {
        self.pc = value
    }

    pub fn flag(&self, flag: Flags) -> (r: bool)
        ensures
            r == flag_of(self.spec_f(), flag),
    {
        let f = self.f();
        match flag {
            Flags::Z => f / 128 == 1,
            Flags::N => (f / 64) % 2 == 1,
            Flags::H => (f / 32) % 2 == 1,
            Flags::C => (f / 16) % 2 == 1,
        }
    }

    /// Sets or clears one flag, keeping the others.
    pub fn set_flag_if(&mut self, flag: Flags, condition: bool)
        ensures
            flag_of(final(self).spec_f(), flag) == condition,
            forall|other: Flags|
                other != flag ==> flag_of(final(self).spec_f(), other) == flag_of(
                    old(self).spec_f(),
                    other,
                ),
            final(self).spec_f() % 16 == 0,
            final(self).spec_a() == old(self).spec_a(),
            final(self).spec_bc() == old(self).spec_bc(),
            final(self).spec_de() == old(self).spec_de(),
            final(self).spec_hl() == old(self).spec_hl(),
            final(self).same_control(*old(self)),
            final(self).spec_f() == flag_set(old(self).spec_f(), flag, condition),
    {
        let f = self.f();
        let z = if matches!(flag, Flags::Z) {
            condition
        } else {
            f / 128 == 1
        };
        let n = if matches!(flag, Flags::N) {
            condition
        } else {
            (f / 64) % 2 == 1
        };
        let h = if matches!(flag, Flags::H) {
            condition
        } else {
            (f / 32) % 2 == 1
        };
        let c = if matches!(flag, Flags::C) {
            condition
        } else {
            (f / 16) % 2 == 1
        };
        let flags = make_flags(z, n, h, c);
        self.set_f(flags);
    }

    pub fn set_flag(&mut self, flag: Flags)
        ensures
            flag_of(final(self).spec_f(), flag),
            forall|other: Flags|
                other != flag ==> flag_of(final(self).spec_f(), other) == flag_of(
                    old(self).spec_f(),
                    other,
                ),
            final(self).spec_a() == old(self).spec_a(),
            final(self).spec_bc() == old(self).spec_bc(),
            final(self).spec_de() == old(self).spec_de(),
            final(self).spec_hl() == old(self).spec_hl(),
            final(self).same_control(*old(self)),
            final(self).spec_f() == flag_set(old(self).spec_f(), flag, true),
    {
        self.set_flag_if(flag, true);
    }

    pub fn clear_flag(&mut self, flag: Flags)
        ensures
            !flag_of(final(self).spec_f(), flag),
            forall|other: Flags|
                other != flag ==> flag_of(final(self).spec_f(), other) == flag_of(
                    old(self).spec_f(),
                    other,
                ),
            final(self).spec_a() == old(self).spec_a(),
            final(self).spec_bc() == old(self).spec_bc(),
            final(self).spec_de() == old(self).spec_de(),
            final(self).spec_hl() == old(self).spec_hl(),
            final(self).same_control(*old(self)),
            final(self).spec_f() == flag_set(old(self).spec_f(), flag, false),
    {
        self.set_flag_if(flag, false);
    }

    pub open spec fn condition_holds(self, condition: CC) -> bool {
        match condition {
            CC::NZ => !flag_z(self.spec_f()),
            CC::Z => flag_z(self.spec_f()),
            CC::NC => !flag_c(self.spec_f()),
            CC::C => flag_c(self.spec_f()),
        }
    }

    pub fn check_condition(&self, condition: CC) -> (r: bool)
        ensures
            r == self.condition_holds(condition),
    {
        match condition {
            CC::NZ => !self.flag(Flags::Z),
            CC::Z => self.flag(Flags::Z),
            CC::NC => !self.flag(Flags::C),
            CC::C => self.flag(Flags::C),
        }
    }

    pub fn ime(&self) -> (r: bool)
        ensures
            r == self.spec_ime(),
    {
        self.ime
    }

    pub fn set_ime(&mut self, value: bool)
        ensures
            final(self).spec_ime() == value,
            final(self).spec_halted() == old(self).spec_halted(),
            final(self).spec_pc() == old(self).spec_pc(),
            final(self).spec_sp() == old(self).spec_sp(),
            final(self).spec_ime_scheduled() == old(self).spec_ime_scheduled(),
            final(self).same_registers(*old(self)),
    {
        self.ime = value;
    }

    pub fn ime_scheduled(&self) -> (r: bool)
        ensures
            r == self.spec_ime_scheduled(),
    {
        self.ime_scheduled
    }

    /// `EI`: interrupts are enabled once the next instruction begins.
    pub fn set_ime_scheduled(&mut self, value: bool)
        ensures
            final(self).spec_ime_scheduled() == value,
            final(self).spec_ime() == old(self).spec_ime(),
            final(self).spec_halted() == old(self).spec_halted(),
            final(self).spec_pc() == old(self).spec_pc(),
            final(self).spec_sp() == old(self).spec_sp(),
            final(self).same_registers(*old(self)),
    {
        self.ime_scheduled = value;
    }

    pub fn halt(&self) -> (r: bool)
        ensures
            r == self.spec_halted(),
    {
        self.halted
    }

    pub fn set_halted(&mut self, value: bool)
        ensures
            final(self).spec_halted() == value,
            final(self).spec_ime() == old(self).spec_ime(),
            final(self).spec_pc() == old(self).spec_pc(),
            final(self).spec_sp() == old(self).spec_sp(),
            final(self).spec_ime_scheduled() == old(self).spec_ime_scheduled(),
            final(self).same_registers(*old(self)),
    {
        self.halted = value;
    }

    pub fn stop(&self) -> (r: bool)
        ensures
            r == self.spec_stopped(),
    {
        self.stopped
    }

    pub fn set_stopped(&mut self, value: bool)
        ensures
            final(self).spec_stopped() == value,
            final(self).spec_af() == old(self).spec_af(),
            final(self).spec_bc() == old(self).spec_bc(),
            final(self).spec_de() == old(self).spec_de(),
            final(self).spec_hl() == old(self).spec_hl(),
            final(self).spec_sp() == old(self).spec_sp(),
            final(self).spec_pc() == old(self).spec_pc(),
            final(self).spec_halted() == old(self).spec_halted(),
            final(self).spec_ime() == old(self).spec_ime(),
    {
        self.stopped = value;
    }

    /// Reads the byte at `PC` and moves `PC` past it.
    pub fn pc_read_byte(&mut self, bus: &MemorySystem) -> (r: u8)
        requires
            bus@.wf(),
        ensures
            r == bus@.peek(old(self).spec_pc()),
            final(self).spec_pc() == next_address(old(self).spec_pc()),
            final(self).spec_sp() == old(self).spec_sp(),
            final(self).same_registers(*old(self)),
            final(self).spec_ime() == old(self).spec_ime(),
            final(self).spec_ime_scheduled() == old(self).spec_ime_scheduled(),
            final(self).spec_halted() == old(self).spec_halted(),
    {
        let byte = bus.read_byte(self.pc);
        self.pc = if self.pc == 0xFFFF {
            0
        } else {
            self.pc + 1
        };
        byte
    }

    /// Pushes a word: `SP` drops by two, then the word is written there.
    pub fn sp_push_word(&mut self, bus: &mut MemorySystem, value: u16)
        requires
            old(bus)@.wf(),
        ensures
            final(self).spec_sp() == sp_down(old(self).spec_sp()),
            final(bus)@ == old(bus)@.write_word_spec(sp_down(old(self).spec_sp()), value),
            final(bus)@.wf(),
            final(bus)@.peek(REG_LY) == old(bus)@.peek(REG_LY),
            final(self).spec_pc() == old(self).spec_pc(),
            final(self).same_registers(*old(self)),
            final(self).spec_ime() == old(self).spec_ime(),
            final(self).spec_ime_scheduled() == old(self).spec_ime_scheduled(),
            final(self).spec_halted() == old(self).spec_halted(),
    {
        self.sp = self.sp.wrapping_sub(2);
        bus.write_word(self.sp, value);
    }

    /// Pops a word: it is read at `SP`, then `SP` rises by two.
    pub fn sp_pop_word(&mut self, bus: &MemorySystem) -> (r: u16)
        requires
            bus@.wf(),
        ensures
            r == bus@.peek_word(old(self).spec_sp()),
            final(self).spec_sp() == sp_up(old(self).spec_sp()),
            final(self).spec_pc() == old(self).spec_pc(),
            final(self).same_registers(*old(self)),
            final(self).spec_ime() == old(self).spec_ime(),
            final(self).spec_ime_scheduled() == old(self).spec_ime_scheduled(),
            final(self).spec_halted() == old(self).spec_halted(),
    {
        let value = bus.read_word(self.sp);
        self.sp = self.sp.wrapping_add(2);
        value
    }

    /// The interrupt dispatcher. With `IME` set and a request pending, the
    /// highest-priority request is cleared in `IF`, `IME` is cleared, `PC`
    /// is pushed and the handler's vector loaded, taking 20 cycles. A
    /// pending request also ends `HALT`, with or without `IME`.
    pub fn handle_interrupt(&mut self, bus: &mut MemorySystem) -> (r: u8)
        requires
            old(bus)@.wf(),
        ensures
            final(bus)@.wf(),
            final(bus)@.peek(REG_LY) == old(bus)@.peek(REG_LY),
            ({
                let p = pending_of(old(bus)@);
                let bit = priority_bit(p);
                if p != 0 && old(self).spec_ime() {
                    &&& r == 20
                    &&& final(self).spec_pc() == vector_of(bit)
                    &&& final(self).spec_sp() == sp_down(old(self).spec_sp())
                    &&& !final(self).spec_ime()
                    &&& !final(self).spec_ime_scheduled()
                    &&& !final(self).spec_halted()
                    &&& final(self).same_registers(*old(self))
                    &&& final(bus)@ == old(bus)@.write_spec(
                        REG_IF,
                        old(bus)@.peek(REG_IF) & !bit,
                    ).write_word_spec(sp_down(old(self).spec_sp()), old(self).spec_pc())
                } else {
                    &&& r == 0
                    &&& final(bus)@ == old(bus)@
                    &&& final(self).spec_halted() == (old(self).spec_halted() && p == 0)
                    &&& final(self).spec_pc() == old(self).spec_pc()
                    &&& final(self).spec_sp() == old(self).spec_sp()
                    &&& final(self).spec_ime() == old(self).spec_ime()
                    &&& final(self).spec_ime_scheduled() == old(self).spec_ime_scheduled()
                    &&& final(self).same_registers(*old(self))
                }
            }),
    {
        let pending = bus.read_byte(REG_IF) & bus.read_byte(REG_IE) & 0x1F;
        if self.halted {
            if pending != 0 {
                self.halted = false;
                if !self.ime {
                    return 0;
                }
            } else {
                return 0;
            }
        } else if !self.ime {
            return 0;
        }
        if pending == 0 {
            return 0;
        }
        let (bit, vector): (u8, u16) = if pending & 0x01 != 0 {
            (0x01, 0x0040)
        } else if pending & 0x02 != 0 {
            (0x02, 0x0048)
        } else if pending & 0x04 != 0 {
            (0x04, 0x0050)
        } else if pending & 0x08 != 0 {
            (0x08, 0x0058)
        } else {
            (0x10, 0x0060)
        };
        let requested = bus.read_byte(REG_IF);
        bus.write_byte(REG_IF, requested & !bit);
        self.ime = false;
        self.ime_scheduled = false;
        let pc = self.pc;
        self.sp_push_word(bus, pc);
        self.pc = vector;
        20
    }
}

/// What `ready` holds.
pub proof fn lemma_ready(c: Cpu, pc: u16)
    ensures
        c.ready(pc).spec_pc() == pc,
        !c.ready(pc).spec_halted(),
        c.ready(pc).spec_ime() == (c.spec_ime() || c.spec_ime_scheduled()),
        !c.ready(pc).spec_ime_scheduled(),
        c.ready(pc).spec_sp() == c.spec_sp(),
        c.ready(pc).same_registers(c),
{
}

/// `ready` depends on the registers, `SP`, `STOP` and whether interrupts
/// are or will be enabled, not on `PC` or `HALT`.
pub proof fn lemma_ready_agree(a: Cpu, b: Cpu, pc: u16)
    requires
        a.same_registers(b),
        a.spec_sp() == b.spec_sp(),
        a.spec_ime() || a.spec_ime_scheduled() <==> b.spec_ime() || b.spec_ime_scheduled(),
    ensures
        a.ready(pc) == b.ready(pc),
{
    lemma_value_determines(a.af, b.af);
    lemma_value_determines(a.bc, b.bc);
    lemma_value_determines(a.de, b.de);
    lemma_value_determines(a.hl, b.hl);
}

/// What `with_pc` holds.
pub proof fn lemma_with_pc(c: Cpu, pc: u16)
    ensures
        c.with_pc(pc).spec_pc() == pc,
        c.with_pc(pc).spec_sp() == c.spec_sp(),
        c.with_pc(pc).same_registers(c),
        c.with_pc(pc).spec_halted() == c.spec_halted(),
        c.with_pc(pc).spec_ime() == c.spec_ime(),
        c.with_pc(pc).spec_ime_scheduled() == c.spec_ime_scheduled(),
{
}

/// Two CPU states that agree on every register and control bit are equal.
pub proof fn lemma_same_state_equal(a: Cpu, b: Cpu)
    requires
        a.same_state(b),
    ensures
        a == b,
{
    lemma_value_determines(a.af, b.af);
    lemma_value_determines(a.bc, b.bc);
    lemma_value_determines(a.de, b.de);
    lemma_value_determines(a.hl, b.hl);
}

/// A dispatched request reads zero in `IF` right after dispatch, provided
/// the pushed return address does not land on `IF` itself.
pub proof fn lemma_dispatch_clears_request(m: BusView, sp: u16, pc: u16)
    requires
        m.wf(),
        pending_of(m) != 0,
        sp_down(sp) != REG_IF,
        next_address(sp_down(sp)) != REG_IF,
    ensures
        m.write_spec(REG_IF, m.peek(REG_IF) & !priority_bit(pending_of(m))).write_word_spec(
            sp_down(sp),
            pc,
        ).peek(REG_IF) & priority_bit(pending_of(m)) == 0,
{
    let bit = priority_bit(pending_of(m));
    let v = m.peek(REG_IF) & !bit;
    lemma_high_page_write(m, REG_IF, v, REG_IF);
    let m1 = m.write_spec(REG_IF, v);
    lemma_high_page_write(m1, sp_down(sp), (pc % 256) as u8, REG_IF);
    let m2 = m1.write_spec(sp_down(sp), (pc % 256) as u8);
    lemma_high_page_write(m2, next_address(sp_down(sp)), (pc / 256) as u8, REG_IF);
    lemma_cleared_bit(m.peek(REG_IF), bit);
}

proof fn lemma_cleared_bit(x: u8, bit: u8)
    by (bit_vector)
    ensures
        (x & !bit) & bit == 0,
{
}

} // verus!
