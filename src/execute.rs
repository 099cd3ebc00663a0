//! Executing decoded instructions, and the CPU's fetch-decode-execute step.
use crate::alu::{
    add16_flags, add16_value, add8, alu_add, alu_add16, alu_and, alu_bit, alu_daa, alu_dec,
    alu_inc, alu_or, alu_res, alu_set, alu_shift, alu_shift_a, alu_sp_offset, alu_sub, alu_xor,
    and8, bit_flags, daa8, dec8, flag_c, flag_z, flags_byte, inc8, make_flags, or8, res_bit8,
    set_bit8, shift8, shift_a8, sp_offset_flags, sp_offset_value, sub8, xor8, AluResult, Shift,
};
use crate::bus::{
    lemma_stack_word_round_trip, next_address, read_back, word_of, BusView, MemorySystem, REG_IF,
    REG_LY,
};
use crate::cpu::{
    lemma_ready, lemma_ready_agree, lemma_same_state_equal, lemma_with_pc, pending_of, priority_bit, sp_down,
    sp_up, vector_of, Cpu, CpuError, Flags,
};
use crate::instruction::{decode, decode_cb, decode_cb_spec, decode_spec, Instruction, Operation};
use crate::operand::{AddressingMode as Op, Register as Reg};
use vstd::prelude::*;

verus! {

/// Byte `i` of the operand bytes, zero past their end.
pub open spec fn data_byte(data: Seq<u8>, i: int) -> u8 {
    if 0 <= i < data.len() {
        data[i]
    } else {
        0
    }
}

/// The little-endian word in the operand bytes.
pub open spec fn data_word(data: Seq<u8>) -> u16 {
    word_of(data_byte(data, 0), data_byte(data, 1))
}

/// `pc` moved by the signed offset `e`.
pub open spec fn relative_spec(pc: u16, e: u8) -> u16 {
    if e < 128 {
        ((pc + e) % 0x10000) as u16
    } else {
        ((pc + 0x10000 - (256 - e)) % 0x10000) as u16
    }
}

/// The byte an 8-bit operand reads.
pub open spec fn operand8(c: Cpu, m: BusView, data: Seq<u8>, op: Op) -> u8 {
    match op {
        Op::Register(Reg::A) => c.spec_a(),
        Op::Register(Reg::F) => c.spec_f(),
        Op::Register(Reg::B) => c.spec_b(),
        Op::Register(Reg::C) => c.spec_c(),
        Op::Register(Reg::D) => c.spec_d(),
        Op::Register(Reg::E) => c.spec_e(),
        Op::Register(Reg::H) => c.spec_h(),
        Op::Register(Reg::L) => c.spec_l(),
        Op::Immediate | Op::Relative => data_byte(data, 0),
        Op::Indirect => m.peek((0xFF00 + data_byte(data, 0)) as u16),
        Op::Extended => m.peek(data_word(data)),
        Op::RegisterIndirect(Reg::C) => m.peek((0xFF00 + c.spec_c()) as u16),
        Op::RegisterIndirect(Reg::BC) => m.peek(c.spec_bc()),
        Op::RegisterIndirect(Reg::DE) => m.peek(c.spec_de()),
        Op::RegisterIndirect(Reg::HL) => m.peek(c.spec_hl()),
        Op::RegisterIndirectPostIncrement(_) | Op::RegisterIndirectPostDecrement(_) => m.peek(
            c.spec_hl(),
        ),
        _ => 0,
    }
}

/// The word a 16-bit operand reads.
pub open spec fn operand16(c: Cpu, data: Seq<u8>, op: Op) -> u16 {
    match op {
        Op::Register(Reg::AF) => c.spec_af(),
        Op::Register(Reg::BC) => c.spec_bc(),
        Op::Register(Reg::DE) => c.spec_de(),
        Op::Register(Reg::HL) => c.spec_hl(),
        Op::Register(Reg::SP) => c.spec_sp(),
        Op::ImmediateExtended => data_word(data),
        Op::AdjustedStackPointer => sp_offset_value(c.spec_sp(), data_byte(data, 0)),
        _ => 0,
    }
}

/// Operands that an 8-bit read-modify-write handles as a plain byte: not
/// `F`, and not the auto-incrementing forms.
pub open spec fn plain_target(op: Op) -> bool {
    reads_in_place(op) && op != Op::Register(Reg::F)
}

/// `HL` after an auto-incrementing or auto-decrementing access, and
/// everything else but `HL` kept.
pub open spec fn hl_stepped(c: Cpu, c2: Cpu, op: Op) -> bool {
    &&& c2.spec_hl() == if op is RegisterIndirectPostIncrement {
        ((c.spec_hl() + 1) % 0x10000) as u16
    } else {
        ((c.spec_hl() + 0xFFFF) % 0x10000) as u16
    }
    &&& c2.spec_af() == c.spec_af()
    &&& c2.spec_bc() == c.spec_bc()
    &&& c2.spec_de() == c.spec_de()
    &&& c2.same_control(c)
}

/// The pairs other than `op` keep their values.
pub open spec fn other_pairs_kept(c: Cpu, c2: Cpu, op: Op) -> bool {
    &&& op != Op::Register(Reg::AF) ==> c2.spec_af() == c.spec_af()
    &&& op != Op::Register(Reg::BC) ==> c2.spec_bc() == c.spec_bc()
    &&& op != Op::Register(Reg::DE) ==> c2.spec_de() == c.spec_de()
    &&& op != Op::Register(Reg::HL) ==> c2.spec_hl() == c.spec_hl()
}

/// Operands whose read leaves the registers as they are.
pub open spec fn reads_in_place(op: Op) -> bool {
    !(op is RegisterIndirectPostIncrement) && !(op is RegisterIndirectPostDecrement)
}

/// `new` is `old` with the register pair `op` set to `v` (the low nibble
/// of `F` reads zero).
pub open spec fn pair_written(old: Cpu, new: Cpu, op: Op, v: u16) -> bool {
    match op {
        Op::Register(Reg::AF) => new.spec_af() == v - v % 16 && new.spec_bc() == old.spec_bc()
            && new.spec_de() == old.spec_de() && new.spec_hl() == old.spec_hl()
            && new.same_control(old),
        Op::Register(Reg::BC) => new.spec_bc() == v && new.spec_af() == old.spec_af()
            && new.spec_de() == old.spec_de() && new.spec_hl() == old.spec_hl()
            && new.same_control(old),
        Op::Register(Reg::DE) => new.spec_de() == v && new.spec_af() == old.spec_af()
            && new.spec_bc() == old.spec_bc() && new.spec_hl() == old.spec_hl()
            && new.same_control(old),
        Op::Register(Reg::HL) => new.spec_hl() == v && new.spec_af() == old.spec_af()
            && new.spec_bc() == old.spec_bc() && new.spec_de() == old.spec_de()
            && new.same_control(old),
        Op::Register(Reg::SP) => new.spec_sp() == v && new.same_registers(old) && new.spec_pc()
            == old.spec_pc() && new.spec_halted() == old.spec_halted() && new.spec_ime()
            == old.spec_ime() && new.spec_ime_scheduled() == old.spec_ime_scheduled(),
        _ => new.same_state(old),
    }
}

fn byte_at(data: &Vec<u8>, i: usize) -> (r: u8)
    ensures
        r == data_byte(data@, i as int),
{
    if i < data.len() {
        data[i]
    } else {
        0
    }
}

fn word_at(data: &Vec<u8>) -> (r: u16)
    ensures
        r == data_word(data@),
{
    byte_at(data, 0) as u16 + byte_at(data, 1) as u16 * 256
}

fn relative(pc: u16, e: u8) -> (r: u16)
    ensures
        r == relative_spec(pc, e),
{
    if e < 128 {
        pc.wrapping_add(e as u16)
    } else {
        pc.wrapping_sub(256 - e as u16)
    }
}

fn read8(cpu: &mut Cpu, bus: &MemorySystem, data: &Vec<u8>, op: Op) -> (r: u8)
    requires
        bus@.wf(),
    ensures
        r == operand8(*old(cpu), bus@, data@, op),
        reads_in_place(op) ==> final(cpu).same_state(*old(cpu)),
        !reads_in_place(op) ==> hl_stepped(*old(cpu), *final(cpu), op),
{
    match op {
        Op::Register(Reg::A) => cpu.a(),
        Op::Register(Reg::F) => cpu.f(),
        Op::Register(Reg::B) => cpu.b(),
        Op::Register(Reg::C) => cpu.c(),
        Op::Register(Reg::D) => cpu.d(),
        Op::Register(Reg::E) => cpu.e(),
        Op::Register(Reg::H) => cpu.h(),
        Op::Register(Reg::L) => cpu.l(),
        Op::Immediate | Op::Relative => byte_at(data, 0),
        Op::Indirect => bus.read_byte(0xFF00 + byte_at(data, 0) as u16),
        Op::Extended => bus.read_byte(word_at(data)),
        Op::RegisterIndirect(Reg::C) => bus.read_byte(0xFF00 + cpu.c() as u16),
        Op::RegisterIndirect(Reg::BC) => bus.read_byte(cpu.bc()),
        Op::RegisterIndirect(Reg::DE) => bus.read_byte(cpu.de()),
        Op::RegisterIndirect(Reg::HL) => bus.read_byte(cpu.hl()),
        Op::RegisterIndirectPostIncrement(_) => {
            let hl = cpu.hl();
            let v = bus.read_byte(hl);
            cpu.set_hl(hl.wrapping_add(1));
            v
        },
        Op::RegisterIndirectPostDecrement(_) => {
            let hl = cpu.hl();
            let v = bus.read_byte(hl);
            cpu.set_hl(hl.wrapping_sub(1));
            v
        },
        _ => 0,
    }
}

fn write8(cpu: &mut Cpu, bus: &mut MemorySystem, data: &Vec<u8>, op: Op, v: u8)
    requires
        old(bus)@.wf(),
    ensures
        final(bus)@.wf(),
        final(bus)@.peek(REG_LY) == old(bus)@.peek(REG_LY),
        reads_in_place(op) ==> match target_address(*old(cpu), data@, op) {
            Some(address) => final(bus)@ == old(bus)@.write_spec(address, v) && final(cpu).same_state(
                *old(cpu),
            ),
            None => byte_written(*old(cpu), *final(cpu), op, v) && final(bus)@ == old(bus)@,
        },
        !reads_in_place(op) ==> final(bus)@ == old(bus)@.write_spec(old(cpu).spec_hl(), v)
            && hl_stepped(*old(cpu), *final(cpu), op),
{
    match op {
        Op::Register(Reg::A) => cpu.set_a(v),
        Op::Register(Reg::F) => cpu.set_f(v),
        Op::Register(Reg::B) => cpu.set_b(v),
        Op::Register(Reg::C) => cpu.set_c(v),
        Op::Register(Reg::D) => cpu.set_d(v),
        Op::Register(Reg::E) => cpu.set_e(v),
        Op::Register(Reg::H) => cpu.set_h(v),
        Op::Register(Reg::L) => cpu.set_l(v),
        Op::Indirect => bus.write_byte(0xFF00 + byte_at(data, 0) as u16, v),
        Op::Extended => bus.write_byte(word_at(data), v),
        Op::RegisterIndirect(Reg::C) => bus.write_byte(0xFF00 + cpu.c() as u16, v),
        Op::RegisterIndirect(Reg::BC) => bus.write_byte(cpu.bc(), v),
        Op::RegisterIndirect(Reg::DE) => bus.write_byte(cpu.de(), v),
        Op::RegisterIndirect(Reg::HL) => bus.write_byte(cpu.hl(), v),
        Op::RegisterIndirectPostIncrement(_) => {
            let hl = cpu.hl();
            bus.write_byte(hl, v);
            cpu.set_hl(hl.wrapping_add(1));
        },
        Op::RegisterIndirectPostDecrement(_) => {
            let hl = cpu.hl();
            bus.write_byte(hl, v);
            cpu.set_hl(hl.wrapping_sub(1));
        },
        _ => {},
    }
}

fn read16(cpu: &Cpu, data: &Vec<u8>, op: Op) -> (r: u16)
    ensures
        r == operand16(*cpu, data@, op),
{
    match op {
        Op::Register(Reg::AF) => cpu.af(),
        Op::Register(Reg::BC) => cpu.bc(),
        Op::Register(Reg::DE) => cpu.de(),
        Op::Register(Reg::HL) => cpu.hl(),
        Op::Register(Reg::SP) => cpu.sp(),
        Op::ImmediateExtended => word_at(data),
        Op::AdjustedStackPointer => alu_sp_offset(cpu.sp(), byte_at(data, 0)).0,
        _ => 0,
    }
}

fn write16(cpu: &mut Cpu, op: Op, v: u16)
    ensures
        pair_written(*old(cpu), *final(cpu), op, v),
{
    match op {
        Op::Register(Reg::AF) => cpu.set_af(v),
        Op::Register(Reg::BC) => cpu.set_bc(v),
        Op::Register(Reg::DE) => cpu.set_de(v),
        Op::Register(Reg::HL) => cpu.set_hl(v),
        Op::Register(Reg::SP) => cpu.set_sp(v),
        _ => {},
    }
}

fn set_alu(cpu: &mut Cpu, r: AluResult)
    requires
        r.flags % 16 == 0,
    ensures
        final(cpu).spec_a() == r.value,
        final(cpu).spec_f() == r.flags,
        final(cpu).spec_bc() == old(cpu).spec_bc(),
        final(cpu).spec_de() == old(cpu).spec_de(),
        final(cpu).spec_hl() == old(cpu).spec_hl(),
        final(cpu).same_control(*old(cpu)),
{
    cpu.set_a(r.value);
    cpu.set_f(r.flags);
}

fn shift_operand(cpu: &mut Cpu, bus: &mut MemorySystem, data: &Vec<u8>, op: Op, kind: Shift)
    requires
        old(bus)@.wf(),
    ensures
        final(bus)@.wf(),
        final(bus)@.peek(REG_LY) == old(bus)@.peek(REG_LY),
        reads_in_place(op) ==> {
            let r = shift8(kind, operand8(*old(cpu), old(bus)@, data@, op), old(cpu).spec_f());
            modified(*old(cpu), old(bus)@, data@, *final(cpu), final(bus)@, op, r.value, r.flags)
        },
{
    let v = read8(cpu, bus, data, op);
    let r = alu_shift(kind, v, cpu.f());
    write8(cpu, bus, data, op, r.value);
    cpu.set_f(r.flags);
}

/// The source operand of an 8-bit operation on the accumulator.
pub open spec fn accumulator_source(operation: Operation) -> Option<Op> {
    match operation {
        Operation::ADD(dst, src) => if dst.spec_is_wide() {
            None
        } else {
            Some(src)
        },
        Operation::ADC(_, src) => Some(src),
        Operation::SUB(src) => Some(src),
        Operation::SBC(_, src) => Some(src),
        Operation::AND(src) => Some(src),
        Operation::XOR(src) => Some(src),
        Operation::OR(src) => Some(src),
        Operation::CP(src) => Some(src),
        _ => None,
    }
}

/// Increments, decrements and 16-bit additions.
pub open spec fn is_update(operation: Operation) -> bool {
    match operation {
        Operation::INC(_) | Operation::DEC(_) => true,
        Operation::ADD(dst, _) => dst.spec_is_wide(),
        _ => false,
    }
}

pub open spec fn is_accumulator_only(operation: Operation) -> bool {
    operation is DAA || operation is CPL || operation is SCF || operation is CCF
        || operation is RLCA || operation is RRCA || operation is RLA || operation is RRA
}

/// `A` and `F` after an operation on the accumulator alone.
pub open spec fn accumulator_only(operation: Operation, a: u8, f: u8) -> Option<AluResult> {
    match operation {
        Operation::DAA => Some(daa8(a, f)),
        Operation::CPL => Some(AluResult { value: !a, flags: flags_byte(flag_z(f), true, true, flag_c(f)) }),
        Operation::SCF => Some(AluResult { value: a, flags: flags_byte(flag_z(f), false, false, true) }),
        Operation::CCF => Some(AluResult { value: a, flags: flags_byte(flag_z(f), false, false, !flag_c(f)) }),
        Operation::RLCA => Some(shift_a8(Shift::Rlc, a, f)),
        Operation::RRCA => Some(shift_a8(Shift::Rrc, a, f)),
        Operation::RLA => Some(shift_a8(Shift::Rl, a, f)),
        Operation::RRA => Some(shift_a8(Shift::Rr, a, f)),
        _ => None,
    }
}

/// `A` and `F` after an accumulator operation on `v`; `CP` keeps `A`.
pub open spec fn accumulator_result(operation: Operation, a: u8, f: u8, v: u8) -> AluResult {
    match operation {
        Operation::ADD(_, _) => add8(a, v, false),
        Operation::ADC(_, _) => add8(a, v, flag_c(f)),
        Operation::SUB(_) => sub8(a, v, false),
        Operation::SBC(_, _) => sub8(a, v, flag_c(f)),
        Operation::AND(_) => and8(a, v),
        Operation::XOR(_) => xor8(a, v),
        Operation::OR(_) => or8(a, v),
        Operation::CP(_) => AluResult { value: a, flags: sub8(a, v, false).flags },
        _ => AluResult { value: a, flags: f },
    }
}

impl Instruction {
    /// What an accumulator operation does: `A` and `F` take the result,
    /// nothing else changes.
    pub open spec fn accumulator_effect(
        self,
        c: Cpu,
        m: BusView,
        data: Seq<u8>,
        c2: Cpu,
        m2: BusView,
    ) -> bool {
        match accumulator_source(self.operation) {
            Some(src) => reads_in_place(src) ==> {
                let v = operand8(c, m, data, src);
                let r = accumulator_result(self.operation, c.spec_a(), c.spec_f(), v);
                &&& c2.spec_a() == r.value
                &&& c2.spec_f() == r.flags
                &&& c2.spec_bc() == c.spec_bc()
                &&& c2.spec_de() == c.spec_de()
                &&& c2.spec_hl() == c.spec_hl()
                &&& c2.same_control(c)
                &&& m2 == m
            },
            None => match accumulator_only(self.operation, c.spec_a(), c.spec_f()) {
                Some(r) => {
                    &&& c2.spec_a() == r.value
                    &&& c2.spec_f() == r.flags
                    &&& c2.spec_bc() == c.spec_bc()
                    &&& c2.spec_de() == c.spec_de()
                    &&& c2.spec_hl() == c.spec_hl()
                    &&& c2.same_control(c)
                    &&& m2 == m
                },
                None => true,
            },
        }
    }

    /// What a jump, call, return or stack transfer does, and the cycles it
    /// reports.
    pub open spec fn control_effect(
        self,
        c: Cpu,
        m: BusView,
        data: Seq<u8>,
        c2: Cpu,
        m2: BusView,
        r: usize,
    ) -> bool {
        match self.operation {
            Operation::JP(op) => c2.spec_pc() == operand16(c, data, op) && c2.same_registers(c)
                && c2.spec_sp() == c.spec_sp() && m2 == m && r == self.cycles,
            Operation::JPcc(cc, op) => if c.condition_holds(cc) {
                c2.spec_pc() == operand16(c, data, op) && c2.same_registers(c) && c2.spec_sp()
                    == c.spec_sp() && m2 == m && r == self.cycles
            } else {
                c2.same_state(c) && m2 == m && r == self.cycles_not_taken
            },
            Operation::JR(op) => reads_in_place(op) ==> c2.spec_pc() == relative_spec(
                c.spec_pc(),
                operand8(c, m, data, op),
            ) && c2.same_registers(c) && c2.spec_sp() == c.spec_sp() && m2 == m && r
                == self.cycles,
            Operation::JRcc(cc, op) => reads_in_place(op) ==> if c.condition_holds(cc) {
                c2.spec_pc() == relative_spec(c.spec_pc(), operand8(c, m, data, op))
                    && c2.same_registers(c) && c2.spec_sp() == c.spec_sp() && m2 == m && r
                    == self.cycles
            } else {
                c2.same_state(c) && m2 == m && r == self.cycles_not_taken
            },
            Operation::CALL(op) => c2.spec_pc() == operand16(c, data, op) && c2.spec_sp() == sp_down(
                c.spec_sp(),
            ) && c2.same_registers(c) && m2 == m.write_word_spec(sp_down(c.spec_sp()), c.spec_pc())
                && r == self.cycles,
            Operation::CALLcc(cc, op) => if c.condition_holds(cc) {
                c2.spec_pc() == operand16(c, data, op) && c2.spec_sp() == sp_down(c.spec_sp())
                    && c2.same_registers(c) && m2 == m.write_word_spec(
                    sp_down(c.spec_sp()),
                    c.spec_pc(),
                ) && r == self.cycles
            } else {
                c2.same_state(c) && m2 == m && r == self.cycles_not_taken
            },
            Operation::RET => c2.spec_pc() == m.peek_word(c.spec_sp()) && c2.spec_sp() == sp_up(
                c.spec_sp(),
            ) && c2.same_registers(c) && m2 == m && r == self.cycles,
            Operation::RETcc(cc) => if c.condition_holds(cc) {
                c2.spec_pc() == m.peek_word(c.spec_sp()) && c2.spec_sp() == sp_up(c.spec_sp())
                    && c2.same_registers(c) && m2 == m && r == self.cycles
            } else {
                c2.same_state(c) && m2 == m && r == self.cycles_not_taken
            },
            Operation::RETI => c2.spec_pc() == m.peek_word(c.spec_sp()) && c2.spec_sp() == sp_up(
                c.spec_sp(),
            ) && c2.spec_ime() && c2.same_registers(c) && m2 == m && r == self.cycles,
            Operation::RST(v) => c2.spec_pc() == (v % 0x10000) as u16 && c2.spec_sp() == sp_down(c.spec_sp())
                && c2.same_registers(c) && m2 == m.write_word_spec(sp_down(c.spec_sp()), c.spec_pc())
                && r == self.cycles,
            Operation::PUSH(op) => c2.spec_sp() == sp_down(c.spec_sp()) && c2.same_registers(c)
                && c2.spec_pc() == c.spec_pc() && m2 == m.write_word_spec(
                sp_down(c.spec_sp()),
                operand16(c, data, op),
            ) && r == self.cycles,
            Operation::POP(op) => (op == Op::Register(Reg::AF) || op == Op::Register(Reg::BC) || op
                == Op::Register(Reg::DE) || op == Op::Register(Reg::HL)) ==> {
                let w = m.peek_word(c.spec_sp());
                &&& operand16(c2, data, op) == if op == Op::Register(Reg::AF) {
                    (w - w % 16) as u16
                } else {
                    w
                }
                &&& c2.spec_sp() == sp_up(c.spec_sp())
                &&& c2.spec_pc() == c.spec_pc()
                &&& other_pairs_kept(c, c2, op)
                &&& c2.spec_stopped() == c.spec_stopped()
                &&& c2.spec_halted() == c.spec_halted()
                &&& c2.spec_ime() == c.spec_ime()
                &&& c2.spec_ime_scheduled() == c.spec_ime_scheduled()
                &&& m2 == m
                &&& r == self.cycles
            },
            _ => true,
        }
    }
}

/// The address a memory operand names, if it names one.
pub open spec fn target_address(c: Cpu, data: Seq<u8>, op: Op) -> Option<u16> {
    match op {
        Op::Indirect => Some((0xFF00 + data_byte(data, 0)) as u16),
        Op::Extended => Some(data_word(data)),
        Op::RegisterIndirect(Reg::C) => Some((0xFF00 + c.spec_c()) as u16),
        Op::RegisterIndirect(Reg::BC) => Some(c.spec_bc()),
        Op::RegisterIndirect(Reg::DE) => Some(c.spec_de()),
        Op::RegisterIndirect(Reg::HL) => Some(c.spec_hl()),
        _ => None,
    }
}

/// `new` is `old` with the 8-bit register `op` set to `v`.
pub open spec fn byte_written(old: Cpu, new: Cpu, op: Op, v: u8) -> bool {
    &&& new.same_control(old)
    &&& match op {
        Op::Register(Reg::A) => new.spec_a() == v && new.spec_f() == old.spec_f() && new.spec_bc()
            == old.spec_bc() && new.spec_de() == old.spec_de() && new.spec_hl() == old.spec_hl(),
        Op::Register(Reg::F) => new.spec_f() == v - v % 16 && new.spec_a() == old.spec_a()
            && new.spec_bc() == old.spec_bc() && new.spec_de() == old.spec_de() && new.spec_hl()
            == old.spec_hl(),
        Op::Register(Reg::B) => new.spec_b() == v && new.spec_c() == old.spec_c() && new.spec_af()
            == old.spec_af() && new.spec_de() == old.spec_de() && new.spec_hl() == old.spec_hl(),
        Op::Register(Reg::C) => new.spec_c() == v && new.spec_b() == old.spec_b() && new.spec_af()
            == old.spec_af() && new.spec_de() == old.spec_de() && new.spec_hl() == old.spec_hl(),
        Op::Register(Reg::D) => new.spec_d() == v && new.spec_e() == old.spec_e() && new.spec_af()
            == old.spec_af() && new.spec_bc() == old.spec_bc() && new.spec_hl() == old.spec_hl(),
        Op::Register(Reg::E) => new.spec_e() == v && new.spec_d() == old.spec_d() && new.spec_af()
            == old.spec_af() && new.spec_bc() == old.spec_bc() && new.spec_hl() == old.spec_hl(),
        Op::Register(Reg::H) => new.spec_h() == v && new.spec_l() == old.spec_l() && new.spec_af()
            == old.spec_af() && new.spec_bc() == old.spec_bc() && new.spec_de() == old.spec_de(),
        Op::Register(Reg::L) => new.spec_l() == v && new.spec_h() == old.spec_h() && new.spec_af()
            == old.spec_af() && new.spec_bc() == old.spec_bc() && new.spec_de() == old.spec_de(),
        _ => new.same_registers(old),
    }
}

impl Instruction {
    /// What a load does: an 8-bit value moves to a register or to memory
    /// (through the bus's write effects), or a word moves to a register
    /// pair or, for `LD (nn),SP`, to memory.
    pub open spec fn load_effect(
        self,
        c: Cpu,
        m: BusView,
        data: Seq<u8>,
        c2: Cpu,
        m2: BusView,
    ) -> bool {
        match self.operation {
            Operation::LD(dst, src) | Operation::LDH(dst, src) => if dst.spec_is_wide() {
                if src is AdjustedStackPointer {
                    dst == Op::Register(Reg::HL) ==> {
                        let e = data_byte(data, 0);
                        &&& c2.spec_hl() == sp_offset_value(c.spec_sp(), e)
                        &&& c2.spec_f() == sp_offset_flags(c.spec_sp(), e)
                        &&& c2.spec_a() == c.spec_a()
                        &&& c2.spec_bc() == c.spec_bc()
                        &&& c2.spec_de() == c.spec_de()
                        &&& c2.same_control(c)
                        &&& m2 == m
                    }
                } else {
                    pair_written(c, c2, dst, operand16(c, data, src)) && m2 == m
                }
            } else if src.spec_is_wide() {
                dst == Op::Extended ==> m2 == m.write_word_spec(data_word(data), operand16(c, data, src))
                    && c2.same_state(c)
            } else if reads_in_place(src) && reads_in_place(dst) {
                let v = operand8(c, m, data, src);
                match target_address(c, data, dst) {
                    Some(address) => m2 == m.write_spec(address, v) && c2.same_state(c),
                    None => byte_written(c, c2, dst, v) && m2 == m,
                }
            } else if reads_in_place(src) && src.spec_is_wide() == false && (src is Register)
                && src != Op::Register(Reg::H) && src != Op::Register(Reg::L) {
                m2 == m.write_spec(c.spec_hl(), operand8(c, m, data, src)) && hl_stepped(c, c2, dst)
            } else if dst == Op::Register(Reg::A) {
                m2 == m && c2.spec_a() == m.peek(c.spec_hl()) && c2.spec_f() == c.spec_f()
                    && c2.spec_hl() == (if src is RegisterIndirectPostIncrement {
                    ((c.spec_hl() + 1) % 0x10000) as u16
                } else {
                    ((c.spec_hl() + 0xFFFF) % 0x10000) as u16
                }) && c2.spec_bc() == c.spec_bc() && c2.spec_de() == c.spec_de() && c2.same_control(c)
            } else {
                true
            },
            Operation::NOP => c2.same_state(c) && m2 == m,
            Operation::DI => !c2.spec_ime() && c2.same_registers(c) && c2.spec_pc() == c.spec_pc()
                && c2.spec_sp() == c.spec_sp() && c2.spec_halted() == c.spec_halted() && m2 == m,
            Operation::EI => c2.spec_ime_scheduled() && c2.spec_ime() == c.spec_ime()
                && c2.same_registers(c) && c2.spec_pc() == c.spec_pc() && c2.spec_sp() == c.spec_sp()
                && m2 == m,
            Operation::HALT => c2.spec_halted() && c2.spec_ime() == c.spec_ime() && c2.same_registers(
                c,
            ) && c2.spec_pc() == c.spec_pc() && c2.spec_sp() == c.spec_sp() && m2 == m,
            Operation::STOP => c2.spec_stopped() && c2.spec_af() == c.spec_af() && c2.spec_bc()
                == c.spec_bc() && c2.spec_de() == c.spec_de() && c2.spec_hl() == c.spec_hl()
                && c2.spec_pc() == c.spec_pc() && c2.spec_sp() == c.spec_sp() && m2 == m,
            _ => true,
        }
    }
}

/// An 8-bit operand after a read-modify-write: `op` holds `value`, `F`
/// holds `flags`, and nothing else changes but through the bus's write
/// effects when `op` is in memory.
pub open spec fn modified(
    c: Cpu,
    m: BusView,
    data: Seq<u8>,
    c2: Cpu,
    m2: BusView,
    op: Op,
    value: u8,
    flags: u8,
) -> bool {
    &&& c2.spec_f() == flags
    &&& c2.same_control(c)
    &&& match target_address(c, data, op) {
        Some(address) => m2 == m.write_spec(address, value) && c2.spec_a() == c.spec_a()
            && c2.spec_bc() == c.spec_bc() && c2.spec_de() == c.spec_de() && c2.spec_hl()
            == c.spec_hl(),
        None => m2 == m && match op {
            Op::Register(Reg::A) => c2.spec_a() == value && c2.spec_bc() == c.spec_bc()
                && c2.spec_de() == c.spec_de() && c2.spec_hl() == c.spec_hl(),
            Op::Register(Reg::B) => c2.spec_b() == value && c2.spec_c() == c.spec_c() && c2.spec_a()
                == c.spec_a() && c2.spec_de() == c.spec_de() && c2.spec_hl() == c.spec_hl(),
            Op::Register(Reg::C) => c2.spec_c() == value && c2.spec_b() == c.spec_b() && c2.spec_a()
                == c.spec_a() && c2.spec_de() == c.spec_de() && c2.spec_hl() == c.spec_hl(),
            Op::Register(Reg::D) => c2.spec_d() == value && c2.spec_e() == c.spec_e() && c2.spec_a()
                == c.spec_a() && c2.spec_bc() == c.spec_bc() && c2.spec_hl() == c.spec_hl(),
            Op::Register(Reg::E) => c2.spec_e() == value && c2.spec_d() == c.spec_d() && c2.spec_a()
                == c.spec_a() && c2.spec_bc() == c.spec_bc() && c2.spec_hl() == c.spec_hl(),
            Op::Register(Reg::H) => c2.spec_h() == value && c2.spec_l() == c.spec_l() && c2.spec_a()
                == c.spec_a() && c2.spec_bc() == c.spec_bc() && c2.spec_de() == c.spec_de(),
            Op::Register(Reg::L) => c2.spec_l() == value && c2.spec_h() == c.spec_h() && c2.spec_a()
                == c.spec_a() && c2.spec_bc() == c.spec_bc() && c2.spec_de() == c.spec_de(),
            _ => c2.spec_a() == c.spec_a() && c2.spec_bc() == c.spec_bc() && c2.spec_de()
                == c.spec_de() && c2.spec_hl() == c.spec_hl(),
        },
    }
}

impl Instruction {
    /// What an increment, decrement or 16-bit addition does.
    pub open spec fn update_effect(
        self,
        c: Cpu,
        m: BusView,
        data: Seq<u8>,
        c2: Cpu,
        m2: BusView,
    ) -> bool {
        let f = c.spec_f();
        match self.operation {
            Operation::INC(op) => if op.spec_is_wide() {
                pair_written(c, c2, op, ((operand16(c, data, op) + 1) % 0x10000) as u16) && m2 == m
            } else {
                plain_target(op) ==> {
                    let r = inc8(operand8(c, m, data, op), f);
                    modified(c, m, data, c2, m2, op, r.value, r.flags)
                }
            },
            Operation::DEC(op) => if op.spec_is_wide() {
                pair_written(c, c2, op, ((operand16(c, data, op) + 0xFFFF) % 0x10000) as u16)
                    && m2 == m
            } else {
                plain_target(op) ==> {
                    let r = dec8(operand8(c, m, data, op), f);
                    modified(c, m, data, c2, m2, op, r.value, r.flags)
                }
            },
            Operation::ADD(dst, src) => if dst == Op::Register(Reg::SP) && src == Op::Relative {
                let e = data_byte(data, 0);
                &&& c2.spec_sp() == sp_offset_value(c.spec_sp(), e)
                &&& c2.spec_f() == sp_offset_flags(c.spec_sp(), e)
                &&& c2.spec_a() == c.spec_a()
                &&& c2.spec_bc() == c.spec_bc()
                &&& c2.spec_de() == c.spec_de()
                &&& c2.spec_hl() == c.spec_hl()
                &&& c2.spec_pc() == c.spec_pc()
                &&& m2 == m
            } else if dst == Op::Register(Reg::HL) && src != Op::Relative {
                let a = c.spec_hl();
                let b = operand16(c, data, src);
                &&& c2.spec_hl() == add16_value(a, b)
                &&& c2.spec_f() == add16_flags(a, b, f)
                &&& c2.spec_a() == c.spec_a()
                &&& c2.spec_bc() == c.spec_bc()
                &&& c2.spec_de() == c.spec_de()
                &&& c2.same_control(c)
                &&& m2 == m
            } else {
                true
            },
            _ => true,
        }
    }

    /// What an instruction of the `0xCB` table does.
    pub open spec fn cb_effect(
        self,
        c: Cpu,
        m: BusView,
        data: Seq<u8>,
        c2: Cpu,
        m2: BusView,
    ) -> bool {
        let f = c.spec_f();
        match self.operation {
            Operation::RLC(op) => plain_target(op) ==> {
                let r = shift8(Shift::Rlc, operand8(c, m, data, op), f);
                modified(c, m, data, c2, m2, op, r.value, r.flags)
            },
            Operation::RRC(op) => plain_target(op) ==> {
                let r = shift8(Shift::Rrc, operand8(c, m, data, op), f);
                modified(c, m, data, c2, m2, op, r.value, r.flags)
            },
            Operation::RL(op) => plain_target(op) ==> {
                let r = shift8(Shift::Rl, operand8(c, m, data, op), f);
                modified(c, m, data, c2, m2, op, r.value, r.flags)
            },
            Operation::RR(op) => plain_target(op) ==> {
                let r = shift8(Shift::Rr, operand8(c, m, data, op), f);
                modified(c, m, data, c2, m2, op, r.value, r.flags)
            },
            Operation::SLA(op) => plain_target(op) ==> {
                let r = shift8(Shift::Sla, operand8(c, m, data, op), f);
                modified(c, m, data, c2, m2, op, r.value, r.flags)
            },
            Operation::SRA(op) => plain_target(op) ==> {
                let r = shift8(Shift::Sra, operand8(c, m, data, op), f);
                modified(c, m, data, c2, m2, op, r.value, r.flags)
            },
            Operation::SRL(op) => plain_target(op) ==> {
                let r = shift8(Shift::Srl, operand8(c, m, data, op), f);
                modified(c, m, data, c2, m2, op, r.value, r.flags)
            },
            Operation::SWAP(op) => plain_target(op) ==> {
                let r = shift8(Shift::Swap, operand8(c, m, data, op), f);
                modified(c, m, data, c2, m2, op, r.value, r.flags)
            },
            Operation::BIT(n, op) => plain_target(op) ==> {
                &&& c2.spec_f() == bit_flags((n % 8) as nat, operand8(c, m, data, op), f)
                &&& c2.spec_a() == c.spec_a()
                &&& c2.spec_bc() == c.spec_bc()
                &&& c2.spec_de() == c.spec_de()
                &&& c2.spec_hl() == c.spec_hl()
                &&& c2.same_control(c)
                &&& m2 == m
            },
            Operation::RES(n, op) => plain_target(op) ==> modified(
                c,
                m,
                data,
                c2,
                m2,
                op,
                res_bit8((n % 8) as nat, operand8(c, m, data, op)),
                f,
            ),
            Operation::SET(n, op) => plain_target(op) ==> modified(
                c,
                m,
                data,
                c2,
                m2,
                op,
                set_bit8((n % 8) as nat, operand8(c, m, data, op)),
                f,
            ),
            _ => true,
        }
    }
}

impl Instruction {
    /// Everything the contracts of `execute` say of one run.
    pub open spec fn effect(self, c: Cpu, m: BusView, data: Seq<u8>, c2: Cpu, m2: BusView, r: usize) -> bool {
        &&& self.accumulator_effect(c, m, data, c2, m2)
        &&& self.control_effect(c, m, data, c2, m2, r)
        &&& self.load_effect(c, m, data, c2, m2)
        &&& self.update_effect(c, m, data, c2, m2)
    }
}

impl Instruction {
    /// Runs a primary-table instruction whose opcode and operand bytes
    /// (`data`) have been fetched. Returns the machine cycles taken: the
    /// taken count, or the not-taken count when a condition fails; after
    /// the `0xCB` prefix, the count of the prefixed instruction.
    pub fn execute(&self, cpu: &mut Cpu, bus: &mut MemorySystem, data: &Vec<u8>) -> (r: usize)
        requires
            old(bus)@.wf(),
        ensures
            final(bus)@.wf(),
            !(self.operation is CBPrefix) ==> r == self.cycles || (r == self.cycles_not_taken
                && is_conditional(self.operation)),
            final(bus)@.peek(REG_LY) == old(bus)@.peek(REG_LY),
            self.accumulator_effect(*old(cpu), old(bus)@, data@, *final(cpu), final(bus)@),
            self.control_effect(*old(cpu), old(bus)@, data@, *final(cpu), final(bus)@, r),
            self.load_effect(*old(cpu), old(bus)@, data@, *final(cpu), final(bus)@),
            self.update_effect(*old(cpu), old(bus)@, data@, *final(cpu), final(bus)@),
            self.cb_effect(*old(cpu), old(bus)@, data@, *final(cpu), final(bus)@),
            self.operation is CBPrefix ==> r == decode_cb_spec(old(bus)@.peek(old(cpu).spec_pc())).cycles,
            self.operation is CBPrefix ==> decode_cb_spec(old(bus)@.peek(old(cpu).spec_pc())).cb_effect(
                old(cpu).with_pc(next_address(old(cpu).spec_pc())),
                old(bus)@,
                Seq::empty(),
                *final(cpu),
                final(bus)@,
            ),
    {
        match self.operation {
            Operation::CBPrefix => cpu.fetch_cb_instruction(bus),
            Operation::JP(_) | Operation::JPcc(_, _) | Operation::JR(_) | Operation::JRcc(_, _)
            | Operation::CALL(_) | Operation::CALLcc(_, _) | Operation::RET | Operation::RETcc(_)
            | Operation::RETI | Operation::PUSH(_) | Operation::POP(_) | Operation::RST(_) => {
                self.execute_control(cpu, bus, data)
            },
            Operation::NOP | Operation::LD(_, _) | Operation::LDH(_, _) | Operation::DI
            | Operation::EI | Operation::HALT | Operation::STOP => {
                self.execute_load(cpu, bus, data)
            },
            Operation::RLC(_) | Operation::RRC(_) | Operation::RL(_) | Operation::RR(_)
            | Operation::SLA(_) | Operation::SRA(_) | Operation::SRL(_) | Operation::SWAP(_)
            | Operation::BIT(_, _) | Operation::RES(_, _) | Operation::SET(_, _) => {
                self.execute_cb(cpu, bus, data)
            },
            Operation::DAA | Operation::CPL | Operation::SCF | Operation::CCF | Operation::RLCA
            | Operation::RRCA | Operation::RLA | Operation::RRA => {
                self.execute_accumulator(cpu, bus, data)
            },
            Operation::INC(_) | Operation::DEC(_) => self.execute_update(cpu, bus, data),
            Operation::ADD(dst, _) => {
                if dst.is_wide() {
                    self.execute_update(cpu, bus, data)
                } else {
                    self.execute_alu(cpu, bus, data)
                }
            },
            _ => self.execute_alu(cpu, bus, data),
        }
    }

    /// Jumps, calls, returns and stack transfers.
    fn execute_control(&self, cpu: &mut Cpu, bus: &mut MemorySystem, data: &Vec<u8>) -> (r: usize)
        requires
            old(bus)@.wf(),
        ensures
            final(bus)@.wf(),
            r == self.cycles || (r == self.cycles_not_taken && is_conditional(self.operation)),
            final(bus)@.peek(REG_LY) == old(bus)@.peek(REG_LY),
            self.control_effect(*old(cpu), old(bus)@, data@, *final(cpu), final(bus)@, r),
    {
        match self.operation {
            Operation::JP(op) => {
                let address = read16(cpu, data, op);
                cpu.set_pc(address);
            },
            Operation::JPcc(cc, op) => {
                if !cpu.check_condition(cc) {
                    return self.cycles_not_taken;
                }
                let address = read16(cpu, data, op);
                cpu.set_pc(address);
            },
            Operation::JR(op) => {
                let e = read8(cpu, bus, data, op);
                let pc = relative(cpu.pc(), e);
                cpu.set_pc(pc);
            },
            Operation::JRcc(cc, op) => {
                if !cpu.check_condition(cc) {
                    return self.cycles_not_taken;
                }
                let e = read8(cpu, bus, data, op);
                let pc = relative(cpu.pc(), e);
                cpu.set_pc(pc);
            },
            Operation::CALL(op) => {
                let dest = read16(cpu, data, op);
                let ret = cpu.pc();
                cpu.sp_push_word(bus, ret);
                cpu.set_pc(dest);
            },
            Operation::CALLcc(cc, op) => {
                if !cpu.check_condition(cc) {
                    return self.cycles_not_taken;
                }
                let dest = read16(cpu, data, op);
                let ret = cpu.pc();
                cpu.sp_push_word(bus, ret);
                cpu.set_pc(dest);
            },
            Operation::RET => {
                let address = cpu.sp_pop_word(bus);
                cpu.set_pc(address);
            },
            Operation::RETcc(cc) => {
                if !cpu.check_condition(cc) {
                    return self.cycles_not_taken;
                }
                let address = cpu.sp_pop_word(bus);
                cpu.set_pc(address);
            },
            Operation::RETI => {
                let address = cpu.sp_pop_word(bus);
                cpu.set_pc(address);
                cpu.set_ime(true);
            },
            Operation::PUSH(op) => {
                let value = read16(cpu, data, op);
                cpu.sp_push_word(bus, value);
            },
            Operation::POP(op) => {
                let value = cpu.sp_pop_word(bus);
                write16(cpu, op, value);
            },
            Operation::RST(v) => {
                let pc = cpu.pc();
                cpu.sp_push_word(bus, pc);
                cpu.set_pc((v % 0x10000) as u16);
            },
            _ => {},
        }
        self.cycles
    }

    /// Loads and control of the CPU state.
    fn execute_load(&self, cpu: &mut Cpu, bus: &mut MemorySystem, data: &Vec<u8>) -> (r: usize)
        requires
            old(bus)@.wf(),
        ensures
            final(bus)@.wf(),
            r == self.cycles || (r == self.cycles_not_taken && is_conditional(self.operation)),
            final(bus)@.peek(REG_LY) == old(bus)@.peek(REG_LY),
            self.load_effect(*old(cpu), old(bus)@, data@, *final(cpu), final(bus)@),
    {
        match self.operation {
            Operation::NOP => {},
            Operation::LD(op1, op2) | Operation::LDH(op1, op2) => {
                if op1.is_wide() {
                    if matches!(op2, Op::AdjustedStackPointer) {
                        let (v, f) = alu_sp_offset(cpu.sp(), byte_at(data, 0));
                        write16(cpu, op1, v);
                        cpu.set_f(f);
                    } else {
                        let v = read16(cpu, data, op2);
                        write16(cpu, op1, v);
                    }
                } else if op2.is_wide() {
                    let v = read16(cpu, data, op2);
                    bus.write_word(word_at(data), v);
                } else {
                    let v = read8(cpu, bus, data, op2);
                    write8(cpu, bus, data, op1, v);
                }
            },
            Operation::DI => cpu.set_ime(false),
            Operation::EI => cpu.set_ime_scheduled(true),
            Operation::HALT => cpu.set_halted(true),
            Operation::STOP => cpu.set_stopped(true),
            _ => {},
        }
        self.cycles
    }

    /// Operations on the accumulator alone: decimal adjust, complement,
    /// carry flag, and the accumulator rotates.
    fn execute_accumulator(&self, cpu: &mut Cpu, bus: &mut MemorySystem, data: &Vec<u8>) -> (r: usize)
        requires
            is_accumulator_only(self.operation),
            old(bus)@.wf(),
        ensures
            final(bus)@.wf(),
            r == self.cycles,
            final(bus)@.peek(REG_LY) == old(bus)@.peek(REG_LY),
            self.accumulator_effect(*old(cpu), old(bus)@, data@, *final(cpu), final(bus)@),
    {
        match self.operation {
            Operation::DAA => {
                let r = alu_daa(cpu.a(), cpu.f());
                set_alu(cpu, r);
            },
            Operation::CPL => {
                let a = cpu.a();
                cpu.set_a(!a);
                let f = make_flags(cpu.flag(Flags::Z), true, true, cpu.flag(Flags::C));
                cpu.set_f(f);
            },
            Operation::SCF => {
                let f = make_flags(cpu.flag(Flags::Z), false, false, true);
                cpu.set_f(f);
            },
            Operation::CCF => {
                let f = make_flags(cpu.flag(Flags::Z), false, false, !cpu.flag(Flags::C));
                cpu.set_f(f);
            },
            Operation::RLCA => {
                let r = alu_shift_a(Shift::Rlc, cpu.a(), cpu.f());
                set_alu(cpu, r);
            },
            Operation::RRCA => {
                let r = alu_shift_a(Shift::Rrc, cpu.a(), cpu.f());
                set_alu(cpu, r);
            },
            Operation::RLA => {
                let r = alu_shift_a(Shift::Rl, cpu.a(), cpu.f());
                set_alu(cpu, r);
            },
            Operation::RRA => {
                let r = alu_shift_a(Shift::Rr, cpu.a(), cpu.f());
                set_alu(cpu, r);
            },

            _ => {},
        }
        self.cycles
    }

    /// Increments, decrements and 16-bit additions.
    #[verifier::rlimit(60)]
    fn execute_update(&self, cpu: &mut Cpu, bus: &mut MemorySystem, data: &Vec<u8>) -> (r: usize)
        requires
            is_update(self.operation),
            old(bus)@.wf(),
        ensures
            final(bus)@.wf(),
            r == self.cycles,
            final(bus)@.peek(REG_LY) == old(bus)@.peek(REG_LY),
            self.update_effect(*old(cpu), old(bus)@, data@, *final(cpu), final(bus)@),
    {
        match self.operation {
            Operation::ADD(op1, op2) => {
                if op1.is_wide() {
                    if matches!(op2, Op::Relative) {
                        let (v, f) = alu_sp_offset(cpu.sp(), byte_at(data, 0));
                        cpu.set_sp(v);
                        cpu.set_f(f);
                    } else {
                        let a = read16(cpu, data, op1);
                        let b = read16(cpu, data, op2);
                        let (v, f) = alu_add16(a, b, cpu.f());
                        write16(cpu, op1, v);
                        cpu.set_f(f);
                    }
                } else {
                    let v = read8(cpu, bus, data, op2);
                    let r = alu_add(cpu.a(), v, false);
                    set_alu(cpu, r);
                }
            },
            Operation::INC(op) => {
                if op.is_wide() {
                    let v = read16(cpu, data, op);
                    write16(cpu, op, if v == 0xFFFF {
                        0
                    } else {
                        v + 1
                    });
                } else {
                    let v = read8(cpu, bus, data, op);
                    let r = alu_inc(v, cpu.f());
                    write8(cpu, bus, data, op, r.value);
                    cpu.set_f(r.flags);
                }
            },
            Operation::DEC(op) => {
                if op.is_wide() {
                    let v = read16(cpu, data, op);
                    write16(cpu, op, if v == 0 {
                        0xFFFF
                    } else {
                        v - 1
                    });
                } else {
                    let v = read8(cpu, bus, data, op);
                    let r = alu_dec(v, cpu.f());
                    write8(cpu, bus, data, op, r.value);
                    cpu.set_f(r.flags);
                }
            },

            _ => {},
        }
        self.cycles
    }

    /// Arithmetic and logic on the accumulator and on registers.
    fn execute_alu(&self, cpu: &mut Cpu, bus: &mut MemorySystem, data: &Vec<u8>) -> (r: usize)
        requires
            !is_accumulator_only(self.operation),
            !is_update(self.operation),
            old(bus)@.wf(),
        ensures
            final(bus)@.wf(),
            r == self.cycles || (r == self.cycles_not_taken && is_conditional(self.operation)),
            final(bus)@.peek(REG_LY) == old(bus)@.peek(REG_LY),
            self.accumulator_effect(*old(cpu), old(bus)@, data@, *final(cpu), final(bus)@),
            self.update_effect(*old(cpu), old(bus)@, data@, *final(cpu), final(bus)@),
    {
        match self.operation {
            Operation::AND(op) => {
                let v = read8(cpu, bus, data, op);
                let r = alu_and(cpu.a(), v);
                set_alu(cpu, r);
            },
            Operation::OR(op) => {
                let v = read8(cpu, bus, data, op);
                let r = alu_or(cpu.a(), v);
                set_alu(cpu, r);
            },
            Operation::XOR(op) => {
                let v = read8(cpu, bus, data, op);
                let r = alu_xor(cpu.a(), v);
                set_alu(cpu, r);
            },
            Operation::ADD(_, op2) => {
                let v = read8(cpu, bus, data, op2);
                let r = alu_add(cpu.a(), v, false);
                set_alu(cpu, r);
            },
            Operation::ADC(_, op2) => {
                let carry = cpu.flag(Flags::C);
                let v = read8(cpu, bus, data, op2);
                let r = alu_add(cpu.a(), v, carry);
                set_alu(cpu, r);
            },
            Operation::SUB(op) => {
                let v = read8(cpu, bus, data, op);
                let r = alu_sub(cpu.a(), v, false);
                set_alu(cpu, r);
            },
            Operation::SBC(_, op2) => {
                let carry = cpu.flag(Flags::C);
                let v = read8(cpu, bus, data, op2);
                let r = alu_sub(cpu.a(), v, carry);
                set_alu(cpu, r);
            },
            Operation::CP(op) => {
                let v = read8(cpu, bus, data, op);
                let r = alu_sub(cpu.a(), v, false);
                cpu.set_f(r.flags);
            },
            _ => {},
        }
        self.cycles
    }

    /// Runs an instruction of the `0xCB` table and returns its cycles.
    pub fn execute_cb(&self, cpu: &mut Cpu, bus: &mut MemorySystem, data: &Vec<u8>) -> (r: usize)
        requires
            old(bus)@.wf(),
        ensures
            final(bus)@.wf(),
            r == self.cycles,
            final(bus)@.peek(REG_LY) == old(bus)@.peek(REG_LY),
            self.cb_effect(*old(cpu), old(bus)@, data@, *final(cpu), final(bus)@),
    {
        match self.operation {
            Operation::RLC(op) => shift_operand(cpu, bus, data, op, Shift::Rlc),
            Operation::RRC(op) => shift_operand(cpu, bus, data, op, Shift::Rrc),
            Operation::RL(op) => shift_operand(cpu, bus, data, op, Shift::Rl),
            Operation::RR(op) => shift_operand(cpu, bus, data, op, Shift::Rr),
            Operation::SLA(op) => shift_operand(cpu, bus, data, op, Shift::Sla),
            Operation::SRA(op) => shift_operand(cpu, bus, data, op, Shift::Sra),
            Operation::SRL(op) => shift_operand(cpu, bus, data, op, Shift::Srl),
            Operation::SWAP(op) => shift_operand(cpu, bus, data, op, Shift::Swap),
            Operation::BIT(n, op) => {
                let v = read8(cpu, bus, data, op);
                let f = alu_bit(n % 8, v, cpu.f());
                cpu.set_f(f);
            },
            Operation::RES(n, op) => {
                let v = read8(cpu, bus, data, op);
                write8(cpu, bus, data, op, alu_res(n % 8, v));
            },
            Operation::SET(n, op) => {
                let v = read8(cpu, bus, data, op);
                write8(cpu, bus, data, op, alu_set(n % 8, v));
            },
            _ => {},
        }
        self.cycles
    }
}

/// The operand bytes that follow an opcode at `pc`.
pub open spec fn operand_bytes(m: BusView, pc: u16, size: int) -> Seq<u8> {
    Seq::new((size - 1) as nat, |i: int| m.peek(((pc + 1 + i) % 0x10000) as u16))
}

/// Instructions that return their not-taken cycle count when their
/// condition fails.
pub open spec fn is_conditional(operation: Operation) -> bool {
    operation is JPcc || operation is JRcc || operation is CALLcc || operation is RETcc
}

/// Every entry of the tables takes from 4 to 24 cycles and 1 to 3 bytes;
/// a conditional one takes at least 8 when its condition fails.
pub proof fn lemma_table_bounds(opcode: u8)
    ensures
        decode_spec(opcode) matches Some(i) ==> 1 <= i.size <= 3 && 4 <= i.cycles <= 24
            && i.cycles_not_taken <= 24 && (is_conditional(i.operation) ==> i.cycles_not_taken
            >= 8),
        8 <= decode_cb_spec(opcode).cycles <= 16,
        decode_cb_spec(opcode).size == 1,
{
}

/// What one CPU step does, from CPU `c` and bus `m` to result `r`, CPU `c2`
/// and bus `m2`:
/// - with `IME` set and a request pending, the highest-priority request is
///   served: its `IF` bit cleared, `PC` pushed, the vector loaded, `IME`
///   and a pending `EI` dropped, 20 cycles;
/// - halted with nothing pending, an idle 4-cycle step;
/// - otherwise the instruction at `PC` runs (a pending `EI` committed, a
///   `HALT` ended); an opcode in neither table is reported, with `PC` past it.
pub open spec fn step_post(c: Cpu, m: BusView, r: Result<u8, CpuError>, c2: Cpu, m2: BusView) -> bool {
    let p = pending_of(m);
    let pc = c.spec_pc();
    let opcode = m.peek(pc);
    if p != 0 && c.spec_ime() {
        let bit = priority_bit(p);
        &&& r == Ok::<u8, CpuError>(20)
        &&& c2.spec_pc() == vector_of(bit)
        &&& c2.spec_sp() == sp_down(c.spec_sp())
        &&& !c2.spec_ime()
        &&& !c2.spec_ime_scheduled()
        &&& !c2.spec_halted()
        &&& c2.same_registers(c)
        &&& m2 == m.write_spec(REG_IF, m.peek(REG_IF) & !bit).write_word_spec(sp_down(c.spec_sp()), pc)
    } else if c.spec_halted() && p == 0 {
        &&& r == Ok::<u8, CpuError>(4)
        &&& c2.same_state(c)
        &&& m2 == m
    } else {
        match decode_spec(opcode) {
            None => {
                &&& r == Err::<u8, CpuError>(CpuError::UndefinedOpcode { pc, opcode })
                &&& c2 == c.ready(next_address(pc))
                &&& m2 == m
            },
            Some(i) => {
                let pre = c.ready(((pc + i.size) % 0x10000) as u16);
                let data = operand_bytes(m, pc, i.size as int);
                &&& r is Ok
                &&& if i.operation is CBPrefix {
                    &&& r->Ok_0 == decode_cb_spec(m.peek(next_address(pc))).cycles
                    &&& decode_cb_spec(m.peek(next_address(pc))).cb_effect(
                        pre.with_pc(next_address(next_address(pc))),
                        m,
                        Seq::empty(),
                        c2,
                        m2,
                    )
                } else {
                    r->Ok_0 == i.cycles || (r->Ok_0 == i.cycles_not_taken && is_conditional(
                        i.operation,
                    ))
                }
                &&& i.effect(pre, m, data, c2, m2, r->Ok_0 as usize)
            },
        }
    }
}

impl Cpu {
    /// Fetches the byte after a `0xCB` prefix and runs it.
    pub fn fetch_cb_instruction(&mut self, bus: &mut MemorySystem) -> (r: usize)
        requires
            old(bus)@.wf(),
        ensures
            final(bus)@.wf(),
            r == decode_cb_spec(old(bus)@.peek(old(self).spec_pc())).cycles,
            final(bus)@.peek(REG_LY) == old(bus)@.peek(REG_LY),
            decode_cb_spec(old(bus)@.peek(old(self).spec_pc())).cb_effect(
                old(self).with_pc(next_address(old(self).spec_pc())),
                old(bus)@,
                Seq::empty(),
                *final(self),
                final(bus)@,
            ),
    {
        let opcode = self.pc_read_byte(bus);
        proof {
            lemma_with_pc(*old(self), next_address(old(self).spec_pc()));
            lemma_same_state_equal(*self, old(self).with_pc(next_address(old(self).spec_pc())));
        }
        let instruction = decode_cb(opcode);
        let data: Vec<u8> = Vec::new();
        assert(data@ =~= Seq::<u8>::empty());
        instruction.execute_cb(self, bus, &data)
    }

    /// Fetches the operand bytes of `instruction`, whose opcode was at `pc`,
    /// and runs it.
    #[verifier::rlimit(100)]
    fn run_fetched(&mut self, bus: &mut MemorySystem, instruction: Instruction, pc: u16) -> (r: usize)
        requires
            old(bus)@.wf(),
            1 <= instruction.size <= 3,
            instruction.cycles <= 24,
            instruction.cycles_not_taken <= 24,
            old(self).spec_pc() == next_address(pc),
            !old(self).spec_halted(),
            !old(self).spec_ime_scheduled(),
            !(instruction.operation is CBPrefix),
        ensures
            final(bus)@.wf(),
            final(bus)@.peek(REG_LY) == old(bus)@.peek(REG_LY),
            r == instruction.cycles || (r == instruction.cycles_not_taken && is_conditional(
                instruction.operation,
            )),
            instruction.effect(
                old(self).ready(((pc + instruction.size) % 0x10000) as u16),
                old(bus)@,
                operand_bytes(old(bus)@, pc, instruction.size as int),
                *final(self),
                final(bus)@,
                r,
            ),
    {
        let ghost start = *self;
        let mut data: Vec<u8> = Vec::new();
        let mut k: usize = 1;
        while k < instruction.size
            invariant
                bus@.wf(),
                bus@ == old(bus)@,
                1 <= k <= instruction.size,
                instruction.size <= 3,
                self.spec_pc() == (pc + k) % 0x10000,
                self.same_registers(start),
                self.spec_sp() == start.spec_sp(),
                self.spec_halted() == start.spec_halted(),
                self.spec_ime() == start.spec_ime(),
                self.spec_ime_scheduled() == start.spec_ime_scheduled(),
                data@ == operand_bytes(old(bus)@, pc, k as int),
            decreases instruction.size - k,
        {
            let byte = self.pc_read_byte(bus);
            proof {
                assert(operand_bytes(old(bus)@, pc, k as int).push(byte) =~= operand_bytes(
                    old(bus)@,
                    pc,
                    k + 1,
                ));
            }
            data.push(byte);
            k = k + 1;
        }
        proof {
            let ready = old(self).ready(((pc + instruction.size) % 0x10000) as u16);
            lemma_ready(*old(self), ((pc + instruction.size) % 0x10000) as u16);
            lemma_same_state_equal(*self, ready);
            assert(data@ == operand_bytes(old(bus)@, pc, instruction.size as int));
        }
        let cycles = instruction.execute(self, bus, &data);
        cycles
    }

    /// One CPU step: the interrupt dispatcher first; then, if halted, an
    /// idle 4-cycle step; otherwise a pending `EI` takes effect and one
    /// instruction is fetched, decoded and run.
    #[verifier::rlimit(100)]
    pub fn step(&mut self, bus: &mut MemorySystem) -> (r: Result<u8, CpuError>)
        requires
            old(bus)@.wf(),
        ensures
            final(bus)@.wf(),
            final(bus)@.peek(REG_LY) == old(bus)@.peek(REG_LY),
            r matches Ok(c) ==> c >= 4,
            step_post(*old(self), old(bus)@, r, *final(self), final(bus)@),
    {
        let interrupt_cycles = self.handle_interrupt(bus);
        if interrupt_cycles > 0 {
            return Ok(interrupt_cycles);
        }
        if self.halt() {
            return Ok(4);
        }
        if self.ime_scheduled() {
            self.set_ime(true);
            self.set_ime_scheduled(false);
        }
        let pc = self.pc();
        let opcode = self.pc_read_byte(bus);
        let instruction = match decode(opcode) {
            Some(instruction) => instruction,
            None => {
                proof {
                    lemma_ready(*old(self), next_address(pc));
                    lemma_same_state_equal(*self, old(self).ready(next_address(pc)));
                }
                return Err(CpuError::UndefinedOpcode { pc, opcode });
            },
        };
        proof {
            lemma_table_bounds(opcode);
            lemma_table_bounds(bus@.peek(next_address(pc)));
        }
        let ghost fetched = *self;
        let cycles = if matches!(instruction.operation, Operation::CBPrefix) {
            proof {
                lemma_ready(*old(self), next_address(pc));
                lemma_same_state_equal(*self, old(self).ready(next_address(pc)));
            }
            let data: Vec<u8> = Vec::new();
            instruction.execute(self, bus, &data)
        } else {
            self.run_fetched(bus, instruction, pc)
        };
        proof {
            lemma_ready_agree(fetched, *old(self), ((pc + instruction.size) % 0x10000) as u16);
        }
        Ok(cycles as u8)
    }
}

/// `POP rr` followed by `PUSH rr` leaves the word on top of the stack, and
/// `SP`, as they were, for a stack in read-back memory. For `AF` the low
/// nibble of the popped `F` reads zero, so the law needs it zero already.
#[verifier::rlimit(100)]
pub proof fn lemma_pop_then_push_keeps_top(
    pop: Instruction,
    push: Instruction,
    op: Op,
    data: Seq<u8>,
    c0: Cpu,
    m0: BusView,
    c1: Cpu,
    m1: BusView,
    r1: usize,
    c2: Cpu,
    m2: BusView,
    r2: usize,
)
    requires
        m0.wf(),
        pop.operation == Operation::POP(op),
        push.operation == Operation::PUSH(op),
        op == Op::Register(Reg::AF) || op == Op::Register(Reg::BC) || op == Op::Register(Reg::DE)
            || op == Op::Register(Reg::HL),
        op == Op::Register(Reg::AF) ==> m0.peek(c0.spec_sp()) % 16 == 0,
        read_back(c0.spec_sp()),
        read_back(next_address(c0.spec_sp())),
        pop.control_effect(c0, m0, data, c1, m1, r1),
        push.control_effect(c1, m1, data, c2, m2, r2),
    ensures
        m2.peek_word(c0.spec_sp()) == m0.peek_word(c0.spec_sp()),
        c2.spec_sp() == c0.spec_sp(),
{
    let sp = c0.spec_sp();
    let w = m0.peek_word(sp);
    assert(m1 == m0 && c1.spec_sp() == sp_up(sp));
    assert(c2.spec_sp() == sp_down(c1.spec_sp()));
    assert(m2 == m1.write_word_spec(sp_down(c1.spec_sp()), operand16(c1, data, op)));
    if op == Op::Register(Reg::AF) {
        let lo = m0.peek(sp);
        let hi = m0.peek(next_address(sp));
        assert(w % 16 == 0) by (nonlinear_arith)
            requires
                w == (lo as int + hi as int * 256) as u16,
                lo % 16 == 0,
                lo < 256,
                hi < 256,
        ;
    }
    assert(operand16(c1, data, op) == w);
    lemma_stack_word_round_trip(m0, sp);
}

} // verus!
