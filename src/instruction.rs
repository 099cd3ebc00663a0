//! Instructions and the two decode tables: the primary opcode table and the
//! table of the `0xCB`-prefixed opcodes.
//!
//! An opcode byte splits into `x = [7:6]`, `y = [5:3]`, `z = [2:0]`,
//! `p = [5:4]` and `q = [3]`; each table is a function of those fields.
use crate::operand::{AddressingMode as Op, Condition as CC, Register as Reg};
use vstd::prelude::*;

verus! {

#[derive(Clone, Copy, Debug, PartialEq, Eq)]
pub enum Operation {
    ADD(Op, Op),
    AND(Op),
    CALL(Op),
    CALLcc(CC, Op),
    BIT(usize, Op),
    CBPrefix,
    CCF,
    CP(Op),
    CPL,
    DAA,
    DEC(Op),
    DI,
    EI,
    HALT,
    INC(Op),
    JP(Op),
    JPcc(CC, Op),
    JR(Op),
    JRcc(CC, Op),
    LD(Op, Op),
    LDH(Op, Op),
    NOP,
    OR(Op),
    POP(Op),
    PUSH(Op),
    RES(usize, Op),
    RET,
    RETcc(CC),
    RETI,
    RL(Op),
    RLA,
    RLC(Op),
    RLCA,
    RR(Op),
    RRA,
    RRC(Op),
    RRCA,
    RST(usize),
    SBC(Op, Op),
    SCF,
    SET(usize, Op),
    SLA(Op),
    SRA(Op),
    SRL(Op),
    STOP,
    SUB(Op),
    SWAP(Op),
    XOR(Op),
    ADC(Op, Op),
}

/// A decoded instruction: its operation, its length in bytes (opcode
/// included), and the machine cycles it takes when a condition holds and
/// when it does not (zero for unconditional instructions).
#[derive(Clone, Copy, Debug, PartialEq, Eq)]
pub struct Instruction {
    pub operation: Operation,
    pub size: usize,
    pub cycles: usize,
    pub cycles_not_taken: usize,
}

impl Instruction {
    pub fn from(operation: Operation, size: usize, cycles: usize, cycles_not_taken: usize) -> (r: Self)
        ensures
            r == ins_spec(operation, size, cycles, cycles_not_taken),
    {
        Instruction { operation, size, cycles, cycles_not_taken }
    }
}

pub open spec fn ins_spec(operation: Operation, size: usize, cycles: usize, cycles_not_taken: usize) -> Instruction {
    Instruction { operation, size, cycles, cycles_not_taken }
}

fn ins(operation: Operation, size: usize, cycles: usize, cycles_not_taken: usize) -> (r: Instruction)
    ensures
        r == ins_spec(operation, size, cycles, cycles_not_taken),
{
    Instruction { operation, size, cycles, cycles_not_taken }
}

/// `r[i]`: B, C, D, E, H, L, (HL), A.
pub open spec fn r8_spec(i: u8) -> Op {
    if i == 0 {
        Op::Register(Reg::B)
    } else if i == 1 {
        Op::Register(Reg::C)
    } else if i == 2 {
        Op::Register(Reg::D)
    } else if i == 3 {
        Op::Register(Reg::E)
    } else if i == 4 {
        Op::Register(Reg::H)
    } else if i == 5 {
        Op::Register(Reg::L)
    } else if i == 6 {
        Op::RegisterIndirect(Reg::HL)
    } else {
        Op::Register(Reg::A)
    }
}

fn r8(i: u8) -> (r: Op)
    ensures
        r == r8_spec(i),
{
    if i == 0 {
        Op::Register(Reg::B)
    } else if i == 1 {
        Op::Register(Reg::C)
    } else if i == 2 {
        Op::Register(Reg::D)
    } else if i == 3 {
        Op::Register(Reg::E)
    } else if i == 4 {
        Op::Register(Reg::H)
    } else if i == 5 {
        Op::Register(Reg::L)
    } else if i == 6 {
        Op::RegisterIndirect(Reg::HL)
    } else {
        Op::Register(Reg::A)
    }
}

/// `rp[p]`: BC, DE, HL, SP.
pub open spec fn rp_spec(p: u8) -> Op {
    if p == 0 {
        Op::Register(Reg::BC)
    } else if p == 1 {
        Op::Register(Reg::DE)
    } else if p == 2 {
        Op::Register(Reg::HL)
    } else {
        Op::Register(Reg::SP)
    }
}

fn rp(p: u8) -> (r: Op)
    ensures
        r == rp_spec(p),
{
    if p == 0 {
        Op::Register(Reg::BC)
    } else if p == 1 {
        Op::Register(Reg::DE)
    } else if p == 2 {
        Op::Register(Reg::HL)
    } else {
        Op::Register(Reg::SP)
    }
}

/// `rp2[p]`: BC, DE, HL, AF.
pub open spec fn rp2_spec(p: u8) -> Op {
    if p == 0 {
        Op::Register(Reg::BC)
    } else if p == 1 {
        Op::Register(Reg::DE)
    } else if p == 2 {
        Op::Register(Reg::HL)
    } else {
        Op::Register(Reg::AF)
    }
}

fn rp2(p: u8) -> (r: Op)
    ensures
        r == rp2_spec(p),
{
    if p == 0 {
        Op::Register(Reg::BC)
    } else if p == 1 {
        Op::Register(Reg::DE)
    } else if p == 2 {
        Op::Register(Reg::HL)
    } else {
        Op::Register(Reg::AF)
    }
}

/// `cc[i]`: NZ, Z, NC, C.
pub open spec fn cc_spec(i: u8) -> CC {
    if i == 0 {
        CC::NZ
    } else if i == 1 {
        CC::Z
    } else if i == 2 {
        CC::NC
    } else {
        CC::C
    }
}

fn cc(i: u8) -> (r: CC)
    ensures
        r == cc_spec(i),
{
    if i == 0 {
        CC::NZ
    } else if i == 1 {
        CC::Z
    } else if i == 2 {
        CC::NC
    } else {
        CC::C
    }
}

/// `alu[y]` applied to the accumulator.
pub open spec fn alu_spec(y: u8, operand: Op) -> Operation {
    if y == 0 {
        Operation::ADD(Op::Register(Reg::A), operand)
    } else if y == 1 {
        Operation::ADC(Op::Register(Reg::A), operand)
    } else if y == 2 {
        Operation::SUB(operand)
    } else if y == 3 {
        Operation::SBC(Op::Register(Reg::A), operand)
    } else if y == 4 {
        Operation::AND(operand)
    } else if y == 5 {
        Operation::XOR(operand)
    } else if y == 6 {
        Operation::OR(operand)
    } else {
        Operation::CP(operand)
    }
}

fn alu(y: u8, operand: Op) -> (r: Operation)
    ensures
        r == alu_spec(y, operand),
{
    if y == 0 {
        Operation::ADD(Op::Register(Reg::A), operand)
    } else if y == 1 {
        Operation::ADC(Op::Register(Reg::A), operand)
    } else if y == 2 {
        Operation::SUB(operand)
    } else if y == 3 {
        Operation::SBC(Op::Register(Reg::A), operand)
    } else if y == 4 {
        Operation::AND(operand)
    } else if y == 5 {
        Operation::XOR(operand)
    } else if y == 6 {
        Operation::OR(operand)
    } else {
        Operation::CP(operand)
    }
}

/// The primary decode table. `None` marks the eleven illegal opcodes.
pub open spec fn decode_spec(opcode: u8) -> Option<Instruction> {
    let x = opcode / 64;
    let y = (opcode / 8) % 8;
    let z = opcode % 8;
    let p = y / 2;
    let q = y % 2;
        if x == 0 {
            if z == 0 {
                if y == 0 {
                    Some(ins_spec(Operation::NOP, 1, 4, 0))
                } else if y == 1 {
                    Some(ins_spec(Operation::LD(Op::Extended, Op::Register(Reg::SP)), 3, 20, 0))
                } else if y == 2 {
                    Some(ins_spec(Operation::STOP, 1, 4, 0))
                } else if y == 3 {
                    Some(ins_spec(Operation::JR(Op::Relative), 2, 12, 0))
                } else {
                    Some(ins_spec(Operation::JRcc(cc_spec((y - 4) as u8), Op::Relative), 2, 12, 8))
                }
            } else if z == 1 {
                if q == 0 {
                    Some(ins_spec(Operation::LD(rp_spec(p), Op::ImmediateExtended), 3, 12, 0))
                } else {
                    Some(ins_spec(Operation::ADD(Op::Register(Reg::HL), rp_spec(p)), 1, 8, 0))
                }
            } else if z == 2 {
                let ind = if p == 0 {
                    Op::RegisterIndirect(Reg::BC)
                } else if p == 1 {
                    Op::RegisterIndirect(Reg::DE)
                } else if p == 2 {
                    Op::RegisterIndirectPostIncrement(Reg::HL)
                } else {
                    Op::RegisterIndirectPostDecrement(Reg::HL)
                };
                if q == 0 {
                    Some(ins_spec(Operation::LD(ind, Op::Register(Reg::A)), 1, 8, 0))
                } else {
                    Some(ins_spec(Operation::LD(Op::Register(Reg::A), ind), 1, 8, 0))
                }
            } else if z == 3 {
                if q == 0 {
                    Some(ins_spec(Operation::INC(rp_spec(p)), 1, 8, 0))
                } else {
                    Some(ins_spec(Operation::DEC(rp_spec(p)), 1, 8, 0))
                }
            } else if z == 4 {
                Some(ins_spec(Operation::INC(r8_spec(y)), 1, if y == 6 { 12 } else { 4 }, 0))
            } else if z == 5 {
                Some(ins_spec(Operation::DEC(r8_spec(y)), 1, if y == 6 { 12 } else { 4 }, 0))
            } else if z == 6 {
                Some(ins_spec(Operation::LD(r8_spec(y), Op::Immediate), 2, if y == 6 { 12 } else { 8 }, 0))
            } else {
                let op = if y == 0 {
                    Operation::RLCA
                } else if y == 1 {
                    Operation::RRCA
                } else if y == 2 {
                    Operation::RLA
                } else if y == 3 {
                    Operation::RRA
                } else if y == 4 {
                    Operation::DAA
                } else if y == 5 {
                    Operation::CPL
                } else if y == 6 {
                    Operation::SCF
                } else {
                    Operation::CCF
                };
                Some(ins_spec(op, 1, 4, 0))
            }
        } else if x == 1 {
            if y == 6 && z == 6 {
                Some(ins_spec(Operation::HALT, 1, 4, 0))
            } else {
                Some(ins_spec(Operation::LD(r8_spec(y), r8_spec(z)), 1, if y == 6 || z == 6 { 8 } else { 4 }, 0))
            }
        } else if x == 2 {
            Some(ins_spec(alu_spec(y, r8_spec(z)), 1, if z == 6 { 8 } else { 4 }, 0))
        } else {
            if z == 0 {
                if y < 4 {
                    Some(ins_spec(Operation::RETcc(cc_spec(y)), 1, 20, 8))
                } else if y == 4 {
                    Some(ins_spec(Operation::LDH(Op::Indirect, Op::Register(Reg::A)), 2, 12, 0))
                } else if y == 5 {
                    Some(ins_spec(Operation::ADD(Op::Register(Reg::SP), Op::Relative), 2, 16, 0))
                } else if y == 6 {
                    Some(ins_spec(Operation::LDH(Op::Register(Reg::A), Op::Indirect), 2, 12, 0))
                } else {
                    Some(ins_spec(Operation::LD(Op::Register(Reg::HL), Op::AdjustedStackPointer), 2, 12, 0))
                }
            } else if z == 1 {
                if q == 0 {
                    Some(ins_spec(Operation::POP(rp2_spec(p)), 1, 12, 0))
                } else if p == 0 {
                    Some(ins_spec(Operation::RET, 1, 16, 0))
                } else if p == 1 {
                    Some(ins_spec(Operation::RETI, 1, 16, 0))
                } else if p == 2 {
                    Some(ins_spec(Operation::JP(Op::Register(Reg::HL)), 1, 4, 0))
                } else {
                    Some(ins_spec(Operation::LD(Op::Register(Reg::SP), Op::Register(Reg::HL)), 1, 8, 0))
                }
            } else if z == 2 {
                if y < 4 {
                    Some(ins_spec(Operation::JPcc(cc_spec(y), Op::ImmediateExtended), 3, 16, 12))
                } else if y == 4 {
                    Some(ins_spec(Operation::LDH(Op::RegisterIndirect(Reg::C), Op::Register(Reg::A)), 1, 8, 0))
                } else if y == 5 {
                    Some(ins_spec(Operation::LD(Op::Extended, Op::Register(Reg::A)), 3, 16, 0))
                } else if y == 6 {
                    Some(ins_spec(Operation::LDH(Op::Register(Reg::A), Op::RegisterIndirect(Reg::C)), 1, 8, 0))
                } else {
                    Some(ins_spec(Operation::LD(Op::Register(Reg::A), Op::Extended), 3, 16, 0))
                }
            } else if z == 3 {
                if y == 0 {
                    Some(ins_spec(Operation::JP(Op::ImmediateExtended), 3, 16, 0))
                } else if y == 1 {
                    Some(ins_spec(Operation::CBPrefix, 1, 4, 0))
                } else if y == 6 {
                    Some(ins_spec(Operation::DI, 1, 4, 0))
                } else if y == 7 {
                    Some(ins_spec(Operation::EI, 1, 4, 0))
                } else {
                    None
                }
            } else if z == 4 {
                if y < 4 {
                    Some(ins_spec(Operation::CALLcc(cc_spec(y), Op::ImmediateExtended), 3, 24, 12))
                } else {
                    None
                }
            } else if z == 5 {
                if q == 0 {
                    Some(ins_spec(Operation::PUSH(rp2_spec(p)), 1, 16, 0))
                } else if p == 0 {
                    Some(ins_spec(Operation::CALL(Op::ImmediateExtended), 3, 24, 0))
                } else {
                    None
                }
            } else if z == 6 {
                Some(ins_spec(alu_spec(y, Op::Immediate), 2, 8, 0))
            } else {
                Some(ins_spec(Operation::RST((y as usize * 8) as usize), 1, 16, 0))
            }
        }
}

/// The table of `0xCB`-prefixed opcodes: rotates and shifts, `BIT`, `RES`
/// and `SET` over the eight targets; every entry is one byte long.
pub open spec fn decode_cb_spec(opcode: u8) -> Instruction {
    let x = opcode / 64;
    let y = (opcode / 8) % 8;
    let z = opcode % 8;
        let target = r8_spec(z);
        let slow = z == 6;
        if x == 0 {
            let op = if y == 0 {
                Operation::RLC(target)
            } else if y == 1 {
                Operation::RRC(target)
            } else if y == 2 {
                Operation::RL(target)
            } else if y == 3 {
                Operation::RR(target)
            } else if y == 4 {
                Operation::SLA(target)
            } else if y == 5 {
                Operation::SRA(target)
            } else if y == 6 {
                Operation::SWAP(target)
            } else {
                Operation::SRL(target)
            };
            ins_spec(op, 1, if slow { 16 } else { 8 }, 0)
        } else if x == 1 {
            ins_spec(Operation::BIT(y as usize, target), 1, if slow { 12 } else { 8 }, 0)
        } else if x == 2 {
            ins_spec(Operation::RES(y as usize, target), 1, if slow { 16 } else { 8 }, 0)
        } else {
            ins_spec(Operation::SET(y as usize, target), 1, if slow { 16 } else { 8 }, 0)
        }
}

/// Looks up an opcode in the primary table.
pub fn decode(opcode: u8) -> (r: Option<Instruction>)
    ensures
        r == decode_spec(opcode),
{
    let x = opcode / 64;
    let y = (opcode / 8) % 8;
    let z = opcode % 8;
    let p = y / 2;
    let q = y % 2;
        if x == 0 {
            if z == 0 {
                if y == 0 {
                    Some(ins(Operation::NOP, 1, 4, 0))
                } else if y == 1 {
                    Some(ins(Operation::LD(Op::Extended, Op::Register(Reg::SP)), 3, 20, 0))
                } else if y == 2 {
                    Some(ins(Operation::STOP, 1, 4, 0))
                } else if y == 3 {
                    Some(ins(Operation::JR(Op::Relative), 2, 12, 0))
                } else {
                    Some(ins(Operation::JRcc(cc((y - 4) as u8), Op::Relative), 2, 12, 8))
                }
            } else if z == 1 {
                if q == 0 {
                    Some(ins(Operation::LD(rp(p), Op::ImmediateExtended), 3, 12, 0))
                } else {
                    Some(ins(Operation::ADD(Op::Register(Reg::HL), rp(p)), 1, 8, 0))
                }
            } else if z == 2 {
                let ind = if p == 0 {
                    Op::RegisterIndirect(Reg::BC)
                } else if p == 1 {
                    Op::RegisterIndirect(Reg::DE)
                } else if p == 2 {
                    Op::RegisterIndirectPostIncrement(Reg::HL)
                } else {
                    Op::RegisterIndirectPostDecrement(Reg::HL)
                };
                if q == 0 {
                    Some(ins(Operation::LD(ind, Op::Register(Reg::A)), 1, 8, 0))
                } else {
                    Some(ins(Operation::LD(Op::Register(Reg::A), ind), 1, 8, 0))
                }
            } else if z == 3 {
                if q == 0 {
                    Some(ins(Operation::INC(rp(p)), 1, 8, 0))
                } else {
                    Some(ins(Operation::DEC(rp(p)), 1, 8, 0))
                }
            } else if z == 4 {
                Some(ins(Operation::INC(r8(y)), 1, if y == 6 { 12 } else { 4 }, 0))
            } else if z == 5 {
                Some(ins(Operation::DEC(r8(y)), 1, if y == 6 { 12 } else { 4 }, 0))
            } else if z == 6 {
                Some(ins(Operation::LD(r8(y), Op::Immediate), 2, if y == 6 { 12 } else { 8 }, 0))
            } else {
                let op = if y == 0 {
                    Operation::RLCA
                } else if y == 1 {
                    Operation::RRCA
                } else if y == 2 {
                    Operation::RLA
                } else if y == 3 {
                    Operation::RRA
                } else if y == 4 {
                    Operation::DAA
                } else if y == 5 {
                    Operation::CPL
                } else if y == 6 {
                    Operation::SCF
                } else {
                    Operation::CCF
                };
                Some(ins(op, 1, 4, 0))
            }
        } else if x == 1 {
            if y == 6 && z == 6 {
                Some(ins(Operation::HALT, 1, 4, 0))
            } else {
                Some(ins(Operation::LD(r8(y), r8(z)), 1, if y == 6 || z == 6 { 8 } else { 4 }, 0))
            }
        } else if x == 2 {
            Some(ins(alu(y, r8(z)), 1, if z == 6 { 8 } else { 4 }, 0))
        } else {
            if z == 0 {
                if y < 4 {
                    Some(ins(Operation::RETcc(cc(y)), 1, 20, 8))
                } else if y == 4 {
                    Some(ins(Operation::LDH(Op::Indirect, Op::Register(Reg::A)), 2, 12, 0))
                } else if y == 5 {
                    Some(ins(Operation::ADD(Op::Register(Reg::SP), Op::Relative), 2, 16, 0))
                } else if y == 6 {
                    Some(ins(Operation::LDH(Op::Register(Reg::A), Op::Indirect), 2, 12, 0))
                } else {
                    Some(ins(Operation::LD(Op::Register(Reg::HL), Op::AdjustedStackPointer), 2, 12, 0))
                }
            } else if z == 1 {
                if q == 0 {
                    Some(ins(Operation::POP(rp2(p)), 1, 12, 0))
                } else if p == 0 {
                    Some(ins(Operation::RET, 1, 16, 0))
                } else if p == 1 {
                    Some(ins(Operation::RETI, 1, 16, 0))
                } else if p == 2 {
                    Some(ins(Operation::JP(Op::Register(Reg::HL)), 1, 4, 0))
                } else {
                    Some(ins(Operation::LD(Op::Register(Reg::SP), Op::Register(Reg::HL)), 1, 8, 0))
                }
            } else if z == 2 {
                if y < 4 {
                    Some(ins(Operation::JPcc(cc(y), Op::ImmediateExtended), 3, 16, 12))
                } else if y == 4 {
                    Some(ins(Operation::LDH(Op::RegisterIndirect(Reg::C), Op::Register(Reg::A)), 1, 8, 0))
                } else if y == 5 {
                    Some(ins(Operation::LD(Op::Extended, Op::Register(Reg::A)), 3, 16, 0))
                } else if y == 6 {
                    Some(ins(Operation::LDH(Op::Register(Reg::A), Op::RegisterIndirect(Reg::C)), 1, 8, 0))
                } else {
                    Some(ins(Operation::LD(Op::Register(Reg::A), Op::Extended), 3, 16, 0))
                }
            } else if z == 3 {
                if y == 0 {
                    Some(ins(Operation::JP(Op::ImmediateExtended), 3, 16, 0))
                } else if y == 1 {
                    Some(ins(Operation::CBPrefix, 1, 4, 0))
                } else if y == 6 {
                    Some(ins(Operation::DI, 1, 4, 0))
                } else if y == 7 {
                    Some(ins(Operation::EI, 1, 4, 0))
                } else {
                    None
                }
            } else if z == 4 {
                if y < 4 {
                    Some(ins(Operation::CALLcc(cc(y), Op::ImmediateExtended), 3, 24, 12))
                } else {
                    None
                }
            } else if z == 5 {
                if q == 0 {
                    Some(ins(Operation::PUSH(rp2(p)), 1, 16, 0))
                } else if p == 0 {
                    Some(ins(Operation::CALL(Op::ImmediateExtended), 3, 24, 0))
                } else {
                    None
                }
            } else if z == 6 {
                Some(ins(alu(y, Op::Immediate), 2, 8, 0))
            } else {
                Some(ins(Operation::RST((y as usize * 8) as usize), 1, 16, 0))
            }
        }
}

/// Looks up the byte after a `0xCB` prefix.
pub fn decode_cb(opcode: u8) -> (r: Instruction)
    ensures
        r == decode_cb_spec(opcode),
{
    let x = opcode / 64;
    let y = (opcode / 8) % 8;
    let z = opcode % 8;
        let target = r8(z);
        let slow = z == 6;
        if x == 0 {
            let op = if y == 0 {
                Operation::RLC(target)
            } else if y == 1 {
                Operation::RRC(target)
            } else if y == 2 {
                Operation::RL(target)
            } else if y == 3 {
                Operation::RR(target)
            } else if y == 4 {
                Operation::SLA(target)
            } else if y == 5 {
                Operation::SRA(target)
            } else if y == 6 {
                Operation::SWAP(target)
            } else {
                Operation::SRL(target)
            };
            ins(op, 1, if slow { 16 } else { 8 }, 0)
        } else if x == 1 {
            ins(Operation::BIT(y as usize, target), 1, if slow { 12 } else { 8 }, 0)
        } else if x == 2 {
            ins(Operation::RES(y as usize, target), 1, if slow { 16 } else { 8 }, 0)
        } else {
            ins(Operation::SET(y as usize, target), 1, if slow { 16 } else { 8 }, 0)
        }
}

/// The primary table, indexed by opcode.
pub fn get_main_table() -> (r: Vec<Option<Instruction>>)
    ensures
        r@.len() == 256,
        forall|i: int| 0 <= i < 256 ==> r@[i] == decode_spec(i as u8),
{
    let mut table: Vec<Option<Instruction>> = Vec::new();
    let mut i: usize = 0;
    while i < 256
        invariant
            i <= 256,
            table@.len() == i,
            forall|j: int| 0 <= j < i ==> table@[j] == decode_spec(j as u8),
        decreases 256 - i,
    {
        table.push(decode(i as u8));
        i = i + 1;
    }
    table
}

/// Both decode tables, built once and then indexed by opcode.
pub struct LR35902Decoder {
    main: Vec<Option<Instruction>>,
    cb: Vec<Instruction>,
}

impl LR35902Decoder {
    pub closed spec fn wf(&self) -> bool {
        &&& self.main@.len() == 256
        &&& self.cb@.len() == 256
        &&& forall|i: int| 0 <= i < 256 ==> self.main@[i] == decode_spec(i as u8)
        &&& forall|i: int| 0 <= i < 256 ==> self.cb@[i] == decode_cb_spec(i as u8)
    }

    pub fn new() -> (r: Self)
        ensures
            r.wf(),
    {
        let main = get_main_table();
        let mut cb: Vec<Instruction> = Vec::new();
        let mut i: usize = 0;
        while i < 256
            invariant
                i <= 256,
                cb@.len() == i,
                forall|j: int| 0 <= j < i ==> cb@[j] == decode_cb_spec(j as u8),
            decreases 256 - i,
        {
            cb.push(decode_cb(i as u8));
            i = i + 1;
        }
        LR35902Decoder { main, cb }
    }

    pub fn decode(&self, opcode: u8) -> (r: Option<Instruction>)
        requires
            self.wf(),
        ensures
            r == decode_spec(opcode),
    {
        self.main[opcode as usize]
    }

    pub fn decode_cb(&self, opcode: u8) -> (r: Instruction)
        requires
            self.wf(),
        ensures
            r == decode_cb_spec(opcode),
    {
        self.cb[opcode as usize]
    }
}

/// The illegal primary opcodes are exactly `0xD3, 0xDB, 0xDD, 0xE3, 0xE4,
/// 0xEB, 0xEC, 0xED, 0xF4, 0xFC, 0xFD`.
pub proof fn lemma_illegal_opcodes(opcode: u8)
    ensures
        decode_spec(opcode).is_none() <==> (opcode == 0xD3 || opcode == 0xDB || opcode == 0xDD
            || opcode == 0xE3 || opcode == 0xE4 || opcode == 0xEB || opcode == 0xEC || opcode
            == 0xED || opcode == 0xF4 || opcode == 0xFC || opcode == 0xFD),
{
}

} // verus!
