//! The arithmetic and logic unit: each operation takes its operands and the
//! incoming flags and returns the result with the new flag byte.
use vstd::prelude::*;

verus! {

/// The four flag bits of `F`.
pub const FLAG_Z: u8 = 0x80;
pub const FLAG_N: u8 = 0x40;
pub const FLAG_H: u8 = 0x20;
pub const FLAG_C: u8 = 0x10;

/// The flag byte with the given bits; the low nibble is always zero.
pub open spec fn flags_byte(z: bool, n: bool, h: bool, c: bool) -> u8 {
    ((if z {
        0x80int
    } else {
        0
    }) + (if n {
        0x40int
    } else {
        0
    }) + (if h {
        0x20int
    } else {
        0
    }) + (if c {
        0x10int
    } else {
        0
    })) as u8
}

pub open spec fn flag_z(f: u8) -> bool {
    f / 128 == 1
}

pub open spec fn flag_n(f: u8) -> bool {
    (f / 64) % 2 == 1
}

pub open spec fn flag_h(f: u8) -> bool {
    (f / 32) % 2 == 1
}

pub open spec fn flag_c(f: u8) -> bool {
    (f / 16) % 2 == 1
}

/// Result and flag byte of an 8-bit operation.
#[derive(Clone, Copy, Debug, PartialEq, Eq)]
pub struct AluResult {
    pub value: u8,
    pub flags: u8,
}

pub open spec fn res(value: int, flags: u8) -> AluResult {
    AluResult { value: value as u8, flags }
}

pub fn make_flags(z: bool, n: bool, h: bool, c: bool) -> (r: u8)
    ensures
        r == flags_byte(z, n, h, c),
        flag_z(r) == z,
        flag_n(r) == n,
        flag_h(r) == h,
        flag_c(r) == c,
        r % 16 == 0,
{
    let mut r: u8 = 0;
    if z {
        r = r + FLAG_Z;
    }
    if n {
        r = r + FLAG_N;
    }
    if h {
        r = r + FLAG_H;
    }
    if c {
        r = r + FLAG_C;
    }
    r
}

/// `ADD`/`ADC`: `H` from the low nibbles, `C` from the full byte.
pub open spec fn add8(a: u8, b: u8, carry: bool) -> AluResult {
    let c: int = if carry {
        1
    } else {
        0
    };
    let sum = a + b + c;
    res(
        sum % 256,
        flags_byte(sum % 256 == 0, false, a % 16 + b % 16 + c > 0xF, sum > 0xFF),
    )
}

pub fn alu_add(a: u8, b: u8, carry: bool) -> (r: AluResult)
    ensures
        r == add8(a, b, carry),
        r.flags % 16 == 0,
{
    let c: u16 = if carry {
        1
    } else {
        0
    };
    let sum: u16 = a as u16 + b as u16 + c;
    let value = (sum % 256) as u8;
    AluResult {
        value,
        flags: make_flags(value == 0, false, (a % 16) as u16 + (b % 16) as u16 + c > 0xF, sum > 0xFF),
    }
}

/// `SUB`/`SBC`/`CP`: borrow from the low nibble and from the byte.
pub open spec fn sub8(a: u8, b: u8, carry: bool) -> AluResult {
    let c: int = if carry {
        1
    } else {
        0
    };
    let diff = a - b - c;
    res(
        (diff + 512) % 256,
        flags_byte((diff + 512) % 256 == 0, true, a % 16 < b % 16 + c, a < b + c),
    )
}

pub fn alu_sub(a: u8, b: u8, carry: bool) -> (r: AluResult)
    ensures
        r == sub8(a, b, carry),
        r.flags % 16 == 0,
{
    let c: u16 = if carry {
        1
    } else {
        0
    };
    let value = ((a as u16 + 512 - b as u16 - c) % 256) as u8;
    AluResult {
        value,
        flags: make_flags(value == 0, true, ((a % 16) as u16) < (b % 16) as u16 + c, (a as u16) < b as u16 + c),
    }
}

pub open spec fn and8(a: u8, b: u8) -> AluResult {
    AluResult { value: a & b, flags: flags_byte(a & b == 0, false, true, false) }
}

pub fn alu_and(a: u8, b: u8) -> (r: AluResult)
    ensures
        r == and8(a, b),
        r.flags % 16 == 0,
{
    let value = a & b;
    AluResult { value, flags: make_flags(value == 0, false, true, false) }
}

pub open spec fn or8(a: u8, b: u8) -> AluResult {
    AluResult { value: a | b, flags: flags_byte(a | b == 0, false, false, false) }
}

pub fn alu_or(a: u8, b: u8) -> (r: AluResult)
    ensures
        r == or8(a, b),
        r.flags % 16 == 0,
{
    let value = a | b;
    AluResult { value, flags: make_flags(value == 0, false, false, false) }
}

pub open spec fn xor8(a: u8, b: u8) -> AluResult {
    AluResult { value: a ^ b, flags: flags_byte(a ^ b == 0, false, false, false) }
}

pub fn alu_xor(a: u8, b: u8) -> (r: AluResult)
    ensures
        r == xor8(a, b),
        r.flags % 16 == 0,
{
    let value = a ^ b;
    AluResult { value, flags: make_flags(value == 0, false, false, false) }
}

/// `INC r8`: carry kept.
pub open spec fn inc8(v: u8, f: u8) -> AluResult {
    res((v + 1) % 256, flags_byte((v + 1) % 256 == 0, false, v % 16 == 0xF, flag_c(f)))
}

pub fn alu_inc(v: u8, f: u8) -> (r: AluResult)
    ensures
        r == inc8(v, f),
        r.flags % 16 == 0,
{
    let value = if v == 0xFF {
        0
    } else {
        v + 1
    };
    AluResult { value, flags: make_flags(value == 0, false, v % 16 == 0xF, (f / 16) % 2 == 1) }
}

/// `DEC r8`: carry kept.
pub open spec fn dec8(v: u8, f: u8) -> AluResult {
    res((v + 255) % 256, flags_byte((v + 255) % 256 == 0, true, v % 16 == 0, flag_c(f)))
}

pub fn alu_dec(v: u8, f: u8) -> (r: AluResult)
    ensures
        r == dec8(v, f),
        r.flags % 16 == 0,
{
    let value = if v == 0 {
        0xFF
    } else {
        v - 1
    };
    AluResult { value, flags: make_flags(value == 0, true, v % 16 == 0, (f / 16) % 2 == 1) }
}

/// Decimal adjust of `A` after a BCD addition or subtraction.
pub open spec fn daa8(a: u8, f: u8) -> AluResult {
    if !flag_n(f) {
        let hi: int = if flag_c(f) || a > 0x99 {
            0x60
        } else {
            0
        };
        let lo: int = if flag_h(f) || a % 16 > 9 {
            0x06
        } else {
            0
        };
        let v = (a + hi + lo) % 256;
        res(v, flags_byte(v == 0, false, false, hi != 0))
    } else {
        let hi: int = if flag_c(f) {
            0x60
        } else {
            0
        };
        let lo: int = if flag_h(f) {
            0x06
        } else {
            0
        };
        let v = (a - hi - lo + 256) % 256;
        res(v, flags_byte(v == 0, true, false, flag_c(f)))
    }
}

pub fn alu_daa(a: u8, f: u8) -> (r: AluResult)
    ensures
        r == daa8(a, f),
        r.flags % 16 == 0,
{
    let n = (f / 64) % 2 == 1;
    let h = (f / 32) % 2 == 1;
    let c = (f / 16) % 2 == 1;
    if !n {
        let hi: u16 = if c || a > 0x99 {
            0x60
        } else {
            0
        };
        let lo: u16 = if h || a % 16 > 9 {
            0x06
        } else {
            0
        };
        let value = ((a as u16 + hi + lo) % 256) as u8;
        AluResult { value, flags: make_flags(value == 0, false, false, hi != 0) }
    } else {
        let hi: u16 = if c {
            0x60
        } else {
            0
        };
        let lo: u16 = if h {
            0x06
        } else {
            0
        };
        let value = ((a as u16 + 256 - hi - lo) % 256) as u8;
        AluResult { value, flags: make_flags(value == 0, true, false, c) }
    }
}

/// The shift and rotate family of the CB table, and the accumulator
/// rotates of the main table.
#[derive(Clone, Copy, Debug, PartialEq, Eq)]
pub enum Shift {
    Rlc,
    Rrc,
    Rl,
    Rr,
    Sla,
    Sra,
    Srl,
    Swap,
}

/// Result of a shift or rotate, and the bit it ejects.
pub open spec fn shift_value(kind: Shift, v: u8, carry: bool) -> (int, bool) {
    let c: int = if carry {
        1
    } else {
        0
    };
    match kind {
        Shift::Rlc => ((v * 2) % 256 + v / 128, v / 128 == 1),
        Shift::Rrc => (v / 2 + (v % 2) * 128, v % 2 == 1),
        Shift::Rl => ((v * 2) % 256 + c, v / 128 == 1),
        Shift::Rr => (v / 2 + c * 128, v % 2 == 1),
        Shift::Sla => ((v * 2) % 256, v / 128 == 1),
        Shift::Sra => (v / 2 + (v / 128) * 128, v % 2 == 1),
        Shift::Srl => ((v / 2) as int, v % 2 == 1),
        Shift::Swap => ((v % 16) * 16 + v / 16, false),
    }
}

/// CB-table shifts: `Z` from the result, `N` and `H` clear, `C` the
/// ejected bit (clear for `SWAP`).
pub open spec fn shift8(kind: Shift, v: u8, f: u8) -> AluResult {
    let (value, out) = shift_value(kind, v, flag_c(f));
    res(value, flags_byte(value % 256 == 0, false, false, out))
}

/// `RLCA`/`RRCA`/`RLA`/`RRA`: as the CB rotates, with `Z` always clear.
pub open spec fn shift_a8(kind: Shift, v: u8, f: u8) -> AluResult {
    let (value, out) = shift_value(kind, v, flag_c(f));
    res(value, flags_byte(false, false, false, out))
}

pub fn alu_shift_value(kind: Shift, v: u8, carry: bool) -> (r: (u8, bool))
    ensures
        r.0 == shift_value(kind, v, carry).0,
        r.1 == shift_value(kind, v, carry).1,
{
    let c: u16 = if carry {
        1
    } else {
        0
    };
    let w = v as u16;
    let value: u16 = match kind {
        Shift::Rlc => (w * 2) % 256 + w / 128,
        Shift::Rrc => w / 2 + (w % 2) * 128,
        Shift::Rl => (w * 2) % 256 + c,
        Shift::Rr => w / 2 + c * 128,
        Shift::Sla => (w * 2) % 256,
        Shift::Sra => w / 2 + (w / 128) * 128,
        Shift::Srl => w / 2,
        Shift::Swap => (w % 16) * 16 + w / 16,
    };
    let out = match kind {
        Shift::Rlc | Shift::Rl | Shift::Sla => w / 128 == 1,
        Shift::Swap => false,
        _ => w % 2 == 1,
    };
    (value as u8, out)
}

pub fn alu_shift(kind: Shift, v: u8, f: u8) -> (r: AluResult)
    ensures
        r == shift8(kind, v, f),
        r.flags % 16 == 0,
{
    let (value, out) = alu_shift_value(kind, v, (f / 16) % 2 == 1);
    AluResult { value, flags: make_flags(value == 0, false, false, out) }
}

pub fn alu_shift_a(kind: Shift, v: u8, f: u8) -> (r: AluResult)
    ensures
        r == shift_a8(kind, v, f),
        r.flags % 16 == 0,
{
    let (value, out) = alu_shift_value(kind, v, (f / 16) % 2 == 1);
    AluResult { value, flags: make_flags(false, false, false, out) }
}

/// Bit `n` of `v`.
pub open spec fn bit_of(v: u8, n: nat) -> bool {
    (v as nat / pow2_8(n)) % 2 == 1
}

pub open spec fn pow2_8(n: nat) -> nat {
    if n == 0 {
        1
    } else if n == 1 {
        2
    } else if n == 2 {
        4
    } else if n == 3 {
        8
    } else if n == 4 {
        16
    } else if n == 5 {
        32
    } else if n == 6 {
        64
    } else {
        128
    }
}

fn bit_weight(n: usize) -> (r: u8)
    requires
        n < 8,
    ensures
        r == pow2_8(n as nat),
{
    if n == 0 {
        1
    } else if n == 1 {
        2
    } else if n == 2 {
        4
    } else if n == 3 {
        8
    } else if n == 4 {
        16
    } else if n == 5 {
        32
    } else if n == 6 {
        64
    } else {
        128
    }
}

/// `BIT n`: `Z` is the complement of the bit, `N` clear, `H` set, `C` kept.
pub open spec fn bit_flags(n: nat, v: u8, f: u8) -> u8 {
    flags_byte(!bit_of(v, n), false, true, flag_c(f))
}

pub fn alu_bit(n: usize, v: u8, f: u8) -> (r: u8)
    requires
        n < 8,
    ensures
        r == bit_flags(n as nat, v, f),
        r % 16 == 0,
{
    let w = bit_weight(n);
    make_flags((v / w) % 2 == 0, false, true, (f / 16) % 2 == 1)
}

/// `SET n`.
pub open spec fn set_bit8(n: nat, v: u8) -> u8 {
    if bit_of(v, n) {
        v
    } else {
        (v + pow2_8(n)) as u8
    }
}

/// `RES n`.
pub open spec fn res_bit8(n: nat, v: u8) -> u8 {
    if bit_of(v, n) {
        (v - pow2_8(n)) as u8
    } else {
        v
    }
}

pub fn alu_set(n: usize, v: u8) -> (r: u8)
    requires
        n < 8,
    ensures
        r == set_bit8(n as nat, v),
{
    let w = bit_weight(n);
    if (v / w) % 2 == 1 {
        v
    } else {
        proof {
            lemma_clear_bit_room(v, w);
        }
        v + w
    }
}

pub fn alu_res(n: usize, v: u8) -> (r: u8)
    requires
        n < 8,
    ensures
        r == res_bit8(n as nat, v),
{
    let w = bit_weight(n);
    if (v / w) % 2 == 1 {
        proof {
            lemma_set_bit_room(v, w);
        }
        v - w
    } else {
        v
    }
}

proof fn lemma_clear_bit_room(v: u8, w: u8)
    requires
        w == 1 || w == 2 || w == 4 || w == 8 || w == 16 || w == 32 || w == 64 || w == 128,
        (v / w) % 2 == 0,
    ensures
        v + w < 256,
{
    assert(v + w < 256) by (nonlinear_arith)
        requires
            w == 1 || w == 2 || w == 4 || w == 8 || w == 16 || w == 32 || w == 64 || w == 128,
            (v / w) % 2 == 0,
            v < 256,
    ;
}

proof fn lemma_set_bit_room(v: u8, w: u8)
    requires
        w == 1 || w == 2 || w == 4 || w == 8 || w == 16 || w == 32 || w == 64 || w == 128,
        (v / w) % 2 == 1,
    ensures
        v >= w,
{
    assert(v >= w) by (nonlinear_arith)
        requires
            w > 0,
            (v / w) % 2 == 1,
    ;
}

/// `ADD HL, r16`: `Z` kept, `N` clear, `H` from bit 11, `C` from bit 15.
pub open spec fn add16_flags(a: u16, b: u16, f: u8) -> u8 {
    flags_byte(flag_z(f), false, a % 0x1000 + b % 0x1000 > 0xFFF, a + b > 0xFFFF)
}

pub open spec fn add16_value(a: u16, b: u16) -> u16 {
    ((a + b) % 0x10000) as u16
}

pub fn alu_add16(a: u16, b: u16, f: u8) -> (r: (u16, u8))
    ensures
        r.0 == add16_value(a, b),
        r.1 == add16_flags(a, b, f),
        r.1 % 16 == 0,
{
    let sum: u32 = a as u32 + b as u32;
    (
        (sum % 0x10000) as u16,
        make_flags(f / 128 == 1, false, (a % 0x1000) as u32 + (b % 0x1000) as u32 > 0xFFF, sum > 0xFFFF),
    )
}

/// `SP + e` (for `ADD SP, e` and `LD HL, SP+e`): `Z` and `N` clear, `H`
/// and `C` from the unsigned addition of the low byte of `SP` and `e`.
pub open spec fn sp_offset_value(sp: u16, e: u8) -> u16 {
    let offset: int = if e < 128 {
        e as int
    } else {
        e - 256
    };
    ((sp + offset + 0x10000) % 0x10000) as u16
}

pub open spec fn sp_offset_flags(sp: u16, e: u8) -> u8 {
    flags_byte(false, false, sp % 16 + e % 16 > 0xF, sp % 256 + e > 0xFF)
}

pub fn alu_sp_offset(sp: u16, e: u8) -> (r: (u16, u8))
    ensures
        r.0 == sp_offset_value(sp, e),
        r.1 == sp_offset_flags(sp, e),
        r.1 % 16 == 0,
{
    let wide: u32 = if e < 128 {
        (sp as u32 + e as u32) % 0x10000
    } else {
        (sp as u32 + 0x10000 - (256 - e as u32)) % 0x10000
    };
    (wide as u16, make_flags(false, false, (sp % 16) as u32 + (e % 16) as u32 > 0xF, (sp % 256) as u32 + e as u32 > 0xFF))
}

/// Adding `n` to `A` and then subtracting `n` gives back `A`, whatever
/// the flags.
pub proof fn lemma_add_then_sub_restores(a: u8, n: u8)
    ensures
        sub8(add8(a, n, false).value, n, false).value == a,
{
}

} // verus!
