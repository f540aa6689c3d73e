//! Instruction decode and execution.
//!
//! Every opcode of the primary table and of the 0xCB prefix table decodes
//! to an [`Op`]; illegal opcodes freeze the CPU (it enters `Stopped`). An
//! [`Instruction`] carries the operation, the index of its next
//! micro-operation and a 16-bit temporary; each call of
//! [`Instruction::exec`] performs one micro-operation — one M-cycle
//! issuing at most one bus transaction, with 16-bit operands fetched
//! and stack words moved one byte per cycle — and either hands back the
//! instruction to continue or finishes. The specification interpreter
//! [`inst_exec_spec`] states the effect of every micro-operation exactly.

use vstd::prelude::*;

use super::{
    carry_in, flags_spec, get_c, get_n, get_z, hi8, lo8, make16, sext16, spec_fetch8, wadd16,
    wsub16, Cpu, Registers, Status, Ime, WideRegister, ex_flags,
    ex_get_c, ex_get_z, ex_hi8, ex_lo8, ex_make16, ex_sext16, ex_wadd16, ex_wsub16, get_h,
    ex_get_h, ex_get_n,
};
use crate::mmu::{Mmu, MmuView};
use crate::pic::Interrupt;

verus! {

/// An 8-bit register operand.
#[derive(Clone, Copy, PartialEq, Eq, Structural, Debug)]
pub enum R8 {
    B,
    C,
    D,
    E,
    H,
    L,
    A,
}

pub open spec fn r8_get(r: R8, regs: Registers) -> u8 {
    match r {
        R8::B => regs.b,
        R8::C => regs.c,
        R8::D => regs.d,
        R8::E => regs.e,
        R8::H => regs.h,
        R8::L => regs.l,
        R8::A => regs.a,
    }
}

pub open spec fn r8_put(r: R8, regs: Registers, v: u8) -> Registers {
    match r {
        R8::B => Registers { b: v, ..regs },
        R8::C => Registers { c: v, ..regs },
        R8::D => Registers { d: v, ..regs },
        R8::E => Registers { e: v, ..regs },
        R8::H => Registers { h: v, ..regs },
        R8::L => Registers { l: v, ..regs },
        R8::A => Registers { a: v, ..regs },
    }
}

pub fn ex_r8_get(r: R8, regs: &Registers) -> (v: u8)
    ensures
        v == r8_get(r, *regs),
{
    match r {
        R8::B => regs.b,
        R8::C => regs.c,
        R8::D => regs.d,
        R8::E => regs.e,
        R8::H => regs.h,
        R8::L => regs.l,
        R8::A => regs.a,
    }
}

pub fn ex_r8_put(r: R8, regs: &mut Registers, v: u8)
    ensures
        *final(regs) == r8_put(r, *old(regs), v),
{
    match r {
        R8::B => regs.b = v,
        R8::C => regs.c = v,
        R8::D => regs.d = v,
        R8::E => regs.e = v,
        R8::H => regs.h = v,
        R8::L => regs.l = v,
        R8::A => regs.a = v,
    }
}

/// A jump condition over the flag register.
#[derive(Clone, Copy, PartialEq, Eq, Structural, Debug)]
pub enum Cond {
    Always,
    NotZero,
    Zero,
    NotCarry,
    Carry,
}

pub open spec fn cond_spec(c: Cond, f: u8) -> bool {
    match c {
        Cond::Always => true,
        Cond::NotZero => !get_z(f),
        Cond::Zero => get_z(f),
        Cond::NotCarry => !get_c(f),
        Cond::Carry => get_c(f),
    }
}

pub fn ex_cond(c: Cond, f: u8) -> (r: bool)
    ensures
        r == cond_spec(c, f),
{
    match c {
        Cond::Always => true,
        Cond::NotZero => !ex_get_z(f),
        Cond::Zero => ex_get_z(f),
        Cond::NotCarry => !ex_get_c(f),
        Cond::Carry => ex_get_c(f),
    }
}

/// An indirect addressing mode through a register pair, with the
/// HL-increment and HL-decrement variants.
#[derive(Clone, Copy, PartialEq, Eq, Structural, Debug)]
pub enum Ind {
    BC,
    DE,
    HlInc,
    HlDec,
}

pub open spec fn ind_addr(ind: Ind, regs: Registers) -> u16 {
    match ind {
        Ind::BC => make16(regs.b, regs.c),
        Ind::DE => make16(regs.d, regs.e),
        Ind::HlInc => make16(regs.h, regs.l),
        Ind::HlDec => make16(regs.h, regs.l),
    }
}

/// The register file after an indirect access: HL stepped for the
/// increment/decrement modes, untouched otherwise.
pub open spec fn ind_after(ind: Ind, regs: Registers) -> Registers {
    match ind {
        Ind::BC => regs,
        Ind::DE => regs,
        Ind::HlInc => WideRegister::HL.set_spec(regs, wadd16(make16(regs.h, regs.l), 1)),
        Ind::HlDec => WideRegister::HL.set_spec(regs, wsub16(make16(regs.h, regs.l), 1)),
    }
}

/// An arithmetic/logic operation on A.
#[derive(Clone, Copy, PartialEq, Eq, Structural, Debug)]
pub enum AluK {
    Add,
    Adc,
    Sub,
    Sbc,
    And,
    Xor,
    Or,
    Cp,
}

/// Addition with carry-in: the truncated sum, with Z from the result,
/// N clear, H from the bit-3 carry and C from the bit-7 carry.
pub open spec fn add8_spec(a: u8, b: u8, ci: u8) -> (u8, u8) {
    let v = ((a + b + ci) % 0x100) as u8;
    (v, flags_spec(v == 0, false, a % 16 + b % 16 + ci > 15, a + b + ci > 255))
}

/// Subtraction with borrow-in: N set, H from the low-nibble borrow, C
/// from the full borrow.
pub open spec fn sub8_spec(a: u8, b: u8, ci: u8) -> (u8, u8) {
    let v = ((a + 0x100 - b - ci) % 0x100) as u8;
    (v, flags_spec(v == 0, true, a % 16 < b % 16 + ci, (a as int) < b + ci))
}

/// The eight ALU operations: the new A (old A for compares) and the new
/// flag byte.
pub open spec fn alu_spec(k: AluK, a: u8, b: u8, f: u8) -> (u8, u8) {
    match k {
        AluK::Add => add8_spec(a, b, 0),
        AluK::Adc => add8_spec(a, b, carry_in(f)),
        AluK::Sub => sub8_spec(a, b, 0),
        AluK::Sbc => sub8_spec(a, b, carry_in(f)),
        AluK::And => {
            let v = a & b;
            (v, flags_spec(v == 0, false, true, false))
        },
        AluK::Xor => {
            let v = a ^ b;
            (v, flags_spec(v == 0, false, false, false))
        },
        AluK::Or => {
            let v = a | b;
            (v, flags_spec(v == 0, false, false, false))
        },
        AluK::Cp => (a, sub8_spec(a, b, 0).1),
    }
}

pub fn ex_alu(k: AluK, a: u8, b: u8, f: u8) -> (r: (u8, u8))
    ensures
        r == alu_spec(k, a, b, f),
{
    match k {
        AluK::Add => ex_add8(a, b, 0),
        AluK::Adc => ex_add8(a, b, if ex_get_c(f) {
            1
        } else {
            0
        }),
        AluK::Sub => ex_sub8(a, b, 0),
        AluK::Sbc => ex_sub8(a, b, if ex_get_c(f) {
            1
        } else {
            0
        }),
        AluK::And => {
            let v = a & b;
            (v, ex_flags(v == 0, false, true, false))
        },
        AluK::Xor => {
            let v = a ^ b;
            (v, ex_flags(v == 0, false, false, false))
        },
        AluK::Or => {
            let v = a | b;
            (v, ex_flags(v == 0, false, false, false))
        },
        AluK::Cp => {
            let (_, fl) = ex_sub8(a, b, 0);
            (a, fl)
        },
    }
}

fn ex_add8(a: u8, b: u8, ci: u8) -> (r: (u8, u8))
    requires
        ci <= 1,
    ensures
        r == add8_spec(a, b, ci),
{
    let t: u16 = a as u16 + b as u16 + ci as u16;
    let v = (t % 0x100) as u8;
    (v, ex_flags(v == 0, false, a % 16 + b % 16 + ci > 15, t > 255))
}

fn ex_sub8(a: u8, b: u8, ci: u8) -> (r: (u8, u8))
    requires
        ci <= 1,
    ensures
        r == sub8_spec(a, b, ci),
{
    let t: u16 = a as u16 + 0x100 - b as u16 - ci as u16;
    let v = (t % 0x100) as u8;
    (v, ex_flags(v == 0, true, a % 16 < b % 16 + ci, (a as u16) < b as u16 + ci as u16))
}

/// Every ALU result carries a well-formed flag byte.
proof fn lemma_alu_wf(k: AluK, a: u8, b: u8, f: u8)
    ensures
        alu_spec(k, a, b, f).1 % 16 == 0,
{
}

/// Increment: C is kept, H says the low nibble wrapped.
pub open spec fn inc8_spec(x: u8, f: u8) -> (u8, u8) {
    let v = ((x + 1) % 0x100) as u8;
    (v, flags_spec(v == 0, false, x % 16 == 15, get_c(f)))
}

/// Decrement: C is kept, H says the low nibble borrowed.
pub open spec fn dec8_spec(x: u8, f: u8) -> (u8, u8) {
    let v = ((x + 0xFF) % 0x100) as u8;
    (v, flags_spec(v == 0, true, x % 16 == 0, get_c(f)))
}

fn ex_inc8(x: u8, f: u8) -> (r: (u8, u8))
    ensures
        r == inc8_spec(x, f),
{
    let v = ((x as u16 + 1) % 0x100) as u8;
    (v, ex_flags(v == 0, false, x % 16 == 15, ex_get_c(f)))
}

fn ex_dec8(x: u8, f: u8) -> (r: (u8, u8))
    ensures
        r == dec8_spec(x, f),
{
    let v = ((x as u16 + 0xFF) % 0x100) as u8;
    (v, ex_flags(v == 0, true, x % 16 == 0, ex_get_c(f)))
}

/// Decimal adjust after an addition or subtraction: corrects A to packed
/// BCD using N, H and C, clears H, and reports the BCD carry.
pub open spec fn daa_spec(a: u8, f: u8) -> (u8, u8) {
    if !get_n(f) {
        let lo_adj: u8 = if get_h(f) || a % 16 > 9 {
            6
        } else {
            0
        };
        let cy = get_c(f) || a > 0x99;
        let adj: u8 = if cy {
            (lo_adj + 0x60) as u8
        } else {
            lo_adj
        };
        let v = ((a + adj) % 0x100) as u8;
        (v, flags_spec(v == 0, false, false, cy))
    } else {
        let adj: u8 = ((if get_h(f) {
            6u8
        } else {
            0u8
        }) + (if get_c(f) {
            0x60u8
        } else {
            0u8
        })) as u8;
        let v = ((a + 0x100 - adj) % 0x100) as u8;
        (v, flags_spec(v == 0, true, false, get_c(f)))
    }
}

fn ex_daa(a: u8, f: u8) -> (r: (u8, u8))
    ensures
        r == daa_spec(a, f),
{
    if !ex_get_n(f) {
        let lo_adj: u8 = if ex_get_h(f) || a % 16 > 9 {
            6
        } else {
            0
        };
        let cy = ex_get_c(f) || a > 0x99;
        let adj: u8 = if cy {
            lo_adj + 0x60
        } else {
            lo_adj
        };
        let v = ((a as u16 + adj as u16) % 0x100) as u8;
        (v, ex_flags(v == 0, false, false, cy))
    } else {
        let adj: u8 = (if ex_get_h(f) {
            6u8
        } else {
            0u8
        }) + (if ex_get_c(f) {
            0x60u8
        } else {
            0u8
        });
        let v = ((a as u16 + 0x100 - adj as u16) % 0x100) as u8;
        (v, ex_flags(v == 0, true, false, ex_get_c(f)))
    }
}

/// The decimal value of a packed-BCD byte.
pub open spec fn bcd_val(x: u8) -> int {
    (x / 16) * 10 + x % 16
}

/// Whether a byte is packed BCD: both nibbles at most nine.
pub open spec fn is_bcd(x: u8) -> bool {
    x % 16 <= 9 && x / 16 <= 9
}

/// ADD followed by DAA is BCD addition: for packed-BCD operands the
/// adjusted accumulator holds the decimal sum modulo 100, the carry flag
/// reports the decimal carry, and the result is packed BCD again.
pub proof fn lemma_daa_bcd_add(a: u8, b: u8)
    requires
        is_bcd(a),
        is_bcd(b),
    ensures
        ({
            let s = add8_spec(a, b, 0);
            let d = daa_spec(s.0, s.1);
            &&& bcd_val(d.0) == (bcd_val(a) + bcd_val(b)) % 100
            &&& get_c(d.1) == (bcd_val(a) + bcd_val(b) >= 100)
            &&& is_bcd(d.0)
        }),
{
    let s = add8_spec(a, b, 0);
    let hc = a % 16 + b % 16 > 15;
    let cy = a + b > 255;
    super::lemma_flags_roundtrip(s.0 == 0, false, hc, cy);
    let s0 = s.0;
    let lo_adj: u8 = if hc || s0 % 16 > 9 {
        6
    } else {
        0
    };
    let cy2 = cy || s0 > 0x99;
    let adj: u8 = if cy2 {
        (lo_adj + 0x60) as u8
    } else {
        lo_adj
    };
    let d = daa_spec(s0, s.1);
    assert(d.0 == ((s0 + adj) % 0x100) as u8);
    super::lemma_flags_roundtrip(d.0 == 0, false, false, cy2);
    assert(get_c(d.1) == cy2);
    assert({
        let s0b: u8 = ((a + b) % 0x100) as u8;
        let hcb: bool = a % 16 + b % 16 > 15;
        let cyb: bool = a + b > 255;
        let lo_adjb: u8 = if hcb || s0b % 16 > 9 {
            6u8
        } else {
            0u8
        };
        let cy2b: bool = cyb || s0b > 0x99;
        let adjb: u8 = if cy2b {
            (lo_adjb + 0x60) as u8
        } else {
            lo_adjb
        };
        let dv: u8 = ((s0b + adjb) % 0x100) as u8;
        &&& (dv / 16) * 10 + dv % 16 == ((a / 16) * 10 + a % 16 + (b / 16) * 10 + b % 16) % 100
        &&& cy2b == ((a / 16) * 10 + a % 16 + (b / 16) * 10 + b % 16 >= 100)
        &&& dv % 16 <= 9
        &&& dv / 16 <= 9
    }) by (bit_vector)
        requires
            a % 16 <= 9 && a / 16 <= 9 && b % 16 <= 9 && b / 16 <= 9,
    ;
}

/// A rotate/shift family member of the prefix table (the accumulator
/// rotates reuse the first four).
#[derive(Clone, Copy, PartialEq, Eq, Structural, Debug)]
pub enum RotK {
    Rlc,
    Rrc,
    Rl,
    Rr,
    Sla,
    Sra,
    Swap,
    Srl,
}

/// The rotated/shifted value and the carry out. `ci` is the carry-in as
/// 0 or 1 (used by the through-carry rotates).
pub open spec fn rot_spec(k: RotK, v: u8, ci: u8) -> (u8, bool) {
    match k {
        RotK::Rlc => (((v % 128) * 2 + v / 128) as u8, v >= 128),
        RotK::Rrc => ((v / 2 + (v % 2) * 128) as u8, v % 2 == 1),
        RotK::Rl => (((v % 128) * 2 + ci) as u8, v >= 128),
        RotK::Rr => ((v / 2 + ci * 128) as u8, v % 2 == 1),
        RotK::Sla => (((v % 128) * 2) as u8, v >= 128),
        RotK::Sra => ((v / 2 + (v / 128) * 128) as u8, v % 2 == 1),
        RotK::Swap => (((v % 16) * 16 + v / 16) as u8, false),
        RotK::Srl => ((v / 2) as u8, v % 2 == 1),
    }
}

fn ex_rot(k: RotK, v: u8, ci: u8) -> (r: (u8, bool))
    requires
        ci <= 1,
    ensures
        r == rot_spec(k, v, ci),
{
    match k {
        RotK::Rlc => ((v % 128) * 2 + v / 128, v >= 128),
        RotK::Rrc => (v / 2 + (v % 2) * 128, v % 2 == 1),
        RotK::Rl => ((v % 128) * 2 + ci, v >= 128),
        RotK::Rr => (v / 2 + ci * 128, v % 2 == 1),
        RotK::Sla => ((v % 128) * 2, v >= 128),
        RotK::Sra => (v / 2 + (v / 128) * 128, v % 2 == 1),
        RotK::Swap => ((v % 16) * 16 + v / 16, false),
        RotK::Srl => (v / 2, v % 2 == 1),
    }
}

/// The bit mask for prefix-table bit numbers 0..=7.
pub open spec fn pow2(n: u8) -> u8 {
    if n == 0 {
        1
    } else if n == 1 {
        2
    } else if n == 2 {
        4
    } else if n == 3 {
        8
    } else if n == 4 {
        16
    } else if n == 5 {
        32
    } else if n == 6 {
        64
    } else {
        128
    }
}

fn ex_pow2(n: u8) -> (r: u8)
    ensures
        r == pow2(n),
{
    if n == 0 {
        1
    } else if n == 1 {
        2
    } else if n == 2 {
        4
    } else if n == 3 {
        8
    } else if n == 4 {
        16
    } else if n == 5 {
        32
    } else if n == 6 {
        64
    } else {
        128
    }
}

/// The 16-bit add used by ADD SP,e and LD HL,SP+e: a signed offset with
/// H and C taken from the unsigned low-byte adds, Z and N clear.
pub open spec fn addsp_spec(sp: u16, e: u8) -> (u16, u8) {
    (wadd16(sp, sext16(e)), flags_spec(false, false, sp % 16 + e % 16 > 15, sp % 256 + e > 255))
}

fn ex_addsp(sp: u16, e: u8) -> (r: (u16, u8))
    ensures
        r == addsp_spec(sp, e),
{
    (
        ex_wadd16(sp, ex_sext16(e)),
        ex_flags(false, false, (sp % 16) as u8 + e % 16 > 15, sp % 256 + e as u16 > 255),
    )
}

/// One operation of the primary or prefix table (or the synthesised
/// interrupt service).
#[derive(Clone, Copy, PartialEq, Eq, Structural, Debug)]
pub enum Op {
    Nop,
    Stop,
    Halt,
    Di,
    Ei,
    /// An illegal opcode: the CPU freezes (enters `Stopped`).
    Freeze,
    /// The 0xCB prefix: fetches the following byte and becomes the
    /// prefix-table instruction it selects.
    Prefix,
    Daa,
    Cpl,
    Scf,
    Ccf,
    Rlca,
    Rla,
    Rrca,
    Rra,
    Ld16 { rr: WideRegister },
    Inc16 { rr: WideRegister },
    Dec16 { rr: WideRegister },
    AddHl { rr: WideRegister },
    Push { rr: WideRegister },
    Pop { rr: WideRegister },
    LdRR { dst: R8, src: R8 },
    LdRHl { dst: R8 },
    LdHlR { src: R8 },
    LdRD8 { dst: R8 },
    LdHlD8,
    Alu { k: AluK, src: R8 },
    AluHl { k: AluK },
    AluD8 { k: AluK },
    IncR { r: R8 },
    DecR { r: R8 },
    IncHl,
    DecHl,
    JrE8 { cond: Cond },
    JpA16 { cond: Cond },
    JpHl,
    CallA16 { cond: Cond },
    Ret { cond: Cond },
    Reti,
    Rst { t: u8 },
    LdIndA { ind: Ind },
    LdAInd { ind: Ind },
    LdhA8A,
    LdhAA8,
    LdhCA,
    LdhAC,
    LdA16A,
    LdAA16,
    LdA16Sp,
    LdSpHl,
    AddSpE8,
    LdHlSpE8,
    CbRot { k: RotK, r: R8 },
    CbRotHl { k: RotK },
    CbBit { n: u8, r: R8 },
    CbBitHl { n: u8 },
    CbRes { n: u8, r: R8 },
    CbResHl { n: u8 },
    CbSet { n: u8, r: R8 },
    CbSetHl { n: u8 },
    IntSrv { src: Interrupt },
}

/// A decoded instruction: its operation, the index of the next
/// micro-operation, and a 16-bit temporary for fetched operands.
#[derive(Clone, Copy, PartialEq, Eq, Structural, Debug)]
pub struct Instruction {
    pub op: Op,
    pub step: u8,
    pub t16: u16,
}

pub open spec fn r8_sel(n: u8) -> R8 {
    if n == 0 {
        R8::B
    } else if n == 1 {
        R8::C
    } else if n == 2 {
        R8::D
    } else if n == 3 {
        R8::E
    } else if n == 4 {
        R8::H
    } else if n == 5 {
        R8::L
    } else {
        R8::A
    }
}

pub open spec fn alu_sel(n: u8) -> AluK {
    if n == 0 {
        AluK::Add
    } else if n == 1 {
        AluK::Adc
    } else if n == 2 {
        AluK::Sub
    } else if n == 3 {
        AluK::Sbc
    } else if n == 4 {
        AluK::And
    } else if n == 5 {
        AluK::Xor
    } else if n == 6 {
        AluK::Or
    } else {
        AluK::Cp
    }
}

pub open spec fn rot_sel(n: u8) -> RotK {
    if n == 0 {
        RotK::Rlc
    } else if n == 1 {
        RotK::Rrc
    } else if n == 2 {
        RotK::Rl
    } else if n == 3 {
        RotK::Rr
    } else if n == 4 {
        RotK::Sla
    } else if n == 5 {
        RotK::Sra
    } else if n == 6 {
        RotK::Swap
    } else {
        RotK::Srl
    }
}

pub open spec fn rr_sel(n: u8) -> WideRegister {
    if n == 0 {
        WideRegister::BC
    } else if n == 1 {
        WideRegister::DE
    } else if n == 2 {
        WideRegister::HL
    } else {
        WideRegister::SP
    }
}

pub open spec fn rr_stack(n: u8) -> WideRegister {
    if n == 0 {
        WideRegister::BC
    } else if n == 1 {
        WideRegister::DE
    } else if n == 2 {
        WideRegister::HL
    } else {
        WideRegister::AF
    }
}

pub open spec fn cond_sel(n: u8) -> Cond {
    if n == 0 {
        Cond::NotZero
    } else if n == 1 {
        Cond::Zero
    } else if n == 2 {
        Cond::NotCarry
    } else {
        Cond::Carry
    }
}

/// The primary decode table, complete over all 256 opcodes.
#[verifier::opaque]
pub open spec fn decode(op: u8) -> Op {
    if op == 0x00 {
        Op::Nop
    } else if op == 0x10 {
        Op::Stop
    } else if op == 0x76 {
        Op::Halt
    } else if op == 0xF3 {
        Op::Di
    } else if op == 0xFB {
        Op::Ei
    } else if op == 0xCB {
        Op::Prefix
    } else if op == 0x07 {
        Op::Rlca
    } else if op == 0x0F {
        Op::Rrca
    } else if op == 0x17 {
        Op::Rla
    } else if op == 0x1F {
        Op::Rra
    } else if op == 0x27 {
        Op::Daa
    } else if op == 0x2F {
        Op::Cpl
    } else if op == 0x37 {
        Op::Scf
    } else if op == 0x3F {
        Op::Ccf
    } else if op == 0x18 {
        Op::JrE8 { cond: Cond::Always }
    } else if op & 0xE7 == 0x20 {
        Op::JrE8 { cond: cond_sel(op / 8 % 4) }
    } else if op == 0xC3 {
        Op::JpA16 { cond: Cond::Always }
    } else if op & 0xE7 == 0xC2 {
        Op::JpA16 { cond: cond_sel(op / 8 % 4) }
    } else if op == 0xE9 {
        Op::JpHl
    } else if op == 0xCD {
        Op::CallA16 { cond: Cond::Always }
    } else if op & 0xE7 == 0xC4 {
        Op::CallA16 { cond: cond_sel(op / 8 % 4) }
    } else if op == 0xC9 {
        Op::Ret { cond: Cond::Always }
    } else if op & 0xE7 == 0xC0 {
        Op::Ret { cond: cond_sel(op / 8 % 4) }
    } else if op == 0xD9 {
        Op::Reti
    } else if op == 0x08 {
        Op::LdA16Sp
    } else if op == 0xF9 {
        Op::LdSpHl
    } else if op == 0xE8 {
        Op::AddSpE8
    } else if op == 0xF8 {
        Op::LdHlSpE8
    } else if op == 0xE0 {
        Op::LdhA8A
    } else if op == 0xF0 {
        Op::LdhAA8
    } else if op == 0xE2 {
        Op::LdhCA
    } else if op == 0xF2 {
        Op::LdhAC
    } else if op == 0xEA {
        Op::LdA16A
    } else if op == 0xFA {
        Op::LdAA16
    } else if op == 0x02 {
        Op::LdIndA { ind: Ind::BC }
    } else if op == 0x12 {
        Op::LdIndA { ind: Ind::DE }
    } else if op == 0x22 {
        Op::LdIndA { ind: Ind::HlInc }
    } else if op == 0x32 {
        Op::LdIndA { ind: Ind::HlDec }
    } else if op == 0x0A {
        Op::LdAInd { ind: Ind::BC }
    } else if op == 0x1A {
        Op::LdAInd { ind: Ind::DE }
    } else if op == 0x2A {
        Op::LdAInd { ind: Ind::HlInc }
    } else if op == 0x3A {
        Op::LdAInd { ind: Ind::HlDec }
    } else if op & 0xCF == 0x01 {
        Op::Ld16 { rr: rr_sel(op / 16) }
    } else if op & 0xCF == 0x03 {
        Op::Inc16 { rr: rr_sel(op / 16) }
    } else if op & 0xCF == 0x0B {
        Op::Dec16 { rr: rr_sel(op / 16) }
    } else if op & 0xCF == 0x09 {
        Op::AddHl { rr: rr_sel(op / 16) }
    } else if op & 0xCF == 0xC5 {
        Op::Push { rr: rr_stack(op / 16 % 4) }
    } else if op & 0xCF == 0xC1 {
        Op::Pop { rr: rr_stack(op / 16 % 4) }
    } else if op & 0xC7 == 0xC7 {
        Op::Rst { t: op & 0x38 }
    } else if op & 0xC7 == 0xC6 {
        Op::AluD8 { k: alu_sel(op / 8 % 8) }
    } else if 0x40 <= op < 0x80 {
        if op / 8 % 8 == 6 {
            Op::LdHlR { src: r8_sel(op % 8) }
        } else if op % 8 == 6 {
            Op::LdRHl { dst: r8_sel(op / 8 % 8) }
        } else {
            Op::LdRR { dst: r8_sel(op / 8 % 8), src: r8_sel(op % 8) }
        }
    } else if 0x80 <= op < 0xC0 {
        if op % 8 == 6 {
            Op::AluHl { k: alu_sel(op / 8 % 8) }
        } else {
            Op::Alu { k: alu_sel(op / 8 % 8), src: r8_sel(op % 8) }
        }
    } else if op & 0xC7 == 0x04 {
        if op / 8 % 8 == 6 {
            Op::IncHl
        } else {
            Op::IncR { r: r8_sel(op / 8 % 8) }
        }
    } else if op & 0xC7 == 0x05 {
        if op / 8 % 8 == 6 {
            Op::DecHl
        } else {
            Op::DecR { r: r8_sel(op / 8 % 8) }
        }
    } else if op & 0xC7 == 0x06 {
        if op / 8 % 8 == 6 {
            Op::LdHlD8
        } else {
            Op::LdRD8 { dst: r8_sel(op / 8 % 8) }
        }
    } else {
        Op::Freeze
    }
}

/// The prefix decode table, complete over all 256 prefix opcodes.
#[verifier::opaque]
pub open spec fn decode_prefix(op: u8) -> Op {
    let k = op / 64;
    let n = op / 8 % 8;
    let r = op % 8;
    if k == 0 {
        if r == 6 {
            Op::CbRotHl { k: rot_sel(n) }
        } else {
            Op::CbRot { k: rot_sel(n), r: r8_sel(r) }
        }
    } else if k == 1 {
        if r == 6 {
            Op::CbBitHl { n }
        } else {
            Op::CbBit { n, r: r8_sel(r) }
        }
    } else if k == 2 {
        if r == 6 {
            Op::CbResHl { n }
        } else {
            Op::CbRes { n, r: r8_sel(r) }
        }
    } else {
        if r == 6 {
            Op::CbSetHl { n }
        } else {
            Op::CbSet { n, r: r8_sel(r) }
        }
    }
}

impl Instruction {
    pub open spec fn of(op: Op) -> Instruction {
        Instruction { op, step: 0, t16: 0 }
    }

    /// Decodes a primary-table opcode into its first micro-operation.
    pub fn new(opcode: u8) -> (r: Instruction)
        ensures
            r == Instruction::of(decode(opcode)),
    {
        Instruction { op: ex_decode(opcode), step: 0, t16: 0 }
    }

    /// Decodes a prefix-table opcode (the byte after 0xCB).
    pub fn prefix(opcode: u8) -> (r: Instruction)
        ensures
            r == Instruction::of(decode_prefix(opcode)),
    {
        Instruction { op: ex_decode_prefix(opcode), step: 0, t16: 0 }
    }

    /// The synthesised interrupt-service instruction for a source.
    pub fn isr(src: Interrupt) -> (r: Instruction)
        ensures
            r == Instruction::of(Op::IntSrv { src }),
    {
        Instruction { op: Op::IntSrv { src }, step: 0, t16: 0 }
    }
}

fn ex_decode(op: u8) -> (r: Op)
    ensures
        r == decode(op),
{
    proof {
        reveal(decode);
    }
    if op == 0x00 {
        Op::Nop
    } else if op == 0x10 {
        Op::Stop
    } else if op == 0x76 {
        Op::Halt
    } else if op == 0xF3 {
        Op::Di
    } else if op == 0xFB {
        Op::Ei
    } else if op == 0xCB {
        Op::Prefix
    } else if op == 0x07 {
        Op::Rlca
    } else if op == 0x0F {
        Op::Rrca
    } else if op == 0x17 {
        Op::Rla
    } else if op == 0x1F {
        Op::Rra
    } else if op == 0x27 {
        Op::Daa
    } else if op == 0x2F {
        Op::Cpl
    } else if op == 0x37 {
        Op::Scf
    } else if op == 0x3F {
        Op::Ccf
    } else if op == 0x18 {
        Op::JrE8 { cond: Cond::Always }
    } else if op & 0xE7 == 0x20 {
        Op::JrE8 { cond: ex_cond_sel(op / 8 % 4) }
    } else if op == 0xC3 {
        Op::JpA16 { cond: Cond::Always }
    } else if op & 0xE7 == 0xC2 {
        Op::JpA16 { cond: ex_cond_sel(op / 8 % 4) }
    } else if op == 0xE9 {
        Op::JpHl
    } else if op == 0xCD {
        Op::CallA16 { cond: Cond::Always }
    } else if op & 0xE7 == 0xC4 {
        Op::CallA16 { cond: ex_cond_sel(op / 8 % 4) }
    } else if op == 0xC9 {
        Op::Ret { cond: Cond::Always }
    } else if op & 0xE7 == 0xC0 {
        Op::Ret { cond: ex_cond_sel(op / 8 % 4) }
    } else if op == 0xD9 {
        Op::Reti
    } else if op == 0x08 {
        Op::LdA16Sp
    } else if op == 0xF9 {
        Op::LdSpHl
    } else if op == 0xE8 {
        Op::AddSpE8
    } else if op == 0xF8 {
        Op::LdHlSpE8
    } else if op == 0xE0 {
        Op::LdhA8A
    } else if op == 0xF0 {
        Op::LdhAA8
    } else if op == 0xE2 {
        Op::LdhCA
    } else if op == 0xF2 {
        Op::LdhAC
    } else if op == 0xEA {
        Op::LdA16A
    } else if op == 0xFA {
        Op::LdAA16
    } else if op == 0x02 {
        Op::LdIndA { ind: Ind::BC }
    } else if op == 0x12 {
        Op::LdIndA { ind: Ind::DE }
    } else if op == 0x22 {
        Op::LdIndA { ind: Ind::HlInc }
    } else if op == 0x32 {
        Op::LdIndA { ind: Ind::HlDec }
    } else if op == 0x0A {
        Op::LdAInd { ind: Ind::BC }
    } else if op == 0x1A {
        Op::LdAInd { ind: Ind::DE }
    } else if op == 0x2A {
        Op::LdAInd { ind: Ind::HlInc }
    } else if op == 0x3A {
        Op::LdAInd { ind: Ind::HlDec }
    } else if op & 0xCF == 0x01 {
        Op::Ld16 { rr: ex_rr_sel(op / 16) }
    } else if op & 0xCF == 0x03 {
        Op::Inc16 { rr: ex_rr_sel(op / 16) }
    } else if op & 0xCF == 0x0B {
        Op::Dec16 { rr: ex_rr_sel(op / 16) }
    } else if op & 0xCF == 0x09 {
        Op::AddHl { rr: ex_rr_sel(op / 16) }
    } else if op & 0xCF == 0xC5 {
        Op::Push { rr: ex_rr_stack(op / 16 % 4) }
    } else if op & 0xCF == 0xC1 {
        Op::Pop { rr: ex_rr_stack(op / 16 % 4) }
    } else if op & 0xC7 == 0xC7 {
        Op::Rst { t: op & 0x38 }
    } else if op & 0xC7 == 0xC6 {
        Op::AluD8 { k: ex_alu_sel(op / 8 % 8) }
    } else if 0x40 <= op && op < 0x80 {
        if op / 8 % 8 == 6 {
            Op::LdHlR { src: ex_r8_sel(op % 8) }
        } else if op % 8 == 6 {
            Op::LdRHl { dst: ex_r8_sel(op / 8 % 8) }
        } else {
            Op::LdRR { dst: ex_r8_sel(op / 8 % 8), src: ex_r8_sel(op % 8) }
        }
    } else if 0x80 <= op && op < 0xC0 {
        if op % 8 == 6 {
            Op::AluHl { k: ex_alu_sel(op / 8 % 8) }
        } else {
            Op::Alu { k: ex_alu_sel(op / 8 % 8), src: ex_r8_sel(op % 8) }
        }
    } else if op & 0xC7 == 0x04 {
        if op / 8 % 8 == 6 {
            Op::IncHl
        } else {
            Op::IncR { r: ex_r8_sel(op / 8 % 8) }
        }
    } else if op & 0xC7 == 0x05 {
        if op / 8 % 8 == 6 {
            Op::DecHl
        } else {
            Op::DecR { r: ex_r8_sel(op / 8 % 8) }
        }
    } else if op & 0xC7 == 0x06 {
        if op / 8 % 8 == 6 {
            Op::LdHlD8
        } else {
            Op::LdRD8 { dst: ex_r8_sel(op / 8 % 8) }
        }
    } else {
        Op::Freeze
    }
}

fn ex_decode_prefix(op: u8) -> (r: Op)
    ensures
        r == decode_prefix(op),
{
    proof {
        reveal(decode_prefix);
    }
    let k = op / 64;
    let n = op / 8 % 8;
    let r = op % 8;
    if k == 0 {
        if r == 6 {
            Op::CbRotHl { k: ex_rot_sel(n) }
        } else {
            Op::CbRot { k: ex_rot_sel(n), r: ex_r8_sel(r) }
        }
    } else if k == 1 {
        if r == 6 {
            Op::CbBitHl { n }
        } else {
            Op::CbBit { n, r: ex_r8_sel(r) }
        }
    } else if k == 2 {
        if r == 6 {
            Op::CbResHl { n }
        } else {
            Op::CbRes { n, r: ex_r8_sel(r) }
        }
    } else {
        if r == 6 {
            Op::CbSetHl { n }
        } else {
            Op::CbSet { n, r: ex_r8_sel(r) }
        }
    }
}

fn ex_r8_sel(n: u8) -> (r: R8)
    ensures
        r == r8_sel(n),
{
    if n == 0 {
        R8::B
    } else if n == 1 {
        R8::C
    } else if n == 2 {
        R8::D
    } else if n == 3 {
        R8::E
    } else if n == 4 {
        R8::H
    } else if n == 5 {
        R8::L
    } else {
        R8::A
    }
}

fn ex_alu_sel(n: u8) -> (r: AluK)
    ensures
        r == alu_sel(n),
{
    if n == 0 {
        AluK::Add
    } else if n == 1 {
        AluK::Adc
    } else if n == 2 {
        AluK::Sub
    } else if n == 3 {
        AluK::Sbc
    } else if n == 4 {
        AluK::And
    } else if n == 5 {
        AluK::Xor
    } else if n == 6 {
        AluK::Or
    } else {
        AluK::Cp
    }
}

fn ex_rot_sel(n: u8) -> (r: RotK)
    ensures
        r == rot_sel(n),
{
    if n == 0 {
        RotK::Rlc
    } else if n == 1 {
        RotK::Rrc
    } else if n == 2 {
        RotK::Rl
    } else if n == 3 {
        RotK::Rr
    } else if n == 4 {
        RotK::Sla
    } else if n == 5 {
        RotK::Sra
    } else if n == 6 {
        RotK::Swap
    } else {
        RotK::Srl
    }
}

fn ex_rr_sel(n: u8) -> (r: WideRegister)
    ensures
        r == rr_sel(n),
{
    if n == 0 {
        WideRegister::BC
    } else if n == 1 {
        WideRegister::DE
    } else if n == 2 {
        WideRegister::HL
    } else {
        WideRegister::SP
    }
}

fn ex_rr_stack(n: u8) -> (r: WideRegister)
    ensures
        r == rr_stack(n),
{
    if n == 0 {
        WideRegister::BC
    } else if n == 1 {
        WideRegister::DE
    } else if n == 2 {
        WideRegister::HL
    } else {
        WideRegister::AF
    }
}

fn ex_cond_sel(n: u8) -> (r: Cond)
    ensures
        r == cond_sel(n),
{
    if n == 0 {
        Cond::NotZero
    } else if n == 1 {
        Cond::Zero
    } else if n == 2 {
        Cond::NotCarry
    } else {
        Cond::Carry
    }
}

// ---------------------------------------------------------------------
// The micro-operation engine.
// ---------------------------------------------------------------------

/// The instruction continued at its next micro-operation.
pub open spec fn cont(inst: Instruction) -> Option<Instruction> {
    Some(Instruction { op: inst.op, step: super::wadd8(inst.step, 1), t16: inst.t16 })
}

/// The instruction continued, with the temporary set.
pub open spec fn cont_t(inst: Instruction, t: u16) -> Option<Instruction> {
    Some(Instruction { op: inst.op, step: super::wadd8(inst.step, 1), t16: t })
}

/// The instruction's temporary as a byte.
pub open spec fn t8(inst: Instruction) -> u8 {
    (inst.t16 % 0x100) as u8
}

/// The micro-operation semantics of one group of operations.
#[verifier::opaque]
pub open spec fn step_ctrl(inst: Instruction, cpu: Cpu, mmu: MmuView) -> (
    Cpu,
    MmuView,
    Option<Instruction>,
) {
    let s = inst.step;
    let regs = cpu.regs;
    let f = regs.f;
    let hl = make16(regs.h, regs.l);
    match inst.op {
        Op::Nop => (cpu, mmu, None),
        Op::Stop => (Cpu { status: Status::Stopped, ..cpu }, mmu, None),
        Op::Freeze => (Cpu { status: Status::Stopped, ..cpu }, mmu, None),
        Op::Halt => {
            if cpu.ime == Ime::Enabled {
                (Cpu { status: Status::Halted, ..cpu }, mmu, None)
            } else if mmu.pending_spec() {
                (Cpu { halt_bug: true, ..cpu }, mmu, None)
            } else {
                (Cpu { status: Status::Halted, ..cpu }, mmu, None)
            }
        },
        Op::Di => (Cpu { ime: Ime::Disabled, ..cpu }, mmu, None),
        Op::Ei => {
            if cpu.ime == Ime::Enabled {
                (cpu, mmu, None)
            } else {
                (Cpu { ime: Ime::WillEnable, ..cpu }, mmu, None)
            }
        },
        Op::Prefix => {
            let fr = spec_fetch8(cpu, mmu);
            (fr.0, mmu, Some(Instruction::of(decode_prefix(fr.1))))
        },
        _ => (cpu, mmu, None),
    }
}

/// The micro-operation semantics of one group of operations.
#[verifier::opaque]
pub open spec fn step_acc(inst: Instruction, cpu: Cpu, mmu: MmuView) -> (
    Cpu,
    MmuView,
    Option<Instruction>,
) {
    let s = inst.step;
    let regs = cpu.regs;
    let f = regs.f;
    let hl = make16(regs.h, regs.l);
    match inst.op {
        Op::Daa => {
            let r = daa_spec(regs.a, f);
            (Cpu { regs: Registers { a: r.0, f: r.1, ..regs }, ..cpu }, mmu, None)
        },
        Op::Cpl => {
            let v = (0xFF - regs.a) as u8;
            (
                Cpu {
                    regs: Registers { a: v, f: flags_spec(get_z(f), true, true, get_c(f)), ..regs },
                    ..cpu
                },
                mmu,
                None,
            )
        },
        Op::Scf => (
            Cpu { regs: Registers { f: flags_spec(get_z(f), false, false, true), ..regs }, ..cpu },
            mmu,
            None,
        ),
        Op::Ccf => (
            Cpu {
                regs: Registers { f: flags_spec(get_z(f), false, false, !get_c(f)), ..regs },
                ..cpu
            },
            mmu,
            None,
        ),
        Op::Rlca => {
            let r = rot_spec(RotK::Rlc, regs.a, carry_in(f));
            (
                Cpu {
                    regs: Registers { a: r.0, f: flags_spec(false, false, false, r.1), ..regs },
                    ..cpu
                },
                mmu,
                None,
            )
        },
        Op::Rla => {
            let r = rot_spec(RotK::Rl, regs.a, carry_in(f));
            (
                Cpu {
                    regs: Registers { a: r.0, f: flags_spec(false, false, false, r.1), ..regs },
                    ..cpu
                },
                mmu,
                None,
            )
        },
        Op::Rrca => {
            let r = rot_spec(RotK::Rrc, regs.a, carry_in(f));
            (
                Cpu {
                    regs: Registers { a: r.0, f: flags_spec(false, false, false, r.1), ..regs },
                    ..cpu
                },
                mmu,
                None,
            )
        },
        Op::Rra => {
            let r = rot_spec(RotK::Rr, regs.a, carry_in(f));
            (
                Cpu {
                    regs: Registers { a: r.0, f: flags_spec(false, false, false, r.1), ..regs },
                    ..cpu
                },
                mmu,
                None,
            )
        },
        _ => (cpu, mmu, None),
    }
}

/// The micro-operation semantics of one group of operations.
#[verifier::opaque]
pub open spec fn step_w16a(inst: Instruction, cpu: Cpu, mmu: MmuView) -> (
    Cpu,
    MmuView,
    Option<Instruction>,
) {
    let s = inst.step;
    let regs = cpu.regs;
    let f = regs.f;
    let hl = make16(regs.h, regs.l);
    match inst.op {
        Op::Ld16 { rr } => {
            if s == 0 {
                (cpu, mmu, cont(inst))
            } else if s == 1 {
                let fr = spec_fetch8(cpu, mmu);
                (fr.0, mmu, cont_t(inst, fr.1 as u16))
            } else {
                let fr = spec_fetch8(cpu, mmu);
                (
                    Cpu { regs: rr.set_spec(fr.0.regs, make16(fr.1, t8(inst))), ..cpu },
                    mmu,
                    None,
                )
            }
        },
        Op::Inc16 { rr } => {
            if s == 0 {
                (cpu, mmu, cont(inst))
            } else {
                (Cpu { regs: rr.set_spec(regs, wadd16(rr.get_spec(regs), 1)), ..cpu }, mmu, None)
            }
        },
        Op::Dec16 { rr } => {
            if s == 0 {
                (cpu, mmu, cont(inst))
            } else {
                (Cpu { regs: rr.set_spec(regs, wsub16(rr.get_spec(regs), 1)), ..cpu }, mmu, None)
            }
        },
        Op::AddHl { rr } => {
            if s == 0 {
                (cpu, mmu, cont(inst))
            } else {
                let v = rr.get_spec(regs);
                let r = wadd16(hl, v);
                let f2 = flags_spec(
                    get_z(f),
                    false,
                    hl % 0x1000 + v % 0x1000 > 0xFFF,
                    hl + v > 0xFFFF,
                );
                (
                    Cpu {
                        regs: WideRegister::HL.set_spec(Registers { f: f2, ..regs }, r),
                        ..cpu
                    },
                    mmu,
                    None,
                )
            }
        },
        _ => (cpu, mmu, None),
    }
}

/// The micro-operation semantics of one group of operations.
#[verifier::opaque]
pub open spec fn step_w16b(inst: Instruction, cpu: Cpu, mmu: MmuView) -> (
    Cpu,
    MmuView,
    Option<Instruction>,
) {
    let s = inst.step;
    let regs = cpu.regs;
    let f = regs.f;
    let hl = make16(regs.h, regs.l);
    match inst.op {
        Op::Push { rr } => {
            if s < 2 {
                (cpu, mmu, cont(inst))
            } else if s == 2 {
                let w = rr.get_spec(regs);
                (
                    Cpu { regs: Registers { sp: wsub16(regs.sp, 1), ..regs }, ..cpu },
                    mmu.write_spec(wsub16(regs.sp, 1), hi8(w)),
                    cont_t(inst, w),
                )
            } else {
                (
                    Cpu { regs: Registers { sp: wsub16(regs.sp, 1), ..regs }, ..cpu },
                    mmu.write_spec(wsub16(regs.sp, 1), lo8(inst.t16)),
                    None,
                )
            }
        },
        Op::Pop { rr } => {
            if s == 0 {
                (cpu, mmu, cont(inst))
            } else if s == 1 {
                (
                    Cpu { regs: Registers { sp: wadd16(regs.sp, 1), ..regs }, ..cpu },
                    mmu,
                    cont_t(inst, mmu.read_spec(regs.sp) as u16),
                )
            } else {
                (
                    Cpu {
                        regs: rr.set_spec(
                            Registers { sp: wadd16(regs.sp, 1), ..regs },
                            make16(mmu.read_spec(regs.sp), t8(inst)),
                        ),
                        ..cpu
                    },
                    mmu,
                    None,
                )
            }
        },
        Op::LdSpHl => {
            if s == 0 {
                (cpu, mmu, cont(inst))
            } else {
                (Cpu { regs: Registers { sp: hl, ..regs }, ..cpu }, mmu, None)
            }
        },
        Op::AddSpE8 => {
            if s == 0 {
                (cpu, mmu, cont(inst))
            } else if s == 1 {
                let fr = spec_fetch8(cpu, mmu);
                (fr.0, mmu, cont_t(inst, fr.1 as u16))
            } else if s == 2 {
                (cpu, mmu, cont(inst))
            } else {
                let r = addsp_spec(regs.sp, t8(inst));
                (Cpu { regs: Registers { sp: r.0, f: r.1, ..regs }, ..cpu }, mmu, None)
            }
        },
        Op::LdHlSpE8 => {
            if s == 0 {
                (cpu, mmu, cont(inst))
            } else if s == 1 {
                let fr = spec_fetch8(cpu, mmu);
                (fr.0, mmu, cont_t(inst, fr.1 as u16))
            } else {
                let r = addsp_spec(regs.sp, t8(inst));
                (
                    Cpu {
                        regs: WideRegister::HL.set_spec(Registers { f: r.1, ..regs }, r.0),
                        ..cpu
                    },
                    mmu,
                    None,
                )
            }
        },
        _ => (cpu, mmu, None),
    }
}

/// The micro-operation semantics of one group of operations.
#[verifier::opaque]
pub open spec fn step_ld8(inst: Instruction, cpu: Cpu, mmu: MmuView) -> (
    Cpu,
    MmuView,
    Option<Instruction>,
) {
    let s = inst.step;
    let regs = cpu.regs;
    let f = regs.f;
    let hl = make16(regs.h, regs.l);
    match inst.op {
        Op::LdRR { dst, src } => (
            Cpu { regs: r8_put(dst, regs, r8_get(src, regs)), ..cpu },
            mmu,
            None,
        ),
        Op::LdRHl { dst } => {
            if s == 0 {
                (cpu, mmu, cont(inst))
            } else {
                (Cpu { regs: r8_put(dst, regs, mmu.read_spec(hl)), ..cpu }, mmu, None)
            }
        },
        Op::LdHlR { src } => {
            if s == 0 {
                (cpu, mmu, cont(inst))
            } else {
                (cpu, mmu.write_spec(hl, r8_get(src, regs)), None)
            }
        },
        Op::LdRD8 { dst } => {
            if s == 0 {
                (cpu, mmu, cont(inst))
            } else {
                let fr = spec_fetch8(cpu, mmu);
                (Cpu { regs: r8_put(dst, fr.0.regs, fr.1), ..cpu }, mmu, None)
            }
        },
        Op::LdHlD8 => {
            if s == 0 {
                (cpu, mmu, cont(inst))
            } else if s == 1 {
                let fr = spec_fetch8(cpu, mmu);
                (fr.0, mmu, cont_t(inst, fr.1 as u16))
            } else {
                (cpu, mmu.write_spec(hl, t8(inst)), None)
            }
        },
        Op::LdIndA { ind } => {
            if s == 0 {
                (cpu, mmu, cont(inst))
            } else {
                (
                    Cpu { regs: ind_after(ind, regs), ..cpu },
                    mmu.write_spec(ind_addr(ind, regs), regs.a),
                    None,
                )
            }
        },
        Op::LdAInd { ind } => {
            if s == 0 {
                (cpu, mmu, cont(inst))
            } else {
                (
                    Cpu {
                        regs: Registers { a: mmu.read_spec(ind_addr(ind, regs)), ..ind_after(
                            ind,
                            regs,
                        ) },
                        ..cpu
                    },
                    mmu,
                    None,
                )
            }
        },
        _ => (cpu, mmu, None),
    }
}

/// The micro-operation semantics of one group of operations.
#[verifier::opaque]
pub open spec fn step_ldh(inst: Instruction, cpu: Cpu, mmu: MmuView) -> (
    Cpu,
    MmuView,
    Option<Instruction>,
) {
    let s = inst.step;
    let regs = cpu.regs;
    let f = regs.f;
    let hl = make16(regs.h, regs.l);
    match inst.op {
        Op::LdhA8A => {
            if s == 0 {
                (cpu, mmu, cont(inst))
            } else if s == 1 {
                let fr = spec_fetch8(cpu, mmu);
                (fr.0, mmu, cont_t(inst, fr.1 as u16))
            } else {
                (cpu, mmu.write_spec((0xFF00 + t8(inst)) as u16, regs.a), None)
            }
        },
        Op::LdhAA8 => {
            if s == 0 {
                (cpu, mmu, cont(inst))
            } else if s == 1 {
                let fr = spec_fetch8(cpu, mmu);
                (fr.0, mmu, cont_t(inst, fr.1 as u16))
            } else {
                (
                    Cpu {
                        regs: Registers { a: mmu.read_spec((0xFF00 + t8(inst)) as u16), ..regs },
                        ..cpu
                    },
                    mmu,
                    None,
                )
            }
        },
        Op::LdhCA => {
            if s == 0 {
                (cpu, mmu, cont(inst))
            } else {
                (cpu, mmu.write_spec((0xFF00 + regs.c) as u16, regs.a), None)
            }
        },
        Op::LdhAC => {
            if s == 0 {
                (cpu, mmu, cont(inst))
            } else {
                (
                    Cpu {
                        regs: Registers { a: mmu.read_spec((0xFF00 + regs.c) as u16), ..regs },
                        ..cpu
                    },
                    mmu,
                    None,
                )
            }
        },
        Op::LdA16A => {
            if s == 0 {
                (cpu, mmu, cont(inst))
            } else if s == 1 {
                let fr = spec_fetch8(cpu, mmu);
                (fr.0, mmu, cont_t(inst, fr.1 as u16))
            } else if s == 2 {
                let fr = spec_fetch8(cpu, mmu);
                (fr.0, mmu, cont_t(inst, make16(fr.1, t8(inst))))
            } else {
                (cpu, mmu.write_spec(inst.t16, regs.a), None)
            }
        },
        Op::LdAA16 => {
            if s == 0 {
                (cpu, mmu, cont(inst))
            } else if s == 1 {
                let fr = spec_fetch8(cpu, mmu);
                (fr.0, mmu, cont_t(inst, fr.1 as u16))
            } else if s == 2 {
                let fr = spec_fetch8(cpu, mmu);
                (fr.0, mmu, cont_t(inst, make16(fr.1, t8(inst))))
            } else {
                (
                    Cpu { regs: Registers { a: mmu.read_spec(inst.t16), ..regs }, ..cpu },
                    mmu,
                    None,
                )
            }
        },
        Op::LdA16Sp => {
            if s == 0 {
                (cpu, mmu, cont(inst))
            } else if s == 1 {
                let fr = spec_fetch8(cpu, mmu);
                (fr.0, mmu, cont_t(inst, fr.1 as u16))
            } else if s == 2 {
                let fr = spec_fetch8(cpu, mmu);
                (fr.0, mmu, cont_t(inst, make16(fr.1, t8(inst))))
            } else if s == 3 {
                (cpu, mmu.write_spec(inst.t16, lo8(regs.sp)), cont(inst))
            } else {
                (cpu, mmu.write_spec(wadd16(inst.t16, 1), hi8(regs.sp)), None)
            }
        },
        _ => (cpu, mmu, None),
    }
}

/// The micro-operation semantics of one group of operations.
#[verifier::opaque]
pub open spec fn step_alu8a(inst: Instruction, cpu: Cpu, mmu: MmuView) -> (
    Cpu,
    MmuView,
    Option<Instruction>,
) {
    let s = inst.step;
    let regs = cpu.regs;
    let f = regs.f;
    let hl = make16(regs.h, regs.l);
    match inst.op {
        Op::Alu { k, src } => {
            let r = alu_spec(k, regs.a, r8_get(src, regs), f);
            (Cpu { regs: Registers { a: r.0, f: r.1, ..regs }, ..cpu }, mmu, None)
        },
        Op::AluHl { k } => {
            if s == 0 {
                (cpu, mmu, cont(inst))
            } else {
                let r = alu_spec(k, regs.a, mmu.read_spec(hl), f);
                (Cpu { regs: Registers { a: r.0, f: r.1, ..regs }, ..cpu }, mmu, None)
            }
        },
        Op::AluD8 { k } => {
            if s == 0 {
                (cpu, mmu, cont(inst))
            } else {
                let fr = spec_fetch8(cpu, mmu);
                let r = alu_spec(k, regs.a, fr.1, f);
                (Cpu { regs: Registers { a: r.0, f: r.1, ..fr.0.regs }, ..cpu }, mmu, None)
            }
        },
        _ => (cpu, mmu, None),
    }
}

/// The micro-operation semantics of one group of operations.
#[verifier::opaque]
pub open spec fn step_alu8b(inst: Instruction, cpu: Cpu, mmu: MmuView) -> (
    Cpu,
    MmuView,
    Option<Instruction>,
) {
    let s = inst.step;
    let regs = cpu.regs;
    let f = regs.f;
    let hl = make16(regs.h, regs.l);
    match inst.op {
        Op::IncR { r } => {
            let ir = inc8_spec(r8_get(r, regs), f);
            (
                Cpu { regs: r8_put(r, Registers { f: ir.1, ..regs }, ir.0), ..cpu },
                mmu,
                None,
            )
        },
        Op::DecR { r } => {
            let dr = dec8_spec(r8_get(r, regs), f);
            (
                Cpu { regs: r8_put(r, Registers { f: dr.1, ..regs }, dr.0), ..cpu },
                mmu,
                None,
            )
        },
        Op::IncHl => {
            if s == 0 {
                (cpu, mmu, cont(inst))
            } else if s == 1 {
                (cpu, mmu, cont_t(inst, mmu.read_spec(hl) as u16))
            } else {
                let ir = inc8_spec(t8(inst), f);
                (
                    Cpu { regs: Registers { f: ir.1, ..regs }, ..cpu },
                    mmu.write_spec(hl, ir.0),
                    None,
                )
            }
        },
        Op::DecHl => {
            if s == 0 {
                (cpu, mmu, cont(inst))
            } else if s == 1 {
                (cpu, mmu, cont_t(inst, mmu.read_spec(hl) as u16))
            } else {
                let dr = dec8_spec(t8(inst), f);
                (
                    Cpu { regs: Registers { f: dr.1, ..regs }, ..cpu },
                    mmu.write_spec(hl, dr.0),
                    None,
                )
            }
        },
        _ => (cpu, mmu, None),
    }
}

/// The micro-operation semantics of one group of operations.
#[verifier::opaque]
pub open spec fn step_jump(inst: Instruction, cpu: Cpu, mmu: MmuView) -> (
    Cpu,
    MmuView,
    Option<Instruction>,
) {
    let s = inst.step;
    let regs = cpu.regs;
    let f = regs.f;
    let hl = make16(regs.h, regs.l);
    match inst.op {
        Op::JrE8 { cond } => {
            if s == 0 {
                (cpu, mmu, cont(inst))
            } else if s == 1 {
                let fr = spec_fetch8(cpu, mmu);
                if cond_spec(cond, f) {
                    (fr.0, mmu, cont_t(inst, fr.1 as u16))
                } else {
                    (fr.0, mmu, None)
                }
            } else {
                (
                    Cpu {
                        regs: Registers { pc: wadd16(regs.pc, sext16(t8(inst))), ..regs },
                        ..cpu
                    },
                    mmu,
                    None,
                )
            }
        },
        Op::JpA16 { cond } => {
            if s == 0 {
                (cpu, mmu, cont(inst))
            } else if s == 1 {
                let fr = spec_fetch8(cpu, mmu);
                (fr.0, mmu, cont_t(inst, fr.1 as u16))
            } else if s == 2 {
                let fr = spec_fetch8(cpu, mmu);
                if cond_spec(cond, f) {
                    (fr.0, mmu, cont_t(inst, make16(fr.1, t8(inst))))
                } else {
                    (fr.0, mmu, None)
                }
            } else {
                (Cpu { regs: Registers { pc: inst.t16, ..regs }, ..cpu }, mmu, None)
            }
        },
        Op::JpHl => (Cpu { regs: Registers { pc: hl, ..regs }, ..cpu }, mmu, None),
        Op::CallA16 { cond } => {
            if s == 0 {
                (cpu, mmu, cont(inst))
            } else if s == 1 {
                let fr = spec_fetch8(cpu, mmu);
                (fr.0, mmu, cont_t(inst, fr.1 as u16))
            } else if s == 2 {
                let fr = spec_fetch8(cpu, mmu);
                if cond_spec(cond, f) {
                    (fr.0, mmu, cont_t(inst, make16(fr.1, t8(inst))))
                } else {
                    (fr.0, mmu, None)
                }
            } else if s == 3 {
                (cpu, mmu, cont(inst))
            } else if s == 4 {
                (
                    Cpu { regs: Registers { sp: wsub16(regs.sp, 1), ..regs }, ..cpu },
                    mmu.write_spec(wsub16(regs.sp, 1), hi8(regs.pc)),
                    cont(inst),
                )
            } else {
                (
                    Cpu {
                        regs: Registers { sp: wsub16(regs.sp, 1), pc: inst.t16, ..regs },
                        ..cpu
                    },
                    mmu.write_spec(wsub16(regs.sp, 1), lo8(regs.pc)),
                    None,
                )
            }
        },
        Op::Ret { cond } => {
            if cond == Cond::Always {
                if s == 0 {
                    (cpu, mmu, cont(inst))
                } else if s == 1 {
                    (
                        Cpu { regs: Registers { sp: wadd16(regs.sp, 1), ..regs }, ..cpu },
                        mmu,
                        cont_t(inst, mmu.read_spec(regs.sp) as u16),
                    )
                } else if s == 2 {
                    (
                        Cpu { regs: Registers { sp: wadd16(regs.sp, 1), ..regs }, ..cpu },
                        mmu,
                        cont_t(inst, make16(mmu.read_spec(regs.sp), t8(inst))),
                    )
                } else {
                    (Cpu { regs: Registers { pc: inst.t16, ..regs }, ..cpu }, mmu, None)
                }
            } else {
                if s == 0 {
                    (cpu, mmu, cont(inst))
                } else if s == 1 {
                    if cond_spec(cond, f) {
                        (cpu, mmu, cont(inst))
                    } else {
                        (cpu, mmu, None)
                    }
                } else if s == 2 {
                    (
                        Cpu { regs: Registers { sp: wadd16(regs.sp, 1), ..regs }, ..cpu },
                        mmu,
                        cont_t(inst, mmu.read_spec(regs.sp) as u16),
                    )
                } else if s == 3 {
                    (
                        Cpu { regs: Registers { sp: wadd16(regs.sp, 1), ..regs }, ..cpu },
                        mmu,
                        cont_t(inst, make16(mmu.read_spec(regs.sp), t8(inst))),
                    )
                } else {
                    (Cpu { regs: Registers { pc: inst.t16, ..regs }, ..cpu }, mmu, None)
                }
            }
        },
        Op::Reti => {
            if s == 0 {
                (cpu, mmu, cont(inst))
            } else if s == 1 {
                (
                    Cpu { regs: Registers { sp: wadd16(regs.sp, 1), ..regs }, ..cpu },
                    mmu,
                    cont_t(inst, mmu.read_spec(regs.sp) as u16),
                )
            } else if s == 2 {
                (
                    Cpu { regs: Registers { sp: wadd16(regs.sp, 1), ..regs }, ime: Ime::Enabled, ..cpu },
                    mmu,
                    cont_t(inst, make16(mmu.read_spec(regs.sp), t8(inst))),
                )
            } else {
                (Cpu { regs: Registers { pc: inst.t16, ..regs }, ..cpu }, mmu, None)
            }
        },
        Op::Rst { t } => {
            if s < 2 {
                (cpu, mmu, cont(inst))
            } else if s == 2 {
                (
                    Cpu { regs: Registers { sp: wsub16(regs.sp, 1), ..regs }, ..cpu },
                    mmu.write_spec(wsub16(regs.sp, 1), hi8(regs.pc)),
                    cont(inst),
                )
            } else {
                (
                    Cpu {
                        regs: Registers { sp: wsub16(regs.sp, 1), pc: t as u16, ..regs },
                        ..cpu
                    },
                    mmu.write_spec(wsub16(regs.sp, 1), lo8(regs.pc)),
                    None,
                )
            }
        },
        Op::IntSrv { src } => {
            if s == 0 {
                (Cpu { ime: Ime::Disabled, ..cpu }, mmu, cont(inst))
            } else if s == 1 {
                (cpu, mmu, cont(inst))
            } else if s == 2 {
                (
                    Cpu { regs: Registers { sp: wsub16(regs.sp, 1), ..regs }, ..cpu },
                    mmu.write_spec(wsub16(regs.sp, 1), hi8(regs.pc)),
                    cont(inst),
                )
            } else if s == 3 {
                (
                    Cpu { regs: Registers { sp: wsub16(regs.sp, 1), ..regs }, ..cpu },
                    mmu.write_spec(wsub16(regs.sp, 1), lo8(regs.pc)),
                    cont(inst),
                )
            } else {
                (Cpu { regs: Registers { pc: src.vector_spec(), ..regs }, ..cpu }, mmu, None)
            }
        },
        _ => (cpu, mmu, None),
    }
}

/// The micro-operation semantics of one group of operations.
#[verifier::opaque]
pub open spec fn step_cb(inst: Instruction, cpu: Cpu, mmu: MmuView) -> (
    Cpu,
    MmuView,
    Option<Instruction>,
) {
    let s = inst.step;
    let regs = cpu.regs;
    let f = regs.f;
    let hl = make16(regs.h, regs.l);
    match inst.op {
        Op::CbRot { k, r } => {
            let rr = rot_spec(k, r8_get(r, regs), carry_in(f));
            let f2 = flags_spec(rr.0 == 0, false, false, rr.1);
            (
                Cpu { regs: r8_put(r, Registers { f: f2, ..regs }, rr.0), ..cpu },
                mmu,
                None,
            )
        },
        Op::CbRotHl { k } => {
            if s == 0 {
                (cpu, mmu, cont(inst))
            } else if s == 1 {
                (cpu, mmu, cont_t(inst, mmu.read_spec(hl) as u16))
            } else {
                let rr = rot_spec(k, t8(inst), carry_in(f));
                let f2 = flags_spec(rr.0 == 0, false, false, rr.1);
                (
                    Cpu { regs: Registers { f: f2, ..regs }, ..cpu },
                    mmu.write_spec(hl, rr.0),
                    None,
                )
            }
        },
        Op::CbBit { n, r } => {
            let f2 = flags_spec(r8_get(r, regs) & pow2(n) == 0, false, true, get_c(f));
            (Cpu { regs: Registers { f: f2, ..regs }, ..cpu }, mmu, None)
        },
        Op::CbBitHl { n } => {
            if s == 0 {
                (cpu, mmu, cont(inst))
            } else {
                let f2 = flags_spec(mmu.read_spec(hl) & pow2(n) == 0, false, true, get_c(f));
                (Cpu { regs: Registers { f: f2, ..regs }, ..cpu }, mmu, None)
            }
        },
        Op::CbRes { n, r } => (
            Cpu {
                regs: r8_put(r, regs, r8_get(r, regs) & ((0xFF - pow2(n)) as u8)),
                ..cpu
            },
            mmu,
            None,
        ),
        Op::CbResHl { n } => {
            if s == 0 {
                (cpu, mmu, cont(inst))
            } else if s == 1 {
                (cpu, mmu, cont_t(inst, mmu.read_spec(hl) as u16))
            } else {
                (cpu, mmu.write_spec(hl, t8(inst) & ((0xFF - pow2(n)) as u8)), None)
            }
        },
        Op::CbSet { n, r } => (
            Cpu { regs: r8_put(r, regs, r8_get(r, regs) | pow2(n)), ..cpu },
            mmu,
            None,
        ),
        Op::CbSetHl { n } => {
            if s == 0 {
                (cpu, mmu, cont(inst))
            } else if s == 1 {
                (cpu, mmu, cont_t(inst, mmu.read_spec(hl) as u16))
            } else {
                (cpu, mmu.write_spec(hl, t8(inst) | pow2(n)), None)
            }
        },
        _ => (cpu, mmu, None),
    }
}

/// One micro-operation of an instruction: the CPU and memory fabric
/// after it, and the instruction's continuation when micro-operations
/// remain. This is the complete instruction semantics; the executable
/// engine is proved equal to it, arm by arm.
pub open spec fn inst_exec_spec(inst: Instruction, cpu: Cpu, mmu: MmuView) -> (
    Cpu,
    MmuView,
    Option<Instruction>,
) {
    match inst.op {
        Op::Nop => step_ctrl(inst, cpu, mmu),
        Op::Stop => step_ctrl(inst, cpu, mmu),
        Op::Freeze => step_ctrl(inst, cpu, mmu),
        Op::Halt => step_ctrl(inst, cpu, mmu),
        Op::Di => step_ctrl(inst, cpu, mmu),
        Op::Ei => step_ctrl(inst, cpu, mmu),
        Op::Prefix => step_ctrl(inst, cpu, mmu),
        Op::Daa => step_acc(inst, cpu, mmu),
        Op::Cpl => step_acc(inst, cpu, mmu),
        Op::Scf => step_acc(inst, cpu, mmu),
        Op::Ccf => step_acc(inst, cpu, mmu),
        Op::Rlca => step_acc(inst, cpu, mmu),
        Op::Rla => step_acc(inst, cpu, mmu),
        Op::Rrca => step_acc(inst, cpu, mmu),
        Op::Rra => step_acc(inst, cpu, mmu),
        Op::Ld16 { .. } => step_w16a(inst, cpu, mmu),
        Op::Inc16 { .. } => step_w16a(inst, cpu, mmu),
        Op::Dec16 { .. } => step_w16a(inst, cpu, mmu),
        Op::AddHl { .. } => step_w16a(inst, cpu, mmu),
        Op::Push { .. } => step_w16b(inst, cpu, mmu),
        Op::Pop { .. } => step_w16b(inst, cpu, mmu),
        Op::LdSpHl => step_w16b(inst, cpu, mmu),
        Op::AddSpE8 => step_w16b(inst, cpu, mmu),
        Op::LdHlSpE8 => step_w16b(inst, cpu, mmu),
        Op::LdRR { .. } => step_ld8(inst, cpu, mmu),
        Op::LdRHl { .. } => step_ld8(inst, cpu, mmu),
        Op::LdHlR { .. } => step_ld8(inst, cpu, mmu),
        Op::LdRD8 { .. } => step_ld8(inst, cpu, mmu),
        Op::LdHlD8 => step_ld8(inst, cpu, mmu),
        Op::LdIndA { .. } => step_ld8(inst, cpu, mmu),
        Op::LdAInd { .. } => step_ld8(inst, cpu, mmu),
        Op::LdhA8A => step_ldh(inst, cpu, mmu),
        Op::LdhAA8 => step_ldh(inst, cpu, mmu),
        Op::LdhCA => step_ldh(inst, cpu, mmu),
        Op::LdhAC => step_ldh(inst, cpu, mmu),
        Op::LdA16A => step_ldh(inst, cpu, mmu),
        Op::LdAA16 => step_ldh(inst, cpu, mmu),
        Op::LdA16Sp => step_ldh(inst, cpu, mmu),
        Op::Alu { .. } => step_alu8a(inst, cpu, mmu),
        Op::AluHl { .. } => step_alu8a(inst, cpu, mmu),
        Op::AluD8 { .. } => step_alu8a(inst, cpu, mmu),
        Op::IncR { .. } => step_alu8b(inst, cpu, mmu),
        Op::DecR { .. } => step_alu8b(inst, cpu, mmu),
        Op::IncHl => step_alu8b(inst, cpu, mmu),
        Op::DecHl => step_alu8b(inst, cpu, mmu),
        Op::JrE8 { .. } => step_jump(inst, cpu, mmu),
        Op::JpA16 { .. } => step_jump(inst, cpu, mmu),
        Op::JpHl => step_jump(inst, cpu, mmu),
        Op::CallA16 { .. } => step_jump(inst, cpu, mmu),
        Op::Ret { .. } => step_jump(inst, cpu, mmu),
        Op::Reti => step_jump(inst, cpu, mmu),
        Op::Rst { .. } => step_jump(inst, cpu, mmu),
        Op::IntSrv { .. } => step_jump(inst, cpu, mmu),
        Op::CbRot { .. } => step_cb(inst, cpu, mmu),
        Op::CbRotHl { .. } => step_cb(inst, cpu, mmu),
        Op::CbBit { .. } => step_cb(inst, cpu, mmu),
        Op::CbBitHl { .. } => step_cb(inst, cpu, mmu),
        Op::CbRes { .. } => step_cb(inst, cpu, mmu),
        Op::CbResHl { .. } => step_cb(inst, cpu, mmu),
        Op::CbSet { .. } => step_cb(inst, cpu, mmu),
        Op::CbSetHl { .. } => step_cb(inst, cpu, mmu),
    }
}

impl Instruction {
    fn cont_ex(self) -> (r: Option<Instruction>)
        ensures
            r == cont(self),
    {
        Some(
            Instruction {
                op: self.op,
                step: if self.step == 255 {
                    0
                } else {
                    self.step + 1
                },
                t16: self.t16,
            },
        )
    }

    fn cont_t_ex(self, t: u16) -> (r: Option<Instruction>)
        ensures
            r == cont_t(self, t),
    {
        Some(
            Instruction {
                op: self.op,
                step: if self.step == 255 {
                    0
                } else {
                    self.step + 1
                },
                t16: t,
            },
        )
    }

    fn t8_ex(self) -> (r: u8)
        ensures
            r == t8(self),
    {
        (self.t16 % 0x100) as u8
    }


    #[verifier::rlimit(100)]
    fn exec_ctrl(self, cpu: &mut Cpu, mmu: &mut Mmu) -> (next: Option<Instruction>)
        requires
            old(cpu).wf(),
            self.op matches Op::Nop || self.op matches Op::Stop || self.op matches Op::Freeze || self.op matches Op::Halt || self.op matches Op::Di || self.op matches Op::Ei || self.op matches Op::Prefix,
        ensures
            ({
                let r = inst_exec_spec(self, *old(cpu), old(mmu)@);
                *final(cpu) == r.0 && final(mmu)@ == r.1 && next == r.2
            }),
            final(cpu).wf(),
    {
        proof {
            reveal(step_ctrl);
        }
        let s = self.step;
        match self.op {
            Op::Nop => None,
            Op::Stop => {
                cpu.status = Status::Stopped;
                None
            },
            Op::Freeze => {
                cpu.status = Status::Stopped;
                None
            },
            Op::Halt => {
                if matches!(cpu.ime, Ime::Enabled) {
                    cpu.status = Status::Halted;
                } else if mmu.pending() {
                    cpu.halt_bug = true;
                } else {
                    cpu.status = Status::Halted;
                }
                None
            },
            Op::Di => {
                cpu.ime = Ime::Disabled;
                None
            },
            Op::Ei => {
                if !matches!(cpu.ime, Ime::Enabled) {
                    cpu.ime = Ime::WillEnable;
                }
                None
            },
            Op::Prefix => {
                let b = cpu.fetchbyte(mmu);
                Some(Instruction::prefix(b))
            },
            _ => {
                proof {
                    assert(false);
                }
                None
            },
        }
    }

    #[verifier::rlimit(100)]
    fn exec_acc(self, cpu: &mut Cpu, mmu: &mut Mmu) -> (next: Option<Instruction>)
        requires
            old(cpu).wf(),
            self.op matches Op::Daa || self.op matches Op::Cpl || self.op matches Op::Scf || self.op matches Op::Ccf || self.op matches Op::Rlca || self.op matches Op::Rla || self.op matches Op::Rrca || self.op matches Op::Rra,
        ensures
            ({
                let r = inst_exec_spec(self, *old(cpu), old(mmu)@);
                *final(cpu) == r.0 && final(mmu)@ == r.1 && next == r.2
            }),
            final(cpu).wf(),
    {
        proof {
            reveal(step_acc);
        }
        let s = self.step;
        match self.op {
            Op::Daa => {
                let (v, f2) = ex_daa(cpu.regs.a, cpu.regs.f);
                cpu.regs.a = v;
                cpu.regs.f = f2;
                None
            },
            Op::Cpl => {
                let f = cpu.regs.f;
                cpu.regs.a = 0xFF - cpu.regs.a;
                cpu.regs.f = ex_flags(ex_get_z(f), true, true, ex_get_c(f));
                None
            },
            Op::Scf => {
                let f = cpu.regs.f;
                cpu.regs.f = ex_flags(ex_get_z(f), false, false, true);
                None
            },
            Op::Ccf => {
                let f = cpu.regs.f;
                cpu.regs.f = ex_flags(ex_get_z(f), false, false, !ex_get_c(f));
                None
            },
            Op::Rlca => {
                let f = cpu.regs.f;
                let (v, cy) = ex_rot(RotK::Rlc, cpu.regs.a, if ex_get_c(f) {
                    1
                } else {
                    0
                });
                cpu.regs.a = v;
                cpu.regs.f = ex_flags(false, false, false, cy);
                None
            },
            Op::Rla => {
                let f = cpu.regs.f;
                let (v, cy) = ex_rot(RotK::Rl, cpu.regs.a, if ex_get_c(f) {
                    1
                } else {
                    0
                });
                cpu.regs.a = v;
                cpu.regs.f = ex_flags(false, false, false, cy);
                None
            },
            Op::Rrca => {
                let f = cpu.regs.f;
                let (v, cy) = ex_rot(RotK::Rrc, cpu.regs.a, if ex_get_c(f) {
                    1
                } else {
                    0
                });
                cpu.regs.a = v;
                cpu.regs.f = ex_flags(false, false, false, cy);
                None
            },
            Op::Rra => {
                let f = cpu.regs.f;
                let (v, cy) = ex_rot(RotK::Rr, cpu.regs.a, if ex_get_c(f) {
                    1
                } else {
                    0
                });
                cpu.regs.a = v;
                cpu.regs.f = ex_flags(false, false, false, cy);
                None
            },
            _ => {
                proof {
                    assert(false);
                }
                None
            },
        }
    }

    #[verifier::rlimit(100)]
    fn exec_w16a(self, cpu: &mut Cpu, mmu: &mut Mmu) -> (next: Option<Instruction>)
        requires
            old(cpu).wf(),
            self.op matches Op::Ld16 { .. } || self.op matches Op::Inc16 { .. } || self.op matches Op::Dec16 { .. } || self.op matches Op::AddHl { .. },
        ensures
            ({
                let r = inst_exec_spec(self, *old(cpu), old(mmu)@);
                *final(cpu) == r.0 && final(mmu)@ == r.1 && next == r.2
            }),
            final(cpu).wf(),
    {
        proof {
            reveal(step_w16a);
        }
        let s = self.step;
        match self.op {
            Op::Ld16 { rr } => {
                if s == 0 {
                    self.cont_ex()
                } else if s == 1 {
                    let b = cpu.fetchbyte(mmu);
                    self.cont_t_ex(b as u16)
                } else {
                    let hi = cpu.fetchbyte(mmu);
                    let w = ex_make16(hi, self.t8_ex());
                    rr.set(&mut cpu.regs, w);
                    None
                }
            },
            Op::Inc16 { rr } => {
                if s == 0 {
                    self.cont_ex()
                } else {
                    let v = rr.get(&cpu.regs);
                    rr.set(&mut cpu.regs, ex_wadd16(v, 1));
                    None
                }
            },
            Op::Dec16 { rr } => {
                if s == 0 {
                    self.cont_ex()
                } else {
                    let v = rr.get(&cpu.regs);
                    rr.set(&mut cpu.regs, ex_wsub16(v, 1));
                    None
                }
            },
            Op::AddHl { rr } => {
                if s == 0 {
                    self.cont_ex()
                } else {
                    let f = cpu.regs.f;
                    let hl = WideRegister::HL.get(&cpu.regs);
                    let v = rr.get(&cpu.regs);
                    let r = ex_wadd16(hl, v);
                    cpu.regs.f = ex_flags(
                        ex_get_z(f),
                        false,
                        hl % 0x1000 + v % 0x1000 > 0xFFF,
                        hl as u32 + v as u32 > 0xFFFF,
                    );
                    WideRegister::HL.set(&mut cpu.regs, r);
                    None
                }
            },
            _ => {
                proof {
                    assert(false);
                }
                None
            },
        }
    }

    #[verifier::rlimit(100)]
    fn exec_w16b(self, cpu: &mut Cpu, mmu: &mut Mmu) -> (next: Option<Instruction>)
        requires
            old(cpu).wf(),
            self.op matches Op::Push { .. } || self.op matches Op::Pop { .. } || self.op matches Op::LdSpHl || self.op matches Op::AddSpE8 || self.op matches Op::LdHlSpE8,
        ensures
            ({
                let r = inst_exec_spec(self, *old(cpu), old(mmu)@);
                *final(cpu) == r.0 && final(mmu)@ == r.1 && next == r.2
            }),
            final(cpu).wf(),
    {
        proof {
            reveal(step_w16b);
        }
        let s = self.step;
        match self.op {
            Op::Push { rr } => {
                if s < 2 {
                    self.cont_ex()
                } else if s == 2 {
                    let w = rr.get(&cpu.regs);
                    cpu.regs.sp = ex_wsub16(cpu.regs.sp, 1);
                    mmu.write(cpu.regs.sp, ex_hi8(w));
                    self.cont_t_ex(w)
                } else {
                    cpu.regs.sp = ex_wsub16(cpu.regs.sp, 1);
                    mmu.write(cpu.regs.sp, ex_lo8(self.t16));
                    None
                }
            },
            Op::Pop { rr } => {
                if s == 0 {
                    self.cont_ex()
                } else if s == 1 {
                    let b = mmu.read(cpu.regs.sp);
                    cpu.regs.sp = ex_wadd16(cpu.regs.sp, 1);
                    self.cont_t_ex(b as u16)
                } else {
                    let hi = mmu.read(cpu.regs.sp);
                    cpu.regs.sp = ex_wadd16(cpu.regs.sp, 1);
                    let w = ex_make16(hi, self.t8_ex());
                    rr.set(&mut cpu.regs, w);
                    None
                }
            },
            Op::LdSpHl => {
                if s == 0 {
                    self.cont_ex()
                } else {
                    cpu.regs.sp = WideRegister::HL.get(&cpu.regs);
                    None
                }
            },
            Op::AddSpE8 => {
                if s == 0 {
                    self.cont_ex()
                } else if s == 1 {
                    let b = cpu.fetchbyte(mmu);
                    self.cont_t_ex(b as u16)
                } else if s == 2 {
                    self.cont_ex()
                } else {
                    let (v, f2) = ex_addsp(cpu.regs.sp, self.t8_ex());
                    cpu.regs.sp = v;
                    cpu.regs.f = f2;
                    None
                }
            },
            Op::LdHlSpE8 => {
                if s == 0 {
                    self.cont_ex()
                } else if s == 1 {
                    let b = cpu.fetchbyte(mmu);
                    self.cont_t_ex(b as u16)
                } else {
                    let (v, f2) = ex_addsp(cpu.regs.sp, self.t8_ex());
                    cpu.regs.f = f2;
                    WideRegister::HL.set(&mut cpu.regs, v);
                    None
                }
            },
            _ => {
                proof {
                    assert(false);
                }
                None
            },
        }
    }

    #[verifier::rlimit(100)]
    fn exec_ld8(self, cpu: &mut Cpu, mmu: &mut Mmu) -> (next: Option<Instruction>)
        requires
            old(cpu).wf(),
            self.op matches Op::LdRR { .. } || self.op matches Op::LdRHl { .. } || self.op matches Op::LdHlR { .. } || self.op matches Op::LdRD8 { .. } || self.op matches Op::LdHlD8 || self.op matches Op::LdIndA { .. } || self.op matches Op::LdAInd { .. },
        ensures
            ({
                let r = inst_exec_spec(self, *old(cpu), old(mmu)@);
                *final(cpu) == r.0 && final(mmu)@ == r.1 && next == r.2
            }),
            final(cpu).wf(),
    {
        proof {
            reveal(step_ld8);
        }
        let s = self.step;
        match self.op {
            Op::LdRR { dst, src } => {
                let v = ex_r8_get(src, &cpu.regs);
                ex_r8_put(dst, &mut cpu.regs, v);
                None
            },
            Op::LdRHl { dst } => {
                if s == 0 {
                    self.cont_ex()
                } else {
                    let v = cpu.readbyte(mmu);
                    ex_r8_put(dst, &mut cpu.regs, v);
                    None
                }
            },
            Op::LdHlR { src } => {
                if s == 0 {
                    self.cont_ex()
                } else {
                    let v = ex_r8_get(src, &cpu.regs);
                    cpu.writebyte(mmu, v);
                    None
                }
            },
            Op::LdRD8 { dst } => {
                if s == 0 {
                    self.cont_ex()
                } else {
                    let v = cpu.fetchbyte(mmu);
                    ex_r8_put(dst, &mut cpu.regs, v);
                    None
                }
            },
            Op::LdHlD8 => {
                if s == 0 {
                    self.cont_ex()
                } else if s == 1 {
                    let b = cpu.fetchbyte(mmu);
                    self.cont_t_ex(b as u16)
                } else {
                    cpu.writebyte(mmu, self.t8_ex());
                    None
                }
            },
            Op::LdIndA { ind } => {
                if s == 0 {
                    self.cont_ex()
                } else {
                    let addr = match ind {
                        Ind::BC => WideRegister::BC.get(&cpu.regs),
                        Ind::DE => WideRegister::DE.get(&cpu.regs),
                        Ind::HlInc => WideRegister::HL.get(&cpu.regs),
                        Ind::HlDec => WideRegister::HL.get(&cpu.regs),
                    };
                    mmu.write(addr, cpu.regs.a);
                    match ind {
                        Ind::HlInc => WideRegister::HL.set(&mut cpu.regs, ex_wadd16(addr, 1)),
                        Ind::HlDec => WideRegister::HL.set(&mut cpu.regs, ex_wsub16(addr, 1)),
                        Ind::BC => (),
                        Ind::DE => (),
                    }
                    None
                }
            },
            Op::LdAInd { ind } => {
                if s == 0 {
                    self.cont_ex()
                } else {
                    let addr = match ind {
                        Ind::BC => WideRegister::BC.get(&cpu.regs),
                        Ind::DE => WideRegister::DE.get(&cpu.regs),
                        Ind::HlInc => WideRegister::HL.get(&cpu.regs),
                        Ind::HlDec => WideRegister::HL.get(&cpu.regs),
                    };
                    let v = mmu.read(addr);
                    match ind {
                        Ind::HlInc => WideRegister::HL.set(&mut cpu.regs, ex_wadd16(addr, 1)),
                        Ind::HlDec => WideRegister::HL.set(&mut cpu.regs, ex_wsub16(addr, 1)),
                        Ind::BC => (),
                        Ind::DE => (),
                    }
                    cpu.regs.a = v;
                    None
                }
            },
            _ => {
                proof {
                    assert(false);
                }
                None
            },
        }
    }

    #[verifier::rlimit(100)]
    fn exec_ldh(self, cpu: &mut Cpu, mmu: &mut Mmu) -> (next: Option<Instruction>)
        requires
            old(cpu).wf(),
            self.op matches Op::LdhA8A || self.op matches Op::LdhAA8 || self.op matches Op::LdhCA || self.op matches Op::LdhAC || self.op matches Op::LdA16A || self.op matches Op::LdAA16 || self.op matches Op::LdA16Sp,
        ensures
            ({
                let r = inst_exec_spec(self, *old(cpu), old(mmu)@);
                *final(cpu) == r.0 && final(mmu)@ == r.1 && next == r.2
            }),
            final(cpu).wf(),
    {
        proof {
            reveal(step_ldh);
        }
        let s = self.step;
        match self.op {
            Op::LdhA8A => {
                if s == 0 {
                    self.cont_ex()
                } else if s == 1 {
                    let b = cpu.fetchbyte(mmu);
                    self.cont_t_ex(b as u16)
                } else {
                    mmu.write(0xFF00 + (self.t8_ex() as u16), cpu.regs.a);
                    None
                }
            },
            Op::LdhAA8 => {
                if s == 0 {
                    self.cont_ex()
                } else if s == 1 {
                    let b = cpu.fetchbyte(mmu);
                    self.cont_t_ex(b as u16)
                } else {
                    cpu.regs.a = mmu.read(0xFF00 + (self.t8_ex() as u16));
                    None
                }
            },
            Op::LdhCA => {
                if s == 0 {
                    self.cont_ex()
                } else {
                    mmu.write(0xFF00 + (cpu.regs.c as u16), cpu.regs.a);
                    None
                }
            },
            Op::LdhAC => {
                if s == 0 {
                    self.cont_ex()
                } else {
                    cpu.regs.a = mmu.read(0xFF00 + (cpu.regs.c as u16));
                    None
                }
            },
            Op::LdA16A => {
                if s == 0 {
                    self.cont_ex()
                } else if s == 1 {
                    let b = cpu.fetchbyte(mmu);
                    self.cont_t_ex(b as u16)
                } else if s == 2 {
                    let hi = cpu.fetchbyte(mmu);
                    self.cont_t_ex(ex_make16(hi, self.t8_ex()))
                } else {
                    mmu.write(self.t16, cpu.regs.a);
                    None
                }
            },
            Op::LdAA16 => {
                if s == 0 {
                    self.cont_ex()
                } else if s == 1 {
                    let b = cpu.fetchbyte(mmu);
                    self.cont_t_ex(b as u16)
                } else if s == 2 {
                    let hi = cpu.fetchbyte(mmu);
                    self.cont_t_ex(ex_make16(hi, self.t8_ex()))
                } else {
                    cpu.regs.a = mmu.read(self.t16);
                    None
                }
            },
            Op::LdA16Sp => {
                if s == 0 {
                    self.cont_ex()
                } else if s == 1 {
                    let b = cpu.fetchbyte(mmu);
                    self.cont_t_ex(b as u16)
                } else if s == 2 {
                    let hi = cpu.fetchbyte(mmu);
                    self.cont_t_ex(ex_make16(hi, self.t8_ex()))
                } else if s == 3 {
                    mmu.write(self.t16, ex_lo8(cpu.regs.sp));
                    self.cont_ex()
                } else {
                    mmu.write(ex_wadd16(self.t16, 1), ex_hi8(cpu.regs.sp));
                    None
                }
            },
            _ => {
                proof {
                    assert(false);
                }
                None
            },
        }
    }

    #[verifier::rlimit(100)]
    fn exec_alu8a(self, cpu: &mut Cpu, mmu: &mut Mmu) -> (next: Option<Instruction>)
        requires
            old(cpu).wf(),
            self.op matches Op::Alu { .. } || self.op matches Op::AluHl { .. } || self.op matches Op::AluD8 { .. },
        ensures
            ({
                let r = inst_exec_spec(self, *old(cpu), old(mmu)@);
                *final(cpu) == r.0 && final(mmu)@ == r.1 && next == r.2
            }),
            final(cpu).wf(),
    {
        proof {
            reveal(step_alu8a);
        }
        let s = self.step;
        match self.op {
            Op::Alu { k, src } => {
                let b = ex_r8_get(src, &cpu.regs);
                proof {
                    lemma_alu_wf(k, cpu.regs.a, b, cpu.regs.f);
                }
                let (v, f2) = ex_alu(k, cpu.regs.a, b, cpu.regs.f);
                cpu.regs.a = v;
                cpu.regs.f = f2;
                None
            },
            Op::AluHl { k } => {
                if s == 0 {
                    self.cont_ex()
                } else {
                    let b = cpu.readbyte(mmu);
                    proof {
                        lemma_alu_wf(k, cpu.regs.a, b, cpu.regs.f);
                    }
                    let (v, f2) = ex_alu(k, cpu.regs.a, b, cpu.regs.f);
                    cpu.regs.a = v;
                    cpu.regs.f = f2;
                    None
                }
            },
            Op::AluD8 { k } => {
                if s == 0 {
                    self.cont_ex()
                } else {
                    let b = cpu.fetchbyte(mmu);
                    proof {
                        lemma_alu_wf(k, cpu.regs.a, b, cpu.regs.f);
                    }
                    let (v, f2) = ex_alu(k, cpu.regs.a, b, cpu.regs.f);
                    cpu.regs.a = v;
                    cpu.regs.f = f2;
                    None
                }
            },
            _ => {
                proof {
                    assert(false);
                }
                None
            },
        }
    }

    #[verifier::rlimit(100)]
    fn exec_alu8b(self, cpu: &mut Cpu, mmu: &mut Mmu) -> (next: Option<Instruction>)
        requires
            old(cpu).wf(),
            self.op matches Op::IncR { .. } || self.op matches Op::DecR { .. } || self.op matches Op::IncHl || self.op matches Op::DecHl,
        ensures
            ({
                let r = inst_exec_spec(self, *old(cpu), old(mmu)@);
                *final(cpu) == r.0 && final(mmu)@ == r.1 && next == r.2
            }),
            final(cpu).wf(),
    {
        proof {
            reveal(step_alu8b);
        }
        let s = self.step;
        match self.op {
            Op::IncR { r } => {
                let x = ex_r8_get(r, &cpu.regs);
                let (v, f2) = ex_inc8(x, cpu.regs.f);
                cpu.regs.f = f2;
                ex_r8_put(r, &mut cpu.regs, v);
                None
            },
            Op::DecR { r } => {
                let x = ex_r8_get(r, &cpu.regs);
                let (v, f2) = ex_dec8(x, cpu.regs.f);
                cpu.regs.f = f2;
                ex_r8_put(r, &mut cpu.regs, v);
                None
            },
            Op::IncHl => {
                if s == 0 {
                    self.cont_ex()
                } else if s == 1 {
                    let b = cpu.readbyte(mmu);
                    self.cont_t_ex(b as u16)
                } else {
                    let (v, f2) = ex_inc8(self.t8_ex(), cpu.regs.f);
                    cpu.regs.f = f2;
                    cpu.writebyte(mmu, v);
                    None
                }
            },
            Op::DecHl => {
                if s == 0 {
                    self.cont_ex()
                } else if s == 1 {
                    let b = cpu.readbyte(mmu);
                    self.cont_t_ex(b as u16)
                } else {
                    let (v, f2) = ex_dec8(self.t8_ex(), cpu.regs.f);
                    cpu.regs.f = f2;
                    cpu.writebyte(mmu, v);
                    None
                }
            },
            _ => {
                proof {
                    assert(false);
                }
                None
            },
        }
    }

    #[verifier::rlimit(100)]
    fn exec_jump(self, cpu: &mut Cpu, mmu: &mut Mmu) -> (next: Option<Instruction>)
        requires
            old(cpu).wf(),
            self.op matches Op::JrE8 { .. } || self.op matches Op::JpA16 { .. } || self.op matches Op::JpHl || self.op matches Op::CallA16 { .. } || self.op matches Op::Ret { .. } || self.op matches Op::Reti || self.op matches Op::Rst { .. } || self.op matches Op::IntSrv { .. },
        ensures
            ({
                let r = inst_exec_spec(self, *old(cpu), old(mmu)@);
                *final(cpu) == r.0 && final(mmu)@ == r.1 && next == r.2
            }),
            final(cpu).wf(),
    {
        proof {
            reveal(step_jump);
        }
        let s = self.step;
        match self.op {
            Op::JrE8 { cond } => {
                if s == 0 {
                    self.cont_ex()
                } else if s == 1 {
                    let f = cpu.regs.f;
                    let b = cpu.fetchbyte(mmu);
                    if ex_cond(cond, f) {
                        self.cont_t_ex(b as u16)
                    } else {
                        None
                    }
                } else {
                    cpu.regs.pc = ex_wadd16(cpu.regs.pc, ex_sext16(self.t8_ex()));
                    None
                }
            },
            Op::JpA16 { cond } => {
                if s == 0 {
                    self.cont_ex()
                } else if s == 1 {
                    let b = cpu.fetchbyte(mmu);
                    self.cont_t_ex(b as u16)
                } else if s == 2 {
                    let f = cpu.regs.f;
                    let hi = cpu.fetchbyte(mmu);
                    if ex_cond(cond, f) {
                        self.cont_t_ex(ex_make16(hi, self.t8_ex()))
                    } else {
                        None
                    }
                } else {
                    cpu.regs.pc = self.t16;
                    None
                }
            },
            Op::JpHl => {
                cpu.regs.pc = WideRegister::HL.get(&cpu.regs);
                None
            },
            Op::CallA16 { cond } => {
                if s == 0 {
                    self.cont_ex()
                } else if s == 1 {
                    let b = cpu.fetchbyte(mmu);
                    self.cont_t_ex(b as u16)
                } else if s == 2 {
                    let f = cpu.regs.f;
                    let hi = cpu.fetchbyte(mmu);
                    if ex_cond(cond, f) {
                        self.cont_t_ex(ex_make16(hi, self.t8_ex()))
                    } else {
                        None
                    }
                } else if s == 3 {
                    self.cont_ex()
                } else if s == 4 {
                    cpu.regs.sp = ex_wsub16(cpu.regs.sp, 1);
                    mmu.write(cpu.regs.sp, ex_hi8(cpu.regs.pc));
                    self.cont_ex()
                } else {
                    cpu.regs.sp = ex_wsub16(cpu.regs.sp, 1);
                    mmu.write(cpu.regs.sp, ex_lo8(cpu.regs.pc));
                    cpu.regs.pc = self.t16;
                    None
                }
            },
            Op::Ret { cond } => {
                if cond == Cond::Always {
                    if s == 0 {
                        self.cont_ex()
                    } else if s == 1 {
                        let b = mmu.read(cpu.regs.sp);
                        cpu.regs.sp = ex_wadd16(cpu.regs.sp, 1);
                        self.cont_t_ex(b as u16)
                    } else if s == 2 {
                        let hi = mmu.read(cpu.regs.sp);
                        cpu.regs.sp = ex_wadd16(cpu.regs.sp, 1);
                        self.cont_t_ex(ex_make16(hi, self.t8_ex()))
                    } else {
                        cpu.regs.pc = self.t16;
                        None
                    }
                } else {
                    if s == 0 {
                        self.cont_ex()
                    } else if s == 1 {
                        if ex_cond(cond, cpu.regs.f) {
                            self.cont_ex()
                        } else {
                            None
                        }
                    } else if s == 2 {
                        let b = mmu.read(cpu.regs.sp);
                        cpu.regs.sp = ex_wadd16(cpu.regs.sp, 1);
                        self.cont_t_ex(b as u16)
                    } else if s == 3 {
                        let hi = mmu.read(cpu.regs.sp);
                        cpu.regs.sp = ex_wadd16(cpu.regs.sp, 1);
                        self.cont_t_ex(ex_make16(hi, self.t8_ex()))
                    } else {
                        cpu.regs.pc = self.t16;
                        None
                    }
                }
            },
            Op::Reti => {
                if s == 0 {
                    self.cont_ex()
                } else if s == 1 {
                    let b = mmu.read(cpu.regs.sp);
                    cpu.regs.sp = ex_wadd16(cpu.regs.sp, 1);
                    self.cont_t_ex(b as u16)
                } else if s == 2 {
                    let hi = mmu.read(cpu.regs.sp);
                    cpu.regs.sp = ex_wadd16(cpu.regs.sp, 1);
                    cpu.ime = Ime::Enabled;
                    self.cont_t_ex(ex_make16(hi, self.t8_ex()))
                } else {
                    cpu.regs.pc = self.t16;
                    None
                }
            },
            Op::Rst { t } => {
                if s < 2 {
                    self.cont_ex()
                } else if s == 2 {
                    cpu.regs.sp = ex_wsub16(cpu.regs.sp, 1);
                    mmu.write(cpu.regs.sp, ex_hi8(cpu.regs.pc));
                    self.cont_ex()
                } else {
                    cpu.regs.sp = ex_wsub16(cpu.regs.sp, 1);
                    mmu.write(cpu.regs.sp, ex_lo8(cpu.regs.pc));
                    cpu.regs.pc = t as u16;
                    None
                }
            },
            Op::IntSrv { src } => {
                if s == 0 {
                    cpu.ime = Ime::Disabled;
                    self.cont_ex()
                } else if s == 1 {
                    self.cont_ex()
                } else if s == 2 {
                    cpu.regs.sp = ex_wsub16(cpu.regs.sp, 1);
                    mmu.write(cpu.regs.sp, ex_hi8(cpu.regs.pc));
                    self.cont_ex()
                } else if s == 3 {
                    cpu.regs.sp = ex_wsub16(cpu.regs.sp, 1);
                    mmu.write(cpu.regs.sp, ex_lo8(cpu.regs.pc));
                    self.cont_ex()
                } else {
                    cpu.regs.pc = src.vector();
                    None
                }
            },
            _ => {
                proof {
                    assert(false);
                }
                None
            },
        }
    }

    #[verifier::rlimit(100)]
    fn exec_cb(self, cpu: &mut Cpu, mmu: &mut Mmu) -> (next: Option<Instruction>)
        requires
            old(cpu).wf(),
            self.op matches Op::CbRot { .. } || self.op matches Op::CbRotHl { .. } || self.op matches Op::CbBit { .. } || self.op matches Op::CbBitHl { .. } || self.op matches Op::CbRes { .. } || self.op matches Op::CbResHl { .. } || self.op matches Op::CbSet { .. } || self.op matches Op::CbSetHl { .. },
        ensures
            ({
                let r = inst_exec_spec(self, *old(cpu), old(mmu)@);
                *final(cpu) == r.0 && final(mmu)@ == r.1 && next == r.2
            }),
            final(cpu).wf(),
    {
        proof {
            reveal(step_cb);
        }
        let s = self.step;
        match self.op {
            Op::CbRot { k, r } => {
                let f = cpu.regs.f;
                let x = ex_r8_get(r, &cpu.regs);
                let (v, cy) = ex_rot(k, x, if ex_get_c(f) {
                    1
                } else {
                    0
                });
                cpu.regs.f = ex_flags(v == 0, false, false, cy);
                ex_r8_put(r, &mut cpu.regs, v);
                None
            },
            Op::CbRotHl { k } => {
                if s == 0 {
                    self.cont_ex()
                } else if s == 1 {
                    let b = cpu.readbyte(mmu);
                    self.cont_t_ex(b as u16)
                } else {
                    let f = cpu.regs.f;
                    let (v, cy) = ex_rot(k, self.t8_ex(), if ex_get_c(f) {
                        1
                    } else {
                        0
                    });
                    cpu.regs.f = ex_flags(v == 0, false, false, cy);
                    cpu.writebyte(mmu, v);
                    None
                }
            },
            Op::CbBit { n, r } => {
                let f = cpu.regs.f;
                let x = ex_r8_get(r, &cpu.regs);
                cpu.regs.f = ex_flags(x & ex_pow2(n) == 0, false, true, ex_get_c(f));
                None
            },
            Op::CbBitHl { n } => {
                if s == 0 {
                    self.cont_ex()
                } else {
                    let f = cpu.regs.f;
                    let x = cpu.readbyte(mmu);
                    cpu.regs.f = ex_flags(x & ex_pow2(n) == 0, false, true, ex_get_c(f));
                    None
                }
            },
            Op::CbRes { n, r } => {
                let x = ex_r8_get(r, &cpu.regs);
                let d = r;
                ex_r8_put(d, &mut cpu.regs, x & (0xFF - ex_pow2(n)));
                None
            },
            Op::CbResHl { n } => {
                if s == 0 {
                    self.cont_ex()
                } else if s == 1 {
                    let b = cpu.readbyte(mmu);
                    self.cont_t_ex(b as u16)
                } else {
                    cpu.writebyte(mmu, self.t8_ex() & (0xFF - ex_pow2(n)));
                    None
                }
            },
            Op::CbSet { n, r } => {
                let x = ex_r8_get(r, &cpu.regs);
                let d = r;
                ex_r8_put(d, &mut cpu.regs, x | ex_pow2(n));
                None
            },
            Op::CbSetHl { n } => {
                if s == 0 {
                    self.cont_ex()
                } else if s == 1 {
                    let b = cpu.readbyte(mmu);
                    self.cont_t_ex(b as u16)
                } else {
                    cpu.writebyte(mmu, self.t8_ex() | ex_pow2(n));
                    None
                }
            },
            _ => {
                proof {
                    assert(false);
                }
                None
            },
        }
    }

    /// Performs one micro-operation of this instruction — one M-cycle
    /// with at most one bus word transaction — and returns the
    /// instruction's continuation when micro-operations remain.
    pub fn exec(self, cpu: &mut Cpu, mmu: &mut Mmu) -> (next: Option<Instruction>)
        requires
            old(cpu).wf(),
        ensures
            ({
                let r = inst_exec_spec(self, *old(cpu), old(mmu)@);
                *final(cpu) == r.0 && final(mmu)@ == r.1 && next == r.2
            }),
            final(cpu).wf(),
    {
        match self.op {
            Op::Nop => self.exec_ctrl(cpu, mmu),
            Op::Stop => self.exec_ctrl(cpu, mmu),
            Op::Freeze => self.exec_ctrl(cpu, mmu),
            Op::Halt => self.exec_ctrl(cpu, mmu),
            Op::Di => self.exec_ctrl(cpu, mmu),
            Op::Ei => self.exec_ctrl(cpu, mmu),
            Op::Prefix => self.exec_ctrl(cpu, mmu),
            Op::Daa => self.exec_acc(cpu, mmu),
            Op::Cpl => self.exec_acc(cpu, mmu),
            Op::Scf => self.exec_acc(cpu, mmu),
            Op::Ccf => self.exec_acc(cpu, mmu),
            Op::Rlca => self.exec_acc(cpu, mmu),
            Op::Rla => self.exec_acc(cpu, mmu),
            Op::Rrca => self.exec_acc(cpu, mmu),
            Op::Rra => self.exec_acc(cpu, mmu),
            Op::Ld16 { .. } => self.exec_w16a(cpu, mmu),
            Op::Inc16 { .. } => self.exec_w16a(cpu, mmu),
            Op::Dec16 { .. } => self.exec_w16a(cpu, mmu),
            Op::AddHl { .. } => self.exec_w16a(cpu, mmu),
            Op::Push { .. } => self.exec_w16b(cpu, mmu),
            Op::Pop { .. } => self.exec_w16b(cpu, mmu),
            Op::LdSpHl => self.exec_w16b(cpu, mmu),
            Op::AddSpE8 => self.exec_w16b(cpu, mmu),
            Op::LdHlSpE8 => self.exec_w16b(cpu, mmu),
            Op::LdRR { .. } => self.exec_ld8(cpu, mmu),
            Op::LdRHl { .. } => self.exec_ld8(cpu, mmu),
            Op::LdHlR { .. } => self.exec_ld8(cpu, mmu),
            Op::LdRD8 { .. } => self.exec_ld8(cpu, mmu),
            Op::LdHlD8 => self.exec_ld8(cpu, mmu),
            Op::LdIndA { .. } => self.exec_ld8(cpu, mmu),
            Op::LdAInd { .. } => self.exec_ld8(cpu, mmu),
            Op::LdhA8A => self.exec_ldh(cpu, mmu),
            Op::LdhAA8 => self.exec_ldh(cpu, mmu),
            Op::LdhCA => self.exec_ldh(cpu, mmu),
            Op::LdhAC => self.exec_ldh(cpu, mmu),
            Op::LdA16A => self.exec_ldh(cpu, mmu),
            Op::LdAA16 => self.exec_ldh(cpu, mmu),
            Op::LdA16Sp => self.exec_ldh(cpu, mmu),
            Op::Alu { .. } => self.exec_alu8a(cpu, mmu),
            Op::AluHl { .. } => self.exec_alu8a(cpu, mmu),
            Op::AluD8 { .. } => self.exec_alu8a(cpu, mmu),
            Op::IncR { .. } => self.exec_alu8b(cpu, mmu),
            Op::DecR { .. } => self.exec_alu8b(cpu, mmu),
            Op::IncHl => self.exec_alu8b(cpu, mmu),
            Op::DecHl => self.exec_alu8b(cpu, mmu),
            Op::JrE8 { .. } => self.exec_jump(cpu, mmu),
            Op::JpA16 { .. } => self.exec_jump(cpu, mmu),
            Op::JpHl => self.exec_jump(cpu, mmu),
            Op::CallA16 { .. } => self.exec_jump(cpu, mmu),
            Op::Ret { .. } => self.exec_jump(cpu, mmu),
            Op::Reti => self.exec_jump(cpu, mmu),
            Op::Rst { .. } => self.exec_jump(cpu, mmu),
            Op::IntSrv { .. } => self.exec_jump(cpu, mmu),
            Op::CbRot { .. } => self.exec_cb(cpu, mmu),
            Op::CbRotHl { .. } => self.exec_cb(cpu, mmu),
            Op::CbBit { .. } => self.exec_cb(cpu, mmu),
            Op::CbBitHl { .. } => self.exec_cb(cpu, mmu),
            Op::CbRes { .. } => self.exec_cb(cpu, mmu),
            Op::CbResHl { .. } => self.exec_cb(cpu, mmu),
            Op::CbSet { .. } => self.exec_cb(cpu, mmu),
            Op::CbSetHl { .. } => self.exec_cb(cpu, mmu),
        }
    }
}

} // verus!
