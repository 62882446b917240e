//! The ALU and barrel shifter: pure computation of data-processing results,
//! shifter carry-out, and condition-flag updates, shared by the ARM and Thumb
//! handlers.

use vstd::prelude::*;
use crate::cpu::ArmCpu;
use crate::registers::Psr;

verus! {

/// The sign bit of a 32-bit value.
pub open spec fn bit31(x: u32) -> bool {
    x >= 0x8000_0000
}

/// The sign bit of a 64-bit value.
pub open spec fn bit63(x: u64) -> bool {
    x >= 0x8000_0000_0000_0000
}

/// Carry out of an addition.
pub open spec fn carry_add(a: u32, b: u32) -> bool {
    a + b > u32::MAX
}

/// Carry out of an addition with carry in.
pub open spec fn carry_adc(a: u32, b: u32, c_in: bool) -> bool {
    a + b + (if c_in { 1int } else { 0int }) > u32::MAX
}

/// Carry out of a subtraction, in the ARM convention: set when no borrow
/// occurs, that is when `a >= b`.
pub open spec fn carry_sub(a: u32, b: u32) -> bool {
    a >= b
}

/// Carry out of a subtraction with carry in (borrow when the carry is clear).
pub open spec fn carry_sbc(a: u32, b: u32, c_in: bool) -> bool {
    a >= b + (if c_in { 0int } else { 1int })
}

/// Signed overflow of an addition whose truncated result is `r`.
pub open spec fn overflow_add(a: u32, b: u32, r: u32) -> bool {
    bit31(a) == bit31(b) && bit31(r) != bit31(a)
}

/// Signed overflow of a subtraction `a - b` whose truncated result is `r`.
pub open spec fn overflow_sub(a: u32, b: u32, r: u32) -> bool {
    bit31(a) != bit31(b) && bit31(r) != bit31(a)
}

/// The adc result, truncated to 32 bits.
pub open spec fn adc_result(a: u32, b: u32, c_in: bool) -> u32 {
    ((a + b + (if c_in { 1int } else { 0int })) % 0x1_0000_0000) as u32
}

/// The sbc result `a - b - (1 - carry)`, truncated to 32 bits.
pub open spec fn sbc_result(a: u32, b: u32, c_in: bool) -> u32 {
    a.wrapping_sub(b).wrapping_sub(if c_in { 0u32 } else { 1u32 })
}

/// The register file is unchanged except for the four condition flags, which
/// now hold the given values; cycles and the halt flag are untouched.
pub open spec fn flags_set(new: &ArmCpu, prev: &ArmCpu, n: bool, z: bool, c: bool, v: bool) -> bool {
    &&& new.registers.wf()
    &&& new.registers.same_gp(&prev.registers)
    &&& new.registers.same_spsr(&prev.registers)
    &&& new.registers.cpsr == (Psr { n, z, c, v, ..prev.registers.cpsr })
    &&& new.cycles == prev.cycles
    &&& new.halted == prev.halted
}

/// As `flags_set`, but only N and Z change.
pub open spec fn nz_set(new: &ArmCpu, prev: &ArmCpu, n: bool, z: bool) -> bool {
    flags_set(new, prev, n, z, prev.registers.cpsr.c, prev.registers.cpsr.v)
}

/// Sets N and Z from a result, as a move-like operation does.
pub fn set_nz_flags(cpu: &mut ArmCpu, res: u32)
    requires
        old(cpu).wf(),
    ensures
        nz_set(final(cpu), old(cpu), bit31(res), res == 0),
{
    let n = res >= 0x8000_0000;
    let z = res == 0;
    let c = cpu.registers.getf_c();
    let v = cpu.registers.getf_v();
    cpu.registers.put_flags(n, z, c, v);
}

/// Sets N and Z from a 64-bit result, as the long multiplies do.
pub fn set_nz_flags_64(cpu: &mut ArmCpu, res: u64)
    requires
        old(cpu).wf(),
    ensures
        nz_set(final(cpu), old(cpu), bit63(res), res == 0),
{
    let n = res >= 0x8000_0000_0000_0000;
    let z = res == 0;
    let c = cpu.registers.getf_c();
    let v = cpu.registers.getf_v();
    cpu.registers.put_flags(n, z, c, v);
}

/// ADD, setting all four flags.
pub fn arm_alu_adds(cpu: &mut ArmCpu, lhs: u32, rhs: u32) -> (res: u32)
    requires
        old(cpu).wf(),
    ensures
        res == lhs.wrapping_add(rhs),
        flags_set(
            final(cpu),
            old(cpu),
            bit31(res),
            res == 0,
            carry_add(lhs, rhs),
            overflow_add(lhs, rhs, res),
        ),
{
    let res = lhs.wrapping_add(rhs);
    let n = res >= 0x8000_0000;
    let z = res == 0;
    let c = lhs > u32::MAX - rhs;
    let v = ((lhs >= 0x8000_0000) == (rhs >= 0x8000_0000)) && ((res >= 0x8000_0000) != (lhs
        >= 0x8000_0000));
    cpu.registers.put_flags(n, z, c, v);
    res
}

/// ADC, setting all four flags.
pub fn arm_alu_adcs(cpu: &mut ArmCpu, lhs: u32, rhs: u32) -> (res: u32)
    requires
        old(cpu).wf(),
    ensures
        res == adc_result(lhs, rhs, old(cpu).registers.cpsr.c),
        flags_set(
            final(cpu),
            old(cpu),
            bit31(res),
            res == 0,
            carry_adc(lhs, rhs, old(cpu).registers.cpsr.c),
            overflow_add(lhs, rhs, res),
        ),
{
    let c_in: u64 = if cpu.registers.getf_c() {
        1
    } else {
        0
    };
    let wide: u64 = lhs as u64 + rhs as u64 + c_in;
    let res = (wide % 0x1_0000_0000) as u32;
    let n = res >= 0x8000_0000;
    let z = res == 0;
    let c = wide > 0xFFFF_FFFF;
    let v = ((lhs >= 0x8000_0000) == (rhs >= 0x8000_0000)) && ((res >= 0x8000_0000) != (lhs
        >= 0x8000_0000));
    cpu.registers.put_flags(n, z, c, v);
    res
}

/// SUB, setting all four flags.
pub fn arm_alu_subs(cpu: &mut ArmCpu, lhs: u32, rhs: u32) -> (res: u32)
    requires
        old(cpu).wf(),
    ensures
        res == lhs.wrapping_sub(rhs),
        flags_set(
            final(cpu),
            old(cpu),
            bit31(res),
            res == 0,
            carry_sub(lhs, rhs),
            overflow_sub(lhs, rhs, res),
        ),
{
    let res = lhs.wrapping_sub(rhs);
    let n = res >= 0x8000_0000;
    let z = res == 0;
    let c = lhs >= rhs;
    let v = ((lhs >= 0x8000_0000) != (rhs >= 0x8000_0000)) && ((res >= 0x8000_0000) != (lhs
        >= 0x8000_0000));
    cpu.registers.put_flags(n, z, c, v);
    res
}

/// RSB (`rhs - lhs`), setting all four flags.
pub fn arm_alu_rsbs(cpu: &mut ArmCpu, lhs: u32, rhs: u32) -> (res: u32)
    requires
        old(cpu).wf(),
    ensures
        res == rhs.wrapping_sub(lhs),
        flags_set(
            final(cpu),
            old(cpu),
            bit31(res),
            res == 0,
            carry_sub(rhs, lhs),
            overflow_sub(rhs, lhs, res),
        ),
{
    let res = rhs.wrapping_sub(lhs);
    let n = res >= 0x8000_0000;
    let z = res == 0;
    let c = rhs >= lhs;
    let v = ((rhs >= 0x8000_0000) != (lhs >= 0x8000_0000)) && ((res >= 0x8000_0000) != (rhs
        >= 0x8000_0000));
    cpu.registers.put_flags(n, z, c, v);
    res
}

/// SBC, setting all four flags.
pub fn arm_alu_sbcs(cpu: &mut ArmCpu, lhs: u32, rhs: u32) -> (res: u32)
    requires
        old(cpu).wf(),
    ensures
        res == sbc_result(lhs, rhs, old(cpu).registers.cpsr.c),
        flags_set(
            final(cpu),
            old(cpu),
            bit31(res),
            res == 0,
            carry_sbc(lhs, rhs, old(cpu).registers.cpsr.c),
            overflow_sub(lhs, rhs, res),
        ),
{
    let borrow: u32 = if cpu.registers.getf_c() {
        0
    } else {
        1
    };
    let res = lhs.wrapping_sub(rhs).wrapping_sub(borrow);
    let n = res >= 0x8000_0000;
    let z = res == 0;
    let c = lhs as u64 >= rhs as u64 + borrow as u64;
    let v = ((lhs >= 0x8000_0000) != (rhs >= 0x8000_0000)) && ((res >= 0x8000_0000) != (lhs
        >= 0x8000_0000));
    cpu.registers.put_flags(n, z, c, v);
    res
}

/// RSC (`rhs - lhs - borrow`), setting all four flags.
pub fn arm_alu_rscs(cpu: &mut ArmCpu, lhs: u32, rhs: u32) -> (res: u32)
    requires
        old(cpu).wf(),
    ensures
        res == sbc_result(rhs, lhs, old(cpu).registers.cpsr.c),
        flags_set(
            final(cpu),
            old(cpu),
            bit31(res),
            res == 0,
            carry_sbc(rhs, lhs, old(cpu).registers.cpsr.c),
            overflow_sub(rhs, lhs, res),
        ),
{
    let borrow: u32 = if cpu.registers.getf_c() {
        0
    } else {
        1
    };
    let res = rhs.wrapping_sub(lhs).wrapping_sub(borrow);
    let n = res >= 0x8000_0000;
    let z = res == 0;
    let c = rhs as u64 >= lhs as u64 + borrow as u64;
    let v = ((rhs >= 0x8000_0000) != (lhs >= 0x8000_0000)) && ((res >= 0x8000_0000) != (rhs
        >= 0x8000_0000));
    cpu.registers.put_flags(n, z, c, v);
    res
}

/// AND, setting N and Z.
pub fn arm_alu_ands(cpu: &mut ArmCpu, lhs: u32, rhs: u32) -> (res: u32)
    requires
        old(cpu).wf(),
    ensures
        res == lhs & rhs,
        nz_set(final(cpu), old(cpu), bit31(res), res == 0),
{
    let res = lhs & rhs;
    set_nz_flags(cpu, res);
    res
}

/// EOR, setting N and Z.
pub fn arm_alu_eors(cpu: &mut ArmCpu, lhs: u32, rhs: u32) -> (res: u32)
    requires
        old(cpu).wf(),
    ensures
        res == lhs ^ rhs,
        nz_set(final(cpu), old(cpu), bit31(res), res == 0),
{
    let res = lhs ^ rhs;
    set_nz_flags(cpu, res);
    res
}

/// ORR, setting N and Z.
pub fn arm_alu_orrs(cpu: &mut ArmCpu, lhs: u32, rhs: u32) -> (res: u32)
    requires
        old(cpu).wf(),
    ensures
        res == lhs | rhs,
        nz_set(final(cpu), old(cpu), bit31(res), res == 0),
{
    let res = lhs | rhs;
    set_nz_flags(cpu, res);
    res
}

/// BIC (`lhs & !rhs`), setting N and Z.
pub fn arm_alu_bics(cpu: &mut ArmCpu, lhs: u32, rhs: u32) -> (res: u32)
    requires
        old(cpu).wf(),
    ensures
        res == lhs & !rhs,
        nz_set(final(cpu), old(cpu), bit31(res), res == 0),
{
    let res = lhs & !rhs;
    set_nz_flags(cpu, res);
    res
}

/// MVN (`!rhs`), setting N and Z.
pub fn arm_alu_mvns(cpu: &mut ArmCpu, lhs: u32, rhs: u32) -> (res: u32)
    requires
        old(cpu).wf(),
    ensures
        res == !rhs,
        nz_set(final(cpu), old(cpu), bit31(res), res == 0),
{
    let res = !rhs;
    set_nz_flags(cpu, res);
    res
}

/// MOV (`rhs`), setting N and Z.
pub fn arm_alu_movs(cpu: &mut ArmCpu, lhs: u32, rhs: u32) -> (res: u32)
    requires
        old(cpu).wf(),
    ensures
        res == rhs,
        nz_set(final(cpu), old(cpu), bit31(rhs), rhs == 0),
{
    set_nz_flags(cpu, rhs);
    rhs
}

/// TST (`lhs & rhs`, result dropped), setting N and Z.
pub fn arm_alu_tsts(cpu: &mut ArmCpu, lhs: u32, rhs: u32)
    requires
        old(cpu).wf(),
    ensures
        nz_set(final(cpu), old(cpu), bit31(lhs & rhs), lhs & rhs == 0),
{
    let res = lhs & rhs;
    set_nz_flags(cpu, res);
}

/// TEQ (`lhs ^ rhs`, result dropped), setting N and Z.
pub fn arm_alu_teqs(cpu: &mut ArmCpu, lhs: u32, rhs: u32)
    requires
        old(cpu).wf(),
    ensures
        nz_set(final(cpu), old(cpu), bit31(lhs ^ rhs), lhs ^ rhs == 0),
{
    let res = lhs ^ rhs;
    set_nz_flags(cpu, res);
}

/// CMP (`lhs - rhs`, result dropped), setting all four flags.
pub fn arm_alu_cmps(cpu: &mut ArmCpu, lhs: u32, rhs: u32)
    requires
        old(cpu).wf(),
    ensures
        flags_set(
            final(cpu),
            old(cpu),
            bit31(lhs.wrapping_sub(rhs)),
            lhs.wrapping_sub(rhs) == 0,
            carry_sub(lhs, rhs),
            overflow_sub(lhs, rhs, lhs.wrapping_sub(rhs)),
        ),
{
    let _ = arm_alu_subs(cpu, lhs, rhs);
}

/// CMN (`lhs + rhs`, result dropped), setting all four flags.
pub fn arm_alu_cmns(cpu: &mut ArmCpu, lhs: u32, rhs: u32)
    requires
        old(cpu).wf(),
    ensures
        flags_set(
            final(cpu),
            old(cpu),
            bit31(lhs.wrapping_add(rhs)),
            lhs.wrapping_add(rhs) == 0,
            carry_add(lhs, rhs),
            overflow_add(lhs, rhs, lhs.wrapping_add(rhs)),
        ),
{
    let _ = arm_alu_adds(cpu, lhs, rhs);
}

/// The CPSR is unchanged except for the carry flag, which now holds `c`;
/// registers, cycles and the halt flag are untouched.
pub open spec fn carry_set(new: &ArmCpu, prev: &ArmCpu, c: bool) -> bool {
    &&& new.registers.wf()
    &&& new.registers.same_gp(&prev.registers)
    &&& new.registers.same_spsr(&prev.registers)
    &&& new.registers.cpsr == (Psr { c, ..prev.registers.cpsr })
    &&& new.cycles == prev.cycles
    &&& new.halted == prev.halted
}

/// Rotate right by `r` places, `r` between 1 and 31.
pub open spec fn ror_spec(v: u32, r: u32) -> u32 {
    (v >> r) | v.wrapping_shl((32 - r) as u32)
}

/// Logical shift left by an immediate: LSL #0 passes the value and the
/// current carry through; otherwise the carry is the last bit shifted out.
pub open spec fn lsl_imm_spec(v: u32, s: u32, c_in: bool) -> (u32, bool) {
    if s == 0 {
        (v, c_in)
    } else {
        (v.wrapping_shl(s), (v >> ((32 - s) as u32)) % 2 == 1)
    }
}

/// Logical shift right by an immediate: the encoding LSR #0 means LSR #32
/// (result zero, carry from bit 31).
pub open spec fn lsr_imm_spec(v: u32, s: u32) -> (u32, bool) {
    if s == 0 {
        (0u32, bit31(v))
    } else {
        (v >> s, (v >> ((s - 1) as u32)) % 2 == 1)
    }
}

/// Arithmetic shift right by an immediate: the encoding ASR #0 means ASR #32
/// (result is the sign fill, carry from bit 31).
pub open spec fn asr_imm_spec(v: u32, s: u32) -> (u32, bool) {
    if s == 0 {
        (
            if bit31(v) {
                0xFFFF_FFFFu32
            } else {
                0u32
            },
            bit31(v),
        )
    } else {
        (((v as i32) >> s) as u32, (v >> ((s - 1) as u32)) % 2 == 1)
    }
}

/// Rotate right by an immediate: the encoding ROR #0 means RRX, a one-bit
/// rotate through the carry flag.
pub open spec fn ror_imm_spec(v: u32, s: u32, c_in: bool) -> (u32, bool) {
    if s == 0 {
        (
            (v >> 1) | (if c_in {
                0x8000_0000u32
            } else {
                0u32
            }),
            v % 2 == 1,
        )
    } else {
        (ror_spec(v, s), (v >> ((s - 1) as u32)) % 2 == 1)
    }
}

/// Logical shift left by a register amount (the bottom byte of Rs).
pub open spec fn lsl_reg_spec(v: u32, a: u32, c_in: bool) -> (u32, bool) {
    if a == 0 {
        (v, c_in)
    } else if a < 32 {
        (v.wrapping_shl(a), (v >> ((32 - a) as u32)) % 2 == 1)
    } else if a == 32 {
        (0u32, v % 2 == 1)
    } else {
        (0u32, false)
    }
}

/// Logical shift right by a register amount.
pub open spec fn lsr_reg_spec(v: u32, a: u32, c_in: bool) -> (u32, bool) {
    if a == 0 {
        (v, c_in)
    } else if a < 32 {
        (v >> a, (v >> ((a - 1) as u32)) % 2 == 1)
    } else if a == 32 {
        (0u32, bit31(v))
    } else {
        (0u32, false)
    }
}

/// Arithmetic shift right by a register amount.
pub open spec fn asr_reg_spec(v: u32, a: u32, c_in: bool) -> (u32, bool) {
    if a == 0 {
        (v, c_in)
    } else if a < 32 {
        (((v as i32) >> a) as u32, (v >> ((a - 1) as u32)) % 2 == 1)
    } else {
        (
            if bit31(v) {
                0xFFFF_FFFFu32
            } else {
                0u32
            },
            bit31(v),
        )
    }
}

/// Rotate right by a register amount: a nonzero multiple of 32 leaves the
/// value and sets the carry from bit 31.
pub open spec fn ror_reg_spec(v: u32, a: u32, c_in: bool) -> (u32, bool) {
    if a == 0 {
        (v, c_in)
    } else if a % 32 == 0 {
        (v, bit31(v))
    } else {
        (ror_spec(v, a % 32), (v >> ((a % 32 - 1) as u32)) % 2 == 1)
    }
}

/// The rotated 8-bit immediate operand of an ARM data-processing instruction:
/// bits 0-7 rotated right by twice bits 8-11. A nonzero rotation sets the
/// shifter carry from bit 31 of the result.
pub open spec fn dp_imm_spec(instr: u32, c_in: bool) -> (u32, bool) {
    let imm = instr % 0x100;
    let rot = ((instr >> 8) % 16) * 2;
    if rot == 0 {
        (imm, c_in)
    } else {
        (ror_spec(imm, (rot % 0x1_0000_0000) as u32), bit31(ror_spec(imm, (rot % 0x1_0000_0000) as u32)))
    }
}

pub fn shift_lsl_imm(v: u32, s: u32, c_in: bool) -> (r: (u32, bool))
    requires
        s < 32,
    ensures
        r == lsl_imm_spec(v, s, c_in),
{
    if s == 0 {
        (v, c_in)
    } else {
        (v.wrapping_shl(s), (v >> (32 - s)) % 2 == 1)
    }
}

pub fn shift_lsr_imm(v: u32, s: u32) -> (r: (u32, bool))
    requires
        s < 32,
    ensures
        r == lsr_imm_spec(v, s),
{
    if s == 0 {
        (0u32, v >= 0x8000_0000)
    } else {
        (v >> s, (v >> (s - 1)) % 2 == 1)
    }
}

pub fn shift_asr_imm(v: u32, s: u32) -> (r: (u32, bool))
    requires
        s < 32,
    ensures
        r == asr_imm_spec(v, s),
{
    if s == 0 {
        let sign = v >= 0x8000_0000;
        (
            if sign {
                0xFFFF_FFFFu32
            } else {
                0u32
            },
            sign,
        )
    } else {
        (((v as i32) >> s) as u32, (v >> (s - 1)) % 2 == 1)
    }
}

pub fn shift_ror_imm(v: u32, s: u32, c_in: bool) -> (r: (u32, bool))
    requires
        s < 32,
    ensures
        r == ror_imm_spec(v, s, c_in),
{
    if s == 0 {
        (
            (v >> 1) | (if c_in {
                0x8000_0000u32
            } else {
                0u32
            }),
            v % 2 == 1,
        )
    } else {
        ((v >> s) | v.wrapping_shl(32 - s), (v >> (s - 1)) % 2 == 1)
    }
}

pub fn shift_lsl_reg(v: u32, a: u32, c_in: bool) -> (r: (u32, bool))
    ensures
        r == lsl_reg_spec(v, a, c_in),
{
    if a == 0 {
        (v, c_in)
    } else if a < 32 {
        (v.wrapping_shl(a), (v >> (32 - a)) % 2 == 1)
    } else if a == 32 {
        (0u32, v % 2 == 1)
    } else {
        (0u32, false)
    }
}

pub fn shift_lsr_reg(v: u32, a: u32, c_in: bool) -> (r: (u32, bool))
    ensures
        r == lsr_reg_spec(v, a, c_in),
{
    if a == 0 {
        (v, c_in)
    } else if a < 32 {
        (v >> a, (v >> (a - 1)) % 2 == 1)
    } else if a == 32 {
        (0u32, v >= 0x8000_0000)
    } else {
        (0u32, false)
    }
}

pub fn shift_asr_reg(v: u32, a: u32, c_in: bool) -> (r: (u32, bool))
    ensures
        r == asr_reg_spec(v, a, c_in),
{
    if a == 0 {
        (v, c_in)
    } else if a < 32 {
        (((v as i32) >> a) as u32, (v >> (a - 1)) % 2 == 1)
    } else {
        let sign = v >= 0x8000_0000;
        (
            if sign {
                0xFFFF_FFFFu32
            } else {
                0u32
            },
            sign,
        )
    }
}

pub fn shift_ror_reg(v: u32, a: u32, c_in: bool) -> (r: (u32, bool))
    ensures
        r == ror_reg_spec(v, a, c_in),
{
    if a == 0 {
        (v, c_in)
    } else {
        let rot = a % 32;
        if rot == 0 {
            (v, v >= 0x8000_0000)
        } else {
            ((v >> rot) | v.wrapping_shl(32 - rot), (v >> (rot - 1)) % 2 == 1)
        }
    }
}

/// The rotated immediate operand with its shifter carry.
pub fn bs_imm(instr: u32, c_in: bool) -> (r: (u32, bool))
    ensures
        r == dp_imm_spec(instr, c_in),
{
    let imm = instr % 0x100;
    let rot = ((instr >> 8) % 16) * 2;
    if rot == 0 {
        (imm, c_in)
    } else {
        let res = (imm >> rot) | imm.wrapping_shl(32 - rot);
        (res, res >= 0x8000_0000)
    }
}

/// The rotated immediate operand alone, for instructions that never look at
/// the shifter carry.
pub fn bs_imm_nc(instr: u32) -> (r: u32)
    ensures
        r == dp_imm_spec(instr, false).0,
{
    bs_imm(instr, false).0
}

/// Thumb LSL by immediate: shifts, sets the carry flag as the shifter does,
/// and returns the result.
pub fn arm_alu_lli_s(cpu: &mut ArmCpu, v: u32, s: u32) -> (res: u32)
    requires
        old(cpu).wf(),
        s < 32,
    ensures
        res == lsl_imm_spec(v, s, old(cpu).registers.cpsr.c).0,
        carry_set(final(cpu), old(cpu), lsl_imm_spec(v, s, old(cpu).registers.cpsr.c).1),
{
    let (res, c) = shift_lsl_imm(v, s, cpu.registers.getf_c());
    cpu.registers.putf_c(c);
    res
}

/// Thumb LSR by immediate.
pub fn arm_alu_lri_s(cpu: &mut ArmCpu, v: u32, s: u32) -> (res: u32)
    requires
        old(cpu).wf(),
        s < 32,
    ensures
        res == lsr_imm_spec(v, s).0,
        carry_set(final(cpu), old(cpu), lsr_imm_spec(v, s).1),
{
    let (res, c) = shift_lsr_imm(v, s);
    cpu.registers.putf_c(c);
    res
}

/// Thumb ASR by immediate.
pub fn arm_alu_ari_s(cpu: &mut ArmCpu, v: u32, s: u32) -> (res: u32)
    requires
        old(cpu).wf(),
        s < 32,
    ensures
        res == asr_imm_spec(v, s).0,
        carry_set(final(cpu), old(cpu), asr_imm_spec(v, s).1),
{
    let (res, c) = shift_asr_imm(v, s);
    cpu.registers.putf_c(c);
    res
}

/// ROR by immediate (RRX when the immediate is zero).
pub fn arm_alu_rri_s(cpu: &mut ArmCpu, v: u32, s: u32) -> (res: u32)
    requires
        old(cpu).wf(),
        s < 32,
    ensures
        res == ror_imm_spec(v, s, old(cpu).registers.cpsr.c).0,
        carry_set(final(cpu), old(cpu), ror_imm_spec(v, s, old(cpu).registers.cpsr.c).1),
{
    let (res, c) = shift_ror_imm(v, s, cpu.registers.getf_c());
    cpu.registers.putf_c(c);
    res
}

/// LSL by a register amount.
pub fn arm_alu_llr_s(cpu: &mut ArmCpu, v: u32, a: u32) -> (res: u32)
    requires
        old(cpu).wf(),
    ensures
        res == lsl_reg_spec(v, a, old(cpu).registers.cpsr.c).0,
        carry_set(final(cpu), old(cpu), lsl_reg_spec(v, a, old(cpu).registers.cpsr.c).1),
{
    let (res, c) = shift_lsl_reg(v, a, cpu.registers.getf_c());
    cpu.registers.putf_c(c);
    res
}

/// LSR by a register amount.
pub fn arm_alu_lrr_s(cpu: &mut ArmCpu, v: u32, a: u32) -> (res: u32)
    requires
        old(cpu).wf(),
    ensures
        res == lsr_reg_spec(v, a, old(cpu).registers.cpsr.c).0,
        carry_set(final(cpu), old(cpu), lsr_reg_spec(v, a, old(cpu).registers.cpsr.c).1),
{
    let (res, c) = shift_lsr_reg(v, a, cpu.registers.getf_c());
    cpu.registers.putf_c(c);
    res
}

/// ASR by a register amount.
pub fn arm_alu_arr_s(cpu: &mut ArmCpu, v: u32, a: u32) -> (res: u32)
    requires
        old(cpu).wf(),
    ensures
        res == asr_reg_spec(v, a, old(cpu).registers.cpsr.c).0,
        carry_set(final(cpu), old(cpu), asr_reg_spec(v, a, old(cpu).registers.cpsr.c).1),
{
    let (res, c) = shift_asr_reg(v, a, cpu.registers.getf_c());
    cpu.registers.putf_c(c);
    res
}

/// ROR by a register amount.
pub fn arm_alu_rrr_s(cpu: &mut ArmCpu, v: u32, a: u32) -> (res: u32)
    requires
        old(cpu).wf(),
    ensures
        res == ror_reg_spec(v, a, old(cpu).registers.cpsr.c).0,
        carry_set(final(cpu), old(cpu), ror_reg_spec(v, a, old(cpu).registers.cpsr.c).1),
{
    let (res, c) = shift_ror_reg(v, a, cpu.registers.getf_c());
    cpu.registers.putf_c(c);
    res
}

/// The internal cycles a multiply spends: 1 to 4, one per significant 8-bit
/// chunk of the multiplier. For signed multiplies, leading all-one chunks are
/// as cheap as leading zeroes.
pub open spec fn multiply_cycles_spec(rhs: u32, signed: bool) -> u32 {
    if signed {
        if rhs < 0x100 || rhs >= 0xFFFF_FF00 {
            1
        } else if rhs < 0x1_0000 || rhs >= 0xFFFF_0000 {
            2
        } else if rhs < 0x100_0000 || rhs >= 0xFF00_0000 {
            3
        } else {
            4
        }
    } else {
        if rhs < 0x100 {
            1
        } else if rhs < 0x1_0000 {
            2
        } else if rhs < 0x100_0000 {
            3
        } else {
            4
        }
    }
}

pub fn internal_multiply_cycles(rhs: u32, signed: bool) -> (c: u32)
    ensures
        c == multiply_cycles_spec(rhs, signed),
        1 <= c <= 4,
{
    if signed {
        if rhs < 0x100 || rhs >= 0xFFFF_FF00 {
            1
        } else if rhs < 0x1_0000 || rhs >= 0xFFFF_0000 {
            2
        } else if rhs < 0x100_0000 || rhs >= 0xFF00_0000 {
            3
        } else {
            4
        }
    } else {
        if rhs < 0x100 {
            1
        } else if rhs < 0x1_0000 {
            2
        } else if rhs < 0x100_0000 {
            3
        } else {
            4
        }
    }
}

} // verus!
