//! The Thumb (16-bit) instruction handlers. Each handler takes the processor,
//! the memory bus and the fetched opcode, applies the instruction, and
//! returns the cycles it consumed; the caller accumulates them. R15 reads as
//! the instruction's own address plus 4, per the pipeline convention.

use vstd::prelude::*;
use crate::alu;
use crate::alu::bit31;
use crate::cpu::ArmCpu;
use crate::cpu::ArmMemory;
use crate::cpu::CpuException;
use crate::cpu::check_condition;
use crate::cpu::cond_passed_spec;
use crate::cpu::cpu_unchanged;
use crate::cpu::exception_entered;
use crate::cpu::ldr_result_spec;
use crate::cpu::mem_halfword;
use crate::cpu::mem_unchanged;
use crate::cpu::mem_word;
use crate::cpu::plain_halfword;
use crate::cpu::plain_unchanged;
use crate::cpu::plain_word;
use crate::cpu::byte_stored;
use crate::cpu::halfword_stored;
use crate::cpu::word_stored;
use crate::cpu::sets_reg;
use crate::cpu::sets_reg_psr;
use crate::cpu::sets_psr;
use crate::bits::sign_extend;
use crate::bits::sign_extend_spec;
use crate::registers::Psr;
use crate::registers::bank_index_spec;

verus! {

/// Destination register of the common three-bit Rd field.
pub open spec fn field_rd(opcode: u32) -> int {
    (opcode % 8) as int
}

/// Source register of the common three-bit Rs field.
pub open spec fn field_rs(opcode: u32) -> int {
    ((opcode >> 3) % 8) as int
}

/// The register named by bits 6-8 (Rn or Ro).
pub open spec fn field_rn(opcode: u32) -> int {
    ((opcode >> 6) % 8) as int
}

/// The shift immediate in bits 6-10.
pub open spec fn field_imm5(opcode: u32) -> u32 {
    (opcode >> 6) % 32
}

/// The destination register named by bits 8-10 of the immediate-operand
/// forms.
pub open spec fn field_rd8(opcode: u32) -> int {
    ((opcode >> 8) % 8) as int
}

/// Shift Rs left by a five-bit immediate into Rd, setting N, Z and the
/// shifter carry.
pub fn thumb_lsl_imm<M: ArmMemory>(cpu: &mut ArmCpu, memory: &mut M, opcode: u32) -> (c: u32)
    requires
        old(cpu).wf(),
    ensures
        1 <= c,
        *final(memory) == *old(memory),
        ({
            let lhs = old(cpu).registers.reg_spec(field_rs(opcode));
            let (res, carry) = alu::lsl_imm_spec(lhs, field_imm5(opcode), old(cpu).registers.cpsr.c);
            sets_reg_psr(
                final(cpu),
                old(cpu),
                field_rd(opcode),
                res,
                Psr { n: bit31(res), z: res == 0, c: carry, ..old(cpu).registers.cpsr },
            )
        }),
{
    let c = cpu.thumb_prefetch(memory);
    let rd = opcode % 8;
    let rs = (opcode >> 3) % 8;
    let lhs = cpu.registers.read(rs);
    let rhs = (opcode >> 6) % 32;
    let res = alu::arm_alu_lli_s(cpu, lhs, rhs);
    alu::set_nz_flags(cpu, res);
    cpu.registers.write(rd, res);
    c
}

/// Logical shift right of Rs by a five-bit immediate into Rd (the encoding 0
/// means a shift by 32).
pub fn thumb_lsr_imm<M: ArmMemory>(cpu: &mut ArmCpu, memory: &mut M, opcode: u32) -> (c: u32)
    requires
        old(cpu).wf(),
    ensures
        1 <= c,
        *final(memory) == *old(memory),
        ({
            let lhs = old(cpu).registers.reg_spec(field_rs(opcode));
            let (res, carry) = alu::lsr_imm_spec(lhs, field_imm5(opcode));
            sets_reg_psr(
                final(cpu),
                old(cpu),
                field_rd(opcode),
                res,
                Psr { n: bit31(res), z: res == 0, c: carry, ..old(cpu).registers.cpsr },
            )
        }),
{
    let c = cpu.thumb_prefetch(memory);
    let rd = opcode % 8;
    let rs = (opcode >> 3) % 8;
    let lhs = cpu.registers.read(rs);
    let rhs = (opcode >> 6) % 32;
    let res = alu::arm_alu_lri_s(cpu, lhs, rhs);
    alu::set_nz_flags(cpu, res);
    cpu.registers.write(rd, res);
    c
}

/// Arithmetic shift right of Rs by a five-bit immediate into Rd (the encoding
/// 0 means a shift by 32).
pub fn thumb_asr_imm<M: ArmMemory>(cpu: &mut ArmCpu, memory: &mut M, opcode: u32) -> (c: u32)
    requires
        old(cpu).wf(),
    ensures
        1 <= c,
        *final(memory) == *old(memory),
        ({
            let lhs = old(cpu).registers.reg_spec(field_rs(opcode));
            let (res, carry) = alu::asr_imm_spec(lhs, field_imm5(opcode));
            sets_reg_psr(
                final(cpu),
                old(cpu),
                field_rd(opcode),
                res,
                Psr { n: bit31(res), z: res == 0, c: carry, ..old(cpu).registers.cpsr },
            )
        }),
{
    let c = cpu.thumb_prefetch(memory);
    let rd = opcode % 8;
    let rs = (opcode >> 3) % 8;
    let lhs = cpu.registers.read(rs);
    let rhs = (opcode >> 6) % 32;
    let res = alu::arm_alu_ari_s(cpu, lhs, rhs);
    alu::set_nz_flags(cpu, res);
    cpu.registers.write(rd, res);
    c
}

/// Adds Rn to Rs into Rd, setting all four flags.
pub fn thumb_add_reg<M: ArmMemory>(cpu: &mut ArmCpu, memory: &mut M, opcode: u32) -> (c: u32)
    requires
        old(cpu).wf(),
    ensures
        1 <= c,
        *final(memory) == *old(memory),
        ({
            let lhs = old(cpu).registers.reg_spec(field_rs(opcode));
            let rhs = old(cpu).registers.reg_spec(field_rn(opcode));
            let res = lhs.wrapping_add(rhs);
            sets_reg_psr(
                final(cpu),
                old(cpu),
                field_rd(opcode),
                res,
                Psr {
                    n: bit31(res),
                    z: res == 0,
                    c: alu::carry_add(lhs, rhs),
                    v: alu::overflow_add(lhs, rhs, res),
                    ..old(cpu).registers.cpsr
                },
            )
        }),
{
    let c = cpu.thumb_prefetch(memory);
    let rd = opcode % 8;
    let rs = (opcode >> 3) % 8;
    let rn = (opcode >> 6) % 8;
    let lhs = cpu.registers.read(rs);
    let rhs = cpu.registers.read(rn);
    let res = alu::arm_alu_adds(cpu, lhs, rhs);
    cpu.registers.write(rd, res);
    c
}

/// Subtracts Rn from Rs into Rd, setting all four flags.
pub fn thumb_sub_reg<M: ArmMemory>(cpu: &mut ArmCpu, memory: &mut M, opcode: u32) -> (c: u32)
    requires
        old(cpu).wf(),
    ensures
        1 <= c,
        *final(memory) == *old(memory),
        ({
            let lhs = old(cpu).registers.reg_spec(field_rs(opcode));
            let rhs = old(cpu).registers.reg_spec(field_rn(opcode));
            let res = lhs.wrapping_sub(rhs);
            sets_reg_psr(
                final(cpu),
                old(cpu),
                field_rd(opcode),
                res,
                Psr {
                    n: bit31(res),
                    z: res == 0,
                    c: alu::carry_sub(lhs, rhs),
                    v: alu::overflow_sub(lhs, rhs, res),
                    ..old(cpu).registers.cpsr
                },
            )
        }),
{
    let c = cpu.thumb_prefetch(memory);
    let rd = opcode % 8;
    let rs = (opcode >> 3) % 8;
    let rn = (opcode >> 6) % 8;
    let lhs = cpu.registers.read(rs);
    let rhs = cpu.registers.read(rn);
    let res = alu::arm_alu_subs(cpu, lhs, rhs);
    cpu.registers.write(rd, res);
    c
}

/// Adds the three-bit immediate in bits 6-8 to Rs into Rd.
pub fn thumb_add_imm3<M: ArmMemory>(cpu: &mut ArmCpu, memory: &mut M, opcode: u32) -> (c: u32)
    requires
        old(cpu).wf(),
    ensures
        1 <= c,
        *final(memory) == *old(memory),
        ({
            let lhs = old(cpu).registers.reg_spec(field_rs(opcode));
            let rhs = (opcode >> 6) % 8;
            let res = lhs.wrapping_add(rhs);
            sets_reg_psr(
                final(cpu),
                old(cpu),
                field_rd(opcode),
                res,
                Psr {
                    n: bit31(res),
                    z: res == 0,
                    c: alu::carry_add(lhs, rhs),
                    v: alu::overflow_add(lhs, rhs, res),
                    ..old(cpu).registers.cpsr
                },
            )
        }),
{
    let c = cpu.thumb_prefetch(memory);
    let rd = opcode % 8;
    let rs = (opcode >> 3) % 8;
    let lhs = cpu.registers.read(rs);
    let rhs = (opcode >> 6) % 8;
    let res = alu::arm_alu_adds(cpu, lhs, rhs);
    cpu.registers.write(rd, res);
    c
}

/// Subtracts the three-bit immediate in bits 6-8 from Rs into Rd.
pub fn thumb_sub_imm3<M: ArmMemory>(cpu: &mut ArmCpu, memory: &mut M, opcode: u32) -> (c: u32)
    requires
        old(cpu).wf(),
    ensures
        1 <= c,
        *final(memory) == *old(memory),
        ({
            let lhs = old(cpu).registers.reg_spec(field_rs(opcode));
            let rhs = (opcode >> 6) % 8;
            let res = lhs.wrapping_sub(rhs);
            sets_reg_psr(
                final(cpu),
                old(cpu),
                field_rd(opcode),
                res,
                Psr {
                    n: bit31(res),
                    z: res == 0,
                    c: alu::carry_sub(lhs, rhs),
                    v: alu::overflow_sub(lhs, rhs, res),
                    ..old(cpu).registers.cpsr
                },
            )
        }),
{
    let c = cpu.thumb_prefetch(memory);
    let rd = opcode % 8;
    let rs = (opcode >> 3) % 8;
    let lhs = cpu.registers.read(rs);
    let rhs = (opcode >> 6) % 8;
    let res = alu::arm_alu_subs(cpu, lhs, rhs);
    cpu.registers.write(rd, res);
    c
}

/// MOV of an eight-bit immediate into `rd`: the immediate lands in the
/// register and sets N (never) and Z.
pub open spec fn mov_i8_post(newc: &ArmCpu, prevc: &ArmCpu, opcode: u32, rd: int) -> bool {
    sets_reg_psr(
        newc,
        prevc,
        rd,
        opcode % 0x100,
        Psr { n: false, z: opcode % 0x100 == 0, ..prevc.registers.cpsr },
    )
}

/// CMP of an eight-bit immediate against `rd`: flags from `rd - imm`, no
/// register written.
pub open spec fn cmp_i8_post(newc: &ArmCpu, prevc: &ArmCpu, opcode: u32, rd: int) -> bool {
    sets_psr(
        newc,
        prevc,
        ({
            let lhs = prevc.registers.reg_spec(rd);
            let rhs = opcode % 0x100;
            let res = lhs.wrapping_sub(rhs);
            Psr {
                n: bit31(res),
                z: res == 0,
                c: alu::carry_sub(lhs, rhs),
                v: alu::overflow_sub(lhs, rhs, res),
                ..prevc.registers.cpsr
            }
        }),
    )
}

/// ADD of an eight-bit immediate to `rd`, setting all four flags.
pub open spec fn add_i8_post(newc: &ArmCpu, prevc: &ArmCpu, opcode: u32, rd: int) -> bool {
    let lhs = prevc.registers.reg_spec(rd);
    let rhs = opcode % 0x100;
    let res = lhs.wrapping_add(rhs);
    sets_reg_psr(
        newc,
        prevc,
        rd,
        res,
        Psr {
            n: bit31(res),
            z: res == 0,
            c: alu::carry_add(lhs, rhs),
            v: alu::overflow_add(lhs, rhs, res),
            ..prevc.registers.cpsr
        },
    )
}

/// SUB of an eight-bit immediate from `rd`, setting all four flags.
pub open spec fn sub_i8_post(newc: &ArmCpu, prevc: &ArmCpu, opcode: u32, rd: int) -> bool {
    let lhs = prevc.registers.reg_spec(rd);
    let rhs = opcode % 0x100;
    let res = lhs.wrapping_sub(rhs);
    sets_reg_psr(
        newc,
        prevc,
        rd,
        res,
        Psr {
            n: bit31(res),
            z: res == 0,
            c: alu::carry_sub(lhs, rhs),
            v: alu::overflow_sub(lhs, rhs, res),
            ..prevc.registers.cpsr
        },
    )
}

fn thumb_mov_i8<M: ArmMemory>(cpu: &mut ArmCpu, memory: &mut M, opcode: u32, rd: u32) -> (c: u32)
    requires
        old(cpu).wf(),
        rd < 8,
    ensures
        1 <= c,
        *final(memory) == *old(memory),
        mov_i8_post(final(cpu), old(cpu), opcode, rd as int),
{
    let c = cpu.thumb_prefetch(memory);
    let rhs = opcode % 0x100;
    let res = alu::arm_alu_movs(cpu, 0, rhs);
    cpu.registers.write(rd, res);
    proof {
        assert(!bit31(opcode % 0x100));
    }
    c
}

fn thumb_cmp_i8<M: ArmMemory>(cpu: &mut ArmCpu, memory: &mut M, opcode: u32, rd: u32) -> (c: u32)
    requires
        old(cpu).wf(),
        rd < 8,
    ensures
        1 <= c,
        *final(memory) == *old(memory),
        cmp_i8_post(final(cpu), old(cpu), opcode, rd as int),
{
    let c = cpu.thumb_prefetch(memory);
    let lhs = cpu.registers.read(rd);
    let rhs = opcode % 0x100;
    alu::arm_alu_cmps(cpu, lhs, rhs);
    c
}

fn thumb_add_i8<M: ArmMemory>(cpu: &mut ArmCpu, memory: &mut M, opcode: u32, rd: u32) -> (c: u32)
    requires
        old(cpu).wf(),
        rd < 8,
    ensures
        1 <= c,
        *final(memory) == *old(memory),
        add_i8_post(final(cpu), old(cpu), opcode, rd as int),
{
    let c = cpu.thumb_prefetch(memory);
    let lhs = cpu.registers.read(rd);
    let rhs = opcode % 0x100;
    let res = alu::arm_alu_adds(cpu, lhs, rhs);
    cpu.registers.write(rd, res);
    c
}

fn thumb_sub_i8<M: ArmMemory>(cpu: &mut ArmCpu, memory: &mut M, opcode: u32, rd: u32) -> (c: u32)
    requires
        old(cpu).wf(),
        rd < 8,
    ensures
        1 <= c,
        *final(memory) == *old(memory),
        sub_i8_post(final(cpu), old(cpu), opcode, rd as int),
{
    let c = cpu.thumb_prefetch(memory);
    let lhs = cpu.registers.read(rd);
    let rhs = opcode % 0x100;
    let res = alu::arm_alu_subs(cpu, lhs, rhs);
    cpu.registers.write(rd, res);
    c
}

pub fn thumb_mov_i8_r0<M: ArmMemory>(cpu: &mut ArmCpu, memory: &mut M, opcode: u32) -> (c: u32)
    requires
        old(cpu).wf(),
    ensures
        1 <= c,
        *final(memory) == *old(memory),
        mov_i8_post(final(cpu), old(cpu), opcode, 0),
{
    thumb_mov_i8(cpu, memory, opcode, 0)
}

pub fn thumb_mov_i8_r1<M: ArmMemory>(cpu: &mut ArmCpu, memory: &mut M, opcode: u32) -> (c: u32)
    requires
        old(cpu).wf(),
    ensures
        1 <= c,
        *final(memory) == *old(memory),
        mov_i8_post(final(cpu), old(cpu), opcode, 1),
{
    thumb_mov_i8(cpu, memory, opcode, 1)
}

pub fn thumb_mov_i8_r2<M: ArmMemory>(cpu: &mut ArmCpu, memory: &mut M, opcode: u32) -> (c: u32)
    requires
        old(cpu).wf(),
    ensures
        1 <= c,
        *final(memory) == *old(memory),
        mov_i8_post(final(cpu), old(cpu), opcode, 2),
{
    thumb_mov_i8(cpu, memory, opcode, 2)
}

pub fn thumb_mov_i8_r3<M: ArmMemory>(cpu: &mut ArmCpu, memory: &mut M, opcode: u32) -> (c: u32)
    requires
        old(cpu).wf(),
    ensures
        1 <= c,
        *final(memory) == *old(memory),
        mov_i8_post(final(cpu), old(cpu), opcode, 3),
{
    thumb_mov_i8(cpu, memory, opcode, 3)
}

pub fn thumb_mov_i8_r4<M: ArmMemory>(cpu: &mut ArmCpu, memory: &mut M, opcode: u32) -> (c: u32)
    requires
        old(cpu).wf(),
    ensures
        1 <= c,
        *final(memory) == *old(memory),
        mov_i8_post(final(cpu), old(cpu), opcode, 4),
{
    thumb_mov_i8(cpu, memory, opcode, 4)
}

pub fn thumb_mov_i8_r5<M: ArmMemory>(cpu: &mut ArmCpu, memory: &mut M, opcode: u32) -> (c: u32)
    requires
        old(cpu).wf(),
    ensures
        1 <= c,
        *final(memory) == *old(memory),
        mov_i8_post(final(cpu), old(cpu), opcode, 5),
{
    thumb_mov_i8(cpu, memory, opcode, 5)
}

pub fn thumb_mov_i8_r6<M: ArmMemory>(cpu: &mut ArmCpu, memory: &mut M, opcode: u32) -> (c: u32)
    requires
        old(cpu).wf(),
    ensures
        1 <= c,
        *final(memory) == *old(memory),
        mov_i8_post(final(cpu), old(cpu), opcode, 6),
{
    thumb_mov_i8(cpu, memory, opcode, 6)
}

pub fn thumb_mov_i8_r7<M: ArmMemory>(cpu: &mut ArmCpu, memory: &mut M, opcode: u32) -> (c: u32)
    requires
        old(cpu).wf(),
    ensures
        1 <= c,
        *final(memory) == *old(memory),
        mov_i8_post(final(cpu), old(cpu), opcode, 7),
{
    thumb_mov_i8(cpu, memory, opcode, 7)
}

pub fn thumb_cmp_i8_r0<M: ArmMemory>(cpu: &mut ArmCpu, memory: &mut M, opcode: u32) -> (c: u32)
    requires
        old(cpu).wf(),
    ensures
        1 <= c,
        *final(memory) == *old(memory),
        cmp_i8_post(final(cpu), old(cpu), opcode, 0),
{
    thumb_cmp_i8(cpu, memory, opcode, 0)
}

pub fn thumb_cmp_i8_r1<M: ArmMemory>(cpu: &mut ArmCpu, memory: &mut M, opcode: u32) -> (c: u32)
    requires
        old(cpu).wf(),
    ensures
        1 <= c,
        *final(memory) == *old(memory),
        cmp_i8_post(final(cpu), old(cpu), opcode, 1),
{
    thumb_cmp_i8(cpu, memory, opcode, 1)
}

pub fn thumb_cmp_i8_r2<M: ArmMemory>(cpu: &mut ArmCpu, memory: &mut M, opcode: u32) -> (c: u32)
    requires
        old(cpu).wf(),
    ensures
        1 <= c,
        *final(memory) == *old(memory),
        cmp_i8_post(final(cpu), old(cpu), opcode, 2),
{
    thumb_cmp_i8(cpu, memory, opcode, 2)
}

pub fn thumb_cmp_i8_r3<M: ArmMemory>(cpu: &mut ArmCpu, memory: &mut M, opcode: u32) -> (c: u32)
    requires
        old(cpu).wf(),
    ensures
        1 <= c,
        *final(memory) == *old(memory),
        cmp_i8_post(final(cpu), old(cpu), opcode, 3),
{
    thumb_cmp_i8(cpu, memory, opcode, 3)
}

pub fn thumb_cmp_i8_r4<M: ArmMemory>(cpu: &mut ArmCpu, memory: &mut M, opcode: u32) -> (c: u32)
    requires
        old(cpu).wf(),
    ensures
        1 <= c,
        *final(memory) == *old(memory),
        cmp_i8_post(final(cpu), old(cpu), opcode, 4),
{
    thumb_cmp_i8(cpu, memory, opcode, 4)
}

pub fn thumb_cmp_i8_r5<M: ArmMemory>(cpu: &mut ArmCpu, memory: &mut M, opcode: u32) -> (c: u32)
    requires
        old(cpu).wf(),
    ensures
        1 <= c,
        *final(memory) == *old(memory),
        cmp_i8_post(final(cpu), old(cpu), opcode, 5),
{
    thumb_cmp_i8(cpu, memory, opcode, 5)
}

pub fn thumb_cmp_i8_r6<M: ArmMemory>(cpu: &mut ArmCpu, memory: &mut M, opcode: u32) -> (c: u32)
    requires
        old(cpu).wf(),
    ensures
        1 <= c,
        *final(memory) == *old(memory),
        cmp_i8_post(final(cpu), old(cpu), opcode, 6),
{
    thumb_cmp_i8(cpu, memory, opcode, 6)
}

pub fn thumb_cmp_i8_r7<M: ArmMemory>(cpu: &mut ArmCpu, memory: &mut M, opcode: u32) -> (c: u32)
    requires
        old(cpu).wf(),
    ensures
        1 <= c,
        *final(memory) == *old(memory),
        cmp_i8_post(final(cpu), old(cpu), opcode, 7),
{
    thumb_cmp_i8(cpu, memory, opcode, 7)
}

pub fn thumb_add_i8_r0<M: ArmMemory>(cpu: &mut ArmCpu, memory: &mut M, opcode: u32) -> (c: u32)
    requires
        old(cpu).wf(),
    ensures
        1 <= c,
        *final(memory) == *old(memory),
        add_i8_post(final(cpu), old(cpu), opcode, 0),
{
    thumb_add_i8(cpu, memory, opcode, 0)
}

pub fn thumb_add_i8_r1<M: ArmMemory>(cpu: &mut ArmCpu, memory: &mut M, opcode: u32) -> (c: u32)
    requires
        old(cpu).wf(),
    ensures
        1 <= c,
        *final(memory) == *old(memory),
        add_i8_post(final(cpu), old(cpu), opcode, 1),
{
    thumb_add_i8(cpu, memory, opcode, 1)
}

pub fn thumb_add_i8_r2<M: ArmMemory>(cpu: &mut ArmCpu, memory: &mut M, opcode: u32) -> (c: u32)
    requires
        old(cpu).wf(),
    ensures
        1 <= c,
        *final(memory) == *old(memory),
        add_i8_post(final(cpu), old(cpu), opcode, 2),
{
    thumb_add_i8(cpu, memory, opcode, 2)
}

pub fn thumb_add_i8_r3<M: ArmMemory>(cpu: &mut ArmCpu, memory: &mut M, opcode: u32) -> (c: u32)
    requires
        old(cpu).wf(),
    ensures
        1 <= c,
        *final(memory) == *old(memory),
        add_i8_post(final(cpu), old(cpu), opcode, 3),
{
    thumb_add_i8(cpu, memory, opcode, 3)
}

pub fn thumb_add_i8_r4<M: ArmMemory>(cpu: &mut ArmCpu, memory: &mut M, opcode: u32) -> (c: u32)
    requires
        old(cpu).wf(),
    ensures
        1 <= c,
        *final(memory) == *old(memory),
        add_i8_post(final(cpu), old(cpu), opcode, 4),
{
    thumb_add_i8(cpu, memory, opcode, 4)
}

pub fn thumb_add_i8_r5<M: ArmMemory>(cpu: &mut ArmCpu, memory: &mut M, opcode: u32) -> (c: u32)
    requires
        old(cpu).wf(),
    ensures
        1 <= c,
        *final(memory) == *old(memory),
        add_i8_post(final(cpu), old(cpu), opcode, 5),
{
    thumb_add_i8(cpu, memory, opcode, 5)
}

pub fn thumb_add_i8_r6<M: ArmMemory>(cpu: &mut ArmCpu, memory: &mut M, opcode: u32) -> (c: u32)
    requires
        old(cpu).wf(),
    ensures
        1 <= c,
        *final(memory) == *old(memory),
        add_i8_post(final(cpu), old(cpu), opcode, 6),
{
    thumb_add_i8(cpu, memory, opcode, 6)
}

pub fn thumb_add_i8_r7<M: ArmMemory>(cpu: &mut ArmCpu, memory: &mut M, opcode: u32) -> (c: u32)
    requires
        old(cpu).wf(),
    ensures
        1 <= c,
        *final(memory) == *old(memory),
        add_i8_post(final(cpu), old(cpu), opcode, 7),
{
    thumb_add_i8(cpu, memory, opcode, 7)
}

pub fn thumb_sub_i8_r0<M: ArmMemory>(cpu: &mut ArmCpu, memory: &mut M, opcode: u32) -> (c: u32)
    requires
        old(cpu).wf(),
    ensures
        1 <= c,
        *final(memory) == *old(memory),
        sub_i8_post(final(cpu), old(cpu), opcode, 0),
{
    thumb_sub_i8(cpu, memory, opcode, 0)
}

pub fn thumb_sub_i8_r1<M: ArmMemory>(cpu: &mut ArmCpu, memory: &mut M, opcode: u32) -> (c: u32)
    requires
        old(cpu).wf(),
    ensures
        1 <= c,
        *final(memory) == *old(memory),
        sub_i8_post(final(cpu), old(cpu), opcode, 1),
{
    thumb_sub_i8(cpu, memory, opcode, 1)
}

pub fn thumb_sub_i8_r2<M: ArmMemory>(cpu: &mut ArmCpu, memory: &mut M, opcode: u32) -> (c: u32)
    requires
        old(cpu).wf(),
    ensures
        1 <= c,
        *final(memory) == *old(memory),
        sub_i8_post(final(cpu), old(cpu), opcode, 2),
{
    thumb_sub_i8(cpu, memory, opcode, 2)
}

pub fn thumb_sub_i8_r3<M: ArmMemory>(cpu: &mut ArmCpu, memory: &mut M, opcode: u32) -> (c: u32)
    requires
        old(cpu).wf(),
    ensures
        1 <= c,
        *final(memory) == *old(memory),
        sub_i8_post(final(cpu), old(cpu), opcode, 3),
{
    thumb_sub_i8(cpu, memory, opcode, 3)
}

pub fn thumb_sub_i8_r4<M: ArmMemory>(cpu: &mut ArmCpu, memory: &mut M, opcode: u32) -> (c: u32)
    requires
        old(cpu).wf(),
    ensures
        1 <= c,
        *final(memory) == *old(memory),
        sub_i8_post(final(cpu), old(cpu), opcode, 4),
{
    thumb_sub_i8(cpu, memory, opcode, 4)
}

pub fn thumb_sub_i8_r5<M: ArmMemory>(cpu: &mut ArmCpu, memory: &mut M, opcode: u32) -> (c: u32)
    requires
        old(cpu).wf(),
    ensures
        1 <= c,
        *final(memory) == *old(memory),
        sub_i8_post(final(cpu), old(cpu), opcode, 5),
{
    thumb_sub_i8(cpu, memory, opcode, 5)
}

pub fn thumb_sub_i8_r6<M: ArmMemory>(cpu: &mut ArmCpu, memory: &mut M, opcode: u32) -> (c: u32)
    requires
        old(cpu).wf(),
    ensures
        1 <= c,
        *final(memory) == *old(memory),
        sub_i8_post(final(cpu), old(cpu), opcode, 6),
{
    thumb_sub_i8(cpu, memory, opcode, 6)
}

pub fn thumb_sub_i8_r7<M: ArmMemory>(cpu: &mut ArmCpu, memory: &mut M, opcode: u32) -> (c: u32)
    requires
        old(cpu).wf(),
    ensures
        1 <= c,
        *final(memory) == *old(memory),
        sub_i8_post(final(cpu), old(cpu), opcode, 7),
{
    thumb_sub_i8(cpu, memory, opcode, 7)
}

/// First ALU group: AND, EOR, LSL by register, LSR by register, selected by
/// bits 6-7, all on low registers Rd and Rs.
pub open spec fn dp_g1_post(newc: &ArmCpu, prevc: &ArmCpu, opcode: u32) -> bool {
    let rd = field_rd(opcode);
    let lhs = prevc.registers.reg_spec(rd);
    let rhs = prevc.registers.reg_spec(field_rs(opcode));
    let op = (opcode >> 6) % 4;
    let prev_psr = prevc.registers.cpsr;
    if op == 0 {
        sets_reg_psr(newc, prevc, rd, lhs & rhs, Psr { n: bit31(lhs & rhs), z: lhs & rhs == 0, ..prev_psr })
    } else if op == 1 {
        sets_reg_psr(newc, prevc, rd, lhs ^ rhs, Psr { n: bit31(lhs ^ rhs), z: lhs ^ rhs == 0, ..prev_psr })
    } else if op == 2 {
        let (res, carry) = alu::lsl_reg_spec(lhs, rhs % 0x100, prev_psr.c);
        sets_reg_psr(newc, prevc, rd, res, Psr { n: bit31(res), z: res == 0, c: carry, ..prev_psr })
    } else {
        let (res, carry) = alu::lsr_reg_spec(lhs, rhs % 0x100, prev_psr.c);
        sets_reg_psr(newc, prevc, rd, res, Psr { n: bit31(res), z: res == 0, c: carry, ..prev_psr })
    }
}

pub fn thumb_dp_g1<M: ArmMemory>(cpu: &mut ArmCpu, memory: &mut M, opcode: u32) -> (c: u32)
    requires
        old(cpu).wf(),
    ensures
        1 <= c,
        *final(memory) == *old(memory),
        dp_g1_post(final(cpu), old(cpu), opcode),
{
    let c = cpu.thumb_prefetch(memory);
    let rd = opcode % 8;
    let rs = (opcode >> 3) % 8;
    let lhs = cpu.registers.read(rd);
    let rhs = cpu.registers.read(rs);
    let op = (opcode >> 6) % 4;
    if op == 0 {
        let res = alu::arm_alu_ands(cpu, lhs, rhs);
        cpu.registers.write(rd, res);
    } else if op == 1 {
        let res = alu::arm_alu_eors(cpu, lhs, rhs);
        cpu.registers.write(rd, res);
    } else if op == 2 {
        let res = alu::arm_alu_llr_s(cpu, lhs, rhs % 0x100);
        alu::set_nz_flags(cpu, res);
        cpu.registers.write(rd, res);
    } else {
        let res = alu::arm_alu_lrr_s(cpu, lhs, rhs % 0x100);
        alu::set_nz_flags(cpu, res);
        cpu.registers.write(rd, res);
    }
    c
}

/// Second ALU group: ASR by register, ADC, SBC, ROR by register.
pub open spec fn dp_g2_post(newc: &ArmCpu, prevc: &ArmCpu, opcode: u32) -> bool {
    let rd = field_rd(opcode);
    let lhs = prevc.registers.reg_spec(rd);
    let rhs = prevc.registers.reg_spec(field_rs(opcode));
    let op = (opcode >> 6) % 4;
    let prev_psr = prevc.registers.cpsr;
    if op == 0 {
        let (res, carry) = alu::asr_reg_spec(lhs, rhs % 0x100, prev_psr.c);
        sets_reg_psr(newc, prevc, rd, res, Psr { n: bit31(res), z: res == 0, c: carry, ..prev_psr })
    } else if op == 1 {
        let res = alu::adc_result(lhs, rhs, prev_psr.c);
        sets_reg_psr(
            newc,
            prevc,
            rd,
            res,
            Psr {
                n: bit31(res),
                z: res == 0,
                c: alu::carry_adc(lhs, rhs, prev_psr.c),
                v: alu::overflow_add(lhs, rhs, res),
                ..prev_psr
            },
        )
    } else if op == 2 {
        let res = alu::sbc_result(lhs, rhs, prev_psr.c);
        sets_reg_psr(
            newc,
            prevc,
            rd,
            res,
            Psr {
                n: bit31(res),
                z: res == 0,
                c: alu::carry_sbc(lhs, rhs, prev_psr.c),
                v: alu::overflow_sub(lhs, rhs, res),
                ..prev_psr
            },
        )
    } else {
        let (res, carry) = alu::ror_reg_spec(lhs, rhs % 0x100, prev_psr.c);
        sets_reg_psr(newc, prevc, rd, res, Psr { n: bit31(res), z: res == 0, c: carry, ..prev_psr })
    }
}

pub fn thumb_dp_g2<M: ArmMemory>(cpu: &mut ArmCpu, memory: &mut M, opcode: u32) -> (c: u32)
    requires
        old(cpu).wf(),
    ensures
        1 <= c,
        *final(memory) == *old(memory),
        dp_g2_post(final(cpu), old(cpu), opcode),
{
    let c = cpu.thumb_prefetch(memory);
    let rd = opcode % 8;
    let rs = (opcode >> 3) % 8;
    let lhs = cpu.registers.read(rd);
    let rhs = cpu.registers.read(rs);
    let op = (opcode >> 6) % 4;
    if op == 0 {
        let res = alu::arm_alu_arr_s(cpu, lhs, rhs % 0x100);
        alu::set_nz_flags(cpu, res);
        cpu.registers.write(rd, res);
    } else if op == 1 {
        let res = alu::arm_alu_adcs(cpu, lhs, rhs);
        cpu.registers.write(rd, res);
    } else if op == 2 {
        let res = alu::arm_alu_sbcs(cpu, lhs, rhs);
        cpu.registers.write(rd, res);
    } else {
        let res = alu::arm_alu_rrr_s(cpu, lhs, rhs % 0x100);
        alu::set_nz_flags(cpu, res);
        cpu.registers.write(rd, res);
    }
    c
}

/// Third ALU group: TST, NEG, CMP, CMN.
pub open spec fn dp_g3_post(newc: &ArmCpu, prevc: &ArmCpu, opcode: u32) -> bool {
    let rd = field_rd(opcode);
    let lhs = prevc.registers.reg_spec(rd);
    let rhs = prevc.registers.reg_spec(field_rs(opcode));
    let op = (opcode >> 6) % 4;
    let prev_psr = prevc.registers.cpsr;
    if op == 0 {
        sets_psr(newc, prevc, Psr { n: bit31(lhs & rhs), z: lhs & rhs == 0, ..prev_psr })
    } else if op == 1 {
        let res = (0u32).wrapping_sub(rhs);
        sets_reg_psr(
            newc,
            prevc,
            rd,
            res,
            Psr {
                n: bit31(res),
                z: res == 0,
                c: alu::carry_sub(0, rhs),
                v: alu::overflow_sub(0, rhs, res),
                ..prev_psr
            },
        )
    } else if op == 2 {
        let res = lhs.wrapping_sub(rhs);
        sets_psr(
            newc,
            prevc,
            Psr {
                n: bit31(res),
                z: res == 0,
                c: alu::carry_sub(lhs, rhs),
                v: alu::overflow_sub(lhs, rhs, res),
                ..prev_psr
            },
        )
    } else {
        let res = lhs.wrapping_add(rhs);
        sets_psr(
            newc,
            prevc,
            Psr {
                n: bit31(res),
                z: res == 0,
                c: alu::carry_add(lhs, rhs),
                v: alu::overflow_add(lhs, rhs, res),
                ..prev_psr
            },
        )
    }
}

pub fn thumb_dp_g3<M: ArmMemory>(cpu: &mut ArmCpu, memory: &mut M, opcode: u32) -> (c: u32)
    requires
        old(cpu).wf(),
    ensures
        1 <= c,
        *final(memory) == *old(memory),
        dp_g3_post(final(cpu), old(cpu), opcode),
{
    let c = cpu.thumb_prefetch(memory);
    let rd = opcode % 8;
    let rs = (opcode >> 3) % 8;
    let lhs = cpu.registers.read(rd);
    let rhs = cpu.registers.read(rs);
    let op = (opcode >> 6) % 4;
    if op == 0 {
        alu::arm_alu_tsts(cpu, lhs, rhs);
    } else if op == 1 {
        let res = alu::arm_alu_rsbs(cpu, rhs, 0);
        cpu.registers.write(rd, res);
    } else if op == 2 {
        alu::arm_alu_cmps(cpu, lhs, rhs);
    } else {
        alu::arm_alu_cmns(cpu, lhs, rhs);
    }
    c
}

/// Fourth ALU group: ORR, MUL, BIC, MVN. The multiply also spends 1 to 4
/// internal cycles, charged to the bus.
pub open spec fn dp_g4_post(newc: &ArmCpu, prevc: &ArmCpu, opcode: u32) -> bool {
    let rd = field_rd(opcode);
    let lhs = prevc.registers.reg_spec(rd);
    let rhs = prevc.registers.reg_spec(field_rs(opcode));
    let op = (opcode >> 6) % 4;
    let prev_psr = prevc.registers.cpsr;
    if op == 0 {
        sets_reg_psr(newc, prevc, rd, lhs | rhs, Psr { n: bit31(lhs | rhs), z: lhs | rhs == 0, ..prev_psr })
    } else if op == 1 {
        let res = lhs.wrapping_mul(rhs);
        sets_reg_psr(newc, prevc, rd, res, Psr { n: bit31(res), z: res == 0, ..prev_psr })
    } else if op == 2 {
        sets_reg_psr(newc, prevc, rd, lhs & !rhs, Psr { n: bit31(lhs & !rhs), z: lhs & !rhs == 0, ..prev_psr })
    } else {
        sets_reg_psr(newc, prevc, rd, !rhs, Psr { n: bit31(!rhs), z: !rhs == 0u32, ..prev_psr })
    }
}

pub fn thumb_dp_g4<M: ArmMemory>(cpu: &mut ArmCpu, memory: &mut M, opcode: u32) -> (c: u32)
    requires
        old(cpu).wf(),
    ensures
        1 <= c,
        mem_unchanged(final(memory), old(memory)),
        dp_g4_post(final(cpu), old(cpu), opcode),
{
    let mut c = cpu.thumb_prefetch(memory);
    let rd = opcode % 8;
    let rs = (opcode >> 3) % 8;
    let lhs = cpu.registers.read(rd);
    let rhs = cpu.registers.read(rs);
    let op = (opcode >> 6) % 4;
    if op == 0 {
        let res = alu::arm_alu_orrs(cpu, lhs, rhs);
        cpu.registers.write(rd, res);
    } else if op == 1 {
        let res = lhs.wrapping_mul(rhs);
        cpu.registers.write(rd, res);
        alu::set_nz_flags(cpu, res);
        let icycles = alu::internal_multiply_cycles(rhs, false);
        c += icycles;
        memory.on_internal_cycles(icycles);
    } else if op == 2 {
        let res = alu::arm_alu_bics(cpu, lhs, rhs);
        cpu.registers.write(rd, res);
    } else {
        let res = alu::arm_alu_mvns(cpu, lhs, rhs);
        cpu.registers.write(rd, res);
    }
    c
}

/// The register named by bits 3-5 together with the hi-register bit 6.
pub open spec fn field_rs_h(opcode: u32) -> int {
    ((opcode >> 3) % 8 + if (opcode >> 6) % 2 == 1 {
        8u32
    } else {
        0u32
    }) as int
}

/// The register named by bits 0-2 together with the hi-register bit 7.
pub open spec fn field_rd_h(opcode: u32) -> int {
    (opcode % 8 + if (opcode >> 7) % 2 == 1 {
        8u32
    } else {
        0u32
    }) as int
}

/// Hi-register ADD (no flags). A destination of R15 branches to the sum with
/// its low bit cleared.
pub fn thumb_addh<M: ArmMemory>(cpu: &mut ArmCpu, memory: &mut M, opcode: u32) -> (c: u32)
    requires
        old(cpu).wf(),
    ensures
        1 <= c,
        *final(memory) == *old(memory),
        ({
            let rd = field_rd_h(opcode);
            let res = old(cpu).registers.reg_spec(rd).wrapping_add(
                old(cpu).registers.reg_spec(field_rs_h(opcode)),
            );
            if rd == 15 {
                sets_reg(final(cpu), old(cpu), 15, (res & 0xFFFF_FFFE).wrapping_add(2))
            } else {
                sets_reg(final(cpu), old(cpu), rd, res)
            }
        }),
{
    let c = cpu.thumb_prefetch(memory);
    let rd = opcode % 8 + if (opcode >> 7) % 2 == 1 {
        8
    } else {
        0
    };
    let rs = (opcode >> 3) % 8 + if (opcode >> 6) % 2 == 1 {
        8
    } else {
        0
    };
    let lhs = cpu.registers.read(rd);
    let rhs = cpu.registers.read(rs);
    let res = lhs.wrapping_add(rhs);
    cpu.registers.write(rd, res);
    if rd == 15 {
        let dest = cpu.registers.read(15) & 0xFFFF_FFFE;
        let refill = cpu.thumb_branch_to(dest, memory);
        proof {
            let r0 = old(cpu).registers.r@;
            assert(r0.update(15, res).update(15, (dest & 0xFFFF_FFFE).wrapping_add(2)) =~= r0.update(
                15,
                (dest & 0xFFFF_FFFE).wrapping_add(2),
            ));
            crate::bits::lemma_align_facts();
            assert((res & 0xFFFF_FFFE) & 0xFFFF_FFFE == res & 0xFFFF_FFFE);
        }
        return c + refill;
    }
    c
}

/// Hi-register CMP.
pub fn thumb_cmph<M: ArmMemory>(cpu: &mut ArmCpu, memory: &mut M, opcode: u32) -> (c: u32)
    requires
        old(cpu).wf(),
    ensures
        1 <= c,
        *final(memory) == *old(memory),
        ({
            let lhs = old(cpu).registers.reg_spec(field_rd_h(opcode));
            let rhs = old(cpu).registers.reg_spec(field_rs_h(opcode));
            let res = lhs.wrapping_sub(rhs);
            sets_psr(
                final(cpu),
                old(cpu),
                Psr {
                    n: bit31(res),
                    z: res == 0,
                    c: alu::carry_sub(lhs, rhs),
                    v: alu::overflow_sub(lhs, rhs, res),
                    ..old(cpu).registers.cpsr
                },
            )
        }),
{
    let c = cpu.thumb_prefetch(memory);
    let rd = opcode % 8 + if (opcode >> 7) % 2 == 1 {
        8
    } else {
        0
    };
    let rs = (opcode >> 3) % 8 + if (opcode >> 6) % 2 == 1 {
        8
    } else {
        0
    };
    let lhs = cpu.registers.read(rd);
    let rhs = cpu.registers.read(rs);
    alu::arm_alu_cmps(cpu, lhs, rhs);
    c
}

/// Hi-register MOV (no flags). A destination of R15 branches to the value
/// with its low bit cleared.
pub fn thumb_movh<M: ArmMemory>(cpu: &mut ArmCpu, memory: &mut M, opcode: u32) -> (c: u32)
    requires
        old(cpu).wf(),
    ensures
        1 <= c,
        *final(memory) == *old(memory),
        ({
            let rd = field_rd_h(opcode);
            let res = old(cpu).registers.reg_spec(field_rs_h(opcode));
            if rd == 15 {
                sets_reg(final(cpu), old(cpu), 15, (res & 0xFFFF_FFFE).wrapping_add(2))
            } else {
                sets_reg(final(cpu), old(cpu), rd, res)
            }
        }),
{
    let c = cpu.thumb_prefetch(memory);
    let rd = opcode % 8 + if (opcode >> 7) % 2 == 1 {
        8
    } else {
        0
    };
    let rs = (opcode >> 3) % 8 + if (opcode >> 6) % 2 == 1 {
        8
    } else {
        0
    };
    let rhs = cpu.registers.read(rs);
    cpu.registers.write(rd, rhs);
    if rd == 15 {
        let dest = cpu.registers.read(15) & 0xFFFF_FFFE;
        let refill = cpu.thumb_branch_to(dest, memory);
        proof {
            let r0 = old(cpu).registers.r@;
            assert(r0.update(15, rhs).update(15, (dest & 0xFFFF_FFFE).wrapping_add(2)) =~= r0.update(
                15,
                (dest & 0xFFFF_FFFE).wrapping_add(2),
            ));
            crate::bits::lemma_align_facts();
            assert((rhs & 0xFFFF_FFFE) & 0xFFFF_FFFE == rhs & 0xFFFF_FFFE);
        }
        return c + refill;
    }
    c
}

/// Branch and exchange: bit 0 of the target selects Thumb state; the program
/// counter takes the target with its state-appropriate low bits cleared.
pub fn thumb_bx_reg<M: ArmMemory>(cpu: &mut ArmCpu, memory: &mut M, opcode: u32) -> (c: u32)
    requires
        old(cpu).wf(),
    ensures
        1 <= c,
        *final(memory) == *old(memory),
        ({
            let dest = old(cpu).registers.reg_spec(field_rs_h(opcode));
            if dest % 2 == 0 {
                sets_reg_psr(
                    final(cpu),
                    old(cpu),
                    15,
                    (dest & 0xFFFF_FFFC).wrapping_add(4),
                    Psr { thumb: false, ..old(cpu).registers.cpsr },
                )
            } else {
                sets_reg(final(cpu), old(cpu), 15, (dest & 0xFFFF_FFFE).wrapping_add(2))
            }
        }),
{
    let c = cpu.thumb_prefetch(memory);
    let rs = (opcode >> 3) % 8 + if (opcode >> 6) % 2 == 1 {
        8
    } else {
        0
    };
    let dest = cpu.registers.read(rs);
    if dest % 2 == 0 {
        cpu.registers.clearf_t();
        let refill = cpu.arm_branch_to(dest & 0xFFFF_FFFC, memory);
        proof {
            crate::bits::lemma_align_facts();
            assert((dest & 0xFFFF_FFFC) % 4 == 0);
            assert((dest & 0xFFFF_FFFC) & 0xFFFF_FFFC == dest & 0xFFFF_FFFC);
        }
        c + refill
    } else {
        let refill = cpu.thumb_branch_to(dest & 0xFFFF_FFFE, memory);
        proof {
            crate::bits::lemma_align_facts();
            assert((dest & 0xFFFF_FFFE) & 0xFFFF_FFFE == dest & 0xFFFF_FFFE);
        }
        c + refill
    }
}

/// Loads the word at `addr` (force-aligned, then rotated so the addressed
/// byte lands in bits 0-7) into `rd`.
fn sdt_ldr<M: ArmMemory>(cpu: &mut ArmCpu, memory: &mut M, rd: u32, addr: u32) -> (c: u32)
    requires
        old(cpu).wf(),
        rd < 16,
    ensures
        1 <= c <= 64,
        *final(memory) == *old(memory),
        sets_reg(
            final(cpu),
            old(cpu),
            rd as int,
            ldr_result_spec(mem_word(old(memory), addr & 0xFFFF_FFFC), addr),
        ),
{
    let (w, c) = memory.read_data_word(addr, false);
    let rot = 8 * (addr % 4);
    let value = if rot == 0 {
        w
    } else {
        (w >> rot) | w.wrapping_shl(32 - rot)
    };
    cpu.registers.write(rd, value);
    c
}

/// Stores `rd` at the force-aligned word address.
fn sdt_str<M: ArmMemory>(cpu: &mut ArmCpu, memory: &mut M, rd: u32, addr: u32) -> (c: u32)
    requires
        old(cpu).wf(),
        rd < 16,
    ensures
        1 <= c <= 64,
        cpu_unchanged(final(cpu), old(cpu)),
        plain_unchanged(final(memory), old(memory)),
        plain_word(old(memory), addr & 0xFFFF_FFFC) ==> word_stored(
            final(memory),
            old(memory),
            addr & 0xFFFF_FFFC,
            old(cpu).registers.reg_spec(rd as int),
        ),
{
    let value = cpu.registers.read(rd);
    proof {
        crate::bits::lemma_align_facts();
    }
    let c = memory.write_data_word(addr, value, false);
    c
}

/// Store Rd at Rb plus register offset Ro.
pub fn thumb_str_reg<M: ArmMemory>(cpu: &mut ArmCpu, memory: &mut M, opcode: u32) -> (c: u32)
    requires
        old(cpu).wf(),
    ensures
        1 <= c,
        cpu_unchanged(final(cpu), old(cpu)),
        plain_unchanged(final(memory), old(memory)),
        ({
            let addr = old(cpu).registers.reg_spec(field_rs(opcode)).wrapping_add(
                old(cpu).registers.reg_spec(field_rn(opcode)),
            ) & 0xFFFF_FFFC;
            plain_word(old(memory), addr) ==> word_stored(
                final(memory),
                old(memory),
                addr,
                old(cpu).registers.reg_spec(field_rd(opcode)),
            )
        }),
{
    let c0 = cpu.thumb_prefetch(memory);
    let rd = opcode % 8;
    let rb = (opcode >> 3) % 8;
    let ro = (opcode >> 6) % 8;
    let base = cpu.registers.read(rb);
    let offset = cpu.registers.read(ro);
    let addr = base.wrapping_add(offset);
    let c1 = sdt_str(cpu, memory, rd, addr);
    c0 + c1
}

/// Load the word at Rb plus register offset Ro into Rd, rotating a misaligned
/// access so the addressed byte lands in bits 0-7.
pub fn thumb_ldr_reg<M: ArmMemory>(cpu: &mut ArmCpu, memory: &mut M, opcode: u32) -> (c: u32)
    requires
        old(cpu).wf(),
    ensures
        1 <= c,
        *final(memory) == *old(memory),
        ({
            let addr = old(cpu).registers.reg_spec(field_rs(opcode)).wrapping_add(
                old(cpu).registers.reg_spec(field_rn(opcode)),
            );
            sets_reg(
                final(cpu),
                old(cpu),
                field_rd(opcode),
                ldr_result_spec(mem_word(old(memory), addr & 0xFFFF_FFFC), addr),
            )
        }),
{
    let c0 = cpu.thumb_prefetch(memory);
    let rd = opcode % 8;
    let rb = (opcode >> 3) % 8;
    let ro = (opcode >> 6) % 8;
    let base = cpu.registers.read(rb);
    let offset = cpu.registers.read(ro);
    let addr = base.wrapping_add(offset);
    let c1 = sdt_ldr(cpu, memory, rd, addr);
    c0 + c1
}

/// Store the low byte of Rd at Rb plus register offset Ro.
pub fn thumb_strb_reg<M: ArmMemory>(cpu: &mut ArmCpu, memory: &mut M, opcode: u32) -> (c: u32)
    requires
        old(cpu).wf(),
    ensures
        1 <= c,
        cpu_unchanged(final(cpu), old(cpu)),
        plain_unchanged(final(memory), old(memory)),
        ({
            let addr = old(cpu).registers.reg_spec(field_rs(opcode)).wrapping_add(
                old(cpu).registers.reg_spec(field_rn(opcode)),
            );
            old(memory).plain(addr) ==> byte_stored(
                final(memory),
                old(memory),
                addr,
                (old(cpu).registers.reg_spec(field_rd(opcode)) % 0x100) as u8,
            )
        }),
{
    let c0 = cpu.thumb_prefetch(memory);
    let rd = opcode % 8;
    let rb = (opcode >> 3) % 8;
    let ro = (opcode >> 6) % 8;
    let base = cpu.registers.read(rb);
    let offset = cpu.registers.read(ro);
    let addr = base.wrapping_add(offset);
    let value = cpu.registers.read(rd);
    let c1 = memory.write_data_byte(addr, (value % 0x100) as u8, false);
    c0 + c1
}

/// Load the byte at Rb plus register offset Ro into Rd, zero-extended.
pub fn thumb_ldrb_reg<M: ArmMemory>(cpu: &mut ArmCpu, memory: &mut M, opcode: u32) -> (c: u32)
    requires
        old(cpu).wf(),
    ensures
        1 <= c,
        *final(memory) == *old(memory),
        ({
            let addr = old(cpu).registers.reg_spec(field_rs(opcode)).wrapping_add(
                old(cpu).registers.reg_spec(field_rn(opcode)),
            );
            sets_reg(final(cpu), old(cpu), field_rd(opcode), old(memory).byte_at(addr) as u32)
        }),
{
    let c0 = cpu.thumb_prefetch(memory);
    let rd = opcode % 8;
    let rb = (opcode >> 3) % 8;
    let ro = (opcode >> 6) % 8;
    let base = cpu.registers.read(rb);
    let offset = cpu.registers.read(ro);
    let addr = base.wrapping_add(offset);
    let (value, c1) = memory.read_data_byte(addr, false);
    cpu.registers.write(rd, value as u32);
    c0 + c1
}

/// Store the low halfword of Rd at the force-aligned address Rb plus Ro.
pub fn thumb_strh_reg<M: ArmMemory>(cpu: &mut ArmCpu, memory: &mut M, opcode: u32) -> (c: u32)
    requires
        old(cpu).wf(),
    ensures
        1 <= c,
        cpu_unchanged(final(cpu), old(cpu)),
        plain_unchanged(final(memory), old(memory)),
        ({
            let addr = old(cpu).registers.reg_spec(field_rs(opcode)).wrapping_add(
                old(cpu).registers.reg_spec(field_rn(opcode)),
            ) & 0xFFFF_FFFE;
            plain_halfword(old(memory), addr) ==> halfword_stored(
                final(memory),
                old(memory),
                addr,
                (old(cpu).registers.reg_spec(field_rd(opcode)) % 0x1_0000) as u16,
            )
        }),
{
    let c0 = cpu.thumb_prefetch(memory);
    let rd = opcode % 8;
    let rb = (opcode >> 3) % 8;
    let ro = (opcode >> 6) % 8;
    let base = cpu.registers.read(rb);
    let offset = cpu.registers.read(ro);
    let addr = base.wrapping_add(offset);
    let value = cpu.registers.read(rd);
    proof {
        crate::bits::lemma_align_facts();
    }
    let c1 = memory.write_data_halfword(addr, (value % 0x1_0000) as u16, false);
    c0 + c1
}

/// Load the byte at Rb plus Ro into Rd, sign-extended.
pub fn thumb_ldrsb_reg<M: ArmMemory>(cpu: &mut ArmCpu, memory: &mut M, opcode: u32) -> (c: u32)
    requires
        old(cpu).wf(),
    ensures
        1 <= c,
        *final(memory) == *old(memory),
        ({
            let addr = old(cpu).registers.reg_spec(field_rs(opcode)).wrapping_add(
                old(cpu).registers.reg_spec(field_rn(opcode)),
            );
            sets_reg(
                final(cpu),
                old(cpu),
                field_rd(opcode),
                sign_extend_spec(old(memory).byte_at(addr) as u32, 0x100),
            )
        }),
{
    let c0 = cpu.thumb_prefetch(memory);
    let rd = opcode % 8;
    let rb = (opcode >> 3) % 8;
    let ro = (opcode >> 6) % 8;
    let base = cpu.registers.read(rb);
    let offset = cpu.registers.read(ro);
    let addr = base.wrapping_add(offset);
    let (value, c1) = memory.read_data_byte(addr, false);
    let extended = sign_extend(value as u32, 0x100);
    cpu.registers.write(rd, extended);
    c0 + c1
}

/// Load the halfword at the force-aligned address Rb plus Ro into Rd,
/// zero-extended.
pub fn thumb_ldrh_reg<M: ArmMemory>(cpu: &mut ArmCpu, memory: &mut M, opcode: u32) -> (c: u32)
    requires
        old(cpu).wf(),
    ensures
        1 <= c,
        *final(memory) == *old(memory),
        ({
            let addr = old(cpu).registers.reg_spec(field_rs(opcode)).wrapping_add(
                old(cpu).registers.reg_spec(field_rn(opcode)),
            );
            sets_reg(
                final(cpu),
                old(cpu),
                field_rd(opcode),
                mem_halfword(old(memory), addr & 0xFFFF_FFFE) as u32,
            )
        }),
{
    let c0 = cpu.thumb_prefetch(memory);
    let rd = opcode % 8;
    let rb = (opcode >> 3) % 8;
    let ro = (opcode >> 6) % 8;
    let base = cpu.registers.read(rb);
    let offset = cpu.registers.read(ro);
    let addr = base.wrapping_add(offset);
    let (value, c1) = memory.read_data_halfword(addr, false);
    cpu.registers.write(rd, value as u32);
    c0 + c1
}

/// Load the halfword at the force-aligned address Rb plus Ro into Rd,
/// sign-extended.
pub fn thumb_ldrsh_reg<M: ArmMemory>(cpu: &mut ArmCpu, memory: &mut M, opcode: u32) -> (c: u32)
    requires
        old(cpu).wf(),
    ensures
        1 <= c,
        *final(memory) == *old(memory),
        ({
            let addr = old(cpu).registers.reg_spec(field_rs(opcode)).wrapping_add(
                old(cpu).registers.reg_spec(field_rn(opcode)),
            );
            sets_reg(
                final(cpu),
                old(cpu),
                field_rd(opcode),
                sign_extend_spec(mem_halfword(old(memory), addr & 0xFFFF_FFFE) as u32, 0x1_0000),
            )
        }),
{
    let c0 = cpu.thumb_prefetch(memory);
    let rd = opcode % 8;
    let rb = (opcode >> 3) % 8;
    let ro = (opcode >> 6) % 8;
    let base = cpu.registers.read(rb);
    let offset = cpu.registers.read(ro);
    let addr = base.wrapping_add(offset);
    let (value, c1) = memory.read_data_halfword(addr, false);
    let extended = sign_extend(value as u32, 0x1_0000);
    cpu.registers.write(rd, extended);
    c0 + c1
}

/// Store Rd at Rb plus a word-scaled five-bit immediate.
pub fn thumb_str_imm5<M: ArmMemory>(cpu: &mut ArmCpu, memory: &mut M, opcode: u32) -> (c: u32)
    requires
        old(cpu).wf(),
    ensures
        1 <= c,
        cpu_unchanged(final(cpu), old(cpu)),
        plain_unchanged(final(memory), old(memory)),
        ({
            let addr = old(cpu).registers.reg_spec(field_rs(opcode)).wrapping_add(
                (field_imm5(opcode) * 4) as u32,
            ) & 0xFFFF_FFFC;
            plain_word(old(memory), addr) ==> word_stored(
                final(memory),
                old(memory),
                addr,
                old(cpu).registers.reg_spec(field_rd(opcode)),
            )
        }),
{
    let c0 = cpu.thumb_prefetch(memory);
    let rd = opcode % 8;
    let rb = (opcode >> 3) % 8;
    let base = cpu.registers.read(rb);
    let offset = ((opcode >> 6) % 32) * 4;
    let addr = base.wrapping_add(offset);
    let c1 = sdt_str(cpu, memory, rd, addr);
    c0 + c1
}

/// Load the word at Rb plus a word-scaled five-bit immediate into Rd.
pub fn thumb_ldr_imm5<M: ArmMemory>(cpu: &mut ArmCpu, memory: &mut M, opcode: u32) -> (c: u32)
    requires
        old(cpu).wf(),
    ensures
        1 <= c,
        *final(memory) == *old(memory),
        ({
            let addr = old(cpu).registers.reg_spec(field_rs(opcode)).wrapping_add(
                (field_imm5(opcode) * 4) as u32,
            );
            sets_reg(
                final(cpu),
                old(cpu),
                field_rd(opcode),
                ldr_result_spec(mem_word(old(memory), addr & 0xFFFF_FFFC), addr),
            )
        }),
{
    let c0 = cpu.thumb_prefetch(memory);
    let rd = opcode % 8;
    let rb = (opcode >> 3) % 8;
    let base = cpu.registers.read(rb);
    let offset = ((opcode >> 6) % 32) * 4;
    let addr = base.wrapping_add(offset);
    let c1 = sdt_ldr(cpu, memory, rd, addr);
    c0 + c1
}

/// Store the low byte of Rd at Rb plus a five-bit immediate.
pub fn thumb_strb_imm5<M: ArmMemory>(cpu: &mut ArmCpu, memory: &mut M, opcode: u32) -> (c: u32)
    requires
        old(cpu).wf(),
    ensures
        1 <= c,
        cpu_unchanged(final(cpu), old(cpu)),
        plain_unchanged(final(memory), old(memory)),
        ({
            let addr = old(cpu).registers.reg_spec(field_rs(opcode)).wrapping_add(
                field_imm5(opcode),
            );
            old(memory).plain(addr) ==> byte_stored(
                final(memory),
                old(memory),
                addr,
                (old(cpu).registers.reg_spec(field_rd(opcode)) % 0x100) as u8,
            )
        }),
{
    let c0 = cpu.thumb_prefetch(memory);
    let rd = opcode % 8;
    let rb = (opcode >> 3) % 8;
    let base = cpu.registers.read(rb);
    let offset = (opcode >> 6) % 32;
    let addr = base.wrapping_add(offset);
    let value = cpu.registers.read(rd);
    let c1 = memory.write_data_byte(addr, (value % 0x100) as u8, false);
    c0 + c1
}

/// Load the byte at Rb plus a five-bit immediate into Rd, zero-extended.
pub fn thumb_ldrb_imm5<M: ArmMemory>(cpu: &mut ArmCpu, memory: &mut M, opcode: u32) -> (c: u32)
    requires
        old(cpu).wf(),
    ensures
        1 <= c,
        *final(memory) == *old(memory),
        ({
            let addr = old(cpu).registers.reg_spec(field_rs(opcode)).wrapping_add(
                field_imm5(opcode),
            );
            sets_reg(final(cpu), old(cpu), field_rd(opcode), old(memory).byte_at(addr) as u32)
        }),
{
    let c0 = cpu.thumb_prefetch(memory);
    let rd = opcode % 8;
    let rb = (opcode >> 3) % 8;
    let base = cpu.registers.read(rb);
    let offset = (opcode >> 6) % 32;
    let addr = base.wrapping_add(offset);
    let (value, c1) = memory.read_data_byte(addr, false);
    cpu.registers.write(rd, value as u32);
    c0 + c1
}

/// Store the low halfword of Rd at Rb plus a halfword-scaled five-bit
/// immediate.
pub fn thumb_strh_imm5<M: ArmMemory>(cpu: &mut ArmCpu, memory: &mut M, opcode: u32) -> (c: u32)
    requires
        old(cpu).wf(),
    ensures
        1 <= c,
        cpu_unchanged(final(cpu), old(cpu)),
        plain_unchanged(final(memory), old(memory)),
        ({
            let addr = old(cpu).registers.reg_spec(field_rs(opcode)).wrapping_add(
                (field_imm5(opcode) * 2) as u32,
            ) & 0xFFFF_FFFE;
            plain_halfword(old(memory), addr) ==> halfword_stored(
                final(memory),
                old(memory),
                addr,
                (old(cpu).registers.reg_spec(field_rd(opcode)) % 0x1_0000) as u16,
            )
        }),
{
    let c0 = cpu.thumb_prefetch(memory);
    let rd = opcode % 8;
    let rb = (opcode >> 3) % 8;
    let base = cpu.registers.read(rb);
    let offset = ((opcode >> 6) % 32) * 2;
    let addr = base.wrapping_add(offset);
    let value = cpu.registers.read(rd);
    proof {
        crate::bits::lemma_align_facts();
    }
    let c1 = memory.write_data_halfword(addr, (value % 0x1_0000) as u16, false);
    c0 + c1
}

/// Load the halfword at Rb plus a halfword-scaled five-bit immediate into Rd.
pub fn thumb_ldrh_imm5<M: ArmMemory>(cpu: &mut ArmCpu, memory: &mut M, opcode: u32) -> (c: u32)
    requires
        old(cpu).wf(),
    ensures
        1 <= c,
        *final(memory) == *old(memory),
        ({
            let addr = old(cpu).registers.reg_spec(field_rs(opcode)).wrapping_add(
                (field_imm5(opcode) * 2) as u32,
            );
            sets_reg(
                final(cpu),
                old(cpu),
                field_rd(opcode),
                mem_halfword(old(memory), addr & 0xFFFF_FFFE) as u32,
            )
        }),
{
    let c0 = cpu.thumb_prefetch(memory);
    let rd = opcode % 8;
    let rb = (opcode >> 3) % 8;
    let base = cpu.registers.read(rb);
    let offset = ((opcode >> 6) % 32) * 2;
    let addr = base.wrapping_add(offset);
    let (value, c1) = memory.read_data_halfword(addr, false);
    cpu.registers.write(rd, value as u32);
    c0 + c1
}

/// Store `rd` at SP plus a word-scaled eight-bit immediate: the stack slot
/// (force-aligned) takes the register, nothing else changes.
pub open spec fn strsp_post<M: ArmMemory>(
    newc: &ArmCpu,
    prevc: &ArmCpu,
    newm: &M,
    prevm: &M,
    opcode: u32,
    rd: int,
) -> bool {
    let addr = prevc.registers.reg_spec(13).wrapping_add(((opcode % 0x100) * 4) as u32)
        & 0xFFFF_FFFC;
    &&& cpu_unchanged(newc, prevc)
    &&& plain_unchanged(newm, prevm)
    &&& (plain_word(prevm, addr) ==> word_stored(
        newm,
        prevm,
        addr,
        prevc.registers.reg_spec(rd),
    ))
}

/// Load `rd` from SP plus a word-scaled eight-bit immediate.
pub open spec fn ldrsp_post<M: ArmMemory>(
    newc: &ArmCpu,
    prevc: &ArmCpu,
    prevm: &M,
    opcode: u32,
    rd: int,
) -> bool {
    let addr = prevc.registers.reg_spec(13).wrapping_add(((opcode % 0x100) * 4) as u32);
    sets_reg(newc, prevc, rd, ldr_result_spec(mem_word(prevm, addr & 0xFFFF_FFFC), addr))
}

/// Load `rd` from the word-aligned PC plus a word-scaled eight-bit immediate.
pub open spec fn ldrpc_post<M: ArmMemory>(
    newc: &ArmCpu,
    prevc: &ArmCpu,
    prevm: &M,
    opcode: u32,
    rd: int,
) -> bool {
    let addr = (prevc.registers.reg_spec(15) & 0xFFFF_FFFC).wrapping_add(
        ((opcode % 0x100) * 4) as u32,
    );
    sets_reg(newc, prevc, rd, mem_word(prevm, addr & 0xFFFF_FFFC))
}

/// ADD `rd`, PC, word-scaled immediate: bit 1 of the PC reads as zero.
pub open spec fn addpc_post(newc: &ArmCpu, prevc: &ArmCpu, opcode: u32, rd: int) -> bool {
    sets_reg(
        newc,
        prevc,
        rd,
        (prevc.registers.reg_spec(15) & 0xFFFF_FFFD).wrapping_add(((opcode % 0x100) * 4) as u32),
    )
}

/// ADD `rd`, SP, word-scaled immediate (taken as a 10-bit signed offset).
pub open spec fn addsp_post(newc: &ArmCpu, prevc: &ArmCpu, opcode: u32, rd: int) -> bool {
    sets_reg(
        newc,
        prevc,
        rd,
        prevc.registers.reg_spec(13).wrapping_add(
            sign_extend_spec(((opcode % 0x100) * 4) as u32, 0x400),
        ),
    )
}

fn thumb_strsp<M: ArmMemory>(cpu: &mut ArmCpu, memory: &mut M, opcode: u32, rd: u32) -> (c: u32)
    requires
        old(cpu).wf(),
        rd < 8,
    ensures
        1 <= c,
        strsp_post(final(cpu), old(cpu), final(memory), old(memory), opcode, rd as int),
{
    let c0 = cpu.thumb_prefetch(memory);
    let offset = (opcode % 0x100) * 4;
    let addr = cpu.registers.read(13).wrapping_add(offset);
    let c1 = sdt_str(cpu, memory, rd, addr);
    c0 + c1
}

fn thumb_ldrsp<M: ArmMemory>(cpu: &mut ArmCpu, memory: &mut M, opcode: u32, rd: u32) -> (c: u32)
    requires
        old(cpu).wf(),
        rd < 8,
    ensures
        1 <= c,
        *final(memory) == *old(memory),
        ldrsp_post(final(cpu), old(cpu), old(memory), opcode, rd as int),
{
    let c0 = cpu.thumb_prefetch(memory);
    let offset = (opcode % 0x100) * 4;
    let addr = cpu.registers.read(13).wrapping_add(offset);
    let c1 = sdt_ldr(cpu, memory, rd, addr);
    c0 + c1
}

fn thumb_ldr_pc<M: ArmMemory>(cpu: &mut ArmCpu, memory: &mut M, opcode: u32, rd: u32) -> (c: u32)
    requires
        old(cpu).wf(),
        rd < 8,
    ensures
        1 <= c,
        *final(memory) == *old(memory),
        ldrpc_post(final(cpu), old(cpu), old(memory), opcode, rd as int),
{
    let c0 = cpu.thumb_prefetch(memory);
    let offset = (opcode % 0x100) * 4;
    let pc = cpu.registers.read(15) & 0xFFFF_FFFC;
    let addr = pc.wrapping_add(offset);
    let (data, c1) = memory.read_data_word(addr, false);
    cpu.registers.write(rd, data);
    c0 + c1
}

fn thumb_addpc<M: ArmMemory>(cpu: &mut ArmCpu, memory: &mut M, opcode: u32, rd: u32) -> (c: u32)
    requires
        old(cpu).wf(),
        rd < 8,
    ensures
        1 <= c,
        *final(memory) == *old(memory),
        addpc_post(final(cpu), old(cpu), opcode, rd as int),
{
    let c = cpu.thumb_prefetch(memory);
    let offset = (opcode % 0x100) * 4;
    let pc = cpu.registers.read(15) & 0xFFFF_FFFD;
    cpu.registers.write(rd, pc.wrapping_add(offset));
    c
}

fn thumb_addsp_rd<M: ArmMemory>(cpu: &mut ArmCpu, memory: &mut M, opcode: u32, rd: u32) -> (c: u32)
    requires
        old(cpu).wf(),
        rd < 8,
    ensures
        1 <= c,
        *final(memory) == *old(memory),
        addsp_post(final(cpu), old(cpu), opcode, rd as int),
{
    let c = cpu.thumb_prefetch(memory);
    let offset = sign_extend((opcode % 0x100) * 4, 0x400);
    let sp = cpu.registers.read(13);
    cpu.registers.write(rd, sp.wrapping_add(offset));
    c
}

/// ADD SP, #imm7<<2, with bit 7 selecting subtraction.
pub fn thumb_addsp_imm7<M: ArmMemory>(cpu: &mut ArmCpu, memory: &mut M, opcode: u32) -> (c: u32)
    requires
        old(cpu).wf(),
    ensures
        1 <= c,
        *final(memory) == *old(memory),
        ({
            let offset = ((opcode % 0x80) * 4) as u32;
            let sp = old(cpu).registers.reg_spec(13);
            let res = if (opcode >> 7) % 2 == 1 {
                sp.wrapping_sub(offset)
            } else {
                sp.wrapping_add(offset)
            };
            sets_reg(final(cpu), old(cpu), 13, res)
        }),
{
    let c = cpu.thumb_prefetch(memory);
    let offset = (opcode % 0x80) * 4;
    let sp = cpu.registers.read(13);
    let res = if (opcode >> 7) % 2 == 1 {
        sp.wrapping_sub(offset)
    } else {
        sp.wrapping_add(offset)
    };
    cpu.registers.write(13, res);
    c
}

pub fn thumb_strsp_r0<M: ArmMemory>(cpu: &mut ArmCpu, memory: &mut M, opcode: u32) -> (c: u32)
    requires
        old(cpu).wf(),
    ensures
        1 <= c,
        strsp_post(final(cpu), old(cpu), final(memory), old(memory), opcode, 0),
{
    thumb_strsp(cpu, memory, opcode, 0)
}

pub fn thumb_strsp_r1<M: ArmMemory>(cpu: &mut ArmCpu, memory: &mut M, opcode: u32) -> (c: u32)
    requires
        old(cpu).wf(),
    ensures
        1 <= c,
        strsp_post(final(cpu), old(cpu), final(memory), old(memory), opcode, 1),
{
    thumb_strsp(cpu, memory, opcode, 1)
}

pub fn thumb_strsp_r2<M: ArmMemory>(cpu: &mut ArmCpu, memory: &mut M, opcode: u32) -> (c: u32)
    requires
        old(cpu).wf(),
    ensures
        1 <= c,
        strsp_post(final(cpu), old(cpu), final(memory), old(memory), opcode, 2),
{
    thumb_strsp(cpu, memory, opcode, 2)
}

pub fn thumb_strsp_r3<M: ArmMemory>(cpu: &mut ArmCpu, memory: &mut M, opcode: u32) -> (c: u32)
    requires
        old(cpu).wf(),
    ensures
        1 <= c,
        strsp_post(final(cpu), old(cpu), final(memory), old(memory), opcode, 3),
{
    thumb_strsp(cpu, memory, opcode, 3)
}

pub fn thumb_strsp_r4<M: ArmMemory>(cpu: &mut ArmCpu, memory: &mut M, opcode: u32) -> (c: u32)
    requires
        old(cpu).wf(),
    ensures
        1 <= c,
        strsp_post(final(cpu), old(cpu), final(memory), old(memory), opcode, 4),
{
    thumb_strsp(cpu, memory, opcode, 4)
}

pub fn thumb_strsp_r5<M: ArmMemory>(cpu: &mut ArmCpu, memory: &mut M, opcode: u32) -> (c: u32)
    requires
        old(cpu).wf(),
    ensures
        1 <= c,
        strsp_post(final(cpu), old(cpu), final(memory), old(memory), opcode, 5),
{
    thumb_strsp(cpu, memory, opcode, 5)
}

pub fn thumb_strsp_r6<M: ArmMemory>(cpu: &mut ArmCpu, memory: &mut M, opcode: u32) -> (c: u32)
    requires
        old(cpu).wf(),
    ensures
        1 <= c,
        strsp_post(final(cpu), old(cpu), final(memory), old(memory), opcode, 6),
{
    thumb_strsp(cpu, memory, opcode, 6)
}

pub fn thumb_strsp_r7<M: ArmMemory>(cpu: &mut ArmCpu, memory: &mut M, opcode: u32) -> (c: u32)
    requires
        old(cpu).wf(),
    ensures
        1 <= c,
        strsp_post(final(cpu), old(cpu), final(memory), old(memory), opcode, 7),
{
    thumb_strsp(cpu, memory, opcode, 7)
}

pub fn thumb_ldrsp_r0<M: ArmMemory>(cpu: &mut ArmCpu, memory: &mut M, opcode: u32) -> (c: u32)
    requires
        old(cpu).wf(),
    ensures
        1 <= c,
        *final(memory) == *old(memory),
        ldrsp_post(final(cpu), old(cpu), old(memory), opcode, 0),
{
    thumb_ldrsp(cpu, memory, opcode, 0)
}

pub fn thumb_ldrsp_r1<M: ArmMemory>(cpu: &mut ArmCpu, memory: &mut M, opcode: u32) -> (c: u32)
    requires
        old(cpu).wf(),
    ensures
        1 <= c,
        *final(memory) == *old(memory),
        ldrsp_post(final(cpu), old(cpu), old(memory), opcode, 1),
{
    thumb_ldrsp(cpu, memory, opcode, 1)
}

pub fn thumb_ldrsp_r2<M: ArmMemory>(cpu: &mut ArmCpu, memory: &mut M, opcode: u32) -> (c: u32)
    requires
        old(cpu).wf(),
    ensures
        1 <= c,
        *final(memory) == *old(memory),
        ldrsp_post(final(cpu), old(cpu), old(memory), opcode, 2),
{
    thumb_ldrsp(cpu, memory, opcode, 2)
}

pub fn thumb_ldrsp_r3<M: ArmMemory>(cpu: &mut ArmCpu, memory: &mut M, opcode: u32) -> (c: u32)
    requires
        old(cpu).wf(),
    ensures
        1 <= c,
        *final(memory) == *old(memory),
        ldrsp_post(final(cpu), old(cpu), old(memory), opcode, 3),
{
    thumb_ldrsp(cpu, memory, opcode, 3)
}

pub fn thumb_ldrsp_r4<M: ArmMemory>(cpu: &mut ArmCpu, memory: &mut M, opcode: u32) -> (c: u32)
    requires
        old(cpu).wf(),
    ensures
        1 <= c,
        *final(memory) == *old(memory),
        ldrsp_post(final(cpu), old(cpu), old(memory), opcode, 4),
{
    thumb_ldrsp(cpu, memory, opcode, 4)
}

pub fn thumb_ldrsp_r5<M: ArmMemory>(cpu: &mut ArmCpu, memory: &mut M, opcode: u32) -> (c: u32)
    requires
        old(cpu).wf(),
    ensures
        1 <= c,
        *final(memory) == *old(memory),
        ldrsp_post(final(cpu), old(cpu), old(memory), opcode, 5),
{
    thumb_ldrsp(cpu, memory, opcode, 5)
}

pub fn thumb_ldrsp_r6<M: ArmMemory>(cpu: &mut ArmCpu, memory: &mut M, opcode: u32) -> (c: u32)
    requires
        old(cpu).wf(),
    ensures
        1 <= c,
        *final(memory) == *old(memory),
        ldrsp_post(final(cpu), old(cpu), old(memory), opcode, 6),
{
    thumb_ldrsp(cpu, memory, opcode, 6)
}

pub fn thumb_ldrsp_r7<M: ArmMemory>(cpu: &mut ArmCpu, memory: &mut M, opcode: u32) -> (c: u32)
    requires
        old(cpu).wf(),
    ensures
        1 <= c,
        *final(memory) == *old(memory),
        ldrsp_post(final(cpu), old(cpu), old(memory), opcode, 7),
{
    thumb_ldrsp(cpu, memory, opcode, 7)
}

pub fn thumb_ldr_pc_r0<M: ArmMemory>(cpu: &mut ArmCpu, memory: &mut M, opcode: u32) -> (c: u32)
    requires
        old(cpu).wf(),
    ensures
        1 <= c,
        *final(memory) == *old(memory),
        ldrpc_post(final(cpu), old(cpu), old(memory), opcode, 0),
{
    thumb_ldr_pc(cpu, memory, opcode, 0)
}

pub fn thumb_ldr_pc_r1<M: ArmMemory>(cpu: &mut ArmCpu, memory: &mut M, opcode: u32) -> (c: u32)
    requires
        old(cpu).wf(),
    ensures
        1 <= c,
        *final(memory) == *old(memory),
        ldrpc_post(final(cpu), old(cpu), old(memory), opcode, 1),
{
    thumb_ldr_pc(cpu, memory, opcode, 1)
}

pub fn thumb_ldr_pc_r2<M: ArmMemory>(cpu: &mut ArmCpu, memory: &mut M, opcode: u32) -> (c: u32)
    requires
        old(cpu).wf(),
    ensures
        1 <= c,
        *final(memory) == *old(memory),
        ldrpc_post(final(cpu), old(cpu), old(memory), opcode, 2),
{
    thumb_ldr_pc(cpu, memory, opcode, 2)
}

pub fn thumb_ldr_pc_r3<M: ArmMemory>(cpu: &mut ArmCpu, memory: &mut M, opcode: u32) -> (c: u32)
    requires
        old(cpu).wf(),
    ensures
        1 <= c,
        *final(memory) == *old(memory),
        ldrpc_post(final(cpu), old(cpu), old(memory), opcode, 3),
{
    thumb_ldr_pc(cpu, memory, opcode, 3)
}

pub fn thumb_ldr_pc_r4<M: ArmMemory>(cpu: &mut ArmCpu, memory: &mut M, opcode: u32) -> (c: u32)
    requires
        old(cpu).wf(),
    ensures
        1 <= c,
        *final(memory) == *old(memory),
        ldrpc_post(final(cpu), old(cpu), old(memory), opcode, 4),
{
    thumb_ldr_pc(cpu, memory, opcode, 4)
}

pub fn thumb_ldr_pc_r5<M: ArmMemory>(cpu: &mut ArmCpu, memory: &mut M, opcode: u32) -> (c: u32)
    requires
        old(cpu).wf(),
    ensures
        1 <= c,
        *final(memory) == *old(memory),
        ldrpc_post(final(cpu), old(cpu), old(memory), opcode, 5),
{
    thumb_ldr_pc(cpu, memory, opcode, 5)
}

pub fn thumb_ldr_pc_r6<M: ArmMemory>(cpu: &mut ArmCpu, memory: &mut M, opcode: u32) -> (c: u32)
    requires
        old(cpu).wf(),
    ensures
        1 <= c,
        *final(memory) == *old(memory),
        ldrpc_post(final(cpu), old(cpu), old(memory), opcode, 6),
{
    thumb_ldr_pc(cpu, memory, opcode, 6)
}

pub fn thumb_ldr_pc_r7<M: ArmMemory>(cpu: &mut ArmCpu, memory: &mut M, opcode: u32) -> (c: u32)
    requires
        old(cpu).wf(),
    ensures
        1 <= c,
        *final(memory) == *old(memory),
        ldrpc_post(final(cpu), old(cpu), old(memory), opcode, 7),
{
    thumb_ldr_pc(cpu, memory, opcode, 7)
}

pub fn thumb_addpc_r0<M: ArmMemory>(cpu: &mut ArmCpu, memory: &mut M, opcode: u32) -> (c: u32)
    requires
        old(cpu).wf(),
    ensures
        1 <= c,
        *final(memory) == *old(memory),
        addpc_post(final(cpu), old(cpu), opcode, 0),
{
    thumb_addpc(cpu, memory, opcode, 0)
}

pub fn thumb_addpc_r1<M: ArmMemory>(cpu: &mut ArmCpu, memory: &mut M, opcode: u32) -> (c: u32)
    requires
        old(cpu).wf(),
    ensures
        1 <= c,
        *final(memory) == *old(memory),
        addpc_post(final(cpu), old(cpu), opcode, 1),
{
    thumb_addpc(cpu, memory, opcode, 1)
}

pub fn thumb_addpc_r2<M: ArmMemory>(cpu: &mut ArmCpu, memory: &mut M, opcode: u32) -> (c: u32)
    requires
        old(cpu).wf(),
    ensures
        1 <= c,
        *final(memory) == *old(memory),
        addpc_post(final(cpu), old(cpu), opcode, 2),
{
    thumb_addpc(cpu, memory, opcode, 2)
}

pub fn thumb_addpc_r3<M: ArmMemory>(cpu: &mut ArmCpu, memory: &mut M, opcode: u32) -> (c: u32)
    requires
        old(cpu).wf(),
    ensures
        1 <= c,
        *final(memory) == *old(memory),
        addpc_post(final(cpu), old(cpu), opcode, 3),
{
    thumb_addpc(cpu, memory, opcode, 3)
}

pub fn thumb_addpc_r4<M: ArmMemory>(cpu: &mut ArmCpu, memory: &mut M, opcode: u32) -> (c: u32)
    requires
        old(cpu).wf(),
    ensures
        1 <= c,
        *final(memory) == *old(memory),
        addpc_post(final(cpu), old(cpu), opcode, 4),
{
    thumb_addpc(cpu, memory, opcode, 4)
}

pub fn thumb_addpc_r5<M: ArmMemory>(cpu: &mut ArmCpu, memory: &mut M, opcode: u32) -> (c: u32)
    requires
        old(cpu).wf(),
    ensures
        1 <= c,
        *final(memory) == *old(memory),
        addpc_post(final(cpu), old(cpu), opcode, 5),
{
    thumb_addpc(cpu, memory, opcode, 5)
}

pub fn thumb_addpc_r6<M: ArmMemory>(cpu: &mut ArmCpu, memory: &mut M, opcode: u32) -> (c: u32)
    requires
        old(cpu).wf(),
    ensures
        1 <= c,
        *final(memory) == *old(memory),
        addpc_post(final(cpu), old(cpu), opcode, 6),
{
    thumb_addpc(cpu, memory, opcode, 6)
}

pub fn thumb_addpc_r7<M: ArmMemory>(cpu: &mut ArmCpu, memory: &mut M, opcode: u32) -> (c: u32)
    requires
        old(cpu).wf(),
    ensures
        1 <= c,
        *final(memory) == *old(memory),
        addpc_post(final(cpu), old(cpu), opcode, 7),
{
    thumb_addpc(cpu, memory, opcode, 7)
}

pub fn thumb_addsp_r0<M: ArmMemory>(cpu: &mut ArmCpu, memory: &mut M, opcode: u32) -> (c: u32)
    requires
        old(cpu).wf(),
    ensures
        1 <= c,
        *final(memory) == *old(memory),
        addsp_post(final(cpu), old(cpu), opcode, 0),
{
    thumb_addsp_rd(cpu, memory, opcode, 0)
}

pub fn thumb_addsp_r1<M: ArmMemory>(cpu: &mut ArmCpu, memory: &mut M, opcode: u32) -> (c: u32)
    requires
        old(cpu).wf(),
    ensures
        1 <= c,
        *final(memory) == *old(memory),
        addsp_post(final(cpu), old(cpu), opcode, 1),
{
    thumb_addsp_rd(cpu, memory, opcode, 1)
}

pub fn thumb_addsp_r2<M: ArmMemory>(cpu: &mut ArmCpu, memory: &mut M, opcode: u32) -> (c: u32)
    requires
        old(cpu).wf(),
    ensures
        1 <= c,
        *final(memory) == *old(memory),
        addsp_post(final(cpu), old(cpu), opcode, 2),
{
    thumb_addsp_rd(cpu, memory, opcode, 2)
}

pub fn thumb_addsp_r3<M: ArmMemory>(cpu: &mut ArmCpu, memory: &mut M, opcode: u32) -> (c: u32)
    requires
        old(cpu).wf(),
    ensures
        1 <= c,
        *final(memory) == *old(memory),
        addsp_post(final(cpu), old(cpu), opcode, 3),
{
    thumb_addsp_rd(cpu, memory, opcode, 3)
}

pub fn thumb_addsp_r4<M: ArmMemory>(cpu: &mut ArmCpu, memory: &mut M, opcode: u32) -> (c: u32)
    requires
        old(cpu).wf(),
    ensures
        1 <= c,
        *final(memory) == *old(memory),
        addsp_post(final(cpu), old(cpu), opcode, 4),
{
    thumb_addsp_rd(cpu, memory, opcode, 4)
}

pub fn thumb_addsp_r5<M: ArmMemory>(cpu: &mut ArmCpu, memory: &mut M, opcode: u32) -> (c: u32)
    requires
        old(cpu).wf(),
    ensures
        1 <= c,
        *final(memory) == *old(memory),
        addsp_post(final(cpu), old(cpu), opcode, 5),
{
    thumb_addsp_rd(cpu, memory, opcode, 5)
}

pub fn thumb_addsp_r6<M: ArmMemory>(cpu: &mut ArmCpu, memory: &mut M, opcode: u32) -> (c: u32)
    requires
        old(cpu).wf(),
    ensures
        1 <= c,
        *final(memory) == *old(memory),
        addsp_post(final(cpu), old(cpu), opcode, 6),
{
    thumb_addsp_rd(cpu, memory, opcode, 6)
}

pub fn thumb_addsp_r7<M: ArmMemory>(cpu: &mut ArmCpu, memory: &mut M, opcode: u32) -> (c: u32)
    requires
        old(cpu).wf(),
    ensures
        1 <= c,
        *final(memory) == *old(memory),
        addsp_post(final(cpu), old(cpu), opcode, 7),
{
    thumb_addsp_rd(cpu, memory, opcode, 7)
}

/// Unconditional branch: an 11-bit halfword offset, sign-extended, relative
/// to the pipelined PC.
pub fn thumb_b<M: ArmMemory>(cpu: &mut ArmCpu, memory: &mut M, opcode: u32) -> (c: u32)
    requires
        old(cpu).wf(),
    ensures
        1 <= c,
        *final(memory) == *old(memory),
        ({
            let offset = sign_extend_spec(((opcode % 0x800) * 2) as u32, 0x1000);
            let dest = old(cpu).registers.reg_spec(15).wrapping_add(offset);
            sets_reg(final(cpu), old(cpu), 15, (dest & 0xFFFF_FFFE).wrapping_add(2))
        }),
{
    let c0 = cpu.thumb_prefetch(memory);
    let offset = sign_extend((opcode % 0x800) * 2, 0x1000);
    let pc = cpu.registers.read(15);
    let dest = pc.wrapping_add(offset);
    let c1 = cpu.thumb_branch_to(dest, memory);
    c0 + c1
}

/// What a conditional branch does: branches by the sign-extended eight-bit
/// halfword offset when the condition passes against the flags, and falls
/// through otherwise.
pub open spec fn b_cond_post(newc: &ArmCpu, prevc: &ArmCpu, opcode: u32, cond: u32) -> bool {
    if cond_passed_spec(cond, prevc.registers.cpsr) {
        let offset = sign_extend_spec(((opcode % 0x100) * 2) as u32, 0x200);
        let dest = prevc.registers.reg_spec(15).wrapping_add(offset);
        sets_reg(newc, prevc, 15, (dest & 0xFFFF_FFFE).wrapping_add(2))
    } else {
        cpu_unchanged(newc, prevc)
    }
}

fn thumb_b_cond<M: ArmMemory>(cpu: &mut ArmCpu, memory: &mut M, opcode: u32, cond: u32) -> (c: u32)
    requires
        old(cpu).wf(),
    ensures
        1 <= c,
        *final(memory) == *old(memory),
        b_cond_post(final(cpu), old(cpu), opcode, cond),
{
    if check_condition(cond, &cpu.registers) {
        let c0 = cpu.thumb_prefetch(memory);
        let offset = sign_extend((opcode % 0x100) * 2, 0x200);
        let pc = cpu.registers.read(15);
        let dest = pc.wrapping_add(offset);
        let c1 = cpu.thumb_branch_to(dest, memory);
        c0 + c1
    } else {
        cpu.thumb_prefetch(memory)
    }
}

/// The first half of the long branch with link: LR takes the pipelined PC
/// plus the sign-extended high offset shifted up twelve places.
pub fn thumb_bl_setup<M: ArmMemory>(cpu: &mut ArmCpu, memory: &mut M, opcode: u32) -> (c: u32)
    requires
        old(cpu).wf(),
    ensures
        1 <= c,
        *final(memory) == *old(memory),
        sets_reg(
            final(cpu),
            old(cpu),
            14,
            old(cpu).registers.reg_spec(15).wrapping_add(
                sign_extend_spec((opcode % 0x800).wrapping_shl(12), 0x80_0000),
            ),
        ),
{
    let c = cpu.thumb_prefetch(memory);
    let pc = cpu.registers.read(15);
    let off = sign_extend((opcode % 0x800).wrapping_shl(12), 0x80_0000);
    let setup = pc.wrapping_add(off);
    cpu.registers.write(14, setup);
    c
}

/// The second half of the long branch with link: branches to LR plus the low
/// offset doubled, and leaves the return address (the following instruction,
/// low bit set as the Thumb marker) in LR.
pub fn thumb_bl_off<M: ArmMemory>(cpu: &mut ArmCpu, memory: &mut M, opcode: u32) -> (c: u32)
    requires
        old(cpu).wf(),
    ensures
        1 <= c,
        *final(memory) == *old(memory),
        ({
            let pc = old(cpu).registers.reg_spec(15);
            let lr = old(cpu).registers.reg_spec(14);
            let dest = lr.wrapping_add(((opcode % 0x800) * 2) as u32) & 0xFFFF_FFFE;
            let mode = old(cpu).registers.cpsr.mode;
            &&& final(cpu).registers.wf()
            &&& final(cpu).registers.r@ == old(cpu).registers.r@.update(
                bank_index_spec(mode, 14),
                pc.wrapping_sub(2) | 1,
            ).update(15, dest.wrapping_add(2))
            &&& final(cpu).registers.cpsr == old(cpu).registers.cpsr
            &&& final(cpu).registers.same_spsr(&old(cpu).registers)
            &&& final(cpu).cycles == old(cpu).cycles
            &&& final(cpu).halted == old(cpu).halted
        }),
{
    let c0 = cpu.thumb_prefetch(memory);
    let pc = cpu.registers.read(15);
    let lr = cpu.registers.read(14);
    let off = (opcode % 0x800) * 2;
    let dest = lr.wrapping_add(off) & 0xFFFF_FFFE;
    cpu.registers.write(14, pc.wrapping_sub(2) | 1);
    let c1 = cpu.thumb_branch_to(dest, memory);
    proof {
        crate::bits::lemma_align_facts();
        assert((dest & 0xFFFF_FFFE) == dest);
    }
    c0 + c1
}

/// Software interrupt: enters Supervisor mode through the SWI vector with the
/// address of the following instruction saved as the return address.
pub fn thumb_swi<M: ArmMemory>(cpu: &mut ArmCpu, memory: &mut M, opcode: u32) -> (c: u32)
    requires
        old(cpu).wf(),
    ensures
        1 <= c,
        *final(memory) == *old(memory),
        exception_entered(
            final(cpu),
            old(cpu),
            CpuException::SWI,
            old(cpu).registers.reg_spec(15).wrapping_sub(2),
        ),
{
    let c0 = cpu.thumb_prefetch(memory);
    let ret = cpu.registers.read(15).wrapping_sub(2);
    let c1 = cpu.handle_exception(CpuException::SWI, memory, ret);
    c0 + c1
}

/// An undefined Thumb encoding: enters Undefined mode through its vector.
pub fn thumb_undefined<M: ArmMemory>(cpu: &mut ArmCpu, memory: &mut M, opcode: u32) -> (c: u32)
    requires
        old(cpu).wf(),
    ensures
        1 <= c,
        *final(memory) == *old(memory),
        exception_entered(
            final(cpu),
            old(cpu),
            CpuException::Undefined,
            old(cpu).registers.reg_spec(15).wrapping_sub(2),
        ),
{
    let c0 = cpu.thumb_prefetch(memory);
    let ret = cpu.registers.read(15).wrapping_sub(2);
    let c1 = cpu.handle_exception(CpuException::Undefined, memory, ret);
    c0 + c1
}

pub fn thumb_beq<M: ArmMemory>(cpu: &mut ArmCpu, memory: &mut M, opcode: u32) -> (c: u32)
    requires
        old(cpu).wf(),
    ensures
        1 <= c,
        *final(memory) == *old(memory),
        b_cond_post(final(cpu), old(cpu), opcode, 0),
{
    thumb_b_cond(cpu, memory, opcode, 0)
}

pub fn thumb_bne<M: ArmMemory>(cpu: &mut ArmCpu, memory: &mut M, opcode: u32) -> (c: u32)
    requires
        old(cpu).wf(),
    ensures
        1 <= c,
        *final(memory) == *old(memory),
        b_cond_post(final(cpu), old(cpu), opcode, 1),
{
    thumb_b_cond(cpu, memory, opcode, 1)
}

pub fn thumb_bcs<M: ArmMemory>(cpu: &mut ArmCpu, memory: &mut M, opcode: u32) -> (c: u32)
    requires
        old(cpu).wf(),
    ensures
        1 <= c,
        *final(memory) == *old(memory),
        b_cond_post(final(cpu), old(cpu), opcode, 2),
{
    thumb_b_cond(cpu, memory, opcode, 2)
}

pub fn thumb_bcc<M: ArmMemory>(cpu: &mut ArmCpu, memory: &mut M, opcode: u32) -> (c: u32)
    requires
        old(cpu).wf(),
    ensures
        1 <= c,
        *final(memory) == *old(memory),
        b_cond_post(final(cpu), old(cpu), opcode, 3),
{
    thumb_b_cond(cpu, memory, opcode, 3)
}

pub fn thumb_bmi<M: ArmMemory>(cpu: &mut ArmCpu, memory: &mut M, opcode: u32) -> (c: u32)
    requires
        old(cpu).wf(),
    ensures
        1 <= c,
        *final(memory) == *old(memory),
        b_cond_post(final(cpu), old(cpu), opcode, 4),
{
    thumb_b_cond(cpu, memory, opcode, 4)
}

pub fn thumb_bpl<M: ArmMemory>(cpu: &mut ArmCpu, memory: &mut M, opcode: u32) -> (c: u32)
    requires
        old(cpu).wf(),
    ensures
        1 <= c,
        *final(memory) == *old(memory),
        b_cond_post(final(cpu), old(cpu), opcode, 5),
{
    thumb_b_cond(cpu, memory, opcode, 5)
}

pub fn thumb_bvs<M: ArmMemory>(cpu: &mut ArmCpu, memory: &mut M, opcode: u32) -> (c: u32)
    requires
        old(cpu).wf(),
    ensures
        1 <= c,
        *final(memory) == *old(memory),
        b_cond_post(final(cpu), old(cpu), opcode, 6),
{
    thumb_b_cond(cpu, memory, opcode, 6)
}

pub fn thumb_bvc<M: ArmMemory>(cpu: &mut ArmCpu, memory: &mut M, opcode: u32) -> (c: u32)
    requires
        old(cpu).wf(),
    ensures
        1 <= c,
        *final(memory) == *old(memory),
        b_cond_post(final(cpu), old(cpu), opcode, 7),
{
    thumb_b_cond(cpu, memory, opcode, 7)
}

pub fn thumb_bhi<M: ArmMemory>(cpu: &mut ArmCpu, memory: &mut M, opcode: u32) -> (c: u32)
    requires
        old(cpu).wf(),
    ensures
        1 <= c,
        *final(memory) == *old(memory),
        b_cond_post(final(cpu), old(cpu), opcode, 8),
{
    thumb_b_cond(cpu, memory, opcode, 8)
}

pub fn thumb_bls<M: ArmMemory>(cpu: &mut ArmCpu, memory: &mut M, opcode: u32) -> (c: u32)
    requires
        old(cpu).wf(),
    ensures
        1 <= c,
        *final(memory) == *old(memory),
        b_cond_post(final(cpu), old(cpu), opcode, 9),
{
    thumb_b_cond(cpu, memory, opcode, 9)
}

pub fn thumb_bge<M: ArmMemory>(cpu: &mut ArmCpu, memory: &mut M, opcode: u32) -> (c: u32)
    requires
        old(cpu).wf(),
    ensures
        1 <= c,
        *final(memory) == *old(memory),
        b_cond_post(final(cpu), old(cpu), opcode, 10),
{
    thumb_b_cond(cpu, memory, opcode, 10)
}

pub fn thumb_blt<M: ArmMemory>(cpu: &mut ArmCpu, memory: &mut M, opcode: u32) -> (c: u32)
    requires
        old(cpu).wf(),
    ensures
        1 <= c,
        *final(memory) == *old(memory),
        b_cond_post(final(cpu), old(cpu), opcode, 11),
{
    thumb_b_cond(cpu, memory, opcode, 11)
}

pub fn thumb_bgt<M: ArmMemory>(cpu: &mut ArmCpu, memory: &mut M, opcode: u32) -> (c: u32)
    requires
        old(cpu).wf(),
    ensures
        1 <= c,
        *final(memory) == *old(memory),
        b_cond_post(final(cpu), old(cpu), opcode, 12),
{
    thumb_b_cond(cpu, memory, opcode, 12)
}

pub fn thumb_ble<M: ArmMemory>(cpu: &mut ArmCpu, memory: &mut M, opcode: u32) -> (c: u32)
    requires
        old(cpu).wf(),
    ensures
        1 <= c,
        *final(memory) == *old(memory),
        b_cond_post(final(cpu), old(cpu), opcode, 13),
{
    thumb_b_cond(cpu, memory, opcode, 13)
}

/// PUSH: stores the listed low registers below the stack pointer, lowest
/// register at the lowest address, and lowers SP by one word per register.
pub fn thumb_push<M: ArmMemory>(cpu: &mut ArmCpu, memory: &mut M, opcode: u32) -> (c: u32)
    requires
        old(cpu).wf(),
    ensures
        1 <= c,
        plain_unchanged(final(memory), old(memory)),
        ({
            let list = opcode % 0x100;
            let wb = old(cpu).registers.reg_spec(13).wrapping_sub(
                (4 * crate::block::popcount_low(list, 8)) as u32,
            );
            &&& sets_reg(final(cpu), old(cpu), 13, wb)
            &&& ((wb % 4 == 0 && crate::block::words_plain(old(memory), wb, list, 8)) ==> ({
                &&& forall|i: int|
                    0 <= i < 8 && crate::block::bit_set(list, i) ==> mem_word(
                        final(memory),
                        #[trigger] crate::block::transfer_addr(wb, list, i),
                    ) == old(cpu).registers.reg_spec(i)
                &&& forall|a: u32|
                    !crate::block::block_touched(wb, list, 8, a) ==> final(memory).byte_at(a)
                        == old(memory).byte_at(a)
            }))
        }),
{
    let c0 = cpu.thumb_prefetch(memory);
    let list = opcode % 0x100;
    let count = crate::block::count_set_bits(list, 8);
    let base = cpu.registers.read(13);
    let wb = base.wrapping_sub(count * 4);
    cpu.registers.write(13, wb);
    let mode = cpu.registers.read_mode();
    proof {
        assert forall|i: int| 0 <= i < 8 implies cpu.registers.reg_with_mode_spec(mode, i) == old(
            cpu,
        ).registers.reg_spec(i) by {
            crate::registers::lemma_bank_index_bounds(mode, i);
            crate::registers::lemma_bank_index_injective(mode, i, 13);
        }
    }
    let c1 = crate::block::store_block(cpu, memory, mode, wb, list, 8);
    c0 + c1
}

/// PUSH with LR: as `thumb_push`, with the link register stored above the
/// listed low registers.
pub fn thumb_push_lr<M: ArmMemory>(cpu: &mut ArmCpu, memory: &mut M, opcode: u32) -> (c: u32)
    requires
        old(cpu).wf(),
    ensures
        1 <= c,
        plain_unchanged(final(memory), old(memory)),
        ({
            let list = (opcode % 0x100) | 0x4000;
            let wb = old(cpu).registers.reg_spec(13).wrapping_sub(
                (4 * crate::block::popcount_low(list, 16)) as u32,
            );
            &&& sets_reg(final(cpu), old(cpu), 13, wb)
            &&& ((wb % 4 == 0 && crate::block::words_plain(old(memory), wb, list, 16)) ==> ({
                &&& forall|i: int|
                    0 <= i < 16 && crate::block::bit_set(list, i) ==> mem_word(
                        final(memory),
                        #[trigger] crate::block::transfer_addr(wb, list, i),
                    ) == old(cpu).registers.reg_spec(i)
                &&& forall|a: u32|
                    !crate::block::block_touched(wb, list, 16, a) ==> final(memory).byte_at(a)
                        == old(memory).byte_at(a)
            }))
        }),
{
    let c0 = cpu.thumb_prefetch(memory);
    let list = (opcode % 0x100) | 0x4000;
    let count = crate::block::count_set_bits(list, 16);
    let base = cpu.registers.read(13);
    let wb = base.wrapping_sub(count * 4);
    cpu.registers.write(13, wb);
    let mode = cpu.registers.read_mode();
    proof {
        assert forall|i: int|
            0 <= i < 16 && i != 13 implies cpu.registers.reg_with_mode_spec(mode, i) == old(
            cpu,
        ).registers.reg_spec(i) by {
            crate::registers::lemma_bank_index_bounds(mode, i);
            crate::registers::lemma_bank_index_injective(mode, i, 13);
        }
        assert(!crate::block::bit_set(list, 13)) by (bit_vector)
            requires
                list == (opcode % 0x100) | 0x4000,
        ;
    }
    let c1 = crate::block::store_block(cpu, memory, mode, wb, list, 16);
    c0 + c1
}

/// POP: loads the listed low registers from the stack, lowest register from
/// the lowest address, and raises SP by one word per register. One internal
/// cycle moves the last word into its register.
pub fn thumb_pop<M: ArmMemory>(cpu: &mut ArmCpu, memory: &mut M, opcode: u32) -> (c: u32)
    requires
        old(cpu).wf(),
    ensures
        1 <= c,
        mem_unchanged(final(memory), old(memory)),
        ({
            let list = opcode % 0x100;
            let base = old(cpu).registers.reg_spec(13);
            let wb = base.wrapping_add((4 * crate::block::popcount_low(list, 8)) as u32);
            &&& final(cpu).registers.wf()
            &&& final(cpu).registers.cpsr == old(cpu).registers.cpsr
            &&& final(cpu).registers.same_spsr(&old(cpu).registers)
            &&& final(cpu).cycles == old(cpu).cycles
            &&& final(cpu).halted == old(cpu).halted
            &&& forall|k: int|
                #![trigger final(cpu).registers.reg_spec(k)]
                #![trigger crate::block::transfer_addr(base, list, k)]
                0 <= k < 16 ==> final(cpu).registers.reg_spec(k) == if k < 8
                    && crate::block::bit_set(list, k) {
                    mem_word(
                        old(memory),
                        crate::block::transfer_addr(base, list, k) & 0xFFFF_FFFC,
                    )
                } else if k == 13 {
                    wb
                } else {
                    old(cpu).registers.reg_spec(k)
                }
        }),
{
    let c0 = cpu.thumb_prefetch(memory);
    let list = opcode % 0x100;
    let count = crate::block::count_set_bits(list, 8);
    let base = cpu.registers.read(13);
    cpu.registers.write(13, base.wrapping_add(count * 4));
    let mode = cpu.registers.read_mode();
    proof {
        assert(!crate::block::bit_set(list, 15)) by (bit_vector)
            requires
                list == opcode % 0x100,
        ;
        assert forall|i: int|
            0 <= i < 16 && i != 13 implies cpu.registers.reg_with_mode_spec(mode, i) == old(
            cpu,
        ).registers.reg_spec(i) by {
            crate::registers::lemma_bank_index_bounds(mode, i);
            crate::registers::lemma_bank_index_injective(mode, i, 13);
        }
    }
    let c1 = crate::block::load_block(cpu, memory, mode, base, list, 8);
    memory.on_internal_cycles(1);
    c0 + c1 + 1
}

/// POP with PC: as `thumb_pop`, then branches to the word above the listed
/// registers with its low bit cleared.
pub fn thumb_pop_pc<M: ArmMemory>(cpu: &mut ArmCpu, memory: &mut M, opcode: u32) -> (c: u32)
    requires
        old(cpu).wf(),
    ensures
        1 <= c,
        mem_unchanged(final(memory), old(memory)),
        ({
            let list = opcode % 0x100;
            let base = old(cpu).registers.reg_spec(13);
            let count = crate::block::popcount_low(list, 8);
            let wb = base.wrapping_add((4 * (count + 1)) as u32);
            let pc_addr = base.wrapping_add((4 * count) as u32);
            let dest = mem_word(old(memory), pc_addr & 0xFFFF_FFFC) & 0xFFFF_FFFE;
            &&& final(cpu).registers.wf()
            &&& final(cpu).registers.cpsr == old(cpu).registers.cpsr
            &&& final(cpu).registers.same_spsr(&old(cpu).registers)
            &&& final(cpu).cycles == old(cpu).cycles
            &&& final(cpu).halted == old(cpu).halted
            &&& forall|k: int|
                #![trigger final(cpu).registers.reg_spec(k)]
                #![trigger crate::block::transfer_addr(base, list, k)]
                0 <= k < 16 ==> final(cpu).registers.reg_spec(k) == if k < 8
                    && crate::block::bit_set(list, k) {
                    mem_word(
                        old(memory),
                        crate::block::transfer_addr(base, list, k) & 0xFFFF_FFFC,
                    )
                } else if k == 13 {
                    wb
                } else if k == 15 {
                    dest.wrapping_add(2)
                } else {
                    old(cpu).registers.reg_spec(k)
                }
        }),
{
    let c0 = cpu.thumb_prefetch(memory);
    let list = opcode % 0x100;
    let count = crate::block::count_set_bits(list, 8);
    let base = cpu.registers.read(13);
    cpu.registers.write(13, base.wrapping_add((count + 1) * 4));
    let mode = cpu.registers.read_mode();
    proof {
        assert(!crate::block::bit_set(list, 15)) by (bit_vector)
            requires
                list == opcode % 0x100,
        ;
        assert forall|i: int|
            0 <= i < 16 && i != 13 implies cpu.registers.reg_with_mode_spec(mode, i) == old(
            cpu,
        ).registers.reg_spec(i) by {
            crate::registers::lemma_bank_index_bounds(mode, i);
            crate::registers::lemma_bank_index_injective(mode, i, 13);
        }
    }
    let c1 = crate::block::load_block(cpu, memory, mode, base, list, 8);
    memory.on_internal_cycles(1);
    let pc_addr = base.wrapping_add(count * 4);
    let (value, c2) = memory.read_data_word(pc_addr, true);
    let dest = value & 0xFFFF_FFFE;
    let c3 = cpu.thumb_branch_to(dest, memory);
    proof {
        crate::bits::lemma_align_facts();
        assert((dest & 0xFFFF_FFFE) == dest);
        let count_g = crate::block::popcount_low(list as u32, 8);
        assert forall|k: int|
            #![trigger cpu.registers.reg_spec(k)]
            #![trigger crate::block::transfer_addr(base, list, k)]
            0 <= k < 16 implies cpu.registers.reg_spec(k) == if k < 8 && crate::block::bit_set(
            list,
            k,
        ) {
            mem_word(old(memory), crate::block::transfer_addr(base, list, k) & 0xFFFF_FFFC)
        } else if k == 13 {
            base.wrapping_add((4 * (count_g + 1)) as u32)
        } else if k == 15 {
            dest.wrapping_add(2)
        } else {
            old(cpu).registers.reg_spec(k)
        } by {
            let ta = crate::block::transfer_addr(base, list, k);
            crate::registers::lemma_bank_index_bounds(mode, k);
            if k != 15 {
                crate::registers::lemma_bank_index_injective(mode, k, 15);
            }
        }
    }
    c0 + c1 + 1 + c2 + c3
}

/// STMIA: stores the listed low registers at ascending addresses from Rb,
/// which then takes the address past the block. The base register's own
/// stored value is the written-back address unless it is the first register
/// transferred. An empty list stores nothing and leaves Rb alone.
pub open spec fn stmia_post<M: ArmMemory>(
    newc: &ArmCpu,
    prevc: &ArmCpu,
    newm: &M,
    prevm: &M,
    opcode: u32,
    rb: int,
) -> bool {
    let list = opcode % 0x100;
    let base = prevc.registers.reg_spec(rb);
    let wb = base.wrapping_add((4 * crate::block::popcount_low(list, 8)) as u32);
    &&& plain_unchanged(newm, prevm)
    &&& if list == 0 {
        &&& cpu_unchanged(newc, prevc)
        &&& *newm == *prevm
    } else {
        &&& sets_reg(newc, prevc, rb, wb)
        &&& ((base % 4 == 0 && crate::block::words_plain(prevm, base, list, 8)) ==> ({
            &&& forall|i: int|
                0 <= i < 8 && crate::block::bit_set(list, i) ==> mem_word(
                    newm,
                    #[trigger] crate::block::transfer_addr(base, list, i),
                ) == if i == rb && crate::block::popcount_low(list, i) > 0 {
                    wb
                } else {
                    prevc.registers.reg_spec(i)
                }
            &&& forall|a: u32|
                !crate::block::block_touched(base, list, 8, a) ==> newm.byte_at(a) == prevm.byte_at(
                    a,
                )
        }))
    }
}

fn thumb_stmia<M: ArmMemory>(cpu: &mut ArmCpu, memory: &mut M, opcode: u32, rb: u32) -> (c: u32)
    requires
        old(cpu).wf(),
        rb < 8,
    ensures
        1 <= c,
        stmia_post(final(cpu), old(cpu), final(memory), old(memory), opcode, rb as int),
{
    let c0 = cpu.thumb_prefetch(memory);
    let list = opcode % 0x100;
    if list == 0 {
        return c0;
    }
    let count = crate::block::count_set_bits(list, 8);
    let base = cpu.registers.read(rb);
    let wb = base.wrapping_add(count * 4);
    let mode = cpu.registers.read_mode();
    let rank_rb = crate::block::count_set_bits(list, rb);
    let rb_listed = (list >> rb) % 2 == 1;
    let c1: u32;
    if rb_listed && rank_rb == 0 {
        c1 = crate::block::store_block(cpu, memory, mode, base, list, 8);
        cpu.registers.write(rb, wb);
        proof {
            assert forall|i: int| 0 <= i < 8 implies old(cpu).registers.reg_spec(i)
                == cpu.registers.reg_with_mode_spec(mode, i) || i == rb as int by {
                crate::registers::lemma_bank_index_bounds(mode, i);
            }
        }
    } else {
        cpu.registers.write(rb, wb);
        proof {
            assert forall|i: int|
                0 <= i < 8 && i != rb as int implies cpu.registers.reg_with_mode_spec(mode, i)
                == old(cpu).registers.reg_spec(i) by {
                crate::registers::lemma_bank_index_bounds(mode, i);
                crate::registers::lemma_bank_index_injective(mode, i, rb as int);
            }
        }
        c1 = crate::block::store_block(cpu, memory, mode, base, list, 8);
    }
    c0 + c1
}

/// LDMIA: loads the listed low registers from ascending addresses at Rb; Rb
/// takes the address past the block unless the list reloads it.
pub open spec fn ldmia_post<M: ArmMemory>(
    newc: &ArmCpu,
    prevc: &ArmCpu,
    prevm: &M,
    opcode: u32,
    rb: int,
) -> bool {
    let list = opcode % 0x100;
    let base = prevc.registers.reg_spec(rb);
    let wb = base.wrapping_add((4 * crate::block::popcount_low(list, 8)) as u32);
    &&& newc.registers.wf()
    &&& newc.registers.cpsr == prevc.registers.cpsr
    &&& newc.registers.same_spsr(&prevc.registers)
    &&& newc.cycles == prevc.cycles
    &&& newc.halted == prevc.halted
    &&& forall|k: int|
        #![trigger newc.registers.reg_spec(k)]
        #![trigger crate::block::transfer_addr(base, list, k)]
        0 <= k < 16 ==> newc.registers.reg_spec(k) == if k < 8 && crate::block::bit_set(list, k) {
            mem_word(prevm, crate::block::transfer_addr(base, list, k) & 0xFFFF_FFFC)
        } else if k == rb {
            wb
        } else {
            prevc.registers.reg_spec(k)
        }
}

fn thumb_ldmia<M: ArmMemory>(cpu: &mut ArmCpu, memory: &mut M, opcode: u32, rb: u32) -> (c: u32)
    requires
        old(cpu).wf(),
        rb < 8,
    ensures
        1 <= c,
        mem_unchanged(final(memory), old(memory)),
        ldmia_post(final(cpu), old(cpu), old(memory), opcode, rb as int),
{
    let c0 = cpu.thumb_prefetch(memory);
    let list = opcode % 0x100;
    let count = crate::block::count_set_bits(list, 8);
    let base = cpu.registers.read(rb);
    cpu.registers.write(rb, base.wrapping_add(count * 4));
    let mode = cpu.registers.read_mode();
    proof {
        assert(!crate::block::bit_set(list, 15)) by (bit_vector)
            requires
                list == opcode % 0x100,
        ;
        assert forall|i: int|
            0 <= i < 16 && i != rb as int implies cpu.registers.reg_with_mode_spec(mode, i) == old(
            cpu,
        ).registers.reg_spec(i) by {
            crate::registers::lemma_bank_index_bounds(mode, i);
            crate::registers::lemma_bank_index_injective(mode, i, rb as int);
        }
    }
    let c1 = crate::block::load_block(cpu, memory, mode, base, list, 8);
    memory.on_internal_cycles(1);
    c0 + c1 + 1
}

pub fn thumb_stmia_r0<M: ArmMemory>(cpu: &mut ArmCpu, memory: &mut M, opcode: u32) -> (c: u32)
    requires
        old(cpu).wf(),
    ensures
        1 <= c,
        stmia_post(final(cpu), old(cpu), final(memory), old(memory), opcode, 0),
{
    thumb_stmia(cpu, memory, opcode, 0)
}

pub fn thumb_stmia_r1<M: ArmMemory>(cpu: &mut ArmCpu, memory: &mut M, opcode: u32) -> (c: u32)
    requires
        old(cpu).wf(),
    ensures
        1 <= c,
        stmia_post(final(cpu), old(cpu), final(memory), old(memory), opcode, 1),
{
    thumb_stmia(cpu, memory, opcode, 1)
}

pub fn thumb_stmia_r2<M: ArmMemory>(cpu: &mut ArmCpu, memory: &mut M, opcode: u32) -> (c: u32)
    requires
        old(cpu).wf(),
    ensures
        1 <= c,
        stmia_post(final(cpu), old(cpu), final(memory), old(memory), opcode, 2),
{
    thumb_stmia(cpu, memory, opcode, 2)
}

pub fn thumb_stmia_r3<M: ArmMemory>(cpu: &mut ArmCpu, memory: &mut M, opcode: u32) -> (c: u32)
    requires
        old(cpu).wf(),
    ensures
        1 <= c,
        stmia_post(final(cpu), old(cpu), final(memory), old(memory), opcode, 3),
{
    thumb_stmia(cpu, memory, opcode, 3)
}

pub fn thumb_stmia_r4<M: ArmMemory>(cpu: &mut ArmCpu, memory: &mut M, opcode: u32) -> (c: u32)
    requires
        old(cpu).wf(),
    ensures
        1 <= c,
        stmia_post(final(cpu), old(cpu), final(memory), old(memory), opcode, 4),
{
    thumb_stmia(cpu, memory, opcode, 4)
}

pub fn thumb_stmia_r5<M: ArmMemory>(cpu: &mut ArmCpu, memory: &mut M, opcode: u32) -> (c: u32)
    requires
        old(cpu).wf(),
    ensures
        1 <= c,
        stmia_post(final(cpu), old(cpu), final(memory), old(memory), opcode, 5),
{
    thumb_stmia(cpu, memory, opcode, 5)
}

pub fn thumb_stmia_r6<M: ArmMemory>(cpu: &mut ArmCpu, memory: &mut M, opcode: u32) -> (c: u32)
    requires
        old(cpu).wf(),
    ensures
        1 <= c,
        stmia_post(final(cpu), old(cpu), final(memory), old(memory), opcode, 6),
{
    thumb_stmia(cpu, memory, opcode, 6)
}

pub fn thumb_stmia_r7<M: ArmMemory>(cpu: &mut ArmCpu, memory: &mut M, opcode: u32) -> (c: u32)
    requires
        old(cpu).wf(),
    ensures
        1 <= c,
        stmia_post(final(cpu), old(cpu), final(memory), old(memory), opcode, 7),
{
    thumb_stmia(cpu, memory, opcode, 7)
}

pub fn thumb_ldmia_r0<M: ArmMemory>(cpu: &mut ArmCpu, memory: &mut M, opcode: u32) -> (c: u32)
    requires
        old(cpu).wf(),
    ensures
        1 <= c,
        mem_unchanged(final(memory), old(memory)),
        ldmia_post(final(cpu), old(cpu), old(memory), opcode, 0),
{
    thumb_ldmia(cpu, memory, opcode, 0)
}

pub fn thumb_ldmia_r1<M: ArmMemory>(cpu: &mut ArmCpu, memory: &mut M, opcode: u32) -> (c: u32)
    requires
        old(cpu).wf(),
    ensures
        1 <= c,
        mem_unchanged(final(memory), old(memory)),
        ldmia_post(final(cpu), old(cpu), old(memory), opcode, 1),
{
    thumb_ldmia(cpu, memory, opcode, 1)
}

pub fn thumb_ldmia_r2<M: ArmMemory>(cpu: &mut ArmCpu, memory: &mut M, opcode: u32) -> (c: u32)
    requires
        old(cpu).wf(),
    ensures
        1 <= c,
        mem_unchanged(final(memory), old(memory)),
        ldmia_post(final(cpu), old(cpu), old(memory), opcode, 2),
{
    thumb_ldmia(cpu, memory, opcode, 2)
}

pub fn thumb_ldmia_r3<M: ArmMemory>(cpu: &mut ArmCpu, memory: &mut M, opcode: u32) -> (c: u32)
    requires
        old(cpu).wf(),
    ensures
        1 <= c,
        mem_unchanged(final(memory), old(memory)),
        ldmia_post(final(cpu), old(cpu), old(memory), opcode, 3),
{
    thumb_ldmia(cpu, memory, opcode, 3)
}

pub fn thumb_ldmia_r4<M: ArmMemory>(cpu: &mut ArmCpu, memory: &mut M, opcode: u32) -> (c: u32)
    requires
        old(cpu).wf(),
    ensures
        1 <= c,
        mem_unchanged(final(memory), old(memory)),
        ldmia_post(final(cpu), old(cpu), old(memory), opcode, 4),
{
    thumb_ldmia(cpu, memory, opcode, 4)
}

pub fn thumb_ldmia_r5<M: ArmMemory>(cpu: &mut ArmCpu, memory: &mut M, opcode: u32) -> (c: u32)
    requires
        old(cpu).wf(),
    ensures
        1 <= c,
        mem_unchanged(final(memory), old(memory)),
        ldmia_post(final(cpu), old(cpu), old(memory), opcode, 5),
{
    thumb_ldmia(cpu, memory, opcode, 5)
}

pub fn thumb_ldmia_r6<M: ArmMemory>(cpu: &mut ArmCpu, memory: &mut M, opcode: u32) -> (c: u32)
    requires
        old(cpu).wf(),
    ensures
        1 <= c,
        mem_unchanged(final(memory), old(memory)),
        ldmia_post(final(cpu), old(cpu), old(memory), opcode, 6),
{
    thumb_ldmia(cpu, memory, opcode, 6)
}

pub fn thumb_ldmia_r7<M: ArmMemory>(cpu: &mut ArmCpu, memory: &mut M, opcode: u32) -> (c: u32)
    requires
        old(cpu).wf(),
    ensures
        1 <= c,
        mem_unchanged(final(memory), old(memory)),
        ldmia_post(final(cpu), old(cpu), old(memory), opcode, 7),
{
    thumb_ldmia(cpu, memory, opcode, 7)
}

/// Decodes and runs one Thumb instruction. The opcode has already been
/// fetched; R15 reads as the instruction's address plus 4.
/// The effect of one Thumb instruction on the processor and the memory,
/// case by case over the encoding: each arm of the decode tree restates the
/// postcondition of the handler it selects (`thumb_exec` ensures this of
/// its result states; cycle counts are stated separately).
pub open spec fn thumb_exec_post<M: ArmMemory>(
    newc: &ArmCpu,
    prevc: &ArmCpu,
    newm: &M,
    prevm: &M,
    opcode: u32,
) -> bool {
    let key = (opcode >> 11) % 32;
    if key == 0 {
        ((*newm == *prevm) && (({
            let lhs = prevc.registers.reg_spec(field_rs(opcode));
            let (res, carry) = alu::lsl_imm_spec(lhs, field_imm5(opcode), prevc.registers.cpsr.c);
            sets_reg_psr(
                newc,
                prevc,
                field_rd(opcode),
                res,
                Psr { n: bit31(res), z: res == 0, c: carry, ..prevc.registers.cpsr },
            )
        })))
    } else if key == 1 {
        ((*newm == *prevm) && (({
            let lhs = prevc.registers.reg_spec(field_rs(opcode));
            let (res, carry) = alu::lsr_imm_spec(lhs, field_imm5(opcode));
            sets_reg_psr(
                newc,
                prevc,
                field_rd(opcode),
                res,
                Psr { n: bit31(res), z: res == 0, c: carry, ..prevc.registers.cpsr },
            )
        })))
    } else if key == 2 {
        ((*newm == *prevm) && (({
            let lhs = prevc.registers.reg_spec(field_rs(opcode));
            let (res, carry) = alu::asr_imm_spec(lhs, field_imm5(opcode));
            sets_reg_psr(
                newc,
                prevc,
                field_rd(opcode),
                res,
                Psr { n: bit31(res), z: res == 0, c: carry, ..prevc.registers.cpsr },
            )
        })))
    } else if key == 3 {
        match (opcode >> 9) % 4 {
            0 => ((*newm == *prevm) && (({
            let lhs = prevc.registers.reg_spec(field_rs(opcode));
            let rhs = prevc.registers.reg_spec(field_rn(opcode));
            let res = lhs.wrapping_add(rhs);
            sets_reg_psr(
                newc,
                prevc,
                field_rd(opcode),
                res,
                Psr {
                    n: bit31(res),
                    z: res == 0,
                    c: alu::carry_add(lhs, rhs),
                    v: alu::overflow_add(lhs, rhs, res),
                    ..prevc.registers.cpsr
                },
            )
        }))),
            1 => ((*newm == *prevm) && (({
            let lhs = prevc.registers.reg_spec(field_rs(opcode));
            let rhs = prevc.registers.reg_spec(field_rn(opcode));
            let res = lhs.wrapping_sub(rhs);
            sets_reg_psr(
                newc,
                prevc,
                field_rd(opcode),
                res,
                Psr {
                    n: bit31(res),
                    z: res == 0,
                    c: alu::carry_sub(lhs, rhs),
                    v: alu::overflow_sub(lhs, rhs, res),
                    ..prevc.registers.cpsr
                },
            )
        }))),
            2 => ((*newm == *prevm) && (({
            let lhs = prevc.registers.reg_spec(field_rs(opcode));
            let rhs = (opcode >> 6) % 8;
            let res = lhs.wrapping_add(rhs);
            sets_reg_psr(
                newc,
                prevc,
                field_rd(opcode),
                res,
                Psr {
                    n: bit31(res),
                    z: res == 0,
                    c: alu::carry_add(lhs, rhs),
                    v: alu::overflow_add(lhs, rhs, res),
                    ..prevc.registers.cpsr
                },
            )
        }))),
            _ => ((*newm == *prevm) && (({
            let lhs = prevc.registers.reg_spec(field_rs(opcode));
            let rhs = (opcode >> 6) % 8;
            let res = lhs.wrapping_sub(rhs);
            sets_reg_psr(
                newc,
                prevc,
                field_rd(opcode),
                res,
                Psr {
                    n: bit31(res),
                    z: res == 0,
                    c: alu::carry_sub(lhs, rhs),
                    v: alu::overflow_sub(lhs, rhs, res),
                    ..prevc.registers.cpsr
                },
            )
        }))),
        }
    } else if key < 8 {
        let op = key % 4;
        if op == 0 {
        match (opcode >> 8) % 8 {
            0 => ((*newm == *prevm) && (mov_i8_post(newc, prevc, opcode, 0))),
            1 => ((*newm == *prevm) && (mov_i8_post(newc, prevc, opcode, 1))),
            2 => ((*newm == *prevm) && (mov_i8_post(newc, prevc, opcode, 2))),
            3 => ((*newm == *prevm) && (mov_i8_post(newc, prevc, opcode, 3))),
            4 => ((*newm == *prevm) && (mov_i8_post(newc, prevc, opcode, 4))),
            5 => ((*newm == *prevm) && (mov_i8_post(newc, prevc, opcode, 5))),
            6 => ((*newm == *prevm) && (mov_i8_post(newc, prevc, opcode, 6))),
            7 => ((*newm == *prevm) && (mov_i8_post(newc, prevc, opcode, 7))),
            _ => ((*newm == *prevm) && (exception_entered(
            newc,
            prevc,
            CpuException::Undefined,
            prevc.registers.reg_spec(15).wrapping_sub(2),
        ))),
        }
        } else if op == 1 {
        match (opcode >> 8) % 8 {
            0 => ((*newm == *prevm) && (cmp_i8_post(newc, prevc, opcode, 0))),
            1 => ((*newm == *prevm) && (cmp_i8_post(newc, prevc, opcode, 1))),
            2 => ((*newm == *prevm) && (cmp_i8_post(newc, prevc, opcode, 2))),
            3 => ((*newm == *prevm) && (cmp_i8_post(newc, prevc, opcode, 3))),
            4 => ((*newm == *prevm) && (cmp_i8_post(newc, prevc, opcode, 4))),
            5 => ((*newm == *prevm) && (cmp_i8_post(newc, prevc, opcode, 5))),
            6 => ((*newm == *prevm) && (cmp_i8_post(newc, prevc, opcode, 6))),
            7 => ((*newm == *prevm) && (cmp_i8_post(newc, prevc, opcode, 7))),
            _ => ((*newm == *prevm) && (exception_entered(
            newc,
            prevc,
            CpuException::Undefined,
            prevc.registers.reg_spec(15).wrapping_sub(2),
        ))),
        }
        } else if op == 2 {
        match (opcode >> 8) % 8 {
            0 => ((*newm == *prevm) && (add_i8_post(newc, prevc, opcode, 0))),
            1 => ((*newm == *prevm) && (add_i8_post(newc, prevc, opcode, 1))),
            2 => ((*newm == *prevm) && (add_i8_post(newc, prevc, opcode, 2))),
            3 => ((*newm == *prevm) && (add_i8_post(newc, prevc, opcode, 3))),
            4 => ((*newm == *prevm) && (add_i8_post(newc, prevc, opcode, 4))),
            5 => ((*newm == *prevm) && (add_i8_post(newc, prevc, opcode, 5))),
            6 => ((*newm == *prevm) && (add_i8_post(newc, prevc, opcode, 6))),
            7 => ((*newm == *prevm) && (add_i8_post(newc, prevc, opcode, 7))),
            _ => ((*newm == *prevm) && (exception_entered(
            newc,
            prevc,
            CpuException::Undefined,
            prevc.registers.reg_spec(15).wrapping_sub(2),
        ))),
        }
        } else {
        match (opcode >> 8) % 8 {
            0 => ((*newm == *prevm) && (sub_i8_post(newc, prevc, opcode, 0))),
            1 => ((*newm == *prevm) && (sub_i8_post(newc, prevc, opcode, 1))),
            2 => ((*newm == *prevm) && (sub_i8_post(newc, prevc, opcode, 2))),
            3 => ((*newm == *prevm) && (sub_i8_post(newc, prevc, opcode, 3))),
            4 => ((*newm == *prevm) && (sub_i8_post(newc, prevc, opcode, 4))),
            5 => ((*newm == *prevm) && (sub_i8_post(newc, prevc, opcode, 5))),
            6 => ((*newm == *prevm) && (sub_i8_post(newc, prevc, opcode, 6))),
            7 => ((*newm == *prevm) && (sub_i8_post(newc, prevc, opcode, 7))),
            _ => ((*newm == *prevm) && (exception_entered(
            newc,
            prevc,
            CpuException::Undefined,
            prevc.registers.reg_spec(15).wrapping_sub(2),
        ))),
        }
        }
    } else if key == 8 {
        if (opcode >> 10) % 2 == 0 {
            match (opcode >> 8) % 4 {
                0 => ((*newm == *prevm) && (dp_g1_post(newc, prevc, opcode))),
                1 => ((*newm == *prevm) && (dp_g2_post(newc, prevc, opcode))),
                2 => ((*newm == *prevm) && (dp_g3_post(newc, prevc, opcode))),
                _ => ((mem_unchanged(newm, prevm)) && (dp_g4_post(newc, prevc, opcode))),
            }
        } else {
            match (opcode >> 8) % 4 {
                0 => ((*newm == *prevm) && (({
            let rd = field_rd_h(opcode);
            let res = prevc.registers.reg_spec(rd).wrapping_add(
                prevc.registers.reg_spec(field_rs_h(opcode)),
            );
            if rd == 15 {
                sets_reg(newc, prevc, 15, (res & 0xFFFF_FFFE).wrapping_add(2))
            } else {
                sets_reg(newc, prevc, rd, res)
            }
        }))),
                1 => ((*newm == *prevm) && (({
            let lhs = prevc.registers.reg_spec(field_rd_h(opcode));
            let rhs = prevc.registers.reg_spec(field_rs_h(opcode));
            let res = lhs.wrapping_sub(rhs);
            sets_psr(
                newc,
                prevc,
                Psr {
                    n: bit31(res),
                    z: res == 0,
                    c: alu::carry_sub(lhs, rhs),
                    v: alu::overflow_sub(lhs, rhs, res),
                    ..prevc.registers.cpsr
                },
            )
        }))),
                2 => ((*newm == *prevm) && (({
            let rd = field_rd_h(opcode);
            let res = prevc.registers.reg_spec(field_rs_h(opcode));
            if rd == 15 {
                sets_reg(newc, prevc, 15, (res & 0xFFFF_FFFE).wrapping_add(2))
            } else {
                sets_reg(newc, prevc, rd, res)
            }
        }))),
                _ => ((*newm == *prevm) && (({
            let dest = prevc.registers.reg_spec(field_rs_h(opcode));
            if dest % 2 == 0 {
                sets_reg_psr(
                    newc,
                    prevc,
                    15,
                    (dest & 0xFFFF_FFFC).wrapping_add(4),
                    Psr { thumb: false, ..prevc.registers.cpsr },
                )
            } else {
                sets_reg(newc, prevc, 15, (dest & 0xFFFF_FFFE).wrapping_add(2))
            }
        }))),
            }
        }
    } else if key == 9 {
        match (opcode >> 8) % 8 {
            0 => ((*newm == *prevm) && (ldrpc_post(newc, prevc, prevm, opcode, 0))),
            1 => ((*newm == *prevm) && (ldrpc_post(newc, prevc, prevm, opcode, 1))),
            2 => ((*newm == *prevm) && (ldrpc_post(newc, prevc, prevm, opcode, 2))),
            3 => ((*newm == *prevm) && (ldrpc_post(newc, prevc, prevm, opcode, 3))),
            4 => ((*newm == *prevm) && (ldrpc_post(newc, prevc, prevm, opcode, 4))),
            5 => ((*newm == *prevm) && (ldrpc_post(newc, prevc, prevm, opcode, 5))),
            6 => ((*newm == *prevm) && (ldrpc_post(newc, prevc, prevm, opcode, 6))),
            7 => ((*newm == *prevm) && (ldrpc_post(newc, prevc, prevm, opcode, 7))),
            _ => ((*newm == *prevm) && (exception_entered(
            newc,
            prevc,
            CpuException::Undefined,
            prevc.registers.reg_spec(15).wrapping_sub(2),
        ))),
        }
    } else if key == 10 || key == 11 {
        match (opcode >> 9) % 8 {
            0 => ((cpu_unchanged(newc, prevc)) && (plain_unchanged(newm, prevm)) && (({
            let addr = prevc.registers.reg_spec(field_rs(opcode)).wrapping_add(
                prevc.registers.reg_spec(field_rn(opcode)),
            ) & 0xFFFF_FFFC;
            plain_word(prevm, addr) ==> word_stored(
                newm,
                prevm,
                addr,
                prevc.registers.reg_spec(field_rd(opcode)),
            )
        }))),
            1 => ((cpu_unchanged(newc, prevc)) && (plain_unchanged(newm, prevm)) && (({
            let addr = prevc.registers.reg_spec(field_rs(opcode)).wrapping_add(
                prevc.registers.reg_spec(field_rn(opcode)),
            ) & 0xFFFF_FFFE;
            plain_halfword(prevm, addr) ==> halfword_stored(
                newm,
                prevm,
                addr,
                (prevc.registers.reg_spec(field_rd(opcode)) % 0x1_0000) as u16,
            )
        }))),
            2 => ((cpu_unchanged(newc, prevc)) && (plain_unchanged(newm, prevm)) && (({
            let addr = prevc.registers.reg_spec(field_rs(opcode)).wrapping_add(
                prevc.registers.reg_spec(field_rn(opcode)),
            );
            prevm.plain(addr) ==> byte_stored(
                newm,
                prevm,
                addr,
                (prevc.registers.reg_spec(field_rd(opcode)) % 0x100) as u8,
            )
        }))),
            3 => ((*newm == *prevm) && (({
            let addr = prevc.registers.reg_spec(field_rs(opcode)).wrapping_add(
                prevc.registers.reg_spec(field_rn(opcode)),
            );
            sets_reg(
                newc,
                prevc,
                field_rd(opcode),
                sign_extend_spec(prevm.byte_at(addr) as u32, 0x100),
            )
        }))),
            4 => ((*newm == *prevm) && (({
            let addr = prevc.registers.reg_spec(field_rs(opcode)).wrapping_add(
                prevc.registers.reg_spec(field_rn(opcode)),
            );
            sets_reg(
                newc,
                prevc,
                field_rd(opcode),
                ldr_result_spec(mem_word(prevm, addr & 0xFFFF_FFFC), addr),
            )
        }))),
            5 => ((*newm == *prevm) && (({
            let addr = prevc.registers.reg_spec(field_rs(opcode)).wrapping_add(
                prevc.registers.reg_spec(field_rn(opcode)),
            );
            sets_reg(
                newc,
                prevc,
                field_rd(opcode),
                mem_halfword(prevm, addr & 0xFFFF_FFFE) as u32,
            )
        }))),
            6 => ((*newm == *prevm) && (({
            let addr = prevc.registers.reg_spec(field_rs(opcode)).wrapping_add(
                prevc.registers.reg_spec(field_rn(opcode)),
            );
            sets_reg(newc, prevc, field_rd(opcode), prevm.byte_at(addr) as u32)
        }))),
            _ => ((*newm == *prevm) && (({
            let addr = prevc.registers.reg_spec(field_rs(opcode)).wrapping_add(
                prevc.registers.reg_spec(field_rn(opcode)),
            );
            sets_reg(
                newc,
                prevc,
                field_rd(opcode),
                sign_extend_spec(mem_halfword(prevm, addr & 0xFFFF_FFFE) as u32, 0x1_0000),
            )
        }))),
        }
    } else if key == 12 {
        ((cpu_unchanged(newc, prevc)) && (plain_unchanged(newm, prevm)) && (({
            let addr = prevc.registers.reg_spec(field_rs(opcode)).wrapping_add(
                (field_imm5(opcode) * 4) as u32,
            ) & 0xFFFF_FFFC;
            plain_word(prevm, addr) ==> word_stored(
                newm,
                prevm,
                addr,
                prevc.registers.reg_spec(field_rd(opcode)),
            )
        })))
    } else if key == 13 {
        ((*newm == *prevm) && (({
            let addr = prevc.registers.reg_spec(field_rs(opcode)).wrapping_add(
                (field_imm5(opcode) * 4) as u32,
            );
            sets_reg(
                newc,
                prevc,
                field_rd(opcode),
                ldr_result_spec(mem_word(prevm, addr & 0xFFFF_FFFC), addr),
            )
        })))
    } else if key == 14 {
        ((cpu_unchanged(newc, prevc)) && (plain_unchanged(newm, prevm)) && (({
            let addr = prevc.registers.reg_spec(field_rs(opcode)).wrapping_add(
                field_imm5(opcode),
            );
            prevm.plain(addr) ==> byte_stored(
                newm,
                prevm,
                addr,
                (prevc.registers.reg_spec(field_rd(opcode)) % 0x100) as u8,
            )
        })))
    } else if key == 15 {
        ((*newm == *prevm) && (({
            let addr = prevc.registers.reg_spec(field_rs(opcode)).wrapping_add(
                field_imm5(opcode),
            );
            sets_reg(newc, prevc, field_rd(opcode), prevm.byte_at(addr) as u32)
        })))
    } else if key == 16 {
        ((cpu_unchanged(newc, prevc)) && (plain_unchanged(newm, prevm)) && (({
            let addr = prevc.registers.reg_spec(field_rs(opcode)).wrapping_add(
                (field_imm5(opcode) * 2) as u32,
            ) & 0xFFFF_FFFE;
            plain_halfword(prevm, addr) ==> halfword_stored(
                newm,
                prevm,
                addr,
                (prevc.registers.reg_spec(field_rd(opcode)) % 0x1_0000) as u16,
            )
        })))
    } else if key == 17 {
        ((*newm == *prevm) && (({
            let addr = prevc.registers.reg_spec(field_rs(opcode)).wrapping_add(
                (field_imm5(opcode) * 2) as u32,
            );
            sets_reg(
                newc,
                prevc,
                field_rd(opcode),
                mem_halfword(prevm, addr & 0xFFFF_FFFE) as u32,
            )
        })))
    } else if key == 18 {
        match (opcode >> 8) % 8 {
            0 => ((strsp_post(newc, prevc, newm, prevm, opcode, 0))),
            1 => ((strsp_post(newc, prevc, newm, prevm, opcode, 1))),
            2 => ((strsp_post(newc, prevc, newm, prevm, opcode, 2))),
            3 => ((strsp_post(newc, prevc, newm, prevm, opcode, 3))),
            4 => ((strsp_post(newc, prevc, newm, prevm, opcode, 4))),
            5 => ((strsp_post(newc, prevc, newm, prevm, opcode, 5))),
            6 => ((strsp_post(newc, prevc, newm, prevm, opcode, 6))),
            7 => ((strsp_post(newc, prevc, newm, prevm, opcode, 7))),
            _ => ((*newm == *prevm) && (exception_entered(
            newc,
            prevc,
            CpuException::Undefined,
            prevc.registers.reg_spec(15).wrapping_sub(2),
        ))),
        }
    } else if key == 19 {
        match (opcode >> 8) % 8 {
            0 => ((*newm == *prevm) && (ldrsp_post(newc, prevc, prevm, opcode, 0))),
            1 => ((*newm == *prevm) && (ldrsp_post(newc, prevc, prevm, opcode, 1))),
            2 => ((*newm == *prevm) && (ldrsp_post(newc, prevc, prevm, opcode, 2))),
            3 => ((*newm == *prevm) && (ldrsp_post(newc, prevc, prevm, opcode, 3))),
            4 => ((*newm == *prevm) && (ldrsp_post(newc, prevc, prevm, opcode, 4))),
            5 => ((*newm == *prevm) && (ldrsp_post(newc, prevc, prevm, opcode, 5))),
            6 => ((*newm == *prevm) && (ldrsp_post(newc, prevc, prevm, opcode, 6))),
            7 => ((*newm == *prevm) && (ldrsp_post(newc, prevc, prevm, opcode, 7))),
            _ => ((*newm == *prevm) && (exception_entered(
            newc,
            prevc,
            CpuException::Undefined,
            prevc.registers.reg_spec(15).wrapping_sub(2),
        ))),
        }
    } else if key == 20 {
        match (opcode >> 8) % 8 {
            0 => ((*newm == *prevm) && (addpc_post(newc, prevc, opcode, 0))),
            1 => ((*newm == *prevm) && (addpc_post(newc, prevc, opcode, 1))),
            2 => ((*newm == *prevm) && (addpc_post(newc, prevc, opcode, 2))),
            3 => ((*newm == *prevm) && (addpc_post(newc, prevc, opcode, 3))),
            4 => ((*newm == *prevm) && (addpc_post(newc, prevc, opcode, 4))),
            5 => ((*newm == *prevm) && (addpc_post(newc, prevc, opcode, 5))),
            6 => ((*newm == *prevm) && (addpc_post(newc, prevc, opcode, 6))),
            7 => ((*newm == *prevm) && (addpc_post(newc, prevc, opcode, 7))),
            _ => ((*newm == *prevm) && (exception_entered(
            newc,
            prevc,
            CpuException::Undefined,
            prevc.registers.reg_spec(15).wrapping_sub(2),
        ))),
        }
    } else if key == 21 {
        match (opcode >> 8) % 8 {
            0 => ((*newm == *prevm) && (addsp_post(newc, prevc, opcode, 0))),
            1 => ((*newm == *prevm) && (addsp_post(newc, prevc, opcode, 1))),
            2 => ((*newm == *prevm) && (addsp_post(newc, prevc, opcode, 2))),
            3 => ((*newm == *prevm) && (addsp_post(newc, prevc, opcode, 3))),
            4 => ((*newm == *prevm) && (addsp_post(newc, prevc, opcode, 4))),
            5 => ((*newm == *prevm) && (addsp_post(newc, prevc, opcode, 5))),
            6 => ((*newm == *prevm) && (addsp_post(newc, prevc, opcode, 6))),
            7 => ((*newm == *prevm) && (addsp_post(newc, prevc, opcode, 7))),
            _ => ((*newm == *prevm) && (exception_entered(
            newc,
            prevc,
            CpuException::Undefined,
            prevc.registers.reg_spec(15).wrapping_sub(2),
        ))),
        }
    } else if key == 22 || key == 23 {
        let misc = (opcode >> 8) % 16;
        if misc == 0 {
            ((*newm == *prevm) && (({
            let offset = ((opcode % 0x80) * 4) as u32;
            let sp = prevc.registers.reg_spec(13);
            let res = if (opcode >> 7) % 2 == 1 {
                sp.wrapping_sub(offset)
            } else {
                sp.wrapping_add(offset)
            };
            sets_reg(newc, prevc, 13, res)
        })))
        } else if misc == 4 {
            ((plain_unchanged(newm, prevm)) && (({
            let list = opcode % 0x100;
            let wb = prevc.registers.reg_spec(13).wrapping_sub(
                (4 * crate::block::popcount_low(list, 8)) as u32,
            );
            &&& sets_reg(newc, prevc, 13, wb)
            &&& ((wb % 4 == 0 && crate::block::words_plain(prevm, wb, list, 8)) ==> ({
                &&& forall|i: int|
                    0 <= i < 8 && crate::block::bit_set(list, i) ==> mem_word(
                        newm,
                        #[trigger] crate::block::transfer_addr(wb, list, i),
                    ) == prevc.registers.reg_spec(i)
                &&& forall|a: u32|
                    !crate::block::block_touched(wb, list, 8, a) ==> newm.byte_at(a)
                        == prevm.byte_at(a)
            }))
        })))
        } else if misc == 5 {
            ((plain_unchanged(newm, prevm)) && (({
            let list = (opcode % 0x100) | 0x4000;
            let wb = prevc.registers.reg_spec(13).wrapping_sub(
                (4 * crate::block::popcount_low(list, 16)) as u32,
            );
            &&& sets_reg(newc, prevc, 13, wb)
            &&& ((wb % 4 == 0 && crate::block::words_plain(prevm, wb, list, 16)) ==> ({
                &&& forall|i: int|
                    0 <= i < 16 && crate::block::bit_set(list, i) ==> mem_word(
                        newm,
                        #[trigger] crate::block::transfer_addr(wb, list, i),
                    ) == prevc.registers.reg_spec(i)
                &&& forall|a: u32|
                    !crate::block::block_touched(wb, list, 16, a) ==> newm.byte_at(a)
                        == prevm.byte_at(a)
            }))
        })))
        } else if misc == 12 {
            ((mem_unchanged(newm, prevm)) && (({
            let list = opcode % 0x100;
            let base = prevc.registers.reg_spec(13);
            let wb = base.wrapping_add((4 * crate::block::popcount_low(list, 8)) as u32);
            &&& newc.registers.wf()
            &&& newc.registers.cpsr == prevc.registers.cpsr
            &&& newc.registers.same_spsr(&prevc.registers)
            &&& newc.cycles == prevc.cycles
            &&& newc.halted == prevc.halted
            &&& forall|k: int|
                #![trigger newc.registers.reg_spec(k)]
                #![trigger crate::block::transfer_addr(base, list, k)]
                0 <= k < 16 ==> newc.registers.reg_spec(k) == if k < 8
                    && crate::block::bit_set(list, k) {
                    mem_word(
                        prevm,
                        crate::block::transfer_addr(base, list, k) & 0xFFFF_FFFC,
                    )
                } else if k == 13 {
                    wb
                } else {
                    prevc.registers.reg_spec(k)
                }
        })))
        } else if misc == 13 {
            ((mem_unchanged(newm, prevm)) && (({
            let list = opcode % 0x100;
            let base = prevc.registers.reg_spec(13);
            let count = crate::block::popcount_low(list, 8);
            let wb = base.wrapping_add((4 * (count + 1)) as u32);
            let pc_addr = base.wrapping_add((4 * count) as u32);
            let dest = mem_word(prevm, pc_addr & 0xFFFF_FFFC) & 0xFFFF_FFFE;
            &&& newc.registers.wf()
            &&& newc.registers.cpsr == prevc.registers.cpsr
            &&& newc.registers.same_spsr(&prevc.registers)
            &&& newc.cycles == prevc.cycles
            &&& newc.halted == prevc.halted
            &&& forall|k: int|
                #![trigger newc.registers.reg_spec(k)]
                #![trigger crate::block::transfer_addr(base, list, k)]
                0 <= k < 16 ==> newc.registers.reg_spec(k) == if k < 8
                    && crate::block::bit_set(list, k) {
                    mem_word(
                        prevm,
                        crate::block::transfer_addr(base, list, k) & 0xFFFF_FFFC,
                    )
                } else if k == 13 {
                    wb
                } else if k == 15 {
                    dest.wrapping_add(2)
                } else {
                    prevc.registers.reg_spec(k)
                }
        })))
        } else {
            ((*newm == *prevm) && (exception_entered(
            newc,
            prevc,
            CpuException::Undefined,
            prevc.registers.reg_spec(15).wrapping_sub(2),
        )))
        }
    } else if key == 24 {
        match (opcode >> 8) % 8 {
            0 => ((stmia_post(newc, prevc, newm, prevm, opcode, 0))),
            1 => ((stmia_post(newc, prevc, newm, prevm, opcode, 1))),
            2 => ((stmia_post(newc, prevc, newm, prevm, opcode, 2))),
            3 => ((stmia_post(newc, prevc, newm, prevm, opcode, 3))),
            4 => ((stmia_post(newc, prevc, newm, prevm, opcode, 4))),
            5 => ((stmia_post(newc, prevc, newm, prevm, opcode, 5))),
            6 => ((stmia_post(newc, prevc, newm, prevm, opcode, 6))),
            7 => ((stmia_post(newc, prevc, newm, prevm, opcode, 7))),
            _ => ((*newm == *prevm) && (exception_entered(
            newc,
            prevc,
            CpuException::Undefined,
            prevc.registers.reg_spec(15).wrapping_sub(2),
        ))),
        }
    } else if key == 25 {
        match (opcode >> 8) % 8 {
            0 => ((mem_unchanged(newm, prevm)) && (ldmia_post(newc, prevc, prevm, opcode, 0))),
            1 => ((mem_unchanged(newm, prevm)) && (ldmia_post(newc, prevc, prevm, opcode, 1))),
            2 => ((mem_unchanged(newm, prevm)) && (ldmia_post(newc, prevc, prevm, opcode, 2))),
            3 => ((mem_unchanged(newm, prevm)) && (ldmia_post(newc, prevc, prevm, opcode, 3))),
            4 => ((mem_unchanged(newm, prevm)) && (ldmia_post(newc, prevc, prevm, opcode, 4))),
            5 => ((mem_unchanged(newm, prevm)) && (ldmia_post(newc, prevc, prevm, opcode, 5))),
            6 => ((mem_unchanged(newm, prevm)) && (ldmia_post(newc, prevc, prevm, opcode, 6))),
            7 => ((mem_unchanged(newm, prevm)) && (ldmia_post(newc, prevc, prevm, opcode, 7))),
            _ => ((*newm == *prevm) && (exception_entered(
            newc,
            prevc,
            CpuException::Undefined,
            prevc.registers.reg_spec(15).wrapping_sub(2),
        ))),
        }
    } else if key == 26 || key == 27 {
        match (opcode >> 8) % 16 {
            0 => ((*newm == *prevm) && (b_cond_post(newc, prevc, opcode, 0))),
            1 => ((*newm == *prevm) && (b_cond_post(newc, prevc, opcode, 1))),
            2 => ((*newm == *prevm) && (b_cond_post(newc, prevc, opcode, 2))),
            3 => ((*newm == *prevm) && (b_cond_post(newc, prevc, opcode, 3))),
            4 => ((*newm == *prevm) && (b_cond_post(newc, prevc, opcode, 4))),
            5 => ((*newm == *prevm) && (b_cond_post(newc, prevc, opcode, 5))),
            6 => ((*newm == *prevm) && (b_cond_post(newc, prevc, opcode, 6))),
            7 => ((*newm == *prevm) && (b_cond_post(newc, prevc, opcode, 7))),
            8 => ((*newm == *prevm) && (b_cond_post(newc, prevc, opcode, 8))),
            9 => ((*newm == *prevm) && (b_cond_post(newc, prevc, opcode, 9))),
            10 => ((*newm == *prevm) && (b_cond_post(newc, prevc, opcode, 10))),
            11 => ((*newm == *prevm) && (b_cond_post(newc, prevc, opcode, 11))),
            12 => ((*newm == *prevm) && (b_cond_post(newc, prevc, opcode, 12))),
            13 => ((*newm == *prevm) && (b_cond_post(newc, prevc, opcode, 13))),
            14 => ((*newm == *prevm) && (exception_entered(
            newc,
            prevc,
            CpuException::Undefined,
            prevc.registers.reg_spec(15).wrapping_sub(2),
        ))),
            _ => ((*newm == *prevm) && (exception_entered(
            newc,
            prevc,
            CpuException::SWI,
            prevc.registers.reg_spec(15).wrapping_sub(2),
        ))),
        }
    } else if key == 28 {
        ((*newm == *prevm) && (({
            let offset = sign_extend_spec(((opcode % 0x800) * 2) as u32, 0x1000);
            let dest = prevc.registers.reg_spec(15).wrapping_add(offset);
            sets_reg(newc, prevc, 15, (dest & 0xFFFF_FFFE).wrapping_add(2))
        })))
    } else if key == 30 {
        ((*newm == *prevm) && (sets_reg(
            newc,
            prevc,
            14,
            prevc.registers.reg_spec(15).wrapping_add(
                sign_extend_spec((opcode % 0x800).wrapping_shl(12), 0x80_0000),
            ),
        )))
    } else if key == 31 {
        ((*newm == *prevm) && (({
            let pc = prevc.registers.reg_spec(15);
            let lr = prevc.registers.reg_spec(14);
            let dest = lr.wrapping_add(((opcode % 0x800) * 2) as u32) & 0xFFFF_FFFE;
            let mode = prevc.registers.cpsr.mode;
            &&& newc.registers.wf()
            &&& newc.registers.r@ == prevc.registers.r@.update(
                bank_index_spec(mode, 14),
                pc.wrapping_sub(2) | 1,
            ).update(15, dest.wrapping_add(2))
            &&& newc.registers.cpsr == prevc.registers.cpsr
            &&& newc.registers.same_spsr(&prevc.registers)
            &&& newc.cycles == prevc.cycles
            &&& newc.halted == prevc.halted
        })))
    } else {
        ((*newm == *prevm) && (exception_entered(
            newc,
            prevc,
            CpuException::Undefined,
            prevc.registers.reg_spec(15).wrapping_sub(2),
        )))
    }
}

pub fn thumb_exec<M: ArmMemory>(cpu: &mut ArmCpu, memory: &mut M, opcode: u32) -> (c: u32)
    requires
        old(cpu).wf(),
    ensures
        1 <= c,
        final(cpu).wf(),
        final(cpu).cycles == old(cpu).cycles,
        final(cpu).halted == old(cpu).halted,
        plain_unchanged(final(memory), old(memory)),
        thumb_exec_post(final(cpu), old(cpu), final(memory), old(memory), opcode),
{
    let key = (opcode >> 11) % 32;
    if key == 0 {
        thumb_lsl_imm(cpu, memory, opcode)
    } else if key == 1 {
        thumb_lsr_imm(cpu, memory, opcode)
    } else if key == 2 {
        thumb_asr_imm(cpu, memory, opcode)
    } else if key == 3 {
        match (opcode >> 9) % 4 {
            0 => thumb_add_reg(cpu, memory, opcode),
            1 => thumb_sub_reg(cpu, memory, opcode),
            2 => thumb_add_imm3(cpu, memory, opcode),
            _ => thumb_sub_imm3(cpu, memory, opcode),
        }
    } else if key < 8 {
        let op = key % 4;
        if op == 0 {
        match (opcode >> 8) % 8 {
            0 => thumb_mov_i8_r0(cpu, memory, opcode),
            1 => thumb_mov_i8_r1(cpu, memory, opcode),
            2 => thumb_mov_i8_r2(cpu, memory, opcode),
            3 => thumb_mov_i8_r3(cpu, memory, opcode),
            4 => thumb_mov_i8_r4(cpu, memory, opcode),
            5 => thumb_mov_i8_r5(cpu, memory, opcode),
            6 => thumb_mov_i8_r6(cpu, memory, opcode),
            7 => thumb_mov_i8_r7(cpu, memory, opcode),
            _ => thumb_undefined(cpu, memory, opcode),
        }
        } else if op == 1 {
        match (opcode >> 8) % 8 {
            0 => thumb_cmp_i8_r0(cpu, memory, opcode),
            1 => thumb_cmp_i8_r1(cpu, memory, opcode),
            2 => thumb_cmp_i8_r2(cpu, memory, opcode),
            3 => thumb_cmp_i8_r3(cpu, memory, opcode),
            4 => thumb_cmp_i8_r4(cpu, memory, opcode),
            5 => thumb_cmp_i8_r5(cpu, memory, opcode),
            6 => thumb_cmp_i8_r6(cpu, memory, opcode),
            7 => thumb_cmp_i8_r7(cpu, memory, opcode),
            _ => thumb_undefined(cpu, memory, opcode),
        }
        } else if op == 2 {
        match (opcode >> 8) % 8 {
            0 => thumb_add_i8_r0(cpu, memory, opcode),
            1 => thumb_add_i8_r1(cpu, memory, opcode),
            2 => thumb_add_i8_r2(cpu, memory, opcode),
            3 => thumb_add_i8_r3(cpu, memory, opcode),
            4 => thumb_add_i8_r4(cpu, memory, opcode),
            5 => thumb_add_i8_r5(cpu, memory, opcode),
            6 => thumb_add_i8_r6(cpu, memory, opcode),
            7 => thumb_add_i8_r7(cpu, memory, opcode),
            _ => thumb_undefined(cpu, memory, opcode),
        }
        } else {
        match (opcode >> 8) % 8 {
            0 => thumb_sub_i8_r0(cpu, memory, opcode),
            1 => thumb_sub_i8_r1(cpu, memory, opcode),
            2 => thumb_sub_i8_r2(cpu, memory, opcode),
            3 => thumb_sub_i8_r3(cpu, memory, opcode),
            4 => thumb_sub_i8_r4(cpu, memory, opcode),
            5 => thumb_sub_i8_r5(cpu, memory, opcode),
            6 => thumb_sub_i8_r6(cpu, memory, opcode),
            7 => thumb_sub_i8_r7(cpu, memory, opcode),
            _ => thumb_undefined(cpu, memory, opcode),
        }
        }
    } else if key == 8 {
        if (opcode >> 10) % 2 == 0 {
            match (opcode >> 8) % 4 {
                0 => thumb_dp_g1(cpu, memory, opcode),
                1 => thumb_dp_g2(cpu, memory, opcode),
                2 => thumb_dp_g3(cpu, memory, opcode),
                _ => thumb_dp_g4(cpu, memory, opcode),
            }
        } else {
            match (opcode >> 8) % 4 {
                0 => thumb_addh(cpu, memory, opcode),
                1 => thumb_cmph(cpu, memory, opcode),
                2 => thumb_movh(cpu, memory, opcode),
                _ => thumb_bx_reg(cpu, memory, opcode),
            }
        }
    } else if key == 9 {
        match (opcode >> 8) % 8 {
            0 => thumb_ldr_pc_r0(cpu, memory, opcode),
            1 => thumb_ldr_pc_r1(cpu, memory, opcode),
            2 => thumb_ldr_pc_r2(cpu, memory, opcode),
            3 => thumb_ldr_pc_r3(cpu, memory, opcode),
            4 => thumb_ldr_pc_r4(cpu, memory, opcode),
            5 => thumb_ldr_pc_r5(cpu, memory, opcode),
            6 => thumb_ldr_pc_r6(cpu, memory, opcode),
            7 => thumb_ldr_pc_r7(cpu, memory, opcode),
            _ => thumb_undefined(cpu, memory, opcode),
        }
    } else if key == 10 || key == 11 {
        match (opcode >> 9) % 8 {
            0 => thumb_str_reg(cpu, memory, opcode),
            1 => thumb_strh_reg(cpu, memory, opcode),
            2 => thumb_strb_reg(cpu, memory, opcode),
            3 => thumb_ldrsb_reg(cpu, memory, opcode),
            4 => thumb_ldr_reg(cpu, memory, opcode),
            5 => thumb_ldrh_reg(cpu, memory, opcode),
            6 => thumb_ldrb_reg(cpu, memory, opcode),
            _ => thumb_ldrsh_reg(cpu, memory, opcode),
        }
    } else if key == 12 {
        thumb_str_imm5(cpu, memory, opcode)
    } else if key == 13 {
        thumb_ldr_imm5(cpu, memory, opcode)
    } else if key == 14 {
        thumb_strb_imm5(cpu, memory, opcode)
    } else if key == 15 {
        thumb_ldrb_imm5(cpu, memory, opcode)
    } else if key == 16 {
        thumb_strh_imm5(cpu, memory, opcode)
    } else if key == 17 {
        thumb_ldrh_imm5(cpu, memory, opcode)
    } else if key == 18 {
        match (opcode >> 8) % 8 {
            0 => thumb_strsp_r0(cpu, memory, opcode),
            1 => thumb_strsp_r1(cpu, memory, opcode),
            2 => thumb_strsp_r2(cpu, memory, opcode),
            3 => thumb_strsp_r3(cpu, memory, opcode),
            4 => thumb_strsp_r4(cpu, memory, opcode),
            5 => thumb_strsp_r5(cpu, memory, opcode),
            6 => thumb_strsp_r6(cpu, memory, opcode),
            7 => thumb_strsp_r7(cpu, memory, opcode),
            _ => thumb_undefined(cpu, memory, opcode),
        }
    } else if key == 19 {
        match (opcode >> 8) % 8 {
            0 => thumb_ldrsp_r0(cpu, memory, opcode),
            1 => thumb_ldrsp_r1(cpu, memory, opcode),
            2 => thumb_ldrsp_r2(cpu, memory, opcode),
            3 => thumb_ldrsp_r3(cpu, memory, opcode),
            4 => thumb_ldrsp_r4(cpu, memory, opcode),
            5 => thumb_ldrsp_r5(cpu, memory, opcode),
            6 => thumb_ldrsp_r6(cpu, memory, opcode),
            7 => thumb_ldrsp_r7(cpu, memory, opcode),
            _ => thumb_undefined(cpu, memory, opcode),
        }
    } else if key == 20 {
        match (opcode >> 8) % 8 {
            0 => thumb_addpc_r0(cpu, memory, opcode),
            1 => thumb_addpc_r1(cpu, memory, opcode),
            2 => thumb_addpc_r2(cpu, memory, opcode),
            3 => thumb_addpc_r3(cpu, memory, opcode),
            4 => thumb_addpc_r4(cpu, memory, opcode),
            5 => thumb_addpc_r5(cpu, memory, opcode),
            6 => thumb_addpc_r6(cpu, memory, opcode),
            7 => thumb_addpc_r7(cpu, memory, opcode),
            _ => thumb_undefined(cpu, memory, opcode),
        }
    } else if key == 21 {
        match (opcode >> 8) % 8 {
            0 => thumb_addsp_r0(cpu, memory, opcode),
            1 => thumb_addsp_r1(cpu, memory, opcode),
            2 => thumb_addsp_r2(cpu, memory, opcode),
            3 => thumb_addsp_r3(cpu, memory, opcode),
            4 => thumb_addsp_r4(cpu, memory, opcode),
            5 => thumb_addsp_r5(cpu, memory, opcode),
            6 => thumb_addsp_r6(cpu, memory, opcode),
            7 => thumb_addsp_r7(cpu, memory, opcode),
            _ => thumb_undefined(cpu, memory, opcode),
        }
    } else if key == 22 || key == 23 {
        let misc = (opcode >> 8) % 16;
        if misc == 0 {
            thumb_addsp_imm7(cpu, memory, opcode)
        } else if misc == 4 {
            thumb_push(cpu, memory, opcode)
        } else if misc == 5 {
            thumb_push_lr(cpu, memory, opcode)
        } else if misc == 12 {
            thumb_pop(cpu, memory, opcode)
        } else if misc == 13 {
            thumb_pop_pc(cpu, memory, opcode)
        } else {
            thumb_undefined(cpu, memory, opcode)
        }
    } else if key == 24 {
        match (opcode >> 8) % 8 {
            0 => thumb_stmia_r0(cpu, memory, opcode),
            1 => thumb_stmia_r1(cpu, memory, opcode),
            2 => thumb_stmia_r2(cpu, memory, opcode),
            3 => thumb_stmia_r3(cpu, memory, opcode),
            4 => thumb_stmia_r4(cpu, memory, opcode),
            5 => thumb_stmia_r5(cpu, memory, opcode),
            6 => thumb_stmia_r6(cpu, memory, opcode),
            7 => thumb_stmia_r7(cpu, memory, opcode),
            _ => thumb_undefined(cpu, memory, opcode),
        }
    } else if key == 25 {
        match (opcode >> 8) % 8 {
            0 => thumb_ldmia_r0(cpu, memory, opcode),
            1 => thumb_ldmia_r1(cpu, memory, opcode),
            2 => thumb_ldmia_r2(cpu, memory, opcode),
            3 => thumb_ldmia_r3(cpu, memory, opcode),
            4 => thumb_ldmia_r4(cpu, memory, opcode),
            5 => thumb_ldmia_r5(cpu, memory, opcode),
            6 => thumb_ldmia_r6(cpu, memory, opcode),
            7 => thumb_ldmia_r7(cpu, memory, opcode),
            _ => thumb_undefined(cpu, memory, opcode),
        }
    } else if key == 26 || key == 27 {
        match (opcode >> 8) % 16 {
            0 => thumb_beq(cpu, memory, opcode),
            1 => thumb_bne(cpu, memory, opcode),
            2 => thumb_bcs(cpu, memory, opcode),
            3 => thumb_bcc(cpu, memory, opcode),
            4 => thumb_bmi(cpu, memory, opcode),
            5 => thumb_bpl(cpu, memory, opcode),
            6 => thumb_bvs(cpu, memory, opcode),
            7 => thumb_bvc(cpu, memory, opcode),
            8 => thumb_bhi(cpu, memory, opcode),
            9 => thumb_bls(cpu, memory, opcode),
            10 => thumb_bge(cpu, memory, opcode),
            11 => thumb_blt(cpu, memory, opcode),
            12 => thumb_bgt(cpu, memory, opcode),
            13 => thumb_ble(cpu, memory, opcode),
            14 => thumb_undefined(cpu, memory, opcode),
            _ => thumb_swi(cpu, memory, opcode),
        }
    } else if key == 28 {
        thumb_b(cpu, memory, opcode)
    } else if key == 30 {
        thumb_bl_setup(cpu, memory, opcode)
    } else if key == 31 {
        thumb_bl_off(cpu, memory, opcode)
    } else {
        thumb_undefined(cpu, memory, opcode)
    }
}

} // verus!
