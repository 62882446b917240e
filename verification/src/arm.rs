//! The ARM (32-bit) instruction handlers and their decoder. Handlers take
//! the processor, the memory bus and the fetched instruction word, apply the
//! instruction, and return the cycles consumed. R15 reads as the
//! instruction's own address plus 8, per the pipeline convention. The
//! condition-code gate lives in the decoder, `arm_exec`.

use vstd::prelude::*;
use crate::alu;
use crate::alu::bit31;
use crate::cpu::ArmCpu;
use crate::cpu::ArmMemory;
use crate::cpu::CpuException;
use crate::cpu::byte_stored;
use crate::cpu::check_condition;
use crate::cpu::cond_passed_spec;
use crate::cpu::cpu_unchanged;
use crate::cpu::exception_entered;
use crate::cpu::halfword_stored;
use crate::cpu::ldr_result_spec;
use crate::cpu::mem_halfword;
use crate::cpu::mem_unchanged;
use crate::cpu::mem_word;
use crate::cpu::plain_halfword;
use crate::cpu::plain_unchanged;
use crate::cpu::plain_word;
use crate::cpu::sets_psr;
use crate::cpu::sets_reg;
use crate::cpu::sets_reg_psr;
use crate::cpu::word_stored;
use crate::bits::sign_extend;
use crate::bits::sign_extend_spec;
use crate::registers::CpuMode;
use crate::registers::Psr;
use crate::registers::bank_index_spec;
use crate::registers::psr_bits_spec;
use crate::registers::psr_decode_spec;

verus! {

/// The register in bits 0-3 (Rm).
pub open spec fn field_rm(instr: u32) -> int {
    (instr % 16) as int
}

/// The register in bits 12-15 (Rd).
pub open spec fn field_rd(instr: u32) -> int {
    ((instr >> 12) % 16) as int
}

/// The register in bits 16-19 (Rn).
pub open spec fn field_rn(instr: u32) -> int {
    ((instr >> 16) % 16) as int
}

/// Branch and exchange: bit 0 of Rm selects Thumb state; the program counter
/// takes Rm with its state-appropriate low bits cleared.
pub fn arm_bx<M: ArmMemory>(cpu: &mut ArmCpu, memory: &mut M, instr: u32) -> (c: u32)
    requires
        old(cpu).wf(),
    ensures
        1 <= c,
        *final(memory) == *old(memory),
        ({
            let dest = old(cpu).registers.reg_spec(field_rm(instr));
            if dest % 2 == 0 {
                sets_reg(final(cpu), old(cpu), 15, (dest & 0xFFFF_FFFC).wrapping_add(4))
            } else {
                sets_reg_psr(
                    final(cpu),
                    old(cpu),
                    15,
                    (dest & 0xFFFF_FFFE).wrapping_add(2),
                    Psr { thumb: true, ..old(cpu).registers.cpsr },
                )
            }
        }),
{
    let c0 = cpu.arm_prefetch(memory);
    let dest = cpu.registers.read(instr % 16);
    if dest % 2 == 0 {
        let refill = cpu.arm_branch_to(dest & 0xFFFF_FFFC, memory);
        proof {
            crate::bits::lemma_align_facts();
            assert((dest & 0xFFFF_FFFC) % 4 == 0);
            assert((dest & 0xFFFF_FFFC) & 0xFFFF_FFFC == dest & 0xFFFF_FFFC);
        }
        c0 + refill
    } else {
        cpu.registers.setf_t();
        let refill = cpu.thumb_branch_to(dest & 0xFFFF_FFFE, memory);
        proof {
            crate::bits::lemma_align_facts();
            assert((dest & 0xFFFF_FFFE) & 0xFFFF_FFFE == dest & 0xFFFF_FFFE);
        }
        c0 + refill
    }
}

/// Branch: a signed 24-bit word offset relative to the pipelined PC. The
/// destination is taken with its low two bits cleared.
pub fn arm_b<M: ArmMemory>(cpu: &mut ArmCpu, memory: &mut M, instr: u32) -> (c: u32)
    requires
        old(cpu).wf(),
    ensures
        1 <= c,
        *final(memory) == *old(memory),
        ({
            let offset = sign_extend_spec(instr % 0x100_0000, 0x100_0000).wrapping_shl(2);
            let dest = old(cpu).registers.reg_spec(15).wrapping_add(offset);
            sets_reg(final(cpu), old(cpu), 15, (dest & 0xFFFF_FFFC).wrapping_add(4))
        }),
{
    let c0 = cpu.arm_prefetch(memory);
    let offset = sign_extend(instr % 0x100_0000, 0x100_0000).wrapping_shl(2);
    let pc = cpu.registers.read(15);
    let dest = pc.wrapping_add(offset);
    let refill = cpu.arm_branch_to(dest, memory);
    c0 + refill
}

/// Branch with link: as `arm_b`, and the address of the following
/// instruction, word-aligned, lands in LR.
pub fn arm_bl<M: ArmMemory>(cpu: &mut ArmCpu, memory: &mut M, instr: u32) -> (c: u32)
    requires
        old(cpu).wf(),
    ensures
        1 <= c,
        *final(memory) == *old(memory),
        ({
            let offset = sign_extend_spec(instr % 0x100_0000, 0x100_0000).wrapping_shl(2);
            let pc = old(cpu).registers.reg_spec(15);
            let dest = pc.wrapping_add(offset);
            let mode = old(cpu).registers.cpsr.mode;
            &&& final(cpu).registers.wf()
            &&& final(cpu).registers.r@ == old(cpu).registers.r@.update(
                bank_index_spec(mode, 14),
                pc.wrapping_sub(4) & 0xFFFF_FFFC,
            ).update(15, (dest & 0xFFFF_FFFC).wrapping_add(4))
            &&& final(cpu).registers.cpsr == old(cpu).registers.cpsr
            &&& final(cpu).registers.same_spsr(&old(cpu).registers)
            &&& final(cpu).cycles == old(cpu).cycles
            &&& final(cpu).halted == old(cpu).halted
        }),
{
    let c0 = cpu.arm_prefetch(memory);
    let offset = sign_extend(instr % 0x100_0000, 0x100_0000).wrapping_shl(2);
    let pc = cpu.registers.read(15);
    let dest = pc.wrapping_add(offset);
    cpu.registers.write(14, pc.wrapping_sub(4) & 0xFFFF_FFFC);
    let refill = cpu.arm_branch_to(dest, memory);
    c0 + refill
}

/// Move status word to register: MRS Rd, CPSR.
///
/// The PC is not meant to be the destination here, but the encoding is not
/// rejected and simply writes physical slot 15.
pub fn arm_mrs_rc<M: ArmMemory>(cpu: &mut ArmCpu, memory: &mut M, instr: u32) -> (c: u32)
    requires
        old(cpu).wf(),
    ensures
        1 <= c,
        *final(memory) == *old(memory),
        sets_reg(final(cpu), old(cpu), field_rd(instr), psr_bits_spec(old(cpu).registers.cpsr)),
{
    let rd = (instr >> 12) % 16;
    let cpsr = cpu.registers.read_cpsr();
    cpu.registers.write(rd, cpsr);
    cpu.arm_prefetch(memory)
}

/// Move status word to register: MRS Rd, SPSR. In User and System mode,
/// which have no SPSR, the CPSR is read instead.
pub fn arm_mrs_rs<M: ArmMemory>(cpu: &mut ArmCpu, memory: &mut M, instr: u32) -> (c: u32)
    requires
        old(cpu).wf(),
    ensures
        1 <= c,
        *final(memory) == *old(memory),
        sets_reg(final(cpu), old(cpu), field_rd(instr), old(cpu).registers.spsr_read_spec()),
{
    let rd = (instr >> 12) % 16;
    let spsr = cpu.registers.read_spsr();
    cpu.registers.write(rd, spsr);
    cpu.arm_prefetch(memory)
}

/// MSR CPSR_flg with an immediate operand: only the four condition flags are
/// replaced, from the top bits of the rotated immediate. The all-fields form
/// does not exist with an immediate and raises the Undefined exception.
pub fn arm_msr_ic<M: ArmMemory>(cpu: &mut ArmCpu, memory: &mut M, instr: u32) -> (c: u32)
    requires
        old(cpu).wf(),
    ensures
        1 <= c,
        *final(memory) == *old(memory),
        ({
            if (instr >> 16) % 2 == 0 {
                let src = alu::dp_imm_spec(instr, false).0;
                sets_psr(
                    final(cpu),
                    old(cpu),
                    Psr {
                        n: src >= 0x8000_0000,
                        z: src & 0x4000_0000 != 0,
                        c: src & 0x2000_0000 != 0,
                        v: src & 0x1000_0000 != 0,
                        ..old(cpu).registers.cpsr
                    },
                )
            } else {
                exception_entered(
                    final(cpu),
                    old(cpu),
                    CpuException::Undefined,
                    old(cpu).registers.reg_spec(15).wrapping_sub(4),
                )
            }
        }),
{
    if (instr >> 16) % 2 == 0 {
        let src = alu::bs_imm_nc(instr);
        cpu.registers.putf_n(src >= 0x8000_0000);
        cpu.registers.putf_z(src & 0x4000_0000 != 0);
        cpu.registers.putf_c(src & 0x2000_0000 != 0);
        cpu.registers.putf_v(src & 0x1000_0000 != 0);
        cpu.arm_prefetch(memory)
    } else {
        arm_undefined(cpu, memory, instr)
    }
}

/// MSR SPSR_flg with an immediate operand: the top four bits of the current
/// mode's SPSR are replaced. The all-fields form raises Undefined.
pub fn arm_msr_is<M: ArmMemory>(cpu: &mut ArmCpu, memory: &mut M, instr: u32) -> (c: u32)
    requires
        old(cpu).wf(),
    ensures
        1 <= c,
        *final(memory) == *old(memory),
        ({
            if (instr >> 16) % 2 == 0 {
                let src = alu::dp_imm_spec(instr, false).0;
                let merged = (old(cpu).registers.spsr_read_spec() & 0x0FFF_FFFF) | (src
                    & 0xF000_0000);
                &&& final(cpu).registers.wf()
                &&& final(cpu).registers.r@ == old(cpu).registers.r@
                &&& final(cpu).registers.cpsr == old(cpu).registers.cpsr
                &&& (old(cpu).registers.cpsr.mode.has_spsr_spec() ==> final(cpu).registers.spsr@
                    == old(cpu).registers.spsr@.update(
                    crate::registers::spsr_index_spec(old(cpu).registers.cpsr.mode),
                    merged,
                ))
                &&& (!old(cpu).registers.cpsr.mode.has_spsr_spec() ==> final(cpu).registers.same_spsr(&old(cpu).registers))
                &&& final(cpu).cycles == old(cpu).cycles
                &&& final(cpu).halted == old(cpu).halted
            } else {
                exception_entered(
                    final(cpu),
                    old(cpu),
                    CpuException::Undefined,
                    old(cpu).registers.reg_spec(15).wrapping_sub(4),
                )
            }
        }),
{
    if (instr >> 16) % 2 == 0 {
        let src = alu::bs_imm_nc(instr);
        let spsr = cpu.registers.read_spsr();
        cpu.registers.write_spsr((spsr & 0x0FFF_FFFF) | (src & 0xF000_0000));
        cpu.arm_prefetch(memory)
    } else {
        arm_undefined(cpu, memory, instr)
    }
}

/// MSR CPSR, Rm: the flags-only form replaces the four condition flags; the
/// all-fields form replaces the whole CPSR, switching mode if the new mode
/// field names one (an invalid mode field leaves the mode in place).
pub fn arm_msr_rc<M: ArmMemory>(cpu: &mut ArmCpu, memory: &mut M, instr: u32) -> (c: u32)
    requires
        old(cpu).wf(),
    ensures
        1 <= c,
        *final(memory) == *old(memory),
        ({
            let src = old(cpu).registers.reg_spec(field_rm(instr));
            if (instr >> 16) % 2 == 0 {
                sets_psr(
                    final(cpu),
                    old(cpu),
                    Psr {
                        n: src >= 0x8000_0000,
                        z: src & 0x4000_0000 != 0,
                        c: src & 0x2000_0000 != 0,
                        v: src & 0x1000_0000 != 0,
                        ..old(cpu).registers.cpsr
                    },
                )
            } else {
                sets_psr(
                    final(cpu),
                    old(cpu),
                    psr_decode_spec(src, old(cpu).registers.cpsr.mode),
                )
            }
        }),
{
    let src = cpu.registers.read(instr % 16);
    if (instr >> 16) % 2 == 0 {
        cpu.registers.putf_n(src >= 0x8000_0000);
        cpu.registers.putf_z(src & 0x4000_0000 != 0);
        cpu.registers.putf_c(src & 0x2000_0000 != 0);
        cpu.registers.putf_v(src & 0x1000_0000 != 0);
    } else {
        cpu.registers.write_cpsr(src);
    }
    cpu.arm_prefetch(memory)
}

/// MSR SPSR, Rm: flags-only or whole-register write of the current mode's
/// SPSR (dropped in User and System mode, which have none).
pub fn arm_msr_rs<M: ArmMemory>(cpu: &mut ArmCpu, memory: &mut M, instr: u32) -> (c: u32)
    requires
        old(cpu).wf(),
    ensures
        1 <= c,
        *final(memory) == *old(memory),
        ({
            let src = old(cpu).registers.reg_spec(field_rm(instr));
            let value = if (instr >> 16) % 2 == 0 {
                (old(cpu).registers.spsr_read_spec() & 0x0FFF_FFFF) | (src & 0xF000_0000)
            } else {
                src
            };
            &&& final(cpu).registers.wf()
            &&& final(cpu).registers.r@ == old(cpu).registers.r@
            &&& final(cpu).registers.cpsr == old(cpu).registers.cpsr
            &&& (old(cpu).registers.cpsr.mode.has_spsr_spec() ==> final(cpu).registers.spsr@ == old(cpu).registers.spsr@.update(
                crate::registers::spsr_index_spec(old(cpu).registers.cpsr.mode),
                value,
            ))
            &&& (!old(cpu).registers.cpsr.mode.has_spsr_spec() ==> final(cpu).registers.same_spsr(
                &old(cpu).registers,
            ))
            &&& final(cpu).cycles == old(cpu).cycles
            &&& final(cpu).halted == old(cpu).halted
        }),
{
    let src = cpu.registers.read(instr % 16);
    if (instr >> 16) % 2 == 0 {
        let spsr = cpu.registers.read_spsr();
        cpu.registers.write_spsr((spsr & 0x0FFF_FFFF) | (src & 0xF000_0000));
    } else {
        cpu.registers.write_spsr(src);
    }
    cpu.arm_prefetch(memory)
}

/// SWP: atomically (to the core) loads the word at Rn into Rd and stores Rm
/// there.
pub fn arm_swp<M: ArmMemory>(cpu: &mut ArmCpu, memory: &mut M, instr: u32) -> (c: u32)
    requires
        old(cpu).wf(),
    ensures
        1 <= c,
        plain_unchanged(final(memory), old(memory)),
        ({
            let addr = old(cpu).registers.reg_spec(field_rn(instr));
            &&& sets_reg(
                final(cpu),
                old(cpu),
                field_rd(instr),
                mem_word(old(memory), addr & 0xFFFF_FFFC),
            )
            &&& (plain_word(old(memory), addr & 0xFFFF_FFFC) ==> word_stored(
                final(memory),
                old(memory),
                addr & 0xFFFF_FFFC,
                old(cpu).registers.reg_spec(field_rm(instr)),
            ))
        }),
{
    let rm = instr % 16;
    let rd = (instr >> 12) % 16;
    let rn = (instr >> 16) % 16;
    let addr = cpu.registers.read(rn);
    let (temp, c1) = memory.read_data_word(addr, false);
    let value = cpu.registers.read(rm);
    proof {
        crate::bits::lemma_align_facts();
    }
    let c2 = memory.write_data_word(addr, value, false);
    cpu.registers.write(rd, temp);
    let c0 = cpu.arm_prefetch(memory);
    c0 + c1 + c2
}

/// SWPB: atomically loads the byte at Rn into Rd and stores the low byte of
/// Rm there.
pub fn arm_swpb<M: ArmMemory>(cpu: &mut ArmCpu, memory: &mut M, instr: u32) -> (c: u32)
    requires
        old(cpu).wf(),
    ensures
        1 <= c,
        plain_unchanged(final(memory), old(memory)),
        ({
            let addr = old(cpu).registers.reg_spec(field_rn(instr));
            &&& sets_reg(
                final(cpu),
                old(cpu),
                field_rd(instr),
                old(memory).byte_at(addr) as u32,
            )
            &&& (old(memory).plain(addr) ==> byte_stored(
                final(memory),
                old(memory),
                addr,
                (old(cpu).registers.reg_spec(field_rm(instr)) % 0x100) as u8,
            ))
        }),
{
    let rm = instr % 16;
    let rd = (instr >> 12) % 16;
    let rn = (instr >> 16) % 16;
    let addr = cpu.registers.read(rn);
    let (temp, c1) = memory.read_data_byte(addr, false);
    let value = cpu.registers.read(rm);
    let c2 = memory.write_data_byte(addr, (value % 0x100) as u8, false);
    cpu.registers.write(rd, temp as u32);
    let c0 = cpu.arm_prefetch(memory);
    c0 + c1 + c2
}

/// SWI: enters Supervisor mode through the SWI vector; the return address is
/// the following instruction.
pub fn arm_swi<M: ArmMemory>(cpu: &mut ArmCpu, memory: &mut M, instr: u32) -> (c: u32)
    requires
        old(cpu).wf(),
    ensures
        1 <= c,
        *final(memory) == *old(memory),
        exception_entered(
            final(cpu),
            old(cpu),
            CpuException::SWI,
            old(cpu).registers.reg_spec(15).wrapping_sub(4),
        ),
{
    let c0 = cpu.arm_prefetch(memory);
    let ret = cpu.registers.read(15).wrapping_sub(4);
    let c1 = cpu.handle_exception(CpuException::SWI, memory, ret);
    c0 + c1
}

/// An undefined ARM encoding (the whole coprocessor space included): enters
/// Undefined mode through its vector.
pub fn arm_undefined<M: ArmMemory>(cpu: &mut ArmCpu, memory: &mut M, instr: u32) -> (c: u32)
    requires
        old(cpu).wf(),
    ensures
        1 <= c,
        *final(memory) == *old(memory),
        exception_entered(
            final(cpu),
            old(cpu),
            CpuException::Undefined,
            old(cpu).registers.reg_spec(15).wrapping_sub(4),
        ),
{
    let c0 = cpu.arm_prefetch(memory);
    let ret = cpu.registers.read(15).wrapping_sub(4);
    let c1 = cpu.handle_exception(CpuException::Undefined, memory, ret);
    c0 + c1
}

/// The second operand of a data-processing instruction together with its
/// shifter carry-out: a rotated 8-bit immediate, a register shifted by an
/// immediate, or a register shifted by the bottom byte of another register.
pub open spec fn operand2_spec(c: &ArmCpu, instr: u32) -> (u32, bool) {
    if (instr >> 25) % 2 == 1 {
        alu::dp_imm_spec(instr, c.registers.cpsr.c)
    } else {
        let rm_val = c.registers.reg_spec((instr % 16) as int);
        let shift_type = (instr >> 5) % 4;
        if (instr >> 4) % 2 == 0 {
            let amount = (instr >> 7) % 32;
            if shift_type == 0 {
                alu::lsl_imm_spec(rm_val, amount, c.registers.cpsr.c)
            } else if shift_type == 1 {
                alu::lsr_imm_spec(rm_val, amount)
            } else if shift_type == 2 {
                alu::asr_imm_spec(rm_val, amount)
            } else {
                alu::ror_imm_spec(rm_val, amount, c.registers.cpsr.c)
            }
        } else {
            let amount = c.registers.reg_spec(((instr >> 8) % 16) as int) % 0x100;
            if shift_type == 0 {
                alu::lsl_reg_spec(rm_val, amount, c.registers.cpsr.c)
            } else if shift_type == 1 {
                alu::lsr_reg_spec(rm_val, amount, c.registers.cpsr.c)
            } else if shift_type == 2 {
                alu::asr_reg_spec(rm_val, amount, c.registers.cpsr.c)
            } else {
                alu::ror_reg_spec(rm_val, amount, c.registers.cpsr.c)
            }
        }
    }
}

/// Whether the operand is a register shifted by a register, which costs one
/// internal cycle.
pub open spec fn operand2_regshift(instr: u32) -> bool {
    (instr >> 25) % 2 == 0 && (instr >> 4) % 2 == 1
}

fn dp_operand2(cpu: &ArmCpu, instr: u32) -> (r: (u32, bool))
    requires
        cpu.wf(),
    ensures
        r == operand2_spec(cpu, instr),
{
    if (instr >> 25) % 2 == 1 {
        alu::bs_imm(instr, cpu.registers.getf_c())
    } else {
        let rm_val = cpu.registers.read(instr % 16);
        let shift_type = (instr >> 5) % 4;
        let c_in = cpu.registers.getf_c();
        if (instr >> 4) % 2 == 0 {
            let amount = (instr >> 7) % 32;
            if shift_type == 0 {
                alu::shift_lsl_imm(rm_val, amount, c_in)
            } else if shift_type == 1 {
                alu::shift_lsr_imm(rm_val, amount)
            } else if shift_type == 2 {
                alu::shift_asr_imm(rm_val, amount)
            } else {
                alu::shift_ror_imm(rm_val, amount, c_in)
            }
        } else {
            let amount = cpu.registers.read((instr >> 8) % 16) % 0x100;
            if shift_type == 0 {
                alu::shift_lsl_reg(rm_val, amount, c_in)
            } else if shift_type == 1 {
                alu::shift_lsr_reg(rm_val, amount, c_in)
            } else if shift_type == 2 {
                alu::shift_asr_reg(rm_val, amount, c_in)
            } else {
                alu::shift_ror_reg(rm_val, amount, c_in)
            }
        }
    }
}

/// The result and final N/Z/C/V flags of data-processing operation `op`
/// (bits 21-24) on `lhs` and the shifter output, given the incoming carry
/// and overflow flags. Logical operations take their carry from the shifter.
pub open spec fn dp_compute_spec(op: u32, lhs: u32, op2: u32, sc: bool, c0: bool, v0: bool) -> (
    u32,
    bool,
    bool,
    bool,
    bool,
) {
    let (res, cf, vf): (u32, bool, bool) = if op == 0 || op == 8 {
        (lhs & op2, sc, v0)
    } else if op == 1 || op == 9 {
        (lhs ^ op2, sc, v0)
    } else if op == 2 || op == 10 {
        (
            lhs.wrapping_sub(op2),
            alu::carry_sub(lhs, op2),
            alu::overflow_sub(lhs, op2, lhs.wrapping_sub(op2)),
        )
    } else if op == 3 {
        (
            op2.wrapping_sub(lhs),
            alu::carry_sub(op2, lhs),
            alu::overflow_sub(op2, lhs, op2.wrapping_sub(lhs)),
        )
    } else if op == 4 || op == 11 {
        (
            lhs.wrapping_add(op2),
            alu::carry_add(lhs, op2),
            alu::overflow_add(lhs, op2, lhs.wrapping_add(op2)),
        )
    } else if op == 5 {
        (
            alu::adc_result(lhs, op2, c0),
            alu::carry_adc(lhs, op2, c0),
            alu::overflow_add(lhs, op2, alu::adc_result(lhs, op2, c0)),
        )
    } else if op == 6 {
        (
            alu::sbc_result(lhs, op2, c0),
            alu::carry_sbc(lhs, op2, c0),
            alu::overflow_sub(lhs, op2, alu::sbc_result(lhs, op2, c0)),
        )
    } else if op == 7 {
        (
            alu::sbc_result(op2, lhs, c0),
            alu::carry_sbc(op2, lhs, c0),
            alu::overflow_sub(op2, lhs, alu::sbc_result(op2, lhs, c0)),
        )
    } else if op == 12 {
        (lhs | op2, sc, v0)
    } else if op == 13 {
        (op2, sc, v0)
    } else if op == 14 {
        (lhs & !op2, sc, v0)
    } else {
        (!op2, sc, v0)
    };
    (res, bit31(res), res == 0, cf, vf)
}

fn dp_compute(op: u32, lhs: u32, op2: u32, sc: bool, c0: bool, v0: bool) -> (r: (
    u32,
    bool,
    bool,
    bool,
    bool,
))
    ensures
        r == dp_compute_spec(op, lhs, op2, sc, c0, v0),
{
    let (res, cf, vf): (u32, bool, bool) = if op == 0 || op == 8 {
        (lhs & op2, sc, v0)
    } else if op == 1 || op == 9 {
        (lhs ^ op2, sc, v0)
    } else if op == 2 || op == 10 {
        let r0 = lhs.wrapping_sub(op2);
        (
            r0,
            lhs >= op2,
            ((lhs >= 0x8000_0000) != (op2 >= 0x8000_0000)) && ((r0 >= 0x8000_0000) != (lhs
                >= 0x8000_0000)),
        )
    } else if op == 3 {
        let r0 = op2.wrapping_sub(lhs);
        (
            r0,
            op2 >= lhs,
            ((op2 >= 0x8000_0000) != (lhs >= 0x8000_0000)) && ((r0 >= 0x8000_0000) != (op2
                >= 0x8000_0000)),
        )
    } else if op == 4 || op == 11 {
        let r0 = lhs.wrapping_add(op2);
        (
            r0,
            lhs > u32::MAX - op2,
            ((lhs >= 0x8000_0000) == (op2 >= 0x8000_0000)) && ((r0 >= 0x8000_0000) != (lhs
                >= 0x8000_0000)),
        )
    } else if op == 5 {
        let wide: u64 = lhs as u64 + op2 as u64 + (if c0 {
            1u64
        } else {
            0u64
        });
        let r0 = (wide % 0x1_0000_0000) as u32;
        (
            r0,
            wide > 0xFFFF_FFFF,
            ((lhs >= 0x8000_0000) == (op2 >= 0x8000_0000)) && ((r0 >= 0x8000_0000) != (lhs
                >= 0x8000_0000)),
        )
    } else if op == 6 {
        let borrow: u32 = if c0 {
            0
        } else {
            1
        };
        let r0 = lhs.wrapping_sub(op2).wrapping_sub(borrow);
        (
            r0,
            lhs as u64 >= op2 as u64 + borrow as u64,
            ((lhs >= 0x8000_0000) != (op2 >= 0x8000_0000)) && ((r0 >= 0x8000_0000) != (lhs
                >= 0x8000_0000)),
        )
    } else if op == 7 {
        let borrow: u32 = if c0 {
            0
        } else {
            1
        };
        let r0 = op2.wrapping_sub(lhs).wrapping_sub(borrow);
        (
            r0,
            op2 as u64 >= lhs as u64 + borrow as u64,
            ((op2 >= 0x8000_0000) != (lhs >= 0x8000_0000)) && ((r0 >= 0x8000_0000) != (op2
                >= 0x8000_0000)),
        )
    } else if op == 12 {
        (lhs | op2, sc, v0)
    } else if op == 13 {
        (op2, sc, v0)
    } else if op == 14 {
        (lhs & !op2, sc, v0)
    } else {
        (!op2, sc, v0)
    };
    (res, res >= 0x8000_0000, res == 0, cf, vf)
}

/// What a data-processing instruction does. The comparison operations
/// (TST/TEQ/CMP/CMN) only set flags; the rest write Rd, with flags when the
/// S bit is set. A destination of R15 branches, restoring the CPSR from the
/// SPSR first when S is set (from a mode that has one).
pub open spec fn dataproc_post(newc: &ArmCpu, prevc: &ArmCpu, instr: u32) -> bool {
    let op = (instr >> 21) % 16;
    let s = (instr >> 20) % 2 == 1;
    let rd = field_rd(instr);
    let lhs = prevc.registers.reg_spec(field_rn(instr));
    let (op2, sc) = operand2_spec(prevc, instr);
    let (res, n, z, cf, vf) = dp_compute_spec(
        op,
        lhs,
        op2,
        sc,
        prevc.registers.cpsr.c,
        prevc.registers.cpsr.v,
    );
    let flags_psr = Psr { n, z, c: cf, v: vf, ..prevc.registers.cpsr };
    if 8 <= op < 12 {
        if s {
            sets_psr(newc, prevc, flags_psr)
        } else {
            cpu_unchanged(newc, prevc)
        }
    } else if rd != 15 {
        if s {
            sets_reg_psr(newc, prevc, rd, res, flags_psr)
        } else {
            sets_reg(newc, prevc, rd, res)
        }
    } else if s {
        if prevc.registers.cpsr.mode.has_spsr_spec() {
            let p = psr_decode_spec(
                prevc.registers.spsr_with_mode_spec(prevc.registers.cpsr.mode),
                prevc.registers.cpsr.mode,
            );
            &&& newc.registers.wf()
            &&& newc.registers.cpsr == p
            &&& newc.registers.same_spsr(&prevc.registers)
            &&& newc.registers.r@ == prevc.registers.r@.update(
                15,
                if p.thumb {
                    (res & 0xFFFF_FFFE).wrapping_add(2)
                } else {
                    (res & 0xFFFF_FFFC).wrapping_add(4)
                },
            )
            &&& newc.cycles == prevc.cycles
            &&& newc.halted == prevc.halted
        } else {
            // Restoring the SPSR in User or System mode reads the CPSR
            // fallback; only well-formedness is promised of this corner.
            newc.wf() && newc.cycles == prevc.cycles && newc.halted == prevc.halted
        }
    } else {
        sets_reg(newc, prevc, 15, (res & 0xFFFF_FFFC).wrapping_add(4))
    }
}

/// A data-processing instruction (AND through MVN), every operand form.
pub fn arm_dataproc<M: ArmMemory>(cpu: &mut ArmCpu, memory: &mut M, instr: u32) -> (c: u32)
    requires
        old(cpu).wf(),
        !old(cpu).registers.cpsr.thumb,
    ensures
        1 <= c,
        mem_unchanged(final(memory), old(memory)),
        dataproc_post(final(cpu), old(cpu), instr),
{
    let op = (instr >> 21) % 16;
    let s = (instr >> 20) % 2 == 1;
    let rd = (instr >> 12) % 16;
    let rn = (instr >> 16) % 16;
    let (op2, sc) = dp_operand2(cpu, instr);
    let lhs = cpu.registers.read(rn);
    let c_in = cpu.registers.getf_c();
    let v_in = cpu.registers.getf_v();
    let (res, n, z, cf, vf) = dp_compute(op, lhs, op2, sc, c_in, v_in);
    let test_op = op >= 8 && op < 12;
    if s {
        cpu.registers.put_flags(n, z, cf, vf);
    }
    let mut cycles = cpu.arm_prefetch(memory);
    if (instr >> 25) % 2 == 0 && (instr >> 4) % 2 == 1 {
        cycles += 1;
        memory.on_internal_cycles(1);
    }
    if !test_op {
        if rd != 15 {
            cpu.registers.write(rd, res);
        } else {
            if s {
                let sp = cpu.registers.read_spsr();
                cpu.registers.write_cpsr(sp);
            }
            if cpu.registers.getf_t() {
                cycles += cpu.thumb_branch_to(res, memory);
            } else {
                cycles += cpu.arm_branch_to(res, memory);
            }
        }
    }
    cycles
}

/// A multiply instruction: MUL/MLA and the four long forms, with optional
/// flag setting, spending the documented internal cycles on the bus.
pub open spec fn multiply_post(newc: &ArmCpu, prevc: &ArmCpu, instr: u32) -> bool {
    let long = (instr >> 23) % 2 == 1;
    let signed = (instr >> 22) % 2 == 1;
    let acc = (instr >> 21) % 2 == 1;
    let s = (instr >> 20) % 2 == 1;
    let rm = prevc.registers.reg_spec(field_rm(instr));
    let rs = prevc.registers.reg_spec(((instr >> 8) % 16) as int);
    if !long {
        let rd = field_rn(instr);
        let addend = if acc {
            prevc.registers.reg_spec(field_rd(instr))
        } else {
            0u32
        };
        let res = rm.wrapping_mul(rs).wrapping_add(addend);
        if s {
            sets_reg_psr(
                newc,
                prevc,
                rd,
                res,
                Psr { n: bit31(res), z: res == 0, ..prevc.registers.cpsr },
            )
        } else {
            sets_reg(newc, prevc, rd, res)
        }
    } else {
        let rdhi = field_rn(instr);
        let rdlo = field_rd(instr);
        let addend: u64 = if acc {
            (prevc.registers.reg_spec(rdhi) as u64) << 32 | (prevc.registers.reg_spec(
                rdlo,
            ) as u64)
        } else {
            0u64
        };
        let product: u64 = if signed {
            #[verifier::truncate] ((rm as i32 as i64).wrapping_mul(rs as i32 as i64) as u64)
        } else {
            (rm as u64).wrapping_mul(rs as u64)
        };
        let res: u64 = product.wrapping_add(addend);
        let mode = prevc.registers.cpsr.mode;
        &&& newc.registers.wf()
        &&& newc.registers.r@ == prevc.registers.r@.update(
            bank_index_spec(mode, rdlo),
            (res % 0x1_0000_0000) as u32,
        ).update(bank_index_spec(mode, rdhi), (res >> 32) as u32)
        &&& newc.registers.cpsr == if s {
            Psr { n: alu::bit63(res), z: res == 0, ..prevc.registers.cpsr }
        } else {
            prevc.registers.cpsr
        }
        &&& newc.registers.same_spsr(&prevc.registers)
        &&& newc.cycles == prevc.cycles
        &&& newc.halted == prevc.halted
    }
}

pub fn arm_multiply<M: ArmMemory>(cpu: &mut ArmCpu, memory: &mut M, instr: u32) -> (c: u32)
    requires
        old(cpu).wf(),
    ensures
        1 <= c,
        mem_unchanged(final(memory), old(memory)),
        multiply_post(final(cpu), old(cpu), instr),
{
    let long = (instr >> 23) % 2 == 1;
    let signed = (instr >> 22) % 2 == 1;
    let acc = (instr >> 21) % 2 == 1;
    let s = (instr >> 20) % 2 == 1;
    let rm = cpu.registers.read(instr % 16);
    let rs = cpu.registers.read((instr >> 8) % 16);
    let mut cycles = cpu.arm_prefetch(memory);
    if !long {
        let rd = (instr >> 16) % 16;
        let addend = if acc {
            cpu.registers.read((instr >> 12) % 16)
        } else {
            0
        };
        let res = rm.wrapping_mul(rs).wrapping_add(addend);
        cpu.registers.write(rd, res);
        if s {
            alu::set_nz_flags(cpu, res);
        }
        let icycles = alu::internal_multiply_cycles(rs, false) + if acc {
            1
        } else {
            0
        };
        cycles += icycles;
        memory.on_internal_cycles(icycles);
    } else {
        let rdhi = (instr >> 16) % 16;
        let rdlo = (instr >> 12) % 16;
        let addend: u64 = if acc {
            ((cpu.registers.read(rdhi) as u64) << 32) | (cpu.registers.read(rdlo) as u64)
        } else {
            0
        };
        let product: u64 = if signed {
            #[verifier::truncate] ((rm as i32 as i64).wrapping_mul(rs as i32 as i64) as u64)
        } else {
            (rm as u64).wrapping_mul(rs as u64)
        };
        let res = product.wrapping_add(addend);
        cpu.registers.write(rdlo, (res % 0x1_0000_0000) as u32);
        cpu.registers.write(rdhi, #[verifier::truncate] ((res >> 32) as u32));
        if s {
            alu::set_nz_flags_64(cpu, res);
        }
        let icycles = alu::internal_multiply_cycles(rs, signed) + 1 + if acc {
            1
        } else {
            0
        };
        cycles += icycles;
        memory.on_internal_cycles(icycles);
    }
    cycles
}

/// The offset of a single data transfer: a 12-bit immediate, or a register
/// shifted by an immediate.
pub open spec fn sdt_offset_spec(c: &ArmCpu, instr: u32) -> u32 {
    if (instr >> 25) % 2 == 0 {
        instr % 0x1000
    } else {
        let rm_val = c.registers.reg_spec((instr % 16) as int);
        let st = (instr >> 5) % 4;
        let amount = (instr >> 7) % 32;
        if st == 0 {
            alu::lsl_imm_spec(rm_val, amount, c.registers.cpsr.c).0
        } else if st == 1 {
            alu::lsr_imm_spec(rm_val, amount).0
        } else if st == 2 {
            alu::asr_imm_spec(rm_val, amount).0
        } else {
            alu::ror_imm_spec(rm_val, amount, c.registers.cpsr.c).0
        }
    }
}

/// The base register combined with the offset, as the up/down bit directs:
/// the written-back address, and the access address of the pre-indexed forms.
pub open spec fn sdt_indexed_addr_spec(c: &ArmCpu, instr: u32, offset: u32) -> u32 {
    let base = c.registers.reg_spec(field_rn(instr));
    if (instr >> 23) % 2 == 1 {
        base.wrapping_add(offset)
    } else {
        base.wrapping_sub(offset)
    }
}

/// Post-indexed forms access at the plain base address.
pub open spec fn sdt_access_addr_spec(c: &ArmCpu, instr: u32, offset: u32) -> u32 {
    if (instr >> 24) % 2 == 1 {
        sdt_indexed_addr_spec(c, instr, offset)
    } else {
        c.registers.reg_spec(field_rn(instr))
    }
}

/// The base register is written back by every post-indexed form and by
/// pre-indexed forms with the W bit.
pub open spec fn sdt_writeback_spec(instr: u32) -> bool {
    (instr >> 24) % 2 == 0 || (instr >> 21) % 2 == 1
}

fn sdt_offset(cpu: &ArmCpu, instr: u32) -> (r: u32)
    requires
        cpu.wf(),
    ensures
        r == sdt_offset_spec(cpu, instr),
{
    if (instr >> 25) % 2 == 0 {
        instr % 0x1000
    } else {
        let rm_val = cpu.registers.read(instr % 16);
        let st = (instr >> 5) % 4;
        let amount = (instr >> 7) % 32;
        let c_in = cpu.registers.getf_c();
        if st == 0 {
            alu::shift_lsl_imm(rm_val, amount, c_in).0
        } else if st == 1 {
            alu::shift_lsr_imm(rm_val, amount).0
        } else if st == 2 {
            alu::shift_asr_imm(rm_val, amount).0
        } else {
            alu::shift_ror_imm(rm_val, amount, c_in).0
        }
    }
}

/// What a load of this transfer places in the destination: a zero-extended
/// byte, or a word rotated by the misalignment.
pub open spec fn sdt_loaded_value_spec<M: ArmMemory>(m: &M, instr: u32, addr: u32) -> u32 {
    if (instr >> 22) % 2 == 1 {
        m.byte_at(addr) as u32
    } else {
        ldr_result_spec(mem_word(m, addr & 0xFFFF_FFFC), addr)
    }
}

/// A single data transfer: LDR/STR, word or byte, every indexing form. A
/// loaded R15 branches to the loaded word.
pub open spec fn single_transfer_post<M: ArmMemory>(
    newc: &ArmCpu,
    prevc: &ArmCpu,
    newm: &M,
    prevm: &M,
    instr: u32,
) -> bool {
    let load = (instr >> 20) % 2 == 1;
    let byte = (instr >> 22) % 2 == 1;
    let rd = field_rd(instr);
    let rn = field_rn(instr);
    let mode = prevc.registers.cpsr.mode;
    let offset = sdt_offset_spec(prevc, instr);
    let addr = sdt_access_addr_spec(prevc, instr, offset);
    let wb_addr = sdt_indexed_addr_spec(prevc, instr, offset);
    let r_after_wb = if sdt_writeback_spec(instr) {
        prevc.registers.r@.update(bank_index_spec(mode, rn), wb_addr)
    } else {
        prevc.registers.r@
    };
    if load {
        let value = sdt_loaded_value_spec(prevm, instr, addr);
        let target = if rd == 15 {
            (value & 0xFFFF_FFFC).wrapping_add(4)
        } else {
            value
        };
        &&& mem_unchanged(newm, prevm)
        &&& newc.registers.wf()
        &&& newc.registers.r@ == r_after_wb.update(bank_index_spec(mode, rd), target)
        &&& newc.registers.cpsr == prevc.registers.cpsr
        &&& newc.registers.same_spsr(&prevc.registers)
        &&& newc.cycles == prevc.cycles
        &&& newc.halted == prevc.halted
    } else {
        &&& plain_unchanged(newm, prevm)
        &&& (if byte {
            prevm.plain(addr) ==> byte_stored(
                newm,
                prevm,
                addr,
                (prevc.registers.reg_spec(rd) % 0x100) as u8,
            )
        } else {
            plain_word(prevm, addr & 0xFFFF_FFFC) ==> word_stored(
                newm,
                prevm,
                addr & 0xFFFF_FFFC,
                prevc.registers.reg_spec(rd),
            )
        })
        &&& newc.registers.wf()
        &&& newc.registers.r@ == r_after_wb
        &&& newc.registers.cpsr == prevc.registers.cpsr
        &&& newc.registers.same_spsr(&prevc.registers)
        &&& newc.cycles == prevc.cycles
        &&& newc.halted == prevc.halted
    }
}

pub fn arm_single_transfer<M: ArmMemory>(cpu: &mut ArmCpu, memory: &mut M, instr: u32) -> (c: u32)
    requires
        old(cpu).wf(),
        !old(cpu).registers.cpsr.thumb,
    ensures
        1 <= c,
        single_transfer_post(final(cpu), old(cpu), final(memory), old(memory), instr),
{
    let load = (instr >> 20) % 2 == 1;
    let byte = (instr >> 22) % 2 == 1;
    let rd = (instr >> 12) % 16;
    let rn = (instr >> 16) % 16;
    let offset = sdt_offset(cpu, instr);
    let base = cpu.registers.read(rn);
    let indexed = if (instr >> 23) % 2 == 1 {
        base.wrapping_add(offset)
    } else {
        base.wrapping_sub(offset)
    };
    let addr = if (instr >> 24) % 2 == 1 {
        indexed
    } else {
        base
    };
    let writeback = (instr >> 24) % 2 == 0 || (instr >> 21) % 2 == 1;
    let mut cycles = cpu.arm_prefetch(memory);
    if load {
        if writeback {
            cpu.registers.write(rn, indexed);
        }
        let value: u32;
        if byte {
            let (v, dc) = memory.read_data_byte(addr, false);
            value = v as u32;
            cycles += dc;
        } else {
            let (w, dc) = memory.read_data_word(addr, false);
            let rot = 8 * (addr % 4);
            value = if rot == 0 {
                w
            } else {
                (w >> rot) | w.wrapping_shl(32 - rot)
            };
            cycles += dc;
        }
        if rd == 15 {
            cycles += cpu.arm_branch_to(value, memory);
        } else {
            cpu.registers.write(rd, value);
        }
    } else {
        let value = cpu.registers.read(rd);
        if writeback {
            cpu.registers.write(rn, indexed);
        }
        if byte {
            let dc = memory.write_data_byte(addr, (value % 0x100) as u8, false);
            cycles += dc;
        } else {
            proof {
                crate::bits::lemma_align_facts();
            }
            let dc = memory.write_data_word(addr, value, false);
            cycles += dc;
        }
    }
    cycles
}

/// The offset of a halfword or signed transfer: a split 8-bit immediate, or
/// a plain register.
pub open spec fn hws_offset_spec(c: &ArmCpu, instr: u32) -> u32 {
    if (instr >> 22) % 2 == 1 {
        (((instr >> 8) % 16) * 16 + instr % 16) as u32
    } else {
        c.registers.reg_spec((instr % 16) as int)
    }
}

/// What a halfword or signed load places in the destination register.
pub open spec fn hws_loaded_value_spec<M: ArmMemory>(m: &M, instr: u32, addr: u32) -> u32 {
    let signed = (instr >> 6) % 2 == 1;
    let half = (instr >> 5) % 2 == 1;
    if !signed {
        mem_halfword(m, addr & 0xFFFF_FFFE) as u32
    } else if half {
        sign_extend_spec(mem_halfword(m, addr & 0xFFFF_FFFE) as u32, 0x1_0000)
    } else {
        sign_extend_spec(m.byte_at(addr) as u32, 0x100)
    }
}

/// A halfword or signed data transfer: LDRH/STRH/LDRSB/LDRSH, every indexing
/// form.
pub open spec fn hws_transfer_post<M: ArmMemory>(
    newc: &ArmCpu,
    prevc: &ArmCpu,
    newm: &M,
    prevm: &M,
    instr: u32,
) -> bool {
    let load = (instr >> 20) % 2 == 1;
    let rd = field_rd(instr);
    let rn = field_rn(instr);
    let mode = prevc.registers.cpsr.mode;
    let offset = hws_offset_spec(prevc, instr);
    let base = prevc.registers.reg_spec(rn);
    let indexed = if (instr >> 23) % 2 == 1 {
        base.wrapping_add(offset)
    } else {
        base.wrapping_sub(offset)
    };
    let addr = if (instr >> 24) % 2 == 1 {
        indexed
    } else {
        base
    };
    let r_after_wb = if sdt_writeback_spec(instr) {
        prevc.registers.r@.update(bank_index_spec(mode, rn), indexed)
    } else {
        prevc.registers.r@
    };
    if load {
        let value = hws_loaded_value_spec(prevm, instr, addr);
        let target = if rd == 15 {
            (value & 0xFFFF_FFFC).wrapping_add(4)
        } else {
            value
        };
        &&& mem_unchanged(newm, prevm)
        &&& newc.registers.wf()
        &&& newc.registers.r@ == r_after_wb.update(bank_index_spec(mode, rd), target)
        &&& newc.registers.cpsr == prevc.registers.cpsr
        &&& newc.registers.same_spsr(&prevc.registers)
        &&& newc.cycles == prevc.cycles
        &&& newc.halted == prevc.halted
    } else {
        &&& plain_unchanged(newm, prevm)
        &&& (plain_halfword(prevm, addr & 0xFFFF_FFFE) ==> halfword_stored(
            newm,
            prevm,
            addr & 0xFFFF_FFFE,
            (prevc.registers.reg_spec(rd) % 0x1_0000) as u16,
        ))
        &&& newc.registers.wf()
        &&& newc.registers.r@ == r_after_wb
        &&& newc.registers.cpsr == prevc.registers.cpsr
        &&& newc.registers.same_spsr(&prevc.registers)
        &&& newc.cycles == prevc.cycles
        &&& newc.halted == prevc.halted
    }
}

pub fn arm_hws_transfer<M: ArmMemory>(cpu: &mut ArmCpu, memory: &mut M, instr: u32) -> (c: u32)
    requires
        old(cpu).wf(),
        !old(cpu).registers.cpsr.thumb,
    ensures
        1 <= c,
        hws_transfer_post(final(cpu), old(cpu), final(memory), old(memory), instr),
{
    let load = (instr >> 20) % 2 == 1;
    let signed = (instr >> 6) % 2 == 1;
    let half = (instr >> 5) % 2 == 1;
    let rd = (instr >> 12) % 16;
    let rn = (instr >> 16) % 16;
    let offset = if (instr >> 22) % 2 == 1 {
        ((instr >> 8) % 16) * 16 + instr % 16
    } else {
        cpu.registers.read(instr % 16)
    };
    let base = cpu.registers.read(rn);
    let indexed = if (instr >> 23) % 2 == 1 {
        base.wrapping_add(offset)
    } else {
        base.wrapping_sub(offset)
    };
    let addr = if (instr >> 24) % 2 == 1 {
        indexed
    } else {
        base
    };
    let writeback = (instr >> 24) % 2 == 0 || (instr >> 21) % 2 == 1;
    let mut cycles = cpu.arm_prefetch(memory);
    if load {
        if writeback {
            cpu.registers.write(rn, indexed);
        }
        let value: u32;
        if !signed {
            let (v, dc) = memory.read_data_halfword(addr, false);
            value = v as u32;
            cycles += dc;
        } else if half {
            let (v, dc) = memory.read_data_halfword(addr, false);
            value = sign_extend(v as u32, 0x1_0000);
            cycles += dc;
        } else {
            let (v, dc) = memory.read_data_byte(addr, false);
            value = sign_extend(v as u32, 0x100);
            cycles += dc;
        }
        if rd == 15 {
            cycles += cpu.arm_branch_to(value, memory);
        } else {
            cpu.registers.write(rd, value);
        }
    } else {
        let value = cpu.registers.read(rd);
        if writeback {
            cpu.registers.write(rn, indexed);
        }
        proof {
            crate::bits::lemma_align_facts();
        }
        let dc = memory.write_data_halfword(addr, (value % 0x1_0000) as u16, false);
        cycles += dc;
    }
    cycles
}

/// The lowest address a block transfer touches, by addressing mode: the
/// words always sit at ascending addresses, whatever the nominal direction.
pub open spec fn block_start_spec(base: u32, instr: u32, count: int) -> u32 {
    let up = (instr >> 23) % 2 == 1;
    let pre = (instr >> 24) % 2 == 1;
    if up {
        if pre {
            base.wrapping_add(4)
        } else {
            base
        }
    } else {
        if pre {
            base.wrapping_sub((4 * count) as u32)
        } else {
            base.wrapping_sub((4 * count) as u32).wrapping_add(4)
        }
    }
}

/// The written-back base: one word per transferred register, in the
/// direction of the U bit.
pub open spec fn block_wb_spec(base: u32, instr: u32, count: int) -> u32 {
    if (instr >> 23) % 2 == 1 {
        base.wrapping_add((4 * count) as u32)
    } else {
        base.wrapping_sub((4 * count) as u32)
    }
}

/// LDM: loads the listed registers from ascending addresses; a listed R15
/// branches to the loaded word; writeback applies unless the list reloads
/// the base. The S-bit forms (user-bank transfer or CPSR restore) promise
/// only well-formedness.
pub open spec fn block_load_post<M: ArmMemory>(
    newc: &ArmCpu,
    prevc: &ArmCpu,
    prevm: &M,
    instr: u32,
) -> bool {
    let list = instr % 0x1_0000;
    let list_lo = list % 0x8000;
    let count = crate::block::popcount_low(list, 16);
    let rn = field_rn(instr);
    let base = prevc.registers.reg_spec(rn);
    let start = block_start_spec(base, instr, count);
    let wb = block_wb_spec(base, instr, count);
    let wbit = (instr >> 21) % 2 == 1;
    let has_pc = crate::block::bit_set(list, 15);
    let pc_val = mem_word(
        prevm,
        crate::block::transfer_addr(start, list_lo, 15) & 0xFFFF_FFFC,
    );
    &&& ((instr >> 22) % 2 == 1 ==> newc.wf() && newc.cycles == prevc.cycles && newc.halted
        == prevc.halted)
    &&& ((instr >> 22) % 2 != 1 ==> ({
        &&& newc.registers.wf()
        &&& newc.registers.cpsr == prevc.registers.cpsr
        &&& newc.registers.same_spsr(&prevc.registers)
        &&& newc.cycles == prevc.cycles
        &&& newc.halted == prevc.halted
        &&& forall|k: int|
            #![trigger newc.registers.reg_spec(k)]
            #![trigger crate::block::transfer_addr(start, list_lo, k)]
            0 <= k < 16 ==> newc.registers.reg_spec(k) == if k == 15 && has_pc {
                (pc_val & 0xFFFF_FFFC).wrapping_add(4)
            } else if k < 15 && crate::block::bit_set(list_lo, k) {
                mem_word(prevm, crate::block::transfer_addr(start, list_lo, k) & 0xFFFF_FFFC)
            } else if k == rn && wbit {
                wb
            } else {
                prevc.registers.reg_spec(k)
            }
    }))
}

/// STM: stores the listed registers (the user bank when the S bit is set) at
/// ascending addresses, with writeback per the W bit. A written-back base
/// stores its new value unless it is the first register transferred.
pub open spec fn block_store_post<M: ArmMemory>(
    newc: &ArmCpu,
    prevc: &ArmCpu,
    newm: &M,
    prevm: &M,
    instr: u32,
) -> bool {
    let list = instr % 0x1_0000;
    let count = crate::block::popcount_low(list, 16);
    let rn = field_rn(instr);
    let base = prevc.registers.reg_spec(rn);
    let start = block_start_spec(base, instr, count);
    let wb = block_wb_spec(base, instr, count);
    let wbit = (instr >> 21) % 2 == 1;
    let sbit = (instr >> 22) % 2 == 1;
    let tmode = if sbit {
        CpuMode::User
    } else {
        prevc.registers.cpsr.mode
    };
    &&& plain_unchanged(newm, prevm)
    &&& (if wbit {
        sets_reg(newc, prevc, rn, wb)
    } else {
        cpu_unchanged(newc, prevc)
    })
    &&& ((!(sbit && wbit) && start % 4 == 0 && crate::block::words_plain(prevm, start, list, 16))
        ==> ({
        &&& forall|i: int|
            0 <= i < 16 && crate::block::bit_set(list, i) ==> mem_word(
                newm,
                #[trigger] crate::block::transfer_addr(start, list, i),
            ) == if i == rn && wbit && crate::block::popcount_low(list, i) > 0 {
                wb
            } else {
                prevc.registers.reg_with_mode_spec(tmode, i)
            }
        &&& forall|a: u32|
            !crate::block::block_touched(start, list, 16, a) ==> newm.byte_at(a) == prevm.byte_at(
                a,
            )
    }))
}

/// A block data transfer (LDM/STM), all four addressing modes.
#[verifier::rlimit(80)]
#[verifier::spinoff_prover]
pub fn arm_block_transfer<M: ArmMemory>(cpu: &mut ArmCpu, memory: &mut M, instr: u32) -> (c: u32)
    requires
        old(cpu).wf(),
        !old(cpu).registers.cpsr.thumb,
    ensures
        1 <= c,
        ({
            if (instr >> 20) % 2 == 1 {
                mem_unchanged(final(memory), old(memory)) && block_load_post(
                    final(cpu),
                    old(cpu),
                    old(memory),
                    instr,
                )
            } else {
                block_store_post(final(cpu), old(cpu), final(memory), old(memory), instr)
            }
        }),
{
    let load = (instr >> 20) % 2 == 1;
    let wbit = (instr >> 21) % 2 == 1;
    let sbit = (instr >> 22) % 2 == 1;
    let rn = (instr >> 16) % 16;
    let list = instr % 0x1_0000;
    let list_lo = list % 0x8000;
    let count = crate::block::count_set_bits(list, 16);
    let base = cpu.registers.read(rn);
    let up = (instr >> 23) % 2 == 1;
    let pre = (instr >> 24) % 2 == 1;
    let start = if up {
        if pre {
            base.wrapping_add(4)
        } else {
            base
        }
    } else {
        if pre {
            base.wrapping_sub(4 * count)
        } else {
            base.wrapping_sub(4 * count).wrapping_add(4)
        }
    };
    let wb = if up {
        base.wrapping_add(4 * count)
    } else {
        base.wrapping_sub(4 * count)
    };
    let current = cpu.registers.read_mode();
    let tmode = if sbit {
        CpuMode::User
    } else {
        current
    };
    let mut cycles = cpu.arm_prefetch(memory);
    proof {
        crate::block::lemma_popcount_split_pc(list as u32);
    }
    if load {
        let has_pc = (list >> 15) % 2 == 1;
        let count_lo = crate::block::count_set_bits(list_lo, 16);
        if wbit {
            cpu.registers.write(rn, wb);
        }
        proof {
            if !sbit {
                assert forall|i: int|
                    0 <= i < 16 && i != rn as int implies cpu.registers.reg_with_mode_spec(
                    tmode,
                    i,
                ) == old(cpu).registers.reg_spec(i) by {
                    crate::registers::lemma_bank_index_bounds(tmode, i);
                    crate::registers::lemma_bank_index_injective(tmode, i, rn as int);
                }
            }
        }
        let c1 = crate::block::load_block(cpu, memory, tmode, start, list_lo, 16);
        memory.on_internal_cycles(1);
        cycles += c1 + 1;
        if has_pc {
            let pc_addr = start.wrapping_add(count_lo * 4);
            let (value, c2) = memory.read_data_word(pc_addr, true);
            cycles += c2;
            if sbit {
                let sp = cpu.registers.read_spsr();
                cpu.registers.write_cpsr(sp);
                if cpu.registers.getf_t() {
                    cycles += cpu.thumb_branch_to(value, memory);
                } else {
                    cycles += cpu.arm_branch_to(value, memory);
                }
            } else {
                cycles += cpu.arm_branch_to(value, memory);
                proof {
                    assert forall|k: int|
                        #![trigger cpu.registers.reg_spec(k)]
                        #![trigger crate::block::transfer_addr(start, list_lo, k)]
                        0 <= k < 16 && k != 15 implies cpu.registers.reg_spec(k)
                        == cpu.registers.reg_with_mode_spec(tmode, k) by {
                        let ta = crate::block::transfer_addr(start, list_lo, k);
                        crate::registers::lemma_bank_index_bounds(tmode, k);
                        if k != 15 {
                            crate::registers::lemma_bank_index_injective(tmode, k, 15);
                        }
                    }
                }
            }
        } else {
            proof {
                if !sbit {
                    assert forall|k: int|
                        #![trigger cpu.registers.reg_spec(k)]
                        #![trigger crate::block::transfer_addr(start, list_lo, k)]
                        0 <= k < 16 implies cpu.registers.reg_spec(k)
                        == cpu.registers.reg_with_mode_spec(tmode, k) by {
                        let ta = crate::block::transfer_addr(start, list_lo, k);
                        crate::registers::lemma_bank_index_bounds(tmode, k);
                    }
                }
            }
        }
    } else {
        if wbit {
            let rank_rn = crate::block::count_set_bits(list, rn);
            let rn_listed = (list >> rn) % 2 == 1;
            if rn_listed && rank_rn == 0 {
                let c1 = crate::block::store_block(cpu, memory, tmode, start, list, 16);
                cycles += c1;
                cpu.registers.write(rn, wb);
                proof {
                    assert forall|i: int| 0 <= i < 16 implies old(cpu).registers.reg_spec(i)
                        == cpu.registers.reg_with_mode_spec(current, i) || i == rn as int by {
                        crate::registers::lemma_bank_index_bounds(current, i);
                    }
                }
            } else {
                cpu.registers.write(rn, wb);
                proof {
                    if !sbit {
                        assert forall|i: int|
                            0 <= i < 16 && i != rn as int implies cpu.registers.reg_with_mode_spec(
                            tmode,
                            i,
                        ) == old(cpu).registers.reg_spec(i) by {
                            crate::registers::lemma_bank_index_bounds(tmode, i);
                            crate::registers::lemma_bank_index_injective(tmode, i, rn as int);
                        }
                    }
                }
                let c1 = crate::block::store_block(cpu, memory, tmode, start, list, 16);
                cycles += c1;
            }
        } else {
            let c1 = crate::block::store_block(cpu, memory, tmode, start, list, 16);
            cycles += c1;
        }
    }
    proof {
        if load && (instr >> 22) % 2 != 1 {
            let list_g = instr % 0x1_0000;
            let list_lo_g = list_g % 0x8000;
            let count_g = crate::block::popcount_low(list_g, 16);
            let rn_g = field_rn(instr);
            let base_g = old(cpu).registers.reg_spec(rn_g);
            let start_g = block_start_spec(base_g, instr, count_g);
            let wb_g = block_wb_spec(base_g, instr, count_g);
            let wbit_g = (instr >> 21) % 2 == 1;
            let has_pc_g = crate::block::bit_set(list_g, 15);
            let pc_val_g = mem_word(
                old(memory),
                crate::block::transfer_addr(start_g, list_lo_g, 15) & 0xFFFF_FFFC,
            );
            assert forall|k: int|
                #![trigger cpu.registers.reg_spec(k)]
                #![trigger crate::block::transfer_addr(start_g, list_lo_g, k)]
                0 <= k < 16 implies cpu.registers.reg_spec(k) == if k == 15 && has_pc_g {
                (pc_val_g & 0xFFFF_FFFC).wrapping_add(4)
            } else if k < 15 && crate::block::bit_set(list_lo_g, k) {
                mem_word(
                    old(memory),
                    crate::block::transfer_addr(start_g, list_lo_g, k) & 0xFFFF_FFFC,
                )
            } else if k == rn_g && wbit_g {
                wb_g
            } else {
                old(cpu).registers.reg_spec(k)
            } by {
                let ta = crate::block::transfer_addr(start_g, list_lo_g, k);
                crate::registers::lemma_bank_index_bounds(tmode, k);
                if k != 15 {
                    crate::registers::lemma_bank_index_injective(tmode, k, 15);
                }
            }
        }
    }
    cycles
}

/// Decodes and runs one ARM instruction, applying the condition-code gate
/// first: a failed condition costs only the prefetch. Coprocessor encodings
/// raise the Undefined exception, as this processor has no coprocessor.
/// The effect of one ARM instruction on the processor and the memory, case
/// by case over the encoding: a failed condition leaves both untouched, and
/// each arm of the decode tree restates the postcondition of the handler it
/// selects (`arm_exec` ensures this of its result states; cycle counts are
/// stated separately).
pub open spec fn arm_exec_post<M: ArmMemory>(
    newc: &ArmCpu,
    prevc: &ArmCpu,
    newm: &M,
    prevm: &M,
    instr: u32,
) -> bool {
    let cond = instr >> 28;
    if !cond_passed_spec(cond, prevc.registers.cpsr) {
        cpu_unchanged(newc, prevc) && *newm == *prevm
    } else {
        let hi = (instr >> 25) % 8;
        if (instr & 0x0FFF_FFF0) == 0x012F_FF10 {
            ((*newm == *prevm) && (({
                let dest = prevc.registers.reg_spec(field_rm(instr));
                if dest % 2 == 0 {
                    sets_reg(newc, prevc, 15, (dest & 0xFFFF_FFFC).wrapping_add(4))
                } else {
                    sets_reg_psr(
                        newc,
                        prevc,
                        15,
                        (dest & 0xFFFF_FFFE).wrapping_add(2),
                        Psr { thumb: true, ..prevc.registers.cpsr },
                    )
                }
            })))
        } else if hi == 5 {
            if (instr >> 24) % 2 == 1 {
                ((*newm == *prevm) && (({
                let offset = sign_extend_spec(instr % 0x100_0000, 0x100_0000).wrapping_shl(2);
                let pc = prevc.registers.reg_spec(15);
                let dest = pc.wrapping_add(offset);
                let mode = prevc.registers.cpsr.mode;
                &&& newc.registers.wf()
                &&& newc.registers.r@ == prevc.registers.r@.update(
                    bank_index_spec(mode, 14),
                    pc.wrapping_sub(4) & 0xFFFF_FFFC,
                ).update(15, (dest & 0xFFFF_FFFC).wrapping_add(4))
                &&& newc.registers.cpsr == prevc.registers.cpsr
                &&& newc.registers.same_spsr(&prevc.registers)
                &&& newc.cycles == prevc.cycles
                &&& newc.halted == prevc.halted
            })))
            } else {
                ((*newm == *prevm) && (({
                let offset = sign_extend_spec(instr % 0x100_0000, 0x100_0000).wrapping_shl(2);
                let dest = prevc.registers.reg_spec(15).wrapping_add(offset);
                sets_reg(newc, prevc, 15, (dest & 0xFFFF_FFFC).wrapping_add(4))
            })))
            }
        } else if hi == 0 && (instr >> 4) % 16 == 9 {
            let klass = (instr >> 23) % 4;
            if klass == 0 && (instr >> 22) % 2 == 0 {
                ((mem_unchanged(newm, prevm)) && (multiply_post(newc, prevc, instr)))
            } else if klass == 1 {
                ((mem_unchanged(newm, prevm)) && (multiply_post(newc, prevc, instr)))
            } else if klass == 2 && (instr >> 20) % 4 == 0 && (instr >> 8) % 16 == 0 {
                if (instr >> 22) % 2 == 0 {
                    ((plain_unchanged(newm, prevm)) && (({
                let addr = prevc.registers.reg_spec(field_rn(instr));
                &&& sets_reg(
                    newc,
                    prevc,
                    field_rd(instr),
                    mem_word(prevm, addr & 0xFFFF_FFFC),
                )
                &&& (plain_word(prevm, addr & 0xFFFF_FFFC) ==> word_stored(
                    newm,
                    prevm,
                    addr & 0xFFFF_FFFC,
                    prevc.registers.reg_spec(field_rm(instr)),
                ))
            })))
                } else {
                    ((plain_unchanged(newm, prevm)) && (({
                let addr = prevc.registers.reg_spec(field_rn(instr));
                &&& sets_reg(
                    newc,
                    prevc,
                    field_rd(instr),
                    prevm.byte_at(addr) as u32,
                )
                &&& (prevm.plain(addr) ==> byte_stored(
                    newm,
                    prevm,
                    addr,
                    (prevc.registers.reg_spec(field_rm(instr)) % 0x100) as u8,
                ))
            })))
                }
            } else {
                ((*newm == *prevm) && (exception_entered(
                newc,
                prevc,
                CpuException::Undefined,
                prevc.registers.reg_spec(15).wrapping_sub(4),
            )))
            }
        } else if hi == 0 && (instr >> 4) % 2 == 1 && (instr >> 7) % 2 == 1 {
            if (instr >> 5) % 4 == 0 {
                ((*newm == *prevm) && (exception_entered(
                newc,
                prevc,
                CpuException::Undefined,
                prevc.registers.reg_spec(15).wrapping_sub(4),
            )))
            } else {
                ((hws_transfer_post(newc, prevc, newm, prevm, instr)))
            }
        } else if hi == 0 || hi == 1 {
            let op = (instr >> 21) % 16;
            let s = (instr >> 20) % 2 == 1;
            if !s && op >= 8 && op < 12 {
                if hi == 1 {
                    if op == 9 {
                        ((*newm == *prevm) && (({
                if (instr >> 16) % 2 == 0 {
                    let src = alu::dp_imm_spec(instr, false).0;
                    sets_psr(
                        newc,
                        prevc,
                        Psr {
                            n: src >= 0x8000_0000,
                            z: src & 0x4000_0000 != 0,
                            c: src & 0x2000_0000 != 0,
                            v: src & 0x1000_0000 != 0,
                            ..prevc.registers.cpsr
                        },
                    )
                } else {
                    exception_entered(
                        newc,
                        prevc,
                        CpuException::Undefined,
                        prevc.registers.reg_spec(15).wrapping_sub(4),
                    )
                }
            })))
                    } else if op == 11 {
                        ((*newm == *prevm) && (({
                if (instr >> 16) % 2 == 0 {
                    let src = alu::dp_imm_spec(instr, false).0;
                    let merged = (prevc.registers.spsr_read_spec() & 0x0FFF_FFFF) | (src
                        & 0xF000_0000);
                    &&& newc.registers.wf()
                    &&& newc.registers.r@ == prevc.registers.r@
                    &&& newc.registers.cpsr == prevc.registers.cpsr
                    &&& (prevc.registers.cpsr.mode.has_spsr_spec() ==> newc.registers.spsr@
                        == prevc.registers.spsr@.update(
                        crate::registers::spsr_index_spec(prevc.registers.cpsr.mode),
                        merged,
                    ))
                    &&& (!prevc.registers.cpsr.mode.has_spsr_spec() ==> newc.registers.same_spsr(&prevc.registers))
                    &&& newc.cycles == prevc.cycles
                    &&& newc.halted == prevc.halted
                } else {
                    exception_entered(
                        newc,
                        prevc,
                        CpuException::Undefined,
                        prevc.registers.reg_spec(15).wrapping_sub(4),
                    )
                }
            })))
                    } else {
                        ((*newm == *prevm) && (exception_entered(
                newc,
                prevc,
                CpuException::Undefined,
                prevc.registers.reg_spec(15).wrapping_sub(4),
            )))
                    }
                } else {
                    if op == 8 {
                        ((*newm == *prevm) && (sets_reg(newc, prevc, field_rd(instr), psr_bits_spec(prevc.registers.cpsr))))
                    } else if op == 9 {
                        ((*newm == *prevm) && (({
                let src = prevc.registers.reg_spec(field_rm(instr));
                if (instr >> 16) % 2 == 0 {
                    sets_psr(
                        newc,
                        prevc,
                        Psr {
                            n: src >= 0x8000_0000,
                            z: src & 0x4000_0000 != 0,
                            c: src & 0x2000_0000 != 0,
                            v: src & 0x1000_0000 != 0,
                            ..prevc.registers.cpsr
                        },
                    )
                } else {
                    sets_psr(
                        newc,
                        prevc,
                        psr_decode_spec(src, prevc.registers.cpsr.mode),
                    )
                }
            })))
                    } else if op == 10 {
                        ((*newm == *prevm) && (sets_reg(newc, prevc, field_rd(instr), prevc.registers.spsr_read_spec())))
                    } else {
                        ((*newm == *prevm) && (({
                let src = prevc.registers.reg_spec(field_rm(instr));
                let value = if (instr >> 16) % 2 == 0 {
                    (prevc.registers.spsr_read_spec() & 0x0FFF_FFFF) | (src & 0xF000_0000)
                } else {
                    src
                };
                &&& newc.registers.wf()
                &&& newc.registers.r@ == prevc.registers.r@
                &&& newc.registers.cpsr == prevc.registers.cpsr
                &&& (prevc.registers.cpsr.mode.has_spsr_spec() ==> newc.registers.spsr@ == prevc.registers.spsr@.update(
                    crate::registers::spsr_index_spec(prevc.registers.cpsr.mode),
                    value,
                ))
                &&& (!prevc.registers.cpsr.mode.has_spsr_spec() ==> newc.registers.same_spsr(
                    &prevc.registers,
                ))
                &&& newc.cycles == prevc.cycles
                &&& newc.halted == prevc.halted
            })))
                    }
                }
            } else {
                ((mem_unchanged(newm, prevm)) && (dataproc_post(newc, prevc, instr)))
            }
        } else if hi == 2 {
            ((single_transfer_post(newc, prevc, newm, prevm, instr)))
        } else if hi == 3 {
            if (instr >> 4) % 2 == 1 {
                ((*newm == *prevm) && (exception_entered(
                newc,
                prevc,
                CpuException::Undefined,
                prevc.registers.reg_spec(15).wrapping_sub(4),
            )))
            } else {
                ((single_transfer_post(newc, prevc, newm, prevm, instr)))
            }
        } else if hi == 4 {
            ((({
                if (instr >> 20) % 2 == 1 {
                    mem_unchanged(newm, prevm) && block_load_post(
                        newc,
                        prevc,
                        prevm,
                        instr,
                    )
                } else {
                    block_store_post(newc, prevc, newm, prevm, instr)
                }
            })))
        } else if hi == 7 && (instr >> 24) % 2 == 1 {
            ((*newm == *prevm) && (exception_entered(
                newc,
                prevc,
                CpuException::SWI,
                prevc.registers.reg_spec(15).wrapping_sub(4),
            )))
        } else {
            ((*newm == *prevm) && (exception_entered(
                newc,
                prevc,
                CpuException::Undefined,
                prevc.registers.reg_spec(15).wrapping_sub(4),
            )))
        }
    }
}

pub fn arm_exec<M: ArmMemory>(cpu: &mut ArmCpu, memory: &mut M, instr: u32) -> (c: u32)
    requires
        old(cpu).wf(),
        !old(cpu).registers.cpsr.thumb,
    ensures
        1 <= c,
        final(cpu).wf(),
        final(cpu).cycles == old(cpu).cycles,
        final(cpu).halted == old(cpu).halted,
        plain_unchanged(final(memory), old(memory)),
        arm_exec_post(final(cpu), old(cpu), final(memory), old(memory), instr),
{
    let cond = instr >> 28;
    if !check_condition(cond, &cpu.registers) {
        return cpu.arm_prefetch(memory);
    }
    let hi = (instr >> 25) % 8;
    if (instr & 0x0FFF_FFF0) == 0x012F_FF10 {
        arm_bx(cpu, memory, instr)
    } else if hi == 5 {
        if (instr >> 24) % 2 == 1 {
            arm_bl(cpu, memory, instr)
        } else {
            arm_b(cpu, memory, instr)
        }
    } else if hi == 0 && (instr >> 4) % 16 == 9 {
        let klass = (instr >> 23) % 4;
        if klass == 0 && (instr >> 22) % 2 == 0 {
            arm_multiply(cpu, memory, instr)
        } else if klass == 1 {
            arm_multiply(cpu, memory, instr)
        } else if klass == 2 && (instr >> 20) % 4 == 0 && (instr >> 8) % 16 == 0 {
            if (instr >> 22) % 2 == 0 {
                arm_swp(cpu, memory, instr)
            } else {
                arm_swpb(cpu, memory, instr)
            }
        } else {
            arm_undefined(cpu, memory, instr)
        }
    } else if hi == 0 && (instr >> 4) % 2 == 1 && (instr >> 7) % 2 == 1 {
        if (instr >> 5) % 4 == 0 {
            arm_undefined(cpu, memory, instr)
        } else {
            arm_hws_transfer(cpu, memory, instr)
        }
    } else if hi == 0 || hi == 1 {
        let op = (instr >> 21) % 16;
        let s = (instr >> 20) % 2 == 1;
        if !s && op >= 8 && op < 12 {
            if hi == 1 {
                if op == 9 {
                    arm_msr_ic(cpu, memory, instr)
                } else if op == 11 {
                    arm_msr_is(cpu, memory, instr)
                } else {
                    arm_undefined(cpu, memory, instr)
                }
            } else {
                if op == 8 {
                    arm_mrs_rc(cpu, memory, instr)
                } else if op == 9 {
                    arm_msr_rc(cpu, memory, instr)
                } else if op == 10 {
                    arm_mrs_rs(cpu, memory, instr)
                } else {
                    arm_msr_rs(cpu, memory, instr)
                }
            }
        } else {
            arm_dataproc(cpu, memory, instr)
        }
    } else if hi == 2 {
        arm_single_transfer(cpu, memory, instr)
    } else if hi == 3 {
        if (instr >> 4) % 2 == 1 {
            arm_undefined(cpu, memory, instr)
        } else {
            arm_single_transfer(cpu, memory, instr)
        }
    } else if hi == 4 {
        arm_block_transfer(cpu, memory, instr)
    } else if hi == 7 && (instr >> 24) % 2 == 1 {
        arm_swi(cpu, memory, instr)
    } else {
        arm_undefined(cpu, memory, instr)
    }
}

} // verus!
