//! The ARM7TDMI processor state and its connection to the memory bus.
//!
//! Program-counter convention: between two instruction steps, physical slot
//! 15 holds the address of the next instruction to execute plus one
//! instruction width (4 in ARM state, 2 in Thumb state). A handler therefore
//! reads R15 as the address of its own instruction plus two widths, which is
//! the documented pipeline effect of the ARM7TDMI. Branch helpers re-establish
//! the convention for the branch destination.

use vstd::prelude::*;
use crate::registers::ArmRegisters;
use crate::registers::CpuMode;
use crate::registers::Psr;
use crate::registers::psr_bits_spec;
use crate::registers::bank_index_spec;

verus! {

/// The abstract contents of a memory bus: one byte per address, plus, per
/// address, whether a store there behaves like plain memory (written exactly,
/// nothing else disturbed).
pub trait MemoryModel: Sized {
    /// The byte a read of `addr` yields.
    spec fn byte_at(&self, addr: u32) -> u8;

    /// Whether a store to `addr` writes the byte exactly and disturbs nothing.
    spec fn plain(&self, addr: u32) -> bool;
}

/// The little-endian halfword stored at `addr` and `addr + 1`.
pub open spec fn mem_halfword<M: MemoryModel>(m: &M, addr: u32) -> u16 {
    (m.byte_at(addr) as u16) | ((m.byte_at(((addr as int + 1) % 0x1_0000_0000) as u32) as u16) << 8)
}

/// The little-endian word stored at `addr` through `addr + 3`.
pub open spec fn mem_word<M: MemoryModel>(m: &M, addr: u32) -> u32 {
    (m.byte_at(addr) as u32)
    | ((m.byte_at(((addr as int + 1) % 0x1_0000_0000) as u32) as u32) << 8)
    | ((m.byte_at(((addr as int + 2) % 0x1_0000_0000) as u32) as u32) << 16)
    | ((m.byte_at(((addr as int + 3) % 0x1_0000_0000) as u32) as u32) << 24)
}

/// The memory bus as the interpreter sees it.
///
/// The model is one byte per address (`byte_at`) plus, per address, whether a
/// store there behaves like plain memory (`plain`): written exactly, nothing
/// else disturbed. Stores to other addresses (I/O registers) may change the
/// bus state in implementation-defined ways, so nothing is promised of them.
/// Reads never change the observable state. Every access costs at least one
/// cycle and at most 64, which keeps per-instruction cycle sums far from
/// overflow.
pub trait ArmMemory: MemoryModel {
    /// Side-effect-free byte read (for instruction fetch and display).
    fn view_byte(&self, addr: u32) -> (r: u8)
        ensures
            r == self.byte_at(addr),
    ;

    /// Side-effect-free aligned halfword read.
    fn view_halfword(&self, addr: u32) -> (r: u16)
        ensures
            r == mem_halfword(self, addr & 0xFFFF_FFFE),
    ;

    /// Side-effect-free aligned word read.
    fn view_word(&self, addr: u32) -> (r: u32)
        ensures
            r == mem_word(self, addr & 0xFFFF_FFFC),
    ;

    /// Data-bus byte read; returns the byte and the access cycle count.
    fn read_data_byte(&self, addr: u32, seq: bool) -> (r: (u8, u32))
        ensures
            r.0 == self.byte_at(addr),
            1 <= r.1 <= 64,
    ;

    /// Data-bus halfword read at the force-aligned address.
    fn read_data_halfword(&self, addr: u32, seq: bool) -> (r: (u16, u32))
        ensures
            r.0 == mem_halfword(self, addr & 0xFFFF_FFFE),
            1 <= r.1 <= 64,
    ;

    /// Data-bus word read at the force-aligned address.
    fn read_data_word(&self, addr: u32, seq: bool) -> (r: (u32, u32))
        ensures
            r.0 == mem_word(self, addr & 0xFFFF_FFFC),
            1 <= r.1 <= 64,
    ;

    /// Data-bus byte store; returns the access cycle count.
    fn write_data_byte(&mut self, addr: u32, value: u8, seq: bool) -> (c: u32)
        ensures
            1 <= c <= 64,
            forall|a: u32| final(self).plain(a) == old(self).plain(a),
            old(self).plain(addr) ==> forall|a: u32|
                final(self).byte_at(a) == if a == addr {
                    value
                } else {
                    old(self).byte_at(a)
                },
    ;

    /// Data-bus halfword store at the force-aligned address.
    fn write_data_halfword(&mut self, addr: u32, value: u16, seq: bool) -> (c: u32)
        ensures
            1 <= c <= 64,
            forall|a: u32| final(self).plain(a) == old(self).plain(a),
            (old(self).plain(addr & 0xFFFF_FFFE) && old(self).plain(
                ((addr & 0xFFFF_FFFE) + 1) as u32,
            )) ==> forall|a: u32|
                final(self).byte_at(a) == if a == addr & 0xFFFF_FFFE {
                    value as u8
                } else if a == ((addr & 0xFFFF_FFFE) + 1) as u32 {
                    (value >> 8) as u8
                } else {
                    old(self).byte_at(a)
                },
    ;

    /// Data-bus word store at the force-aligned address.
    fn write_data_word(&mut self, addr: u32, value: u32, seq: bool) -> (c: u32)
        ensures
            1 <= c <= 64,
            forall|a: u32| final(self).plain(a) == old(self).plain(a),
            (old(self).plain(addr & 0xFFFF_FFFC) && old(self).plain(
                ((addr & 0xFFFF_FFFC) + 1) as u32,
            ) && old(self).plain(((addr & 0xFFFF_FFFC) + 2) as u32) && old(self).plain(
                ((addr & 0xFFFF_FFFC) + 3) as u32,
            )) ==> forall|a: u32|
                final(self).byte_at(a) == if a == addr & 0xFFFF_FFFC {
                    value as u8
                } else if a == ((addr & 0xFFFF_FFFC) + 1) as u32 {
                    (value >> 8) as u8
                } else if a == ((addr & 0xFFFF_FFFC) + 2) as u32 {
                    (value >> 16) as u8
                } else if a == ((addr & 0xFFFF_FFFC) + 3) as u32 {
                    (value >> 24) as u8
                } else {
                    old(self).byte_at(a)
                },
    ;

    /// Cycle cost of one sequential 16-bit code fetch at `addr`.
    fn code_access_seq16(&self, addr: u32) -> (c: u32)
        ensures
            1 <= c <= 64,
    ;

    /// Cycle cost of one sequential 32-bit code fetch at `addr`.
    fn code_access_seq32(&self, addr: u32) -> (c: u32)
        ensures
            1 <= c <= 64,
    ;

    /// Cycle cost of one non-sequential 16-bit code fetch at `addr`.
    fn code_access_nonseq16(&self, addr: u32) -> (c: u32)
        ensures
            1 <= c <= 64,
    ;

    /// Cycle cost of one non-sequential 32-bit code fetch at `addr`.
    fn code_access_nonseq32(&self, addr: u32) -> (c: u32)
        ensures
            1 <= c <= 64,
    ;

    /// Tells bus-side peripherals that the processor spent `n` internal
    /// cycles; the observable bus state does not change.
    fn on_internal_cycles(&mut self, n: u32)
        ensures
            forall|a: u32| final(self).byte_at(a) == old(self).byte_at(a),
            forall|a: u32| final(self).plain(a) == old(self).plain(a),
    ;
}

/// The observable bus state is unchanged: every byte and every plainness bit
/// reads as before.
pub open spec fn mem_unchanged<M: MemoryModel>(new: &M, prev: &M) -> bool {
    &&& forall|a: u32| new.byte_at(a) == prev.byte_at(a)
    &&& forall|a: u32| new.plain(a) == prev.plain(a)
}

/// The plainness map is unchanged (stores never turn RAM into I/O or back).
pub open spec fn plain_unchanged<M: MemoryModel>(new: &M, prev: &M) -> bool {
    forall|a: u32| new.plain(a) == prev.plain(a)
}

/// All four bytes of the aligned word at `addr` accept plain stores.
pub open spec fn plain_word<M: MemoryModel>(m: &M, addr: u32) -> bool {
    &&& m.plain(addr)
    &&& m.plain(((addr as int + 1) % 0x1_0000_0000) as u32)
    &&& m.plain(((addr as int + 2) % 0x1_0000_0000) as u32)
    &&& m.plain(((addr as int + 3) % 0x1_0000_0000) as u32)
}

/// Both bytes of the aligned halfword at `addr` accept plain stores.
pub open spec fn plain_halfword<M: MemoryModel>(m: &M, addr: u32) -> bool {
    &&& m.plain(addr)
    &&& m.plain(((addr as int + 1) % 0x1_0000_0000) as u32)
}

/// The new bus state is the old one with the little-endian word `value`
/// written at the aligned address `addr`, and nothing else changed.
pub open spec fn word_stored<M: MemoryModel>(new: &M, prev: &M, addr: u32, value: u32) -> bool {
    forall|a: u32|
        new.byte_at(a) == if a == addr {
            value as u8
        } else if a == ((addr as int + 1) % 0x1_0000_0000) as u32 {
            (value >> 8) as u8
        } else if a == ((addr as int + 2) % 0x1_0000_0000) as u32 {
            (value >> 16) as u8
        } else if a == ((addr as int + 3) % 0x1_0000_0000) as u32 {
            (value >> 24) as u8
        } else {
            prev.byte_at(a)
        }
}

/// The new bus state is the old one with the little-endian halfword `value`
/// written at the aligned address `addr`, and nothing else changed.
pub open spec fn halfword_stored<M: MemoryModel>(new: &M, prev: &M, addr: u32, value: u16) -> bool {
    forall|a: u32|
        new.byte_at(a) == if a == addr {
            value as u8
        } else if a == ((addr as int + 1) % 0x1_0000_0000) as u32 {
            (value >> 8) as u8
        } else {
            prev.byte_at(a)
        }
}

/// The new bus state is the old one with `value` written at `addr`, and
/// nothing else changed.
pub open spec fn byte_stored<M: MemoryModel>(new: &M, prev: &M, addr: u32, value: u8) -> bool {
    forall|a: u32|
        new.byte_at(a) == if a == addr {
            value
        } else {
            prev.byte_at(a)
        }
}

/// What a word load from (possibly misaligned) address `addr` places in the
/// destination register: the aligned word `w`, rotated right so that the
/// addressed byte lands in bits 0-7.
pub open spec fn ldr_result_spec(w: u32, addr: u32) -> u32 {
    if addr % 4 == 0 {
        w
    } else {
        crate::alu::ror_spec(w, (8 * (addr % 4)) as u32)
    }
}

/// The processor exceptions of the ARM7TDMI.
#[derive(Clone, Copy, Debug, PartialEq, Eq, Structural)]
pub enum CpuException {
    Reset,
    Undefined,
    SWI,
    PrefetchAbort,
    DataAbort,
    IRQ,
    FIQ,
}

pub open spec fn exception_vector_spec(e: CpuException) -> u32 {
    match e {
        CpuException::Reset => 0x00,
        CpuException::Undefined => 0x04,
        CpuException::SWI => 0x08,
        CpuException::PrefetchAbort => 0x0C,
        CpuException::DataAbort => 0x10,
        CpuException::IRQ => 0x18,
        CpuException::FIQ => 0x1C,
    }
}

pub open spec fn exception_mode_spec(e: CpuException) -> CpuMode {
    match e {
        CpuException::Reset => CpuMode::Supervisor,
        CpuException::Undefined => CpuMode::Undefined,
        CpuException::SWI => CpuMode::Supervisor,
        CpuException::PrefetchAbort => CpuMode::Abort,
        CpuException::DataAbort => CpuMode::Abort,
        CpuException::IRQ => CpuMode::IRQ,
        CpuException::FIQ => CpuMode::FIQ,
    }
}

/// Reset and FIQ entry also disable fast interrupts.
pub open spec fn exception_disables_fiq_spec(e: CpuException) -> bool {
    e == CpuException::Reset || e == CpuException::FIQ
}

impl CpuException {
    /// The fixed low-memory address the exception vectors through.
    pub fn vector(self) -> (r: u32)
        ensures
            r == exception_vector_spec(self),
    {
        match self {
            CpuException::Reset => 0x00,
            CpuException::Undefined => 0x04,
            CpuException::SWI => 0x08,
            CpuException::PrefetchAbort => 0x0C,
            CpuException::DataAbort => 0x10,
            CpuException::IRQ => 0x18,
            CpuException::FIQ => 0x1C,
        }
    }

    /// The mode the exception is taken in.
    pub fn target_mode(self) -> (r: CpuMode)
        ensures
            r == exception_mode_spec(self),
    {
        match self {
            CpuException::Reset => CpuMode::Supervisor,
            CpuException::Undefined => CpuMode::Undefined,
            CpuException::SWI => CpuMode::Supervisor,
            CpuException::PrefetchAbort => CpuMode::Abort,
            CpuException::DataAbort => CpuMode::Abort,
            CpuException::IRQ => CpuMode::IRQ,
            CpuException::FIQ => CpuMode::FIQ,
        }
    }
}

/// What taking exception `e` with return address `ret` does to the processor:
/// the target mode's SPSR takes the old CPSR, the mode field switches with
/// IRQs disabled (FIQs too for Reset and FIQ) and Thumb state cleared, the
/// target mode's link register takes `ret`, and execution continues at the
/// exception vector. Flags, the reserved CPSR bits, every other register and
/// the cycle counter are untouched.
pub open spec fn exception_entered(new: &ArmCpu, prev: &ArmCpu, e: CpuException, ret: u32) -> bool {
    &&& new.wf()
    &&& new.registers.cpsr.mode == exception_mode_spec(e)
    &&& new.registers.cpsr.irq_disable
    &&& !new.registers.cpsr.thumb
    &&& new.registers.cpsr.fiq_disable == (exception_disables_fiq_spec(e)
        || prev.registers.cpsr.fiq_disable)
    &&& new.registers.cpsr.n == prev.registers.cpsr.n
    &&& new.registers.cpsr.z == prev.registers.cpsr.z
    &&& new.registers.cpsr.c == prev.registers.cpsr.c
    &&& new.registers.cpsr.v == prev.registers.cpsr.v
    &&& new.registers.cpsr.reserved == prev.registers.cpsr.reserved
    &&& new.registers.spsr@ == prev.registers.spsr@.update(
        crate::registers::spsr_index_spec(exception_mode_spec(e)),
        psr_bits_spec(prev.registers.cpsr),
    )
    &&& new.registers.reg_with_mode_spec(exception_mode_spec(e), 14) == ret
    &&& new.registers.reg_spec(15) == exception_vector_spec(e).wrapping_add(4)
    &&& forall|i: int|
        0 <= i < 31 && i != bank_index_spec(exception_mode_spec(e), 14) && i != 15
            ==> new.registers.r@[i] == prev.registers.r@[i]
    &&& new.cycles == prev.cycles
    &&& new.halted == prev.halted
}

/// Whether ARM condition code `cond` (bits 31-28 of an ARM instruction)
/// passes against the given status register. Code 15 never executes on this
/// processor generation.
pub open spec fn cond_passed_spec(cond: u32, p: Psr) -> bool {
    if cond == 0 {
        p.z
    } else if cond == 1 {
        !p.z
    } else if cond == 2 {
        p.c
    } else if cond == 3 {
        !p.c
    } else if cond == 4 {
        p.n
    } else if cond == 5 {
        !p.n
    } else if cond == 6 {
        p.v
    } else if cond == 7 {
        !p.v
    } else if cond == 8 {
        p.c && !p.z
    } else if cond == 9 {
        !p.c || p.z
    } else if cond == 10 {
        p.n == p.v
    } else if cond == 11 {
        p.n != p.v
    } else if cond == 12 {
        !p.z && p.n == p.v
    } else if cond == 13 {
        p.z || p.n != p.v
    } else if cond == 14 {
        true
    } else {
        false
    }
}

pub fn check_condition(cond: u32, registers: &ArmRegisters) -> (r: bool)
    ensures
        r == cond_passed_spec(cond, registers.cpsr),
{
    if cond == 0 {
        registers.getf_z()
    } else if cond == 1 {
        !registers.getf_z()
    } else if cond == 2 {
        registers.getf_c()
    } else if cond == 3 {
        !registers.getf_c()
    } else if cond == 4 {
        registers.getf_n()
    } else if cond == 5 {
        !registers.getf_n()
    } else if cond == 6 {
        registers.getf_v()
    } else if cond == 7 {
        !registers.getf_v()
    } else if cond == 8 {
        registers.getf_c() && !registers.getf_z()
    } else if cond == 9 {
        !registers.getf_c() || registers.getf_z()
    } else if cond == 10 {
        registers.getf_n() == registers.getf_v()
    } else if cond == 11 {
        registers.getf_n() != registers.getf_v()
    } else if cond == 12 {
        !registers.getf_z() && registers.getf_n() == registers.getf_v()
    } else if cond == 13 {
        registers.getf_z() || registers.getf_n() != registers.getf_v()
    } else if cond == 14 {
        true
    } else {
        false
    }
}

/// Logical register `rd` of the current mode now holds `value`; every other
/// physical slot, the whole CPSR, the SPSRs, the cycle counter and the halt
/// flag are as before.
pub open spec fn sets_reg(new: &ArmCpu, prev: &ArmCpu, rd: int, value: u32) -> bool {
    &&& new.registers.wf()
    &&& new.registers.r@ == prev.registers.r@.update(
        bank_index_spec(prev.registers.cpsr.mode, rd),
        value,
    )
    &&& new.registers.cpsr == prev.registers.cpsr
    &&& new.registers.same_spsr(&prev.registers)
    &&& new.cycles == prev.cycles
    &&& new.halted == prev.halted
}

/// As `sets_reg`, except that the CPSR now holds `cpsr`.
pub open spec fn sets_reg_psr(new: &ArmCpu, prev: &ArmCpu, rd: int, value: u32, cpsr: Psr) -> bool {
    &&& new.registers.wf()
    &&& new.registers.r@ == prev.registers.r@.update(
        bank_index_spec(prev.registers.cpsr.mode, rd),
        value,
    )
    &&& new.registers.cpsr == cpsr
    &&& new.registers.same_spsr(&prev.registers)
    &&& new.cycles == prev.cycles
    &&& new.halted == prev.halted
}

/// Nothing in the processor changed: registers, status registers, cycle
/// counter and halt flag all read as before.
pub open spec fn cpu_unchanged(new: &ArmCpu, prev: &ArmCpu) -> bool {
    &&& new.registers.wf()
    &&& new.registers.r@ == prev.registers.r@
    &&& new.registers.cpsr == prev.registers.cpsr
    &&& new.registers.same_spsr(&prev.registers)
    &&& new.cycles == prev.cycles
    &&& new.halted == prev.halted
}

/// The processor state `mid` is `prev` with the program counter advanced by
/// one instruction width and nothing else changed: the state an instruction
/// handler sees after fetch.
pub open spec fn pc_advanced(mid: ArmCpu, prev: ArmCpu, width: u32) -> bool {
    &&& mid.registers.wf()
    &&& mid.registers.r@ == prev.registers.r@.update(
        15,
        prev.registers.reg_spec(15).wrapping_add(width),
    )
    &&& mid.registers.cpsr == prev.registers.cpsr
    &&& mid.registers.same_spsr(&prev.registers)
    &&& mid.cycles == prev.cycles
    &&& mid.halted == prev.halted
}

/// The relation one instruction step establishes between the processor and
/// memory states before and after it: the program counter advanced by one
/// instruction width, the fetched instruction's decode-tree postcondition
/// holds of the result, and only the cycle counter moved besides.
pub open spec fn step_rel<M: ArmMemory>(newc: ArmCpu, prevc: ArmCpu, newm: M, prevm: M) -> bool {
    &&& prevc.registers.cpsr.thumb ==> exists|mid: ArmCpu, fin: ArmCpu|
        {
            &&& pc_advanced(mid, prevc, 2)
            &&& #[trigger] crate::thumb::thumb_exec_post(
                &fin,
                &mid,
                &newm,
                &prevm,
                mem_halfword(
                    &prevm,
                    prevc.registers.reg_spec(15).wrapping_sub(2) & 0xFFFF_FFFE,
                ) as u32,
            )
            &&& fin.registers.r@ == newc.registers.r@
            &&& fin.registers.cpsr == newc.registers.cpsr
            &&& fin.registers.same_spsr(&newc.registers)
            &&& fin.halted == newc.halted
        }
    &&& !prevc.registers.cpsr.thumb ==> exists|mid: ArmCpu, fin: ArmCpu|
        {
            &&& pc_advanced(mid, prevc, 4)
            &&& #[trigger] crate::arm::arm_exec_post(
                &fin,
                &mid,
                &newm,
                &prevm,
                mem_word(&prevm, prevc.registers.reg_spec(15).wrapping_sub(4) & 0xFFFF_FFFC),
            )
            &&& fin.registers.r@ == newc.registers.r@
            &&& fin.registers.cpsr == newc.registers.cpsr
            &&& fin.registers.same_spsr(&newc.registers)
            &&& fin.halted == newc.halted
        }
}

/// The registers changed only in the CPSR, which now holds `cpsr`.
pub open spec fn sets_psr(new: &ArmCpu, prev: &ArmCpu, cpsr: Psr) -> bool {
    &&& new.registers.wf()
    &&& new.registers.r@ == prev.registers.r@
    &&& new.registers.cpsr == cpsr
    &&& new.registers.same_spsr(&prev.registers)
    &&& new.cycles == prev.cycles
    &&& new.halted == prev.halted
}

/// The ARM7TDMI processor: register file, cumulative cycle counter, and a
/// halt flag the host may use to stop stepping.
pub struct ArmCpu {
    pub registers: ArmRegisters,
    pub cycles: u64,
    pub halted: bool,
}

impl ArmCpu {
    pub open spec fn wf(&self) -> bool {
        self.registers.wf()
    }

    /// The address of the next instruction the processor will execute.
    pub open spec fn pc_next_spec(&self) -> u32 {
        if self.registers.cpsr.thumb {
            self.registers.reg_spec(15).wrapping_sub(2)
        } else {
            self.registers.reg_spec(15).wrapping_sub(4)
        }
    }

    pub fn new() -> (r: ArmCpu)
        ensures
            r.wf(),
            r.cycles == 0,
            !r.halted,
            r.registers.cpsr.mode == CpuMode::Supervisor,
            !r.registers.cpsr.thumb,
    {
        ArmCpu { registers: ArmRegisters::new(), cycles: 0, halted: false }
    }

    /// Cycle cost of the sequential prefetch a Thumb instruction performs.
    pub fn thumb_prefetch<M: ArmMemory>(&self, memory: &M) -> (c: u32)
        requires
            self.wf(),
        ensures
            1 <= c <= 64,
    {
        memory.code_access_seq16(self.registers.read(15))
    }

    /// Cycle cost of the sequential prefetch an ARM instruction performs.
    pub fn arm_prefetch<M: ArmMemory>(&self, memory: &M) -> (c: u32)
        requires
            self.wf(),
        ensures
            1 <= c <= 64,
    {
        memory.code_access_seq32(self.registers.read(15))
    }

    /// Branches to `dest` in ARM state: the next instruction executed is
    /// `dest` with its low two bits cleared. Returns the pipeline refill
    /// cycles (one non-sequential and one sequential code fetch).
    pub fn arm_branch_to<M: ArmMemory>(&mut self, dest: u32, memory: &M) -> (c: u32)
        requires
            old(self).wf(),
        ensures
            final(self).wf(),
            final(self).registers.r@ == old(self).registers.r@.update(
                15,
                (dest & 0xFFFF_FFFC).wrapping_add(4),
            ),
            final(self).registers.cpsr == old(self).registers.cpsr,
            final(self).registers.same_spsr(&old(self).registers),
            final(self).registers.reg_spec(15) == (dest & 0xFFFF_FFFC).wrapping_add(4),
            final(self).cycles == old(self).cycles,
            final(self).halted == old(self).halted,
            2 <= c <= 128,
    {
        let target = dest & 0xFFFF_FFFC;
        self.registers.write(15, target.wrapping_add(4));
        let c1 = memory.code_access_nonseq32(target);
        let c2 = memory.code_access_seq32(target.wrapping_add(4));
        c1 + c2
    }

    /// Branches to `dest` in Thumb state: the next instruction executed is
    /// `dest` with its low bit cleared. Returns the pipeline refill cycles.
    pub fn thumb_branch_to<M: ArmMemory>(&mut self, dest: u32, memory: &M) -> (c: u32)
        requires
            old(self).wf(),
        ensures
            final(self).wf(),
            final(self).registers.r@ == old(self).registers.r@.update(
                15,
                (dest & 0xFFFF_FFFE).wrapping_add(2),
            ),
            final(self).registers.cpsr == old(self).registers.cpsr,
            final(self).registers.same_spsr(&old(self).registers),
            final(self).registers.reg_spec(15) == (dest & 0xFFFF_FFFE).wrapping_add(2),
            final(self).cycles == old(self).cycles,
            final(self).halted == old(self).halted,
            2 <= c <= 128,
    {
        let target = dest & 0xFFFF_FFFE;
        self.registers.write(15, target.wrapping_add(2));
        let c1 = memory.code_access_nonseq16(target);
        let c2 = memory.code_access_seq16(target.wrapping_add(2));
        c1 + c2
    }

    /// Places the processor at `addr` in its current state (ARM or Thumb) and
    /// charges the pipeline refill to the cycle counter.
    pub fn set_pc<M: ArmMemory>(&mut self, addr: u32, memory: &M)
        requires
            old(self).wf(),
        ensures
            final(self).wf(),
            final(self).registers.cpsr == old(self).registers.cpsr,
            final(self).registers.same_spsr(&old(self).registers),
            !old(self).registers.cpsr.thumb ==> final(self).registers.r@ == old(
                self,
            ).registers.r@.update(15, (addr & 0xFFFF_FFFC).wrapping_add(4)),
            old(self).registers.cpsr.thumb ==> final(self).registers.r@ == old(
                self,
            ).registers.r@.update(15, (addr & 0xFFFF_FFFE).wrapping_add(2)),
            !old(self).registers.cpsr.thumb ==> final(self).registers.reg_spec(15) == (addr
                & 0xFFFF_FFFC).wrapping_add(4),
            old(self).registers.cpsr.thumb ==> final(self).registers.reg_spec(15) == (addr
                & 0xFFFF_FFFE).wrapping_add(2),
            final(self).cycles >= old(self).cycles,
    {
        let c: u32 = if self.registers.getf_t() {
            self.thumb_branch_to(addr, memory)
        } else {
            self.arm_branch_to(addr, memory)
        };
        self.cycles = self.cycles.saturating_add(c as u64);
    }

    /// Enters an exception: saves the CPSR into the target mode's SPSR,
    /// switches to that mode with IRQs disabled (and FIQs too for Reset and
    /// FIQ), returns to ARM state, stores the given return address in the
    /// target mode's link register, and vectors through low memory.
    pub fn handle_exception<M: ArmMemory>(
        &mut self,
        exception: CpuException,
        memory: &M,
        return_addr: u32,
    ) -> (c: u32)
        requires
            old(self).wf(),
        ensures
            exception_entered(final(self), old(self), exception, return_addr),
            2 <= c <= 128,
    {
        let old_cpsr = self.registers.read_cpsr();
        let mode = exception.target_mode();
        self.registers.write_mode(mode);
        self.registers.write_spsr(old_cpsr);
        self.registers.write(14, return_addr);
        self.registers.setf_i();
        if matches!(exception, CpuException::Reset | CpuException::FIQ) {
            self.registers.setf_f();
        }
        self.registers.clearf_t();
        let vector = exception.vector();
        proof {
            crate::bits::lemma_align_facts();
            assert(vector % 4 == 0);
        }
        self.arm_branch_to(vector, memory)
    }

    /// Executes one instruction: fetches at the program counter, advances it
    /// by the instruction width, dispatches to the ARM or Thumb decoder, and
    /// accumulates the cycles consumed (saturating at the counter's limit).
    /// The cycle counter strictly increases until it saturates.
    pub fn step<M: ArmMemory>(&mut self, memory: &mut M) -> (c: u32)
        requires
            old(self).wf(),
        ensures
            final(self).wf(),
            1 <= c,
            final(self).cycles == old(self).cycles.saturating_add(c as u64),
            final(self).cycles >= old(self).cycles,
            old(self).cycles < u64::MAX ==> final(self).cycles > old(self).cycles,
            final(self).halted == old(self).halted,
            plain_unchanged(final(memory), old(memory)),
            step_rel(*final(self), *old(self), *final(memory), *old(memory)),
    {
        if self.registers.getf_t() {
            let pc = self.registers.read(15);
            let opcode = memory.view_halfword(pc.wrapping_sub(2));
            self.registers.write(15, pc.wrapping_add(2));
            let ghost mid = *self;
            let c = crate::thumb::thumb_exec(self, memory, opcode as u32);
            let ghost fin = *self;
            self.cycles = self.cycles.saturating_add(c as u64);
            proof {
                assert(pc_advanced(mid, *old(self), 2));
                assert(crate::thumb::thumb_exec_post(
                    &fin,
                    &mid,
                    memory,
                    old(memory),
                    mem_halfword(
                        old(memory),
                        old(self).registers.reg_spec(15).wrapping_sub(2) & 0xFFFF_FFFE,
                    ) as u32,
                ));
            }
            c
        } else {
            let pc = self.registers.read(15);
            let instr = memory.view_word(pc.wrapping_sub(4));
            self.registers.write(15, pc.wrapping_add(4));
            let ghost mid = *self;
            let c = crate::arm::arm_exec(self, memory, instr);
            let ghost fin = *self;
            self.cycles = self.cycles.saturating_add(c as u64);
            proof {
                assert(pc_advanced(mid, *old(self), 4));
                assert(crate::arm::arm_exec_post(
                    &fin,
                    &mid,
                    memory,
                    old(memory),
                    mem_word(
                        old(memory),
                        old(self).registers.reg_spec(15).wrapping_sub(4) & 0xFFFF_FFFC,
                    ),
                ));
            }
            c
        }
    }

    /// Takes the IRQ exception at an instruction boundary: the IRQ-mode link
    /// register receives the next instruction's address plus 4, per the ARM
    /// return convention. The cycles spent are added to the counter.
    pub fn irq<M: ArmMemory>(&mut self, memory: &M) -> (c: u32)
        requires
            old(self).wf(),
        ensures
            1 <= c,
            final(self).wf(),
            final(self).registers.cpsr.mode == CpuMode::IRQ,
            final(self).registers.cpsr.irq_disable,
            !final(self).registers.cpsr.thumb,
            final(self).registers.spsr_with_mode_spec(CpuMode::IRQ) == psr_bits_spec(
                old(self).registers.cpsr,
            ),
            final(self).registers.reg_with_mode_spec(CpuMode::IRQ, 14)
                == old(self).pc_next_spec().wrapping_add(4),
            final(self).registers.reg_spec(15) == 0x18u32.wrapping_add(4),
            final(self).cycles >= old(self).cycles,
            old(self).cycles < u64::MAX ==> final(self).cycles > old(self).cycles,
            final(self).halted == old(self).halted,
    {
        let pc = self.registers.read(15);
        let next = if self.registers.getf_t() {
            pc.wrapping_sub(2)
        } else {
            pc.wrapping_sub(4)
        };
        let c = self.handle_exception(CpuException::IRQ, memory, next.wrapping_add(4));
        self.cycles = self.cycles.saturating_add(c as u64);
        c
    }
}

} // verus!
