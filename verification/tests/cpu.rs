use pyrite::arm;
use pyrite::cpu::CpuException;
use pyrite::registers::CpuMode;
use pyrite::thumb;
use pyrite::ArmCpu;
use pyrite::FlatMemory;

/// A processor about to execute an ARM instruction at `addr` (R15 reads as
/// `addr + 8`, per the pipeline convention).
fn arm_cpu_at(addr: u32) -> ArmCpu {
    let mut cpu = ArmCpu::new();
    cpu.registers.write(15, addr.wrapping_add(8));
    cpu
}

/// A processor about to execute a Thumb instruction at `addr` (R15 reads as
/// `addr + 4`).
fn thumb_cpu_at(addr: u32) -> ArmCpu {
    let mut cpu = ArmCpu::new();
    cpu.registers.setf_t();
    cpu.registers.write(15, addr.wrapping_add(4));
    cpu
}

#[test]
fn adds_with_carry_and_zero() {
    let mut cpu = arm_cpu_at(0);
    let mut mem = FlatMemory::new(0x1000);
    cpu.registers.write(0, 0xFFFF_FFFF);
    cpu.registers.write(1, 1);
    // ADDS R2, R0, R1
    arm::arm_exec(&mut cpu, &mut mem, 0xE090_2001);
    assert_eq!(cpu.registers.read(2), 0);
    assert!(!cpu.registers.getf_n());
    assert!(cpu.registers.getf_z());
    assert!(cpu.registers.getf_c());
    assert!(!cpu.registers.getf_v());
}

#[test]
fn misaligned_ldr_rotates() {
    let mut cpu = arm_cpu_at(0);
    let mut mem = FlatMemory::new(0x4000);
    mem.set_bytes(0x3000, &[0x11, 0x22, 0x33, 0x44]);
    cpu.registers.write(1, 0x3001);
    // LDR R0, [R1]
    let cycles = arm::arm_exec(&mut cpu, &mut mem, 0xE591_0000);
    assert_eq!(cpu.registers.read(0), 0x1144_3322);
    assert_eq!(cycles, 2);
}

#[test]
fn thumb_long_branch_with_link() {
    let mut mem = FlatMemory::new(0x1000);
    let mut cpu = thumb_cpu_at(0x0800_0100);
    // First half: offset_high = 0, so LR takes PC + 4.
    thumb::thumb_bl_setup(&mut cpu, &mut mem, 0xF000);
    assert_eq!(cpu.registers.read(14), 0x0800_0104);
    // Second half at 0x08000102: offset_low 0x7E doubles to 0xFC, so the
    // composed target is 0x08000200.
    cpu.registers.write(15, 0x0800_0106);
    thumb::thumb_bl_off(&mut cpu, &mut mem, 0xF800 | 0x7E);
    // The next instruction executed is the target; R15 runs one width ahead.
    assert_eq!(cpu.registers.read(15), 0x0800_0202);
    assert_eq!(cpu.registers.read(14), 0x0800_0105);
    assert!(cpu.registers.getf_t());
}

#[test]
fn swi_enters_supervisor() {
    let mut mem = FlatMemory::new(0x1000);
    let mut cpu = arm_cpu_at(0x0800_0040);
    cpu.registers.write_cpsr(0x0000_0010); // User mode, IRQs enabled
    cpu.registers.write(15, 0x0800_0048);
    let old_cpsr = cpu.registers.read_cpsr();
    // SWI #0
    arm::arm_exec(&mut cpu, &mut mem, 0xEF00_0000);
    assert_eq!(cpu.registers.read_mode(), CpuMode::Supervisor);
    assert!(cpu.registers.getf_i());
    assert!(!cpu.registers.getf_t());
    assert_eq!(cpu.registers.read_spsr(), old_cpsr);
    assert_eq!(cpu.registers.read(14), 0x0800_0044);
    // The next instruction executed is the SWI vector.
    assert_eq!(cpu.registers.read(15), 0x08 + 4);
}

#[test]
fn bx_switches_state_and_aligns() {
    let mut mem = FlatMemory::new(0x1000);
    let mut cpu = arm_cpu_at(0);
    cpu.registers.write(0, 0x0000_1001);
    // BX R0 with bit 0 set: Thumb state, target aligned to a halfword.
    arm::arm_exec(&mut cpu, &mut mem, 0xE12F_FF10);
    assert!(cpu.registers.getf_t());
    assert_eq!(cpu.registers.read(15), 0x1000 + 2);

    let mut cpu2 = arm_cpu_at(0);
    cpu2.registers.write(0, 0x0000_2002);
    // BX R0 with bit 0 clear: ARM state, target aligned to a word.
    arm::arm_exec(&mut cpu2, &mut mem, 0xE12F_FF10);
    assert!(!cpu2.registers.getf_t());
    assert_eq!(cpu2.registers.read(15), 0x2000 + 4);
}

#[test]
fn push_pop_roundtrip_ascending() {
    let mut mem = FlatMemory::new(0x2000);
    let mut cpu = thumb_cpu_at(0x100);
    for r in 0..8u32 {
        cpu.registers.write(r, 0x1111_0000 + r);
    }
    cpu.registers.write(13, 0x1000);
    // PUSH {R0-R7}
    thumb::thumb_push(&mut cpu, &mut mem, 0xB4FF);
    assert_eq!(cpu.registers.read(13), 0x1000 - 32);
    // The lowest register sits at the lowest address, ascending from there.
    for r in 0..8u32 {
        let addr = 0x1000 - 32 + 4 * r;
        let lo = mem.get_bytes(addr, 4);
        let word = (lo[0] as u32)
            | ((lo[1] as u32) << 8)
            | ((lo[2] as u32) << 16)
            | ((lo[3] as u32) << 24);
        assert_eq!(word, 0x1111_0000 + r);
    }
    // Clobber the registers, POP them back.
    for r in 0..8u32 {
        cpu.registers.write(r, 0);
    }
    thumb::thumb_pop(&mut cpu, &mut mem, 0xBCFF);
    for r in 0..8u32 {
        assert_eq!(cpu.registers.read(r), 0x1111_0000 + r);
    }
    assert_eq!(cpu.registers.read(13), 0x1000);
}

#[test]
fn cycles_strictly_increase() {
    let mut mem = FlatMemory::new(0x1000);
    // MOV R0, #1 at address 0, then B 0 (loop).
    mem.set_bytes(0, &[0x01, 0x00, 0xA0, 0xE3]);
    mem.set_bytes(4, &[0xFD, 0xFF, 0xFF, 0xEA]);
    let mut cpu = ArmCpu::new();
    cpu.registers.write(15, 4);
    let mut last = cpu.cycles;
    for _ in 0..16 {
        cpu.step(&mut mem);
        assert!(cpu.cycles > last);
        last = cpu.cycles;
    }
}

#[test]
fn msr_mrs_roundtrip() {
    let mut mem = FlatMemory::new(0x1000);
    let mut cpu = arm_cpu_at(0);
    cpu.registers.write(0, 0xF000_00D3); // flags set, IRQ/FIQ masked, Supervisor
    // MSR CPSR, R0 (all fields)
    arm::arm_exec(&mut cpu, &mut mem, 0xE129_F000);
    cpu.registers.write(15, 12);
    // MRS R1, CPSR
    arm::arm_exec(&mut cpu, &mut mem, 0xE10F_1000);
    assert_eq!(cpu.registers.read(1), 0xF000_00D3);
}

#[test]
fn exception_entry_banks_and_saves() {
    let mem = FlatMemory::new(0x1000);
    let mut cpu = arm_cpu_at(0x500);
    cpu.registers.write_cpsr(0x0000_0010); // User mode
    let old_cpsr = cpu.registers.read_cpsr();
    let old_sp = cpu.registers.read(13);
    cpu.handle_exception(CpuException::IRQ, &mem, 0x1234);
    assert_eq!(cpu.registers.read_mode(), CpuMode::IRQ);
    assert_eq!(cpu.registers.read(14), 0x1234);
    assert_eq!(cpu.registers.read_spsr(), old_cpsr);
    // IRQ mode banks R13-R14: the User stack pointer is untouched.
    assert_eq!(cpu.registers.read_with_mode(CpuMode::User, 13), old_sp);
    assert_eq!(cpu.registers.read(15), 0x18 + 4);
}

#[test]
fn failed_condition_skips_instruction() {
    let mut mem = FlatMemory::new(0x1000);
    let mut cpu = arm_cpu_at(0);
    cpu.registers.putf_z(true);
    // ADDNE R2, R0, R1 with Z set: not executed.
    cpu.registers.write(2, 0xDEAD);
    let cycles = arm::arm_exec(&mut cpu, &mut mem, 0x1090_2001);
    assert_eq!(cpu.registers.read(2), 0xDEAD);
    assert_eq!(cycles, 1);
}

#[test]
fn lsr_zero_encoding_means_32() {
    let mut mem = FlatMemory::new(0x1000);
    let mut cpu = thumb_cpu_at(0);
    cpu.registers.write(1, 0x8000_0001);
    // LSR R0, R1, #0 encodes a shift by 32: zero result, carry from bit 31.
    thumb::thumb_lsr_imm(&mut cpu, &mut mem, 0x0808);
    assert_eq!(cpu.registers.read(0), 0);
    assert!(cpu.registers.getf_c());
    assert!(cpu.registers.getf_z());
}

#[test]
fn ldrsb_sign_extends() {
    let mut mem = FlatMemory::new(0x1000);
    let mut cpu = thumb_cpu_at(0);
    mem.set_bytes(0x80, &[0x80]);
    cpu.registers.write(1, 0x80);
    cpu.registers.write(2, 0);
    // LDSB R0, [R1, R2]
    thumb::thumb_ldrsb_reg(&mut cpu, &mut mem, 0x0088);
    assert_eq!(cpu.registers.read(0), 0xFFFF_FF80);
}

#[test]
fn multiply_accumulates() {
    let mut mem = FlatMemory::new(0x1000);
    let mut cpu = arm_cpu_at(0);
    cpu.registers.write(1, 7);
    cpu.registers.write(2, 9);
    cpu.registers.write(3, 100);
    // MLA R0, R1, R2, R3
    arm::arm_exec(&mut cpu, &mut mem, 0xE020_3291);
    assert_eq!(cpu.registers.read(0), 163);
}

#[test]
fn umull_splits_product() {
    let mut mem = FlatMemory::new(0x1000);
    let mut cpu = arm_cpu_at(0);
    cpu.registers.write(2, 0xFFFF_FFFF);
    cpu.registers.write(3, 0x10001);
    // UMULL R0, R1, R2, R3
    arm::arm_exec(&mut cpu, &mut mem, 0xE081_0392);
    let product = 0xFFFF_FFFFu64 * 0x10001u64;
    assert_eq!(cpu.registers.read(0), (product & 0xFFFF_FFFF) as u32);
    assert_eq!(cpu.registers.read(1), (product >> 32) as u32);
}

#[test]
fn block_transfer_writeback() {
    let mut mem = FlatMemory::new(0x2000);
    let mut cpu = arm_cpu_at(0);
    cpu.registers.write(0, 0x1000);
    cpu.registers.write(4, 0xAAAA);
    cpu.registers.write(5, 0xBBBB);
    // STMIA R0!, {R4, R5}
    arm::arm_exec(&mut cpu, &mut mem, 0xE8A0_0030);
    assert_eq!(cpu.registers.read(0), 0x1008);
    let b = mem.get_bytes(0x1000, 8);
    assert_eq!(b[0] as u32 | ((b[1] as u32) << 8), 0xAAAA);
    assert_eq!(b[4] as u32 | ((b[5] as u32) << 8), 0xBBBB);
    // LDMDB R0!, {R6, R7} restores them in ascending register order.
    arm::arm_exec(&mut cpu, &mut mem, 0xE930_00C0);
    assert_eq!(cpu.registers.read(6), 0xAAAA);
    assert_eq!(cpu.registers.read(7), 0xBBBB);
    assert_eq!(cpu.registers.read(0), 0x1000);
}

#[test]
fn data_processing_with_shifted_operand() {
    let mut mem = FlatMemory::new(0x1000);
    let mut cpu = arm_cpu_at(0);
    cpu.registers.write(1, 0x0F);
    // MOV R0, R1, LSL #4
    arm::arm_exec(&mut cpu, &mut mem, 0xE1A0_0201);
    assert_eq!(cpu.registers.read(0), 0xF0);
    // ORR R0, R0, #0xFF000000 (rotated immediate)
    arm::arm_exec(&mut cpu, &mut mem, 0xE380_04FF);
    assert_eq!(cpu.registers.read(0), 0xFF00_00F0);
}

#[test]
fn undefined_instruction_vectors() {
    let mut mem = FlatMemory::new(0x1000);
    let mut cpu = arm_cpu_at(0x100);
    // A coprocessor data operation decodes to the Undefined exception.
    arm::arm_exec(&mut cpu, &mut mem, 0xEE00_0000);
    assert_eq!(cpu.registers.read_mode(), CpuMode::Undefined);
    assert_eq!(cpu.registers.read(15), 0x04 + 4);
    assert_eq!(cpu.registers.read(14), 0x104);
}
