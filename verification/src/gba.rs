//! The console: the ARM7TDMI, the memory bus (which owns the LCD), and the
//! host-facing controls: reset, stepping, and the keypad.

use vstd::prelude::*;
use crate::cpu::ArmCpu;
use crate::cpu::step_rel;
use crate::registers::psr_bits_spec;
use crate::gba_memory::GbaMemory;
use crate::lcd::GbaAudioOutput;
use crate::lcd::GbaVideoOutput;
use crate::registers::CpuMode;

verus! {

/// The ten keys of the KEYINPUT register, in bit order.
#[derive(Clone, Copy, Debug, PartialEq, Eq, Structural)]
pub enum KeypadInput {
    ButtonA,
    ButtonB,
    Select,
    Start,
    Right,
    Left,
    Up,
    Down,
    ButtonR,
    ButtonL,
}

pub open spec fn keypad_mask_spec(k: KeypadInput) -> u16 {
    match k {
        KeypadInput::ButtonA => 0x001,
        KeypadInput::ButtonB => 0x002,
        KeypadInput::Select => 0x004,
        KeypadInput::Start => 0x008,
        KeypadInput::Right => 0x010,
        KeypadInput::Left => 0x020,
        KeypadInput::Up => 0x040,
        KeypadInput::Down => 0x080,
        KeypadInput::ButtonR => 0x100,
        KeypadInput::ButtonL => 0x200,
    }
}

impl KeypadInput {
    /// The key's bit in KEYINPUT.
    pub fn mask(self) -> (r: u16)
        ensures
            r == keypad_mask_spec(self),
    {
        match self {
            KeypadInput::ButtonA => 0x001,
            KeypadInput::ButtonB => 0x002,
            KeypadInput::Select => 0x004,
            KeypadInput::Start => 0x008,
            KeypadInput::Right => 0x010,
            KeypadInput::Left => 0x020,
            KeypadInput::Up => 0x040,
            KeypadInput::Down => 0x080,
            KeypadInput::ButtonR => 0x100,
            KeypadInput::ButtonL => 0x200,
        }
    }
}

/// The whole console. The LCD lives inside the memory bus so that the
/// processor's I/O accesses reach its registers.
pub struct Gba {
    pub memory: GbaMemory,
    pub cpu: ArmCpu,
}

impl Gba {
    pub open spec fn wf(&self) -> bool {
        &&& self.cpu.wf()
        &&& self.memory.wf()
        &&& self.memory.lcd.timing_ok()
    }

    pub fn new() -> (r: Gba)
        ensures
            r.wf(),
    {
        Gba { memory: GbaMemory::new(), cpu: ArmCpu::new() }
    }

    /// Resets the console. With `skip_bios` the processor starts at the
    /// cartridge entry in System mode with the documented stack pointers;
    /// otherwise it starts at the reset vector in Supervisor mode. IRQs and
    /// FIQs start masked either way.
    pub fn reset(&mut self, skip_bios: bool)
        requires
            old(self).wf(),
        ensures
            final(self).wf(),
            final(self).cpu.registers.cpsr.irq_disable,
            final(self).cpu.registers.cpsr.fiq_disable,
            !final(self).cpu.registers.cpsr.thumb,
            skip_bios ==> final(self).cpu.registers.cpsr.mode == CpuMode::System && final(self).cpu.pc_next_spec() == 0x0800_0000,
            !skip_bios ==> final(self).cpu.registers.cpsr.mode == CpuMode::Supervisor && final(self).cpu.pc_next_spec() == 0,
            skip_bios ==> final(self).cpu.registers.reg_with_mode_spec(CpuMode::User, 13)
                == 0x0300_7F00 && final(self).cpu.registers.reg_with_mode_spec(CpuMode::System, 13)
                == 0x0300_7F00 && final(self).cpu.registers.reg_with_mode_spec(CpuMode::IRQ, 13)
                == 0x0300_7FA0 && final(self).cpu.registers.reg_with_mode_spec(
                CpuMode::Supervisor,
                13,
            ) == 0x0300_7FE0,
            final(self).memory.ioregs.keyinput == 0x3FF,
            final(self).memory.rom@ == old(self).memory.rom@,
    {
        self.memory.init();
        self.cpu.registers.setf_f();
        self.cpu.registers.setf_i();
        self.cpu.registers.clearf_t();
        if skip_bios {
            self.cpu.registers.write_mode(CpuMode::System);
            self.cpu.registers.write_with_mode(CpuMode::User, 13, 0x0300_7F00);
            self.cpu.registers.write_with_mode(CpuMode::IRQ, 13, 0x0300_7FA0);
            self.cpu.registers.write_with_mode(CpuMode::Supervisor, 13, 0x0300_7FE0);
            self.cpu.set_pc(0x0800_0000, &self.memory);
        } else {
            self.cpu.registers.write_mode(CpuMode::Supervisor);
            self.cpu.set_pc(0x0000_0000, &self.memory);
        }
        self.memory.ioregs.keyinput = 0x3FF;
        proof {
            crate::bits::lemma_align_facts();
        }
    }

    /// Installs the cartridge ROM image.
    pub fn set_rom(&mut self, rom: Vec<u8>)
        requires
            old(self).wf(),
        ensures
            final(self).wf(),
            rom.len() <= 0x200_0000 ==> final(self).memory.rom@ == rom@,
    {
        self.memory.set_gamepak_rom(rom);
    }

    /// Primes the LCD for the first frame: line 0, HDRAW, flags clear; the
    /// processor and the rest of the bus are untouched.
    pub fn init<V: GbaVideoOutput, A: GbaAudioOutput>(&mut self, video: &mut V, audio: &mut A)
        requires
            old(self).wf(),
        ensures
            final(self).wf(),
            final(self).memory.lcd.timing_ok(),
            final(self).memory.lcd.registers.line == 0,
            !final(self).memory.lcd.in_hblank,
            !final(self).memory.lcd.end_of_frame,
            final(self).cpu == old(self).cpu,
            final(self).memory.rom@ == old(self).memory.rom@,
    {
        self.memory.lcd.init();
    }

    /// Runs one instruction (or takes a pending, unmasked IRQ) and feeds the
    /// cycles it consumed to the LCD. The processor's cycle counter strictly
    /// increases (until its 64-bit limit), and the LCD timing invariant is
    /// preserved.
    pub fn step<V: GbaVideoOutput, A: GbaAudioOutput>(&mut self, video: &mut V, audio: &mut A)
        requires
            old(self).cpu.wf(),
        ensures
            final(self).cpu.wf(),
            final(self).cpu.cycles >= old(self).cpu.cycles,
            old(self).cpu.cycles < u64::MAX ==> final(self).cpu.cycles > old(self).cpu.cycles,
            ({
                let take_irq = !old(self).cpu.registers.cpsr.irq_disable && (old(
                    self,
                ).memory.ioregs.irq.enabled & old(self).memory.ioregs.irq.request_ack != 0);
                if take_irq {
                    &&& final(self).cpu.registers.cpsr.mode == CpuMode::IRQ
                    &&& final(self).cpu.registers.cpsr.irq_disable
                    &&& !final(self).cpu.registers.cpsr.thumb
                    &&& final(self).cpu.registers.spsr_with_mode_spec(CpuMode::IRQ)
                        == psr_bits_spec(old(self).cpu.registers.cpsr)
                    &&& final(self).cpu.registers.reg_with_mode_spec(CpuMode::IRQ, 14) == old(
                        self,
                    ).cpu.pc_next_spec().wrapping_add(4)
                    &&& final(self).cpu.registers.reg_spec(15) == 0x18u32.wrapping_add(4)
                } else {
                    exists|memmid: GbaMemory| #[trigger] step_rel(
                        final(self).cpu,
                        old(self).cpu,
                        memmid,
                        old(self).memory,
                    )
                }
            }),
    {
        let cycles: u32;
        if !self.cpu.registers.getf_i() && self.memory.ioregs.irq.pending() {
            cycles = self.cpu.irq(&self.memory);
        } else {
            cycles = self.cpu.step(&mut self.memory);
            proof {
                let memmid = self.memory;
                assert(step_rel(self.cpu, old(self).cpu, memmid, old(self).memory));
            }
        }
        self.memory.step_lcd(cycles, video);
    }

    /// Whether the LCD finished a frame since the flag was last cleared.
    pub fn is_frame_ready(&self) -> (r: bool)
        ensures
            r == self.memory.lcd.end_of_frame,
    {
        self.memory.lcd.end_of_frame
    }

    /// Clears the frame latch, so `is_frame_ready` reports the next frame.
    pub fn clear_frame_ready(&mut self)
        ensures
            !final(self).memory.lcd.end_of_frame,
            final(self).cpu == old(self).cpu,
            final(self).memory.lcd.registers == old(self).memory.lcd.registers,
            final(self).memory.lcd.in_hblank == old(self).memory.lcd.in_hblank,
            final(self).memory.lcd.cycles_acc == old(self).memory.lcd.cycles_acc,
            final(self).memory.rom@ == old(self).memory.rom@,
    {
        self.memory.lcd.end_of_frame = false;
    }

    /// Presses or releases a key: a zero bit in KEYINPUT means pressed.
    pub fn set_key_pressed(&mut self, key: KeypadInput, pressed: bool)
        requires
            old(self).wf(),
        ensures
            final(self).wf(),
            pressed ==> final(self).memory.ioregs.keyinput == (old(self).memory.ioregs.keyinput
                & !keypad_mask_spec(key)),
            !pressed ==> final(self).memory.ioregs.keyinput == (old(self).memory.ioregs.keyinput
                | keypad_mask_spec(key)),
    {
        if pressed {
            self.memory.ioregs.keyinput = self.memory.ioregs.keyinput & !key.mask();
        } else {
            self.memory.ioregs.keyinput = self.memory.ioregs.keyinput | key.mask();
        }
    }

    pub fn is_key_pressed(&self, key: KeypadInput) -> (r: bool)
        ensures
            r == (self.memory.ioregs.keyinput & keypad_mask_spec(key) == 0),
    {
        (self.memory.ioregs.keyinput & key.mask()) == 0
    }
}

} // verus!
