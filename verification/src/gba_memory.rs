//! The GBA memory bus: BIOS, the two work RAMs, the I/O registers (which
//! dispatch into the LCD and the interrupt controller), palette RAM, VRAM,
//! OAM, the cartridge ROM (read-only, mirrored) and cartridge SRAM, with the
//! documented per-region access timings.
//!
//! The model keeps each RAM region at its canonical addresses only; the ROM
//! and BIOS mirrors are read-only and so stay outside the plain-store map.

use vstd::prelude::*;
use crate::cpu::ArmMemory;
use crate::cpu::MemoryModel;
use crate::irq::GbaInterruptControl;
use crate::lcd::GbaLCD;
use crate::palette::Palette;

verus! {

/// The miscellaneous I/O registers that live outside the LCD.
pub struct IoRegisters {
    /// KEYINPUT: a zero bit means the key is pressed.
    pub keyinput: u16,
    pub irq: GbaInterruptControl,
}

pub struct GbaMemory {
    pub bios: Vec<u8>,
    pub ewram: Vec<u8>,
    pub iwram: Vec<u8>,
    pub palette: Palette,
    pub vram: Vec<u8>,
    pub oam: Vec<u8>,
    pub rom: Vec<u8>,
    pub sram: Vec<u8>,
    pub ioregs: IoRegisters,
    pub lcd: GbaLCD,
}

impl GbaMemory {
    pub open spec fn wf(&self) -> bool {
        &&& self.bios.len() == 0x4000
        &&& self.ewram.len() == 0x40000
        &&& self.iwram.len() == 0x8000
        &&& self.palette.wf()
        &&& self.vram.len() == 0x18000
        &&& self.oam.len() == 0x400
        &&& self.sram.len() == 0x10000
        &&& self.rom.len() <= 0x2000000
        &&& self.lcd.wf()
    }

    pub fn new() -> (r: GbaMemory)
        ensures
            r.wf(),
            r.lcd.timing_ok(),
            r.rom.len() == 0,
    {
        GbaMemory {
            bios: zero_filled(0x4000),
            ewram: zero_filled(0x40000),
            iwram: zero_filled(0x8000),
            palette: Palette::new(),
            vram: zero_filled(0x18000),
            oam: zero_filled(0x400),
            rom: Vec::new(),
            sram: zero_filled(0x10000),
            ioregs: IoRegisters { keyinput: 0x3FF, irq: GbaInterruptControl::new() },
            lcd: GbaLCD::new(),
        }
    }

    /// Installs the cartridge ROM image; anything beyond the 32 MB window is
    /// cut off.
    pub fn set_gamepak_rom(&mut self, rom: Vec<u8>)
        requires
            old(self).wf(),
        ensures
            final(self).wf(),
            rom.len() <= 0x2000000 ==> final(self).rom@ == rom@,
            final(self).lcd == old(self).lcd,
    {
        if rom.len() <= 0x2000000 {
            self.rom = rom;
        } else {
            let mut r = rom;
            r.truncate(0x2000000);
            self.rom = r;
        }
    }

    /// Re-primes the bus at power-on: RAM contents are kept (the console
    /// does not clear them), the I/O registers reset.
    pub fn init(&mut self)
        requires
            old(self).wf(),
        ensures
            final(self).wf(),
            final(self).lcd.timing_ok(),
            final(self).rom@ == old(self).rom@,
    {
        self.ioregs = IoRegisters { keyinput: 0x3FF, irq: GbaInterruptControl::new() };
        self.lcd.init();
    }

    /// What a 16-bit read of I/O offset `offset` (halfword-aligned) yields.
    /// Write-only registers and unmapped offsets read zero.
    pub open spec fn io_read16_spec(&self, offset: u32) -> u16 {
        if offset == 0x130 {
            self.ioregs.keyinput
        } else if offset == 0x200 {
            self.ioregs.irq.enabled
        } else if offset == 0x202 {
            self.ioregs.irq.request_ack
        } else if offset == 0x208 {
            if self.ioregs.irq.master_enable {
                1u16
            } else {
                0u16
            }
        } else if offset == 0x06 {
            self.lcd.registers.line
        } else if offset == 0x48 {
            self.lcd.registers.winin.inner
        } else if offset == 0x4A {
            self.lcd.registers.winout.inner
        } else if offset == 0x50 {
            self.lcd.registers.effects.inner
        } else if offset == 0x52 {
            self.lcd.registers.alpha
        } else {
            0u16
        }
    }

    /// What a 16-bit read of any I/O offset yields: DISPCNT, DISPSTAT and
    /// the background controls reassembled from their decomposed registers,
    /// and the plain registers as stored.
    pub open spec fn io_read_full_spec(&self, offset: u32) -> u16 {
        if offset == 0x00 {
            crate::lcd::dispcnt_value_spec(self.lcd.registers.dispcnt)
        } else if offset == 0x04 {
            crate::lcd::dispstat_value_spec(self.lcd.registers.dispstat)
        } else if offset == 0x08 || offset == 0x0A || offset == 0x0C || offset == 0x0E {
            if self.lcd.registers.bg_cnt.len() == 4 {
                bg_control_value_spec(self.lcd.registers.bg_cnt@[(offset - 0x08) as int / 2])
            } else {
                0u16
            }
        } else {
            self.io_read16_spec(offset)
        }
    }

    /// Reads an I/O register halfword.
    pub fn io_read16(&self, offset: u32) -> (r: u16)
        ensures
            r == self.io_read_full_spec(offset),
    {
        if offset == 0x00 {
            self.lcd.registers.dispcnt.value()
        } else if offset == 0x04 {
            self.lcd.registers.dispstat.value()
        } else if offset == 0x08 || offset == 0x0A || offset == 0x0C || offset == 0x0E {
            if self.lcd.registers.bg_cnt.len() == 4 {
                let idx = ((offset - 0x08) / 2) as usize;
                bg_control_value(&self.lcd.registers.bg_cnt[idx])
            } else {
                0
            }
        } else if offset == 0x130 {
            self.ioregs.keyinput
        } else if offset == 0x200 {
            self.ioregs.irq.enabled
        } else if offset == 0x202 {
            self.ioregs.irq.read_if()
        } else if offset == 0x208 {
            if self.ioregs.irq.master_enable {
                1
            } else {
                0
            }
        } else if offset == 0x06 {
            self.lcd.registers.line
        } else if offset == 0x48 {
            self.lcd.registers.winin.value()
        } else if offset == 0x4A {
            self.lcd.registers.winout.value()
        } else if offset == 0x50 {
            self.lcd.registers.effects.value()
        } else if offset == 0x52 {
            self.lcd.registers.alpha
        } else {
            0
        }
    }

    /// Writes an I/O register halfword, dispatching to the LCD registers and
    /// the interrupt controller. The timing flags of DISPSTAT stay read-only
    /// and the timing invariant is preserved.
    pub fn io_write16(&mut self, offset: u32, value: u16)
        ensures
            old(self).wf() ==> final(self).wf(),
            final(self).lcd.timing_ok() == old(self).lcd.timing_ok(),
            final(self).rom@ == old(self).rom@,
            final(self).bios@ == old(self).bios@,
            final(self).ewram@ == old(self).ewram@,
            final(self).iwram@ == old(self).iwram@,
            final(self).vram@ == old(self).vram@,
            final(self).oam@ == old(self).oam@,
            final(self).sram@ == old(self).sram@,
            final(self).palette == old(self).palette,
    {
        if offset == 0x00 {
            self.lcd.registers.dispcnt.set_value(value);
        } else if offset == 0x04 {
            self.lcd.registers.set_dispstat(value);
        } else if offset == 0x08 || offset == 0x0A || offset == 0x0C || offset == 0x0E {
            if self.lcd.registers.bg_cnt.len() == 4 {
                let idx = ((offset - 0x08) / 2) as usize;
                let mut cnt = self.lcd.registers.bg_cnt[idx];
                cnt.set_value(value);
                self.lcd.registers.bg_cnt.set(idx, cnt);
            }
        } else if offset == 0x10 || offset == 0x14 || offset == 0x18 || offset == 0x1C {
            if self.lcd.registers.bg_ofs.len() == 4 {
                let idx = ((offset - 0x10) / 4) as usize;
                let mut ofs = self.lcd.registers.bg_ofs[idx];
                ofs.set_x(value);
                self.lcd.registers.bg_ofs.set(idx, ofs);
            }
        } else if offset == 0x12 || offset == 0x16 || offset == 0x1A || offset == 0x1E {
            if self.lcd.registers.bg_ofs.len() == 4 {
                let idx = ((offset - 0x12) / 4) as usize;
                let mut ofs = self.lcd.registers.bg_ofs[idx];
                ofs.set_y(value);
                self.lcd.registers.bg_ofs.set(idx, ofs);
            }
        } else if offset == 0x20 {
            self.lcd.registers.bg2_affine_params.set_a(value);
        } else if offset == 0x22 {
            self.lcd.registers.bg2_affine_params.set_b(value);
        } else if offset == 0x24 {
            self.lcd.registers.bg2_affine_params.set_c(value);
        } else if offset == 0x26 {
            self.lcd.registers.bg2_affine_params.set_d(value);
        } else if offset == 0x28 {
            self.lcd.registers.bg2_affine_params.set_x_lo(value);
        } else if offset == 0x2A {
            self.lcd.registers.bg2_affine_params.set_x_hi(value);
        } else if offset == 0x2C {
            self.lcd.registers.bg2_affine_params.set_y_lo(value);
        } else if offset == 0x2E {
            self.lcd.registers.bg2_affine_params.set_y_hi(value);
        } else if offset == 0x30 {
            self.lcd.registers.bg3_affine_params.set_a(value);
        } else if offset == 0x32 {
            self.lcd.registers.bg3_affine_params.set_b(value);
        } else if offset == 0x34 {
            self.lcd.registers.bg3_affine_params.set_c(value);
        } else if offset == 0x36 {
            self.lcd.registers.bg3_affine_params.set_d(value);
        } else if offset == 0x38 {
            self.lcd.registers.bg3_affine_params.set_x_lo(value);
        } else if offset == 0x3A {
            self.lcd.registers.bg3_affine_params.set_x_hi(value);
        } else if offset == 0x3C {
            self.lcd.registers.bg3_affine_params.set_y_lo(value);
        } else if offset == 0x3E {
            self.lcd.registers.bg3_affine_params.set_y_hi(value);
        } else if offset == 0x40 {
            self.lcd.registers.win0_bounds.set_h(value);
        } else if offset == 0x42 {
            self.lcd.registers.win1_bounds.set_h(value);
        } else if offset == 0x44 {
            self.lcd.registers.win0_bounds.set_v(value);
        } else if offset == 0x46 {
            self.lcd.registers.win1_bounds.set_v(value);
        } else if offset == 0x48 {
            self.lcd.registers.winin.set_value(value);
        } else if offset == 0x4A {
            self.lcd.registers.winout.set_value(value);
        } else if offset == 0x4C {
            self.lcd.registers.mosaic.set_value(value);
        } else if offset == 0x50 {
            self.lcd.registers.effects.set_value(value);
        } else if offset == 0x52 {
            self.lcd.registers.alpha = value;
        } else if offset == 0x54 {
            self.lcd.registers.brightness = value;
        } else if offset == 0x200 {
            self.ioregs.irq.enabled = value;
        } else if offset == 0x202 {
            self.ioregs.irq.write_if(value);
        } else if offset == 0x208 {
            self.ioregs.irq.master_enable = value % 2 == 1;
        }
    }
}

impl GbaMemory {
    /// Feeds a CPU cycle budget to the LCD: phase transitions run against
    /// this bus's VRAM, OAM, palette and interrupt controller.
    /// The invariants are re-checked at run time (they mirror `wf` and the
    /// timing invariant exactly), so this is callable after arbitrary bus
    /// traffic; a bus that somehow left its canonical shape skips the LCD.
    pub fn step_lcd<V: crate::lcd::GbaVideoOutput>(&mut self, cycles: u32, video: &mut V)
        ensures
            (old(self).wf() && old(self).lcd.timing_ok()) ==> (final(self).wf() && final(self).lcd.timing_ok()),
            final(self).rom@ == old(self).rom@,
    {
        if self.vram.len() == 0x18000 && self.oam.len() == 0x400 && self.palette.bg_colors.len()
            == 256 && self.palette.obj_colors.len() == 256 && self.lcd.state_ok() {
            self.lcd.step(
                cycles,
                &self.vram,
                &self.oam,
                &self.palette,
                video,
                &mut self.ioregs.irq,
            );
        }
    }
}

/// A zero-filled vector of the given length.
fn zero_filled(len: usize) -> (r: Vec<u8>)
    ensures
        r.len() == len,
        forall|i: int| 0 <= i < len ==> r@[i] == 0u8,
{
    let mut v: Vec<u8> = Vec::new();
    let mut i: usize = 0;
    while i < len
        invariant
            i <= len,
            v.len() == i,
            forall|k: int| 0 <= k < i ==> v@[k] == 0u8,
        decreases len - i,
    {
        v.push(0);
        i += 1;
    }
    v
}

/// The raw value of a background control register.
pub open spec fn bg_control_value_spec(c: crate::lcd::BGControl) -> u16 {
    ((c.priority % 4)
        + (c.char_base_block % 4) * 4
        + (if c.mosaic { 0x40int } else { 0int })
        + (if c.palette256 { 0x80int } else { 0int })
        + (c.screen_base_block % 32) * 0x100
        + (if c.wraparound { 0x2000int } else { 0int })
        + (c.screen_size % 4) * 0x4000) as u16
}

/// The raw value of a background control register.
#[verifier::rlimit(100)]
#[verifier::spinoff_prover]
fn bg_control_value(cnt: &crate::lcd::BGControl) -> (r: u16)
    ensures
        r == bg_control_value_spec(*cnt),
{
    let b0: u32 = (cnt.priority % 4) as u32;
    let b1: u32 = ((cnt.char_base_block % 4) as u32) * 4;
    let b2: u32 = if cnt.mosaic {
        0x40
    } else {
        0
    };
    let b3: u32 = if cnt.palette256 {
        0x80
    } else {
        0
    };
    let b4: u32 = ((cnt.screen_base_block % 32) as u32) * 0x100;
    let b5: u32 = if cnt.wraparound {
        0x2000
    } else {
        0
    };
    let b6: u32 = ((cnt.screen_size % 4) as u32) * 0x4000;
    (b0 + b1 + b2 + b3 + b4 + b5 + b6) as u16
}

impl MemoryModel for GbaMemory {
    /// The byte a read of `addr` yields. RAM regions read their backing
    /// stores at canonical addresses; the I/O region reads the registers;
    /// the ROM window is mirrored; everything else reads zero.
    open spec fn byte_at(&self, addr: u32) -> u8 {
        if addr < 0x4000 {
            if addr < self.bios.len() {
                self.bios@[addr as int]
            } else {
                0u8
            }
        } else if 0x0200_0000 <= addr < 0x0204_0000 {
            if addr - 0x0200_0000 < self.ewram.len() {
                self.ewram@[addr - 0x0200_0000]
            } else {
                0u8
            }
        } else if 0x0300_0000 <= addr < 0x0300_8000 {
            if addr - 0x0300_0000 < self.iwram.len() {
                self.iwram@[addr - 0x0300_0000]
            } else {
                0u8
            }
        } else if 0x0400_0000 <= addr < 0x0400_0400 {
            let offset = (addr - 0x0400_0000) as u32;
            let hw = self.io_read_full_spec((offset - offset % 2) as u32);
            if offset % 2 == 0 {
                (hw % 0x100) as u8
            } else {
                (hw / 0x100) as u8
            }
        } else if 0x0500_0000 <= addr < 0x0500_0400 {
            if self.palette.bg_colors.len() == 256 && self.palette.obj_colors.len() == 256 {
                let offset = (addr - 0x0500_0000) as u32;
                let hw = self.palette.load16_spec((offset - offset % 2) as u32);
                if offset % 2 == 0 {
                    (hw % 0x100) as u8
                } else {
                    (hw / 0x100) as u8
                }
            } else {
                0u8
            }
        } else if 0x0600_0000 <= addr < 0x0601_8000 {
            if addr - 0x0600_0000 < self.vram.len() {
                self.vram@[addr - 0x0600_0000]
            } else {
                0u8
            }
        } else if 0x0700_0000 <= addr < 0x0700_0400 {
            if addr - 0x0700_0000 < self.oam.len() {
                self.oam@[addr - 0x0700_0000]
            } else {
                0u8
            }
        } else if 0x0800_0000 <= addr < 0x0E00_0000 {
            let offset = (addr - 0x0800_0000) as int % 0x0200_0000;
            if offset < self.rom.len() {
                self.rom@[offset]
            } else {
                0u8
            }
        } else if 0x0E00_0000 <= addr < 0x0E01_0000 {
            if addr - 0x0E00_0000 < self.sram.len() {
                self.sram@[addr - 0x0E00_0000]
            } else {
                0u8
            }
        } else {
            0u8
        }
    }

    /// The regions where a store writes the byte exactly and disturbs
    /// nothing: the two work RAMs, palette RAM, VRAM, OAM and cartridge
    /// SRAM. The I/O region, the BIOS and the ROM are not plain.
    open spec fn plain(&self, addr: u32) -> bool {
        ||| (0x0200_0000 <= addr < 0x0204_0000 && self.ewram.len() == 0x40000)
        ||| (0x0300_0000 <= addr < 0x0300_8000 && self.iwram.len() == 0x8000)
        ||| (0x0500_0000 <= addr < 0x0500_0400 && self.palette.bg_colors.len() == 256
            && self.palette.obj_colors.len() == 256 && self.palette.bg_rgb.len() == 256
            && self.palette.obj_rgb.len() == 256)
        ||| (0x0600_0000 <= addr < 0x0601_8000 && self.vram.len() == 0x18000)
        ||| (0x0700_0000 <= addr < 0x0700_0400 && self.oam.len() == 0x400)
        ||| (0x0E00_0000 <= addr < 0x0E01_0000 && self.sram.len() == 0x10000)
    }
}

impl GbaMemory {
    /// Reads one byte off the bus.
    fn bus_read_byte(&self, addr: u32) -> (r: u8)
        ensures
            r == self.byte_at(addr),
    {
        if addr < 0x4000 {
            if (addr as usize) < self.bios.len() {
                self.bios[addr as usize]
            } else {
                0
            }
        } else if 0x0200_0000 <= addr && addr < 0x0204_0000 {
            if ((addr - 0x0200_0000) as usize) < self.ewram.len() {
                self.ewram[(addr - 0x0200_0000) as usize]
            } else {
                0
            }
        } else if 0x0300_0000 <= addr && addr < 0x0300_8000 {
            if ((addr - 0x0300_0000) as usize) < self.iwram.len() {
                self.iwram[(addr - 0x0300_0000) as usize]
            } else {
                0
            }
        } else if 0x0400_0000 <= addr && addr < 0x0400_0400 {
            let offset = addr - 0x0400_0000;
            let hw = self.io_read16(offset - offset % 2);
            if offset % 2 == 0 {
                (hw % 0x100) as u8
            } else {
                (hw / 0x100) as u8
            }
        } else if 0x0500_0000 <= addr && addr < 0x0500_0400 {
            if self.palette.bg_colors.len() == 256 && self.palette.obj_colors.len() == 256 {
                let offset = addr - 0x0500_0000;
                let hw = self.palette_load16_total(offset - offset % 2);
                if offset % 2 == 0 {
                    (hw % 0x100) as u8
                } else {
                    (hw / 0x100) as u8
                }
            } else {
                0
            }
        } else if 0x0600_0000 <= addr && addr < 0x0601_8000 {
            if ((addr - 0x0600_0000) as usize) < self.vram.len() {
                self.vram[(addr - 0x0600_0000) as usize]
            } else {
                0
            }
        } else if 0x0700_0000 <= addr && addr < 0x0700_0400 {
            if ((addr - 0x0700_0000) as usize) < self.oam.len() {
                self.oam[(addr - 0x0700_0000) as usize]
            } else {
                0
            }
        } else if 0x0800_0000 <= addr && addr < 0x0E00_0000 {
            let offset = ((addr - 0x0800_0000) % 0x0200_0000) as usize;
            if offset < self.rom.len() {
                self.rom[offset]
            } else {
                0
            }
        } else if 0x0E00_0000 <= addr && addr < 0x0E01_0000 {
            if ((addr - 0x0E00_0000) as usize) < self.sram.len() {
                self.sram[(addr - 0x0E00_0000) as usize]
            } else {
                0
            }
        } else {
            0
        }
    }

    /// Reads a palette halfword when the banks have their canonical
    /// lengths; callers have checked them.
    fn palette_load16_total(&self, offset: u32) -> (r: u16)
        requires
            self.palette.bg_colors.len() == 256,
            self.palette.obj_colors.len() == 256,
            offset < 0x400,
        ensures
            r == self.palette.load16_spec(offset),
    {
        if offset < 0x200 {
            self.palette.bg_colors[(offset / 2) as usize]
        } else {
            self.palette.obj_colors[((offset - 0x200) / 2) as usize]
        }
    }

    /// Stores one byte on the bus: exact in the plain regions, a
    /// read-modify-write of the halfword register in the I/O region, and
    /// dropped everywhere else.
    #[verifier::rlimit(100)]
    #[verifier::spinoff_prover]
    fn bus_store_byte(&mut self, addr: u32, value: u8)
        ensures
            forall|a: u32| final(self).plain(a) == old(self).plain(a),
            old(self).plain(addr) ==> forall|a: u32|
                final(self).byte_at(a) == if a == addr {
                    value
                } else {
                    old(self).byte_at(a)
                },
    {
        if 0x0200_0000 <= addr && addr < 0x0204_0000 {
            if self.ewram.len() == 0x40000 {
                self.ewram.set((addr - 0x0200_0000) as usize, value);
            }
        } else if 0x0300_0000 <= addr && addr < 0x0300_8000 {
            if self.iwram.len() == 0x8000 {
                self.iwram.set((addr - 0x0300_0000) as usize, value);
            }
        } else if 0x0400_0000 <= addr && addr < 0x0400_0400 {
            let offset = addr - 0x0400_0000;
            let hw = self.io_read16(offset - offset % 2);
            let merged = if offset % 2 == 0 {
                (hw / 0x100) * 0x100 + value as u16
            } else {
                (hw % 0x100) + (value as u16) * 0x100
            };
            self.io_write16(offset - offset % 2, merged);
        } else if 0x0500_0000 <= addr && addr < 0x0500_0400 {
            if self.palette.bg_colors.len() == 256 && self.palette.obj_colors.len() == 256
                && self.palette.bg_rgb.len() == 256 && self.palette.obj_rgb.len() == 256 {
                let offset = addr - 0x0500_0000;
                let hw = self.palette_load16_total(offset - offset % 2);
                let merged = if offset % 2 == 0 {
                    (hw / 0x100) * 0x100 + value as u16
                } else {
                    (hw % 0x100) + (value as u16) * 0x100
                };
                self.palette_store16_wf(offset - offset % 2, merged);
            }
        } else if 0x0600_0000 <= addr && addr < 0x0601_8000 {
            if self.vram.len() == 0x18000 {
                self.vram.set((addr - 0x0600_0000) as usize, value);
            }
        } else if 0x0700_0000 <= addr && addr < 0x0700_0400 {
            if self.oam.len() == 0x400 {
                self.oam.set((addr - 0x0700_0000) as usize, value);
            }
        } else if 0x0E00_0000 <= addr && addr < 0x0E01_0000 {
            if self.sram.len() == 0x10000 {
                self.sram.set((addr - 0x0E00_0000) as usize, value);
            }
        }
    }

    /// Stores a palette halfword when the banks are canonical.
    fn palette_store16_wf(&mut self, offset: u32, value: u16)
        requires
            old(self).palette.bg_colors.len() == 256,
            old(self).palette.obj_colors.len() == 256,
            old(self).palette.bg_rgb.len() == 256,
            old(self).palette.obj_rgb.len() == 256,
            offset < 0x400,
            offset % 2 == 0,
        ensures
            final(self).palette.bg_colors.len() == 256,
            final(self).palette.obj_colors.len() == 256,
            final(self).palette.bg_rgb.len() == 256,
            final(self).palette.obj_rgb.len() == 256,
            offset < 0x200 ==> final(self).palette.bg_colors@ == old(self).palette.bg_colors@.update(offset as int / 2, value) && final(self).palette.obj_colors@ == old(self).palette.obj_colors@,
            offset >= 0x200 ==> final(self).palette.obj_colors@ == old(self).palette.obj_colors@.update((offset - 0x200) as int / 2, value) && final(self).palette.bg_colors@ == old(self).palette.bg_colors@,
            final(self).bios == old(self).bios,
            final(self).ewram == old(self).ewram,
            final(self).iwram == old(self).iwram,
            final(self).vram == old(self).vram,
            final(self).oam == old(self).oam,
            final(self).rom == old(self).rom,
            final(self).sram == old(self).sram,
            final(self).ioregs == old(self).ioregs,
            final(self).lcd == old(self).lcd,
            old(self).palette.wf() ==> final(self).palette.wf(),
    {
        if offset < 0x200 {
            self.palette.bg_colors.set((offset / 2) as usize, value);
            self.palette.bg_rgb.set((offset / 2) as usize, crate::palette::u16_to_pixel(value));
        } else {
            self.palette.obj_colors.set(((offset - 0x200) / 2) as usize, value);
            self.palette.obj_rgb.set(
                ((offset - 0x200) / 2) as usize,
                crate::palette::u16_to_pixel(value),
            );
        }
    }

    /// The cycle cost of one bus access of the given width at `addr`, by
    /// the documented region timings.
    fn access_cycles(&self, addr: u32, wide: bool, seq: bool) -> (c: u32)
        ensures
            1 <= c <= 64,
    {
        let region = addr / 0x0100_0000;
        if region == 2 {
            if wide {
                6
            } else {
                3
            }
        } else if region == 5 || region == 6 {
            if wide {
                2
            } else {
                1
            }
        } else if 8 <= region && region < 14 {
            let base: u32 = if seq {
                3
            } else {
                5
            };
            if wide {
                base * 2
            } else {
                base
            }
        } else if region == 14 {
            5
        } else {
            1
        }
    }
}

impl ArmMemory for GbaMemory {
    fn view_byte(&self, addr: u32) -> (r: u8) {
        self.bus_read_byte(addr)
    }

    fn view_halfword(&self, addr: u32) -> (r: u16) {
        let aligned = addr & 0xFFFF_FFFE;
        proof {
            crate::bits::lemma_align_facts();
        }
        let b0 = self.bus_read_byte(aligned);
        let b1 = self.bus_read_byte(aligned + 1);
        (b0 as u16) | ((b1 as u16) << 8)
    }

    fn view_word(&self, addr: u32) -> (r: u32) {
        let aligned = addr & 0xFFFF_FFFC;
        proof {
            crate::bits::lemma_align_facts();
        }
        let b0 = self.bus_read_byte(aligned);
        let b1 = self.bus_read_byte(aligned + 1);
        let b2 = self.bus_read_byte(aligned + 2);
        let b3 = self.bus_read_byte(aligned + 3);
        (b0 as u32) | ((b1 as u32) << 8) | ((b2 as u32) << 16) | ((b3 as u32) << 24)
    }

    fn read_data_byte(&self, addr: u32, seq: bool) -> (r: (u8, u32)) {
        (self.bus_read_byte(addr), self.access_cycles(addr, false, seq))
    }

    fn read_data_halfword(&self, addr: u32, seq: bool) -> (r: (u16, u32)) {
        (self.view_halfword(addr), self.access_cycles(addr, false, seq))
    }

    fn read_data_word(&self, addr: u32, seq: bool) -> (r: (u32, u32)) {
        (self.view_word(addr), self.access_cycles(addr, true, seq))
    }

    fn write_data_byte(&mut self, addr: u32, value: u8, seq: bool) -> (c: u32) {
        self.bus_store_byte(addr, value);
        self.access_cycles(addr, false, seq)
    }

    fn write_data_halfword(&mut self, addr: u32, value: u16, seq: bool) -> (c: u32) {
        let aligned = addr & 0xFFFF_FFFE;
        proof {
            crate::bits::lemma_align_facts();
        }
        if 0x0400_0000 <= aligned && aligned < 0x0400_0400 {
            self.io_write16(aligned - 0x0400_0000, value);
        } else {
            self.bus_store_byte(aligned, value as u8);
            self.bus_store_byte(aligned + 1, (value >> 8) as u8);
        }
        self.access_cycles(addr, false, seq)
    }

    fn write_data_word(&mut self, addr: u32, value: u32, seq: bool) -> (c: u32) {
        let aligned = addr & 0xFFFF_FFFC;
        proof {
            crate::bits::lemma_align_facts();
        }
        if 0x0400_0000 <= aligned && aligned < 0x0400_0400 {
            self.io_write16(aligned - 0x0400_0000, (value % 0x1_0000) as u16);
            self.io_write16(aligned + 2 - 0x0400_0000, (value >> 16) as u16);
        } else {
            self.bus_store_byte(aligned, value as u8);
            self.bus_store_byte(aligned + 1, (value >> 8) as u8);
            self.bus_store_byte(aligned + 2, (value >> 16) as u8);
            self.bus_store_byte(aligned + 3, (value >> 24) as u8);
        }
        self.access_cycles(addr, true, seq)
    }

    fn code_access_seq16(&self, addr: u32) -> (c: u32) {
        self.access_cycles(addr, false, true)
    }

    fn code_access_seq32(&self, addr: u32) -> (c: u32) {
        self.access_cycles(addr, true, true)
    }

    fn code_access_nonseq16(&self, addr: u32) -> (c: u32) {
        self.access_cycles(addr, false, false)
    }

    fn code_access_nonseq32(&self, addr: u32) -> (c: u32) {
        self.access_cycles(addr, true, false)
    }

    fn on_internal_cycles(&mut self, n: u32) {
    }
}

} // verus!
