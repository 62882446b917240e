//! The GBA palette RAM: 256 background and 256 object colors, 15-bit RGB,
//! with a cache of each entry expanded to 8-bit-per-channel RGB.

use vstd::prelude::*;

verus! {

/// One 15-bit color expanded to 8 bits per channel.
pub open spec fn rgb8_spec(p16: u16) -> (u8, u8, u8) {
    (
        (((p16 % 32) * 255) / 31) as u8,
        ((((p16 >> 5) % 32) * 255) / 31) as u8,
        ((((p16 >> 10) % 32) * 255) / 31) as u8,
    )
}

/// Expands a 15-bit color's three 5-bit channels to 8 bits each.
pub fn u16_to_pixel(p16: u16) -> (r: (u8, u8, u8))
    ensures
        r == rgb8_spec(p16),
{
    let red = (p16 % 32) as u32;
    let green = ((p16 >> 5) % 32) as u32;
    let blue = ((p16 >> 10) % 32) as u32;
    (((red * 255) / 31) as u8, ((green * 255) / 31) as u8, ((blue * 255) / 31) as u8)
}

pub struct Palette {
    pub bg_colors: Vec<u16>,
    pub obj_colors: Vec<u16>,
    pub bg_rgb: Vec<(u8, u8, u8)>,
    pub obj_rgb: Vec<(u8, u8, u8)>,
}

impl Palette {
    /// Both color banks have their canonical 256 entries.
    pub open spec fn len_ok(&self) -> bool {
        self.bg_colors.len() == 256 && self.obj_colors.len() == 256
    }

    /// 256 entries per bank, and the RGB caches mirror the raw colors.
    pub open spec fn wf(&self) -> bool {
        &&& self.bg_colors.len() == 256
        &&& self.obj_colors.len() == 256
        &&& self.bg_rgb.len() == 256
        &&& self.obj_rgb.len() == 256
        &&& forall|i: int| 0 <= i < 256 ==> self.bg_rgb@[i] == rgb8_spec(#[trigger] self.bg_colors@[i])
        &&& forall|i: int|
            0 <= i < 256 ==> self.obj_rgb@[i] == rgb8_spec(#[trigger] self.obj_colors@[i])
    }

    pub fn new() -> (r: Palette)
        ensures
            r.wf(),
            forall|i: int| 0 <= i < 256 ==> r.bg_colors@[i] == 0u16,
            forall|i: int| 0 <= i < 256 ==> r.obj_colors@[i] == 0u16,
    {
        let mut bg_colors: Vec<u16> = Vec::new();
        let mut obj_colors: Vec<u16> = Vec::new();
        let mut bg_rgb: Vec<(u8, u8, u8)> = Vec::new();
        let mut obj_rgb: Vec<(u8, u8, u8)> = Vec::new();
        let mut i: usize = 0;
        while i < 256
            invariant
                i <= 256,
                bg_colors.len() == i,
                obj_colors.len() == i,
                bg_rgb.len() == i,
                obj_rgb.len() == i,
                forall|k: int| 0 <= k < i ==> bg_colors@[k] == 0u16,
                forall|k: int| 0 <= k < i ==> obj_colors@[k] == 0u16,
                forall|k: int| 0 <= k < i ==> bg_rgb@[k] == rgb8_spec(#[trigger] bg_colors@[k]),
                forall|k: int| 0 <= k < i ==> obj_rgb@[k] == rgb8_spec(#[trigger] obj_colors@[k]),
            decreases 256 - i,
        {
            bg_colors.push(0);
            obj_colors.push(0);
            bg_rgb.push(u16_to_pixel(0));
            obj_rgb.push(u16_to_pixel(0));
            i += 1;
        }
        Palette { bg_colors, obj_colors, bg_rgb, obj_rgb }
    }

    /// Writes a halfword of palette RAM: addresses 0x000-0x1FE hold the
    /// background bank, 0x200-0x3FE the object bank.
    pub fn store16(&mut self, addr: u32, value: u16)
        requires
            old(self).wf(),
            addr < 0x400,
        ensures
            final(self).wf(),
            addr < 0x200 ==> final(self).bg_colors@ == old(self).bg_colors@.update(
                addr as int / 2,
                value,
            ) && final(self).obj_colors@ == old(self).obj_colors@,
            addr >= 0x200 ==> final(self).obj_colors@ == old(self).obj_colors@.update(
                (addr - 0x200) as int / 2,
                value,
            ) && final(self).bg_colors@ == old(self).bg_colors@,
    {
        if addr < 0x200 {
            self.bg_colors.set((addr / 2) as usize, value);
            self.bg_rgb.set((addr / 2) as usize, u16_to_pixel(value));
        } else {
            self.obj_colors.set(((addr - 0x200) / 2) as usize, value);
            self.obj_rgb.set(((addr - 0x200) / 2) as usize, u16_to_pixel(value));
        }
    }

    /// Writes one byte: the other byte of the halfword is kept.
    pub fn store8(&mut self, addr: u32, value: u8)
        requires
            old(self).wf(),
            addr < 0x400,
        ensures
            final(self).wf(),
    {
        proof {
            crate::bits::lemma_align_facts();
        }
        let hw = self.load16(addr & 0xFFFF_FFFE);
        let new_value = if addr % 2 == 0 {
            (hw & 0xFF00) | (value as u16)
        } else {
            (hw & 0x00FF) | ((value as u16) << 8)
        };
        self.store16(addr & 0xFFFF_FFFE, new_value);
    }

    /// Writes a word as two halfwords at the word-aligned address.
    pub fn store32(&mut self, addr: u32, value: u32)
        requires
            old(self).wf(),
            addr < 0x400,
        ensures
            final(self).wf(),
    {
        let aligned = addr & 0xFFFF_FFFC;
        proof {
            crate::bits::lemma_align_facts();
        }
        self.store16(aligned, (value % 0x1_0000) as u16);
        self.store16(aligned + 2, (value >> 16) as u16);
    }

    pub open spec fn load16_spec(&self, addr: u32) -> u16 {
        if addr < 0x200 {
            self.bg_colors@[addr as int / 2]
        } else {
            self.obj_colors@[(addr - 0x200) as int / 2]
        }
    }

    pub fn load16(&self, addr: u32) -> (r: u16)
        requires
            self.wf(),
            addr < 0x400,
        ensures
            r == self.load16_spec(addr),
    {
        if addr < 0x200 {
            self.bg_colors[(addr / 2) as usize]
        } else {
            self.obj_colors[((addr - 0x200) / 2) as usize]
        }
    }

    pub fn load8(&self, addr: u32) -> (r: u8)
        requires
            self.wf(),
            addr < 0x400,
        ensures
            addr % 2 == 0 ==> r == self.load16_spec((addr & 0xFFFF_FFFE)) as u8,
            addr % 2 == 1 ==> r == (self.load16_spec((addr & 0xFFFF_FFFE)) >> 8) as u8,
    {
        proof {
            crate::bits::lemma_align_facts();
        }
        let hw = self.load16(addr & 0xFFFF_FFFE);
        if addr % 2 == 0 {
            hw as u8
        } else {
            (hw >> 8) as u8
        }
    }

    pub fn load32(&self, addr: u32) -> (r: u32)
        requires
            self.wf(),
            addr < 0x3FD,
        ensures
            r == (self.load16_spec(addr) as u32) | ((self.load16_spec((addr + 2) as u32) as u32)
                << 16),
    {
        let lo = self.load16(addr) as u32;
        let hi = self.load16(addr + 2) as u32;
        lo | (hi << 16)
    }

    /// A color of a 16-color background palette.
    pub fn get_bg16_color(&self, palette_index: u8, color_index: u8) -> (r: u16)
        requires
            self.len_ok(),
            palette_index < 16,
            color_index < 16,
        ensures
            r == self.bg_colors@[palette_index as int * 16 + color_index],
    {
        self.bg_colors[(palette_index as usize) * 16 + color_index as usize]
    }

    /// A color of the 256-color background palette.
    pub fn get_bg256_color(&self, color_index: u8) -> (r: u16)
        requires
            self.len_ok(),
        ensures
            r == self.bg_colors@[color_index as int],
    {
        self.bg_colors[color_index as usize]
    }

    pub fn get_bg16_rgb(&self, palette_index: u8, color_index: u8) -> (r: (u8, u8, u8))
        requires
            self.wf(),
            palette_index < 16,
            color_index < 16,
        ensures
            r == rgb8_spec(self.bg_colors@[palette_index as int * 16 + color_index]),
    {
        self.bg_rgb[(palette_index as usize) * 16 + color_index as usize]
    }

    pub fn get_bg256_rgb(&self, color_index: u8) -> (r: (u8, u8, u8))
        requires
            self.wf(),
        ensures
            r == rgb8_spec(self.bg_colors@[color_index as int]),
    {
        self.bg_rgb[color_index as usize]
    }

    /// A color of a 16-color object palette.
    pub fn get_obj16_color(&self, palette_index: u8, color_index: u8) -> (r: u16)
        requires
            self.len_ok(),
            palette_index < 16,
            color_index < 16,
        ensures
            r == self.obj_colors@[palette_index as int * 16 + color_index],
    {
        self.obj_colors[(palette_index as usize) * 16 + color_index as usize]
    }

    /// A color of the 256-color object palette.
    pub fn get_obj256_color(&self, color_index: u8) -> (r: u16)
        requires
            self.len_ok(),
        ensures
            r == self.obj_colors@[color_index as int],
    {
        self.obj_colors[color_index as usize]
    }

    pub fn get_obj16_rgb(&self, palette_index: u8, color_index: u8) -> (r: (u8, u8, u8))
        requires
            self.wf(),
            palette_index < 16,
            color_index < 16,
        ensures
            r == rgb8_spec(self.obj_colors@[palette_index as int * 16 + color_index]),
    {
        self.obj_rgb[(palette_index as usize) * 16 + color_index as usize]
    }

    pub fn get_obj256_rgb(&self, color_index: u8) -> (r: (u8, u8, u8))
        requires
            self.wf(),
        ensures
            r == rgb8_spec(self.obj_colors@[color_index as int]),
    {
        self.obj_rgb[color_index as usize]
    }
}

} // verus!
