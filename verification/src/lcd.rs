//! The LCD: its registers, the per-line composition buffer, the window
//! machinery, and the HDRAW/HBLANK/VBLANK state machine that drives
//! rendering line by line from the CPU's cycle budget.

use vstd::prelude::*;
use crate::irq::GbaInterruptControl;
use crate::irq::Interrupt;
use crate::palette::Palette;

verus! {

pub const OBJ_LAYER: u16 = 4;
pub const BD_LAYER: u16 = 5;

pub const HDRAW_CYCLES: u32 = 960;
pub const HBLANK_CYCLES: u32 = 272;

/// The pixel flag masks: semi-transparent object, first blend target,
/// second blend target.
pub const PIXEL_SEMI_TRANSPARENT: u16 = 0x0800;
pub const PIXEL_FIRST_TARGET: u16 = 0x1000;
pub const PIXEL_SECOND_TARGET: u16 = 0x2000;

/// The six pixel sources, in priority-tie order: a lower layer index wins a
/// tie against a higher one, and objects beat backgrounds of equal priority.
#[derive(Clone, Copy, Debug, PartialEq, Eq, Structural)]
pub enum Layer {
    BG0,
    BG1,
    BG2,
    BG3,
    OBJ,
    Backdrop,
}

pub open spec fn layer_index_spec(l: Layer) -> u16 {
    match l {
        Layer::BG0 => 0,
        Layer::BG1 => 1,
        Layer::BG2 => 2,
        Layer::BG3 => 3,
        Layer::OBJ => 4,
        Layer::Backdrop => 5,
    }
}

/// The layer with index `i` (0 to 5).
pub open spec fn layer_from_index_spec(i: int) -> Layer {
    if i == 0 {
        Layer::BG0
    } else if i == 1 {
        Layer::BG1
    } else if i == 2 {
        Layer::BG2
    } else if i == 3 {
        Layer::BG3
    } else if i == 4 {
        Layer::OBJ
    } else {
        Layer::Backdrop
    }
}

/// The background layer with index `i` (0 to 3).
pub open spec fn layer_of_bg_spec(i: int) -> Layer {
    if i == 0 {
        Layer::BG0
    } else if i == 1 {
        Layer::BG1
    } else if i == 2 {
        Layer::BG2
    } else {
        Layer::BG3
    }
}

impl Layer {
    pub fn index(self) -> (r: u16)
        ensures
            r == layer_index_spec(self),
    {
        match self {
            Layer::BG0 => 0,
            Layer::BG1 => 1,
            Layer::BG2 => 2,
            Layer::BG3 => 3,
            Layer::OBJ => 4,
            Layer::Backdrop => 5,
        }
    }

    /// The background layer with the given index; indices above 3 name no
    /// background and fall back to BG0.
    pub fn from_bg(bg_index: u16) -> (r: Layer)
        requires
            bg_index < 4,
        ensures
            layer_index_spec(r) == bg_index,
            r == layer_of_bg_spec(bg_index as int),
    {
        match bg_index {
            0 => Layer::BG0,
            1 => Layer::BG1,
            2 => Layer::BG2,
            _ => Layer::BG3,
        }
    }

    /// The layer with the given index; indices above 5 name no layer and
    /// fall back to the backdrop.
    pub fn from_index(index: u16) -> (r: Layer)
        requires
            index < 6,
        ensures
            layer_index_spec(r) == index,
            r == layer_from_index_spec(index as int),
    {
        match index {
            0 => Layer::BG0,
            1 => Layer::BG1,
            2 => Layer::BG2,
            3 => Layer::BG3,
            4 => Layer::OBJ,
            _ => Layer::Backdrop,
        }
    }
}

/// The four window regions, in precedence order: window 0 beats window 1,
/// both beat the object window, and the outside region catches the rest.
#[derive(Clone, Copy, Debug, PartialEq, Eq, Structural)]
pub enum Window {
    Win0,
    Win1,
    Outside,
    OBJ,
}

pub open spec fn window_index_spec(w: Window) -> usize {
    match w {
        Window::Win0 => 0,
        Window::Win1 => 1,
        Window::Outside => 2,
        Window::OBJ => 3,
    }
}

impl Window {
    pub fn from_index(index: u16) -> (r: Window)
        requires
            index < 4,
        ensures
            window_index_spec(r) == index,
    {
        match index {
            0 => Window::Win0,
            1 => Window::Win1,
            2 => Window::Outside,
            _ => Window::OBJ,
        }
    }

    pub fn index(self) -> (r: usize)
        ensures
            r == window_index_spec(self),
    {
        match self {
            Window::Win0 => 0,
            Window::Win1 => 1,
            Window::Outside => 2,
            Window::OBJ => 3,
        }
    }

    /// Which byte of its control register holds this window's bits: WININ
    /// holds windows 0 and 1, WINOUT holds the outside region and the
    /// object window, low byte first.
    pub fn reg_index(self) -> (r: u16)
        ensures
            r == window_index_spec(self) as u16 % 2,
    {
        match self {
            Window::Win0 => 0,
            Window::Win1 => 1,
            Window::Outside => 0,
            Window::OBJ => 1,
        }
    }
}

/// One composed pixel: palette entry in bits 0-7, source layer in bits 8-10,
/// the semi-transparent flag in bit 11, the first- and second-target flags
/// in bits 12-13, and the priority in bits 14-15.
#[derive(Clone, Copy, Debug, PartialEq, Eq, Structural)]
pub struct Pixel(pub u16);

/// A pixel value's ANDable mask for window-controlled special effects: all
/// ones where effects are allowed, and the two target bits cleared where
/// they are not.
pub fn pixel_window_effects_mask(enabled: bool) -> (r: u16)
    ensures
        r == if enabled {
            0xFFFFu16
        } else {
            !(PIXEL_FIRST_TARGET | PIXEL_SECOND_TARGET)
        },
{
    if enabled {
        0xFFFF
    } else {
        !(PIXEL_FIRST_TARGET | PIXEL_SECOND_TARGET)
    }
}

pub open spec fn layer_mask_spec(l: Layer) -> u16 {
    ((layer_index_spec(l) % 8) * 0x100) as u16
}

impl Pixel {
    /// The layer field of a pixel word, shifted into place.
    pub fn layer_mask(layer: Layer) -> (r: u16)
        ensures
            r == layer_mask_spec(layer),
    {
        (layer.index() % 8) * 0x100
    }

    /// The priority field of a pixel word, shifted into place.
    pub fn priority_mask(priority: u16) -> (r: u16)
        requires
            priority < 4,
        ensures
            r == priority * 0x4000,
    {
        priority * 0x4000
    }

    /// As `pixel_window_effects_mask`.
    pub fn window_effects_mask(enabled: bool) -> (r: u16)
        ensures
            r == if enabled {
                0xFFFFu16
            } else {
                !(PIXEL_FIRST_TARGET | PIXEL_SECOND_TARGET)
            },
    {
        pixel_window_effects_mask(enabled)
    }

    pub open spec fn pal_index_spec(self) -> int {
        self.0 as int % 256
    }

    pub fn pal_index(self) -> (r: usize)
        ensures
            r == self.pal_index_spec(),
            r < 256,
    {
        (self.0 % 256) as usize
    }

    pub open spec fn priority_spec(self) -> u16 {
        self.0 >> 14
    }

    pub fn priority(self) -> (r: u16)
        ensures
            r == self.priority_spec(),
    {
        self.0 >> 14
    }

    pub open spec fn layer_field_spec(self) -> u16 {
        (self.0 >> 8) % 8
    }

    /// The source layer of the pixel; a field above 5 (which nothing
    /// composes) reads as the backdrop.
    pub fn layer(self) -> (r: Layer)
        ensures
            self.layer_field_spec() < 6 ==> layer_index_spec(r) == self.layer_field_spec(),
            self.layer_field_spec() >= 6 ==> r == Layer::Backdrop,
    {
        match (self.0 >> 8) % 8 {
            0 => Layer::BG0,
            1 => Layer::BG1,
            2 => Layer::BG2,
            3 => Layer::BG3,
            4 => Layer::OBJ,
            _ => Layer::Backdrop,
        }
    }

    pub open spec fn first_target_spec(self) -> bool {
        (self.0 >> 12) % 2 == 1
    }

    pub fn first_target(self) -> (r: bool)
        ensures
            r == self.first_target_spec(),
    {
        (self.0 >> 12) % 2 == 1
    }

    pub open spec fn second_target_spec(self) -> bool {
        (self.0 >> 13) % 2 == 1
    }

    pub fn second_target(self) -> (r: bool)
        ensures
            r == self.second_target_spec(),
    {
        (self.0 >> 13) % 2 == 1
    }

    pub open spec fn semi_transparent_spec(self) -> bool {
        (self.0 >> 11) % 2 == 1
    }

    pub fn semi_transparent(self) -> (r: bool)
        ensures
            r == self.semi_transparent_spec(),
    {
        (self.0 >> 11) % 2 == 1
    }

    pub fn semi_transparent_or_first_target(self) -> (r: bool)
        ensures
            r == (self.semi_transparent_spec() || self.first_target_spec()),
    {
        (self.0 >> 11) % 2 == 1 || (self.0 >> 12) % 2 == 1
    }
}

/// The two topmost pixels composed at one column, kept so that alpha
/// blending can combine the two highest-priority layers.
#[derive(Clone, Copy, Debug, PartialEq, Eq, Structural)]
pub struct Pixels2 {
    pub top: Pixel,
    pub bot: Pixel,
}

impl Pixels2 {
    pub fn zero() -> (r: Pixels2)
        ensures
            r.top.0 == 0 && r.bot.0 == 0,
    {
        Pixels2 { top: Pixel(0), bot: Pixel(0) }
    }

    /// Pushes a new topmost pixel; the old topmost becomes the one below.
    pub fn push(&mut self, new_top: Pixel)
        ensures
            final(self).top == new_top,
            final(self).bot == old(self).top,
    {
        self.bot = self.top;
        self.top = new_top;
    }

    /// Resets the column to one pixel.
    pub fn set(&mut self, p: Pixel)
        ensures
            final(self).top == p,
            final(self).bot.0 == 0,
    {
        self.top = p;
        self.bot = Pixel(0);
    }
}

/// A bit per LCD column, stored as four 64-bit words (the top 16 bits of the
/// last word are unused).
#[derive(Clone, Debug)]
pub struct LCDPixelBits {
    pub bits: Vec<u64>,
}

impl LCDPixelBits {
    pub open spec fn wf(&self) -> bool {
        self.bits.len() == 4
    }

    pub open spec fn get_spec(&self, bit: int) -> bool {
        (self.bits@[bit / 64] >> ((bit % 64) as u64)) % 2 == 1
    }

    pub fn new() -> (r: LCDPixelBits)
        ensures
            r.wf(),
            forall|b: int| 0 <= b < 256 ==> !r.get_spec(b),
    {
        let mut bits: Vec<u64> = Vec::new();
        bits.push(0);
        bits.push(0);
        bits.push(0);
        bits.push(0);
        let r = LCDPixelBits { bits };
        proof {
            assert forall|b: int| 0 <= b < 256 implies !r.get_spec(b) by {
                crate::bits::lemma_u64_const_bits((b % 64) as u64);
            }
        }
        r
    }

    pub fn set(&mut self, bit: usize)
        requires
            old(self).wf(),
            bit < 240,
        ensures
            final(self).wf(),
            forall|b: int|
                0 <= b < 256 ==> final(self).get_spec(b) == (b == bit || old(self).get_spec(b)),
    {
        proof {
            crate::bits::lemma_u64_bit_ops();
        }
        let index = bit / 64;
        let shift = (bit % 64) as u64;
        let w = self.bits[index];
        self.bits.set(index, w | (1u64 << shift));
        proof {
            assert forall|b: int|
                0 <= b < 256 implies self.get_spec(b) == (b == bit || old(self).get_spec(b)) by {
                let sh = (b % 64) as u64;
                if b / 64 == bit as int / 64 {
                    assert((((w | (1u64 << shift)) >> sh) % 2) == if shift == sh {
                        1u64
                    } else {
                        (w >> sh) % 2
                    });
                }
            }
        }
    }

    pub fn clear(&mut self, bit: usize)
        requires
            old(self).wf(),
            bit < 240,
        ensures
            final(self).wf(),
            forall|b: int|
                0 <= b < 256 ==> final(self).get_spec(b) == (b != bit && old(self).get_spec(b)),
    {
        proof {
            crate::bits::lemma_u64_bit_ops();
        }
        let index = bit / 64;
        let shift = (bit % 64) as u64;
        let w = self.bits[index];
        self.bits.set(index, w & !(1u64 << shift));
        proof {
            assert forall|b: int|
                0 <= b < 256 implies self.get_spec(b) == (b != bit && old(self).get_spec(b)) by {
                let sh = (b % 64) as u64;
                if b / 64 == bit as int / 64 {
                    assert((((w & !(1u64 << shift)) >> sh) % 2) == if shift == sh {
                        0u64
                    } else {
                        (w >> sh) % 2
                    });
                }
            }
        }
    }

    pub fn put(&mut self, bit: usize, value: bool)
        requires
            old(self).wf(),
            bit < 240,
        ensures
            final(self).wf(),
            forall|b: int|
                0 <= b < 256 ==> final(self).get_spec(b) == if b == bit {
                    value
                } else {
                    old(self).get_spec(b)
                },
    {
        if value {
            self.set(bit);
        } else {
            self.clear(bit);
        }
    }

    pub fn get(&self, bit: usize) -> (r: bool)
        requires
            self.wf(),
            bit < 256,
        ensures
            r == self.get_spec(bit as int),
    {
        let index = bit / 64;
        let shift = (bit % 64) as u64;
        ((self.bits[index] >> shift) % 2) == 1
    }

    pub fn clear_all(&mut self)
        requires
            old(self).wf(),
        ensures
            final(self).wf(),
            forall|b: int| 0 <= b < 256 ==> !final(self).get_spec(b),
    {
        self.bits.set(0, 0);
        self.bits.set(1, 0);
        self.bits.set(2, 0);
        self.bits.set(3, 0);
        proof {
            assert forall|b: int| 0 <= b < 256 implies !self.get_spec(b) by {
                crate::bits::lemma_u64_const_bits((b % 64) as u64);
            }
        }
    }

    pub fn set_all(&mut self)
        requires
            old(self).wf(),
        ensures
            final(self).wf(),
            forall|b: int| 0 <= b < 256 ==> final(self).get_spec(b),
    {
        self.bits.set(0, 0xFFFF_FFFF_FFFF_FFFF);
        self.bits.set(1, 0xFFFF_FFFF_FFFF_FFFF);
        self.bits.set(2, 0xFFFF_FFFF_FFFF_FFFF);
        self.bits.set(3, 0xFFFF_FFFF_FFFF_FFFF);
        proof {
            assert forall|b: int| 0 <= b < 256 implies self.get_spec(b) by {
                crate::bits::lemma_u64_const_bits((b % 64) as u64);
            }
        }
    }

    /// Bitwise OR with another mask.
    pub fn or(&mut self, other: &LCDPixelBits)
        requires
            old(self).wf(),
            other.wf(),
        ensures
            final(self).wf(),
            forall|b: int|
                0 <= b < 256 ==> final(self).get_spec(b) == (old(self).get_spec(b)
                    || other.get_spec(b)),
    {
        proof {
            crate::bits::lemma_u64_bit_ops();
        }
        let w0 = self.bits[0];
        let w1 = self.bits[1];
        let w2 = self.bits[2];
        let w3 = self.bits[3];
        self.bits.set(0, w0 | other.bits[0]);
        self.bits.set(1, w1 | other.bits[1]);
        self.bits.set(2, w2 | other.bits[2]);
        self.bits.set(3, w3 | other.bits[3]);
    }

    /// Bitwise AND with another mask.
    pub fn and(&mut self, other: &LCDPixelBits)
        requires
            old(self).wf(),
            other.wf(),
        ensures
            final(self).wf(),
            forall|b: int|
                0 <= b < 256 ==> final(self).get_spec(b) == (old(self).get_spec(b)
                    && other.get_spec(b)),
    {
        proof {
            crate::bits::lemma_u64_bit_ops();
        }
        let w0 = self.bits[0];
        let w1 = self.bits[1];
        let w2 = self.bits[2];
        let w3 = self.bits[3];
        self.bits.set(0, w0 & other.bits[0]);
        self.bits.set(1, w1 & other.bits[1]);
        self.bits.set(2, w2 & other.bits[2]);
        self.bits.set(3, w3 & other.bits[3]);
    }

    /// Bit clear: keeps the bits the other mask does not have.
    pub fn bic(&mut self, other: &LCDPixelBits)
        requires
            old(self).wf(),
            other.wf(),
        ensures
            final(self).wf(),
            forall|b: int|
                0 <= b < 256 ==> final(self).get_spec(b) == (old(self).get_spec(b)
                    && !other.get_spec(b)),
    {
        proof {
            crate::bits::lemma_u64_bit_ops();
        }
        let w0 = self.bits[0];
        let w1 = self.bits[1];
        let w2 = self.bits[2];
        let w3 = self.bits[3];
        self.bits.set(0, w0 & !other.bits[0]);
        self.bits.set(1, w1 & !other.bits[1]);
        self.bits.set(2, w2 & !other.bits[2]);
        self.bits.set(3, w3 & !other.bits[3]);
    }

    /// Complements every bit.
    pub fn not(&mut self)
        requires
            old(self).wf(),
        ensures
            final(self).wf(),
            forall|b: int| 0 <= b < 256 ==> final(self).get_spec(b) == !old(self).get_spec(b),
    {
        proof {
            crate::bits::lemma_u64_bit_ops();
        }
        let w0 = self.bits[0];
        let w1 = self.bits[1];
        let w2 = self.bits[2];
        let w3 = self.bits[3];
        self.bits.set(0, !w0);
        self.bits.set(1, !w1);
        self.bits.set(2, !w2);
        self.bits.set(3, !w3);
    }

    /// Whether none of the 240 column bits is set (the unused top bits are
    /// ignored).
    pub fn is_all_zeroes(&self) -> (r: bool)
        requires
            self.wf(),
    {
        self.bits[0] == 0 && self.bits[1] == 0 && self.bits[2] == 0 && (self.bits[3]
            & 0x0000_FFFF_FFFF_FFFF) == 0
    }

    /// Whether all 240 column bits are set.
    pub fn is_all_ones(&self) -> (r: bool)
        requires
            self.wf(),
    {
        self.bits[0] == 0xFFFF_FFFF_FFFF_FFFF && self.bits[1] == 0xFFFF_FFFF_FFFF_FFFF
            && self.bits[2] == 0xFFFF_FFFF_FFFF_FFFF && (self.bits[3] & 0x0000_FFFF_FFFF_FFFF)
            == 0x0000_FFFF_FFFF_FFFF
    }
}

/// A signed 24.8 fixed-point value, stored in a plain 32-bit word.
#[derive(Clone, Copy, Debug, PartialEq, Eq, Structural)]
pub struct FixedPoint32 {
    pub inner: i32,
}

impl FixedPoint32 {
    pub fn wrap(inner: i32) -> (r: FixedPoint32)
        ensures
            r.inner == inner,
    {
        FixedPoint32 { inner }
    }

    pub fn to_inner(self) -> (r: i32)
        ensures
            r == self.inner,
    {
        self.inner
    }

    /// Wrapping fixed-point addition.
    pub fn plus(self, other: FixedPoint32) -> (r: FixedPoint32)
        ensures
            r.inner == self.inner.wrapping_add(other.inner),
    {
        FixedPoint32 { inner: self.inner.wrapping_add(other.inner) }
    }
}

/// The raw value of a DISPSTAT register.
pub open spec fn dispstat_value_spec(d: DisplayStatus) -> u16 {
    ((if d.vblank { 1int } else { 0int })
        + (if d.hblank { 2int } else { 0int })
        + (if d.vcounter { 4int } else { 0int })
        + (if d.vblank_irq_enable { 8int } else { 0int })
        + (if d.hblank_irq_enable { 16int } else { 0int })
        + (if d.vcounter_irq_enable { 32int } else { 0int })
        + (d.vcounter_setting % 0x100) * 0x100) as u16
}

/// The DISPSTAT register, decomposed: the VBlank/HBlank/VCounter flags (read
/// only from the bus side), their interrupt enables, and the VCount compare
/// value. The unarchitected bits 6 and 7 are not stored and read back as
/// zero.
#[derive(Clone, Copy, Debug, PartialEq, Eq, Structural)]
pub struct DisplayStatus {
    pub vblank: bool,
    pub hblank: bool,
    pub vcounter: bool,
    pub vblank_irq_enable: bool,
    pub hblank_irq_enable: bool,
    pub vcounter_irq_enable: bool,
    pub vcounter_setting: u16,
}

impl DisplayStatus {
    /// The raw register value.
    pub fn value(&self) -> (r: u16)
        ensures
            r == dispstat_value_spec(*self),
    {
        (if self.vblank { 1u16 } else { 0u16 })
            + (if self.hblank { 2u16 } else { 0u16 })
            + (if self.vcounter { 4u16 } else { 0u16 })
            + (if self.vblank_irq_enable { 8u16 } else { 0u16 })
            + (if self.hblank_irq_enable { 16u16 } else { 0u16 })
            + (if self.vcounter_irq_enable { 32u16 } else { 0u16 })
            + ((self.vcounter_setting % 0x100) * 0x100) as u16
    }

    pub fn vblank(&self) -> (r: bool)
        ensures
            r == self.vblank,
    {
        self.vblank
    }

    pub fn hblank(&self) -> (r: bool)
        ensures
            r == self.hblank,
    {
        self.hblank
    }

    pub fn vcounter(&self) -> (r: bool)
        ensures
            r == self.vcounter,
    {
        self.vcounter
    }

    pub fn vcounter_setting(&self) -> (r: u16)
        ensures
            r == self.vcounter_setting,
    {
        self.vcounter_setting
    }

    pub fn set_vblank(&mut self, b: bool)
        ensures
            *final(self) == (DisplayStatus { vblank: b, ..*old(self) }),
    {
        self.vblank = b;
    }

    pub fn set_hblank(&mut self, b: bool)
        ensures
            *final(self) == (DisplayStatus { hblank: b, ..*old(self) }),
    {
        self.hblank = b;
    }

    pub fn set_vcounter(&mut self, b: bool)
        ensures
            *final(self) == (DisplayStatus { vcounter: b, ..*old(self) }),
    {
        self.vcounter = b;
    }

    pub fn vblank_irq_enable(&self) -> (r: bool)
        ensures
            r == self.vblank_irq_enable,
    {
        self.vblank_irq_enable
    }

    pub fn hblank_irq_enable(&self) -> (r: bool)
        ensures
            r == self.hblank_irq_enable,
    {
        self.hblank_irq_enable
    }

    pub fn vcounter_irq_enable(&self) -> (r: bool)
        ensures
            r == self.vcounter_irq_enable,
    {
        self.vcounter_irq_enable
    }
}

/// The raw value of a DISPCNT register.
pub open spec fn dispcnt_value_spec(d: DisplayControl) -> u16 {
    ((d.mode % 8)
        + (d.frame_select % 2) * 0x10
        + (if d.hblank_interval_free { 0x20int } else { 0int })
        + (if d.one_dimensional_obj { 0x40int } else { 0int })
        + (if d.forced_blank { 0x80int } else { 0int })
        + (if d.display_bg0 { 0x100int } else { 0int })
        + (if d.display_bg1 { 0x200int } else { 0int })
        + (if d.display_bg2 { 0x400int } else { 0int })
        + (if d.display_bg3 { 0x800int } else { 0int })
        + (if d.display_obj { 0x1000int } else { 0int })
        + (if d.display_window0 { 0x2000int } else { 0int })
        + (if d.display_window1 { 0x4000int } else { 0int })
        + (if d.display_window_obj { 0x8000int } else { 0int })) as u16
}

/// The DISPCNT register, decomposed.
#[derive(Clone, Copy, Debug, PartialEq, Eq, Structural)]
pub struct DisplayControl {
    pub mode: u16,
    pub frame_select: u16,
    pub hblank_interval_free: bool,
    pub one_dimensional_obj: bool,
    pub forced_blank: bool,
    pub display_bg0: bool,
    pub display_bg1: bool,
    pub display_bg2: bool,
    pub display_bg3: bool,
    pub display_obj: bool,
    pub display_window0: bool,
    pub display_window1: bool,
    pub display_window_obj: bool,
}

impl DisplayControl {
    /// Loads the register from a raw bus value.
    pub fn set_value(&mut self, v: u16)
        ensures
            final(self).mode == v % 8,
            final(self).frame_select == (v >> 4) % 2,
            final(self).hblank_interval_free == ((v >> 5) % 2 == 1),
            final(self).one_dimensional_obj == ((v >> 6) % 2 == 1),
            final(self).forced_blank == ((v >> 7) % 2 == 1),
            final(self).display_bg0 == ((v >> 8) % 2 == 1),
            final(self).display_bg1 == ((v >> 9) % 2 == 1),
            final(self).display_bg2 == ((v >> 10) % 2 == 1),
            final(self).display_bg3 == ((v >> 11) % 2 == 1),
            final(self).display_obj == ((v >> 12) % 2 == 1),
            final(self).display_window0 == ((v >> 13) % 2 == 1),
            final(self).display_window1 == ((v >> 14) % 2 == 1),
            final(self).display_window_obj == ((v >> 15) % 2 == 1),
    {
        self.mode = v % 8;
        self.frame_select = (v >> 4) % 2;
        self.hblank_interval_free = (v >> 5) % 2 == 1;
        self.one_dimensional_obj = (v >> 6) % 2 == 1;
        self.forced_blank = (v >> 7) % 2 == 1;
        self.display_bg0 = (v >> 8) % 2 == 1;
        self.display_bg1 = (v >> 9) % 2 == 1;
        self.display_bg2 = (v >> 10) % 2 == 1;
        self.display_bg3 = (v >> 11) % 2 == 1;
        self.display_obj = (v >> 12) % 2 == 1;
        self.display_window0 = (v >> 13) % 2 == 1;
        self.display_window1 = (v >> 14) % 2 == 1;
        self.display_window_obj = (v >> 15) % 2 == 1;
    }

    /// The raw register value.
    #[verifier::rlimit(100)]
    #[verifier::spinoff_prover]
    pub fn value(&self) -> (r: u16)
        ensures
            r == dispcnt_value_spec(*self),
    {
        let b0: u32 = (self.mode % 8) as u32;
        let b1: u32 = ((self.frame_select % 2) as u32) * 0x10;
        let b2: u32 = if self.hblank_interval_free {
            0x20
        } else {
            0
        };
        let b3: u32 = if self.one_dimensional_obj {
            0x40
        } else {
            0
        };
        let b4: u32 = if self.forced_blank {
            0x80
        } else {
            0
        };
        let b5: u32 = if self.display_bg0 {
            0x100
        } else {
            0
        };
        let b6: u32 = if self.display_bg1 {
            0x200
        } else {
            0
        };
        let b7: u32 = if self.display_bg2 {
            0x400
        } else {
            0
        };
        let b8: u32 = if self.display_bg3 {
            0x800
        } else {
            0
        };
        let b9: u32 = if self.display_obj {
            0x1000
        } else {
            0
        };
        let b10: u32 = if self.display_window0 {
            0x2000
        } else {
            0
        };
        let b11: u32 = if self.display_window1 {
            0x4000
        } else {
            0
        };
        let b12: u32 = if self.display_window_obj {
            0x8000
        } else {
            0
        };
        (b0 + b1 + b2 + b3 + b4 + b5 + b6 + b7 + b8 + b9 + b10 + b11 + b12) as u16
    }

    pub open spec fn display_layer_spec(&self, layer: Layer) -> bool {
        match layer {
            Layer::BG0 => self.display_bg0,
            Layer::BG1 => self.display_bg1,
            Layer::BG2 => self.display_bg2,
            Layer::BG3 => self.display_bg3,
            Layer::OBJ => self.display_obj,
            Layer::Backdrop => true,
        }
    }

    /// Whether the given layer is enabled (the backdrop always is).
    pub fn display_layer(&self, layer: Layer) -> (r: bool)
        ensures
            r == self.display_layer_spec(layer),
    {
        match layer {
            Layer::BG0 => self.display_bg0,
            Layer::BG1 => self.display_bg1,
            Layer::BG2 => self.display_bg2,
            Layer::BG3 => self.display_bg3,
            Layer::OBJ => self.display_obj,
            Layer::Backdrop => true,
        }
    }

    pub fn mode(&self) -> (r: u16)
        ensures
            r == self.mode,
    {
        self.mode
    }

    pub fn frame_select(&self) -> (r: u16)
        ensures
            r == self.frame_select,
    {
        self.frame_select
    }

    pub fn hblank_interval_free(&self) -> (r: bool)
        ensures
            r == self.hblank_interval_free,
    {
        self.hblank_interval_free
    }

    pub fn one_dimensional_obj(&self) -> (r: bool)
        ensures
            r == self.one_dimensional_obj,
    {
        self.one_dimensional_obj
    }

    pub fn forced_blank(&self) -> (r: bool)
        ensures
            r == self.forced_blank,
    {
        self.forced_blank
    }

    pub fn windows_enabled(&self) -> (r: bool)
        ensures
            r == (self.display_window0 || self.display_window1 || self.display_window_obj),
    {
        self.display_window0 || self.display_window1 || self.display_window_obj
    }

    pub fn display_window0(&self) -> (r: bool)
        ensures
            r == self.display_window0,
    {
        self.display_window0
    }

    pub fn display_window1(&self) -> (r: bool)
        ensures
            r == self.display_window1,
    {
        self.display_window1
    }

    pub fn display_window_obj(&self) -> (r: bool)
        ensures
            r == self.display_window_obj,
    {
        self.display_window_obj
    }
}

/// One background's control register, decomposed.
#[derive(Clone, Copy, Debug, PartialEq, Eq, Structural)]
pub struct BGControl {
    pub priority: u16,
    pub char_base_block: u16,
    pub mosaic: bool,
    pub palette256: bool,
    pub screen_base_block: u16,
    pub wraparound: bool,
    pub screen_size: u16,
}

impl BGControl {
    pub fn set_value(&mut self, v: u16)
        ensures
            final(self).priority == v % 4,
            final(self).char_base_block == (v >> 2) % 4,
            final(self).mosaic == ((v >> 6) % 2 == 1),
            final(self).palette256 == ((v >> 7) % 2 == 1),
            final(self).screen_base_block == (v >> 8) % 32,
            final(self).wraparound == ((v >> 13) % 2 == 1),
            final(self).screen_size == (v >> 14) % 4,
    {
        self.priority = v % 4;
        self.char_base_block = (v >> 2) % 4;
        self.mosaic = (v >> 6) % 2 == 1;
        self.palette256 = (v >> 7) % 2 == 1;
        self.screen_base_block = (v >> 8) % 32;
        self.wraparound = (v >> 13) % 2 == 1;
        self.screen_size = (v >> 14) % 4;
    }

    pub fn priority(&self) -> (r: u16)
        ensures
            r == self.priority,
    {
        self.priority
    }

    pub fn char_base_block(&self) -> (r: u16)
        ensures
            r == self.char_base_block,
    {
        self.char_base_block
    }

    pub fn mosaic(&self) -> (r: bool)
        ensures
            r == self.mosaic,
    {
        self.mosaic
    }

    pub fn palette256(&self) -> (r: bool)
        ensures
            r == self.palette256,
    {
        self.palette256
    }

    pub fn screen_base_block(&self) -> (r: u16)
        ensures
            r == self.screen_base_block,
    {
        self.screen_base_block
    }

    pub fn wraparound(&self) -> (r: bool)
        ensures
            r == self.wraparound,
    {
        self.wraparound
    }

    pub fn screen_size(&self) -> (r: u16)
        ensures
            r == self.screen_size,
    {
        self.screen_size
    }
}

/// One background's scroll offset; both coordinates wrap at nine bits.
#[derive(Clone, Copy, Debug, PartialEq, Eq, Structural)]
pub struct BGOffset {
    pub x: u16,
    pub y: u16,
}

impl BGOffset {
    pub fn set_x(&mut self, x: u16)
        ensures
            final(self).x == x % 0x200,
            final(self).y == old(self).y,
    {
        self.x = x % 0x200;
    }

    pub fn set_y(&mut self, y: u16)
        ensures
            final(self).y == y % 0x200,
            final(self).x == old(self).x,
    {
        self.y = y % 0x200;
    }
}

/// An affine background's parameter block: the 8.8 matrix (a, b, c, d), the
/// 20.8 reference point (x, y), and the internal running copies the renderer
/// advances per scanline.
#[derive(Clone, Copy, Debug, PartialEq, Eq, Structural)]
pub struct AffineBGParams {
    pub internal_x: FixedPoint32,
    pub internal_y: FixedPoint32,
    pub a: FixedPoint32,
    pub b: FixedPoint32,
    pub c: FixedPoint32,
    pub d: FixedPoint32,
    pub x: FixedPoint32,
    pub y: FixedPoint32,
}

impl AffineBGParams {
    /// Copies the reference-point registers into the internal running
    /// copies, as VBLANK entry does.
    pub fn copy_reference_points(&mut self)
        ensures
            final(self).internal_x == old(self).x,
            final(self).internal_y == old(self).y,
            final(self).a == old(self).a,
            final(self).b == old(self).b,
            final(self).c == old(self).c,
            final(self).d == old(self).d,
            final(self).x == old(self).x,
            final(self).y == old(self).y,
    {
        self.internal_x = self.x;
        self.internal_y = self.y;
    }

    /// Advances the internal reference point by one scanline: by (b, d).
    pub fn increment_reference_points(&mut self)
        ensures
            final(self).internal_x.inner == old(self).internal_x.inner.wrapping_add(
                old(self).b.inner,
            ),
            final(self).internal_y.inner == old(self).internal_y.inner.wrapping_add(
                old(self).d.inner,
            ),
            final(self).a == old(self).a,
            final(self).b == old(self).b,
            final(self).c == old(self).c,
            final(self).d == old(self).d,
            final(self).x == old(self).x,
            final(self).y == old(self).y,
    {
        self.internal_x = self.internal_x.plus(self.b);
        self.internal_y = self.internal_y.plus(self.d);
    }

    /// Sets the X reference point from its 28-bit register, sign-extending
    /// bit 27.
    pub fn set_x(&mut self, value: u32)
        ensures
            final(self).x.inner == ((value.wrapping_shl(4) as i32) >> 4u32),
            final(self).y == old(self).y,
            final(self).internal_x == old(self).internal_x,
            final(self).internal_y == old(self).internal_y,
    {
        self.x = FixedPoint32::wrap((value.wrapping_shl(4) as i32) >> 4);
    }

    /// Sets the Y reference point from its 28-bit register.
    pub fn set_y(&mut self, value: u32)
        ensures
            final(self).y.inner == ((value.wrapping_shl(4) as i32) >> 4u32),
            final(self).x == old(self).x,
            final(self).internal_x == old(self).internal_x,
            final(self).internal_y == old(self).internal_y,
    {
        self.y = FixedPoint32::wrap((value.wrapping_shl(4) as i32) >> 4);
    }

    /// Replaces the low halfword of the X reference point.
    pub fn set_x_lo(&mut self, value: u16)
        ensures
            final(self).x.inner == ((old(self).x.inner as u32 & 0xFFFF_0000) | (
            value as u32)) as i32,
    {
        let raw = ((self.x.to_inner() as u32) & 0xFFFF_0000) | (value as u32);
        self.x = FixedPoint32::wrap(raw as i32);
    }

    /// Replaces the high halfword of the X reference point, sign-extending
    /// its top nibble.
    pub fn set_x_hi(&mut self, value: u16)
        ensures
            final(self).x.inner == (((((old(self).x.inner as u32) & 0x0000_FFFF) | (
            value as u32).wrapping_shl(16)).wrapping_shl(4) as i32) >> 4u32),
    {
        let merged = ((self.x.to_inner() as u32) & 0x0000_FFFF) | (value as u32).wrapping_shl(16);
        self.set_x(merged);
    }

    /// Replaces the low halfword of the Y reference point.
    pub fn set_y_lo(&mut self, value: u16)
        ensures
            final(self).y.inner == ((old(self).y.inner as u32 & 0xFFFF_0000) | (
            value as u32)) as i32,
    {
        let raw = ((self.y.to_inner() as u32) & 0xFFFF_0000) | (value as u32);
        self.y = FixedPoint32::wrap(raw as i32);
    }

    /// Replaces the high halfword of the Y reference point, sign-extending
    /// its top nibble.
    pub fn set_y_hi(&mut self, value: u16)
        ensures
            final(self).y.inner == (((((old(self).y.inner as u32) & 0x0000_FFFF) | (
            value as u32).wrapping_shl(16)).wrapping_shl(4) as i32) >> 4u32),
    {
        let merged = ((self.y.to_inner() as u32) & 0x0000_FFFF) | (value as u32).wrapping_shl(16);
        self.set_y(merged);
    }

    pub fn set_a(&mut self, value: u16)
        ensures
            final(self).a.inner == value as i16 as i32,
    {
        self.a = FixedPoint32::wrap(value as i16 as i32);
    }

    pub fn set_b(&mut self, value: u16)
        ensures
            final(self).b.inner == value as i16 as i32,
    {
        self.b = FixedPoint32::wrap(value as i16 as i32);
    }

    pub fn set_c(&mut self, value: u16)
        ensures
            final(self).c.inner == value as i16 as i32,
    {
        self.c = FixedPoint32::wrap(value as i16 as i32);
    }

    pub fn set_d(&mut self, value: u16)
        ensures
            final(self).d.inner == value as i16 as i32,
    {
        self.d = FixedPoint32::wrap(value as i16 as i32);
    }
}

/// One window's bounding box. The right and bottom edges are exclusive;
/// wraparound (left above right, top above bottom) selects the complementary
/// span.
#[derive(Clone, Copy, Debug, PartialEq, Eq, Structural)]
pub struct WindowBounds {
    pub left: u16,
    pub top: u16,
    pub right: u16,
    pub bottom: u16,
}

impl WindowBounds {
    pub fn zero() -> (r: WindowBounds)
        ensures
            r.left == 0 && r.top == 0 && r.right == 0 && r.bottom == 0,
    {
        WindowBounds { left: 0, top: 0, right: 0, bottom: 0 }
    }

    pub open spec fn contains_horizontal_spec(&self, x: u16) -> bool {
        if self.left <= self.right {
            self.left <= x < self.right
        } else {
            x >= self.left || x < self.right
        }
    }

    pub open spec fn contains_vertical_spec(&self, y: u16) -> bool {
        if self.top <= self.bottom {
            self.top <= y < self.bottom
        } else {
            y >= self.top || y < self.bottom
        }
    }

    pub fn contains(&self, x: u16, y: u16) -> (r: bool)
        ensures
            r == (self.contains_horizontal_spec(x) && self.contains_vertical_spec(y)),
    {
        self.contains_horizontal(x) && self.contains_vertical(y)
    }

    pub fn contains_horizontal(&self, x: u16) -> (r: bool)
        ensures
            r == self.contains_horizontal_spec(x),
    {
        if self.left <= self.right {
            x >= self.left && x < self.right
        } else {
            x >= self.left || x < self.right
        }
    }

    pub fn contains_vertical(&self, y: u16) -> (r: bool)
        ensures
            r == self.contains_vertical_spec(y),
    {
        if self.top <= self.bottom {
            y >= self.top && y < self.bottom
        } else {
            y >= self.top || y < self.bottom
        }
    }

    /// Loads the horizontal bounds register: left in the high byte (capped
    /// at 240), right in the low byte with garbage above 240 read as 240.
    pub fn set_h(&mut self, h: u16)
        ensures
            final(self).left == if h >> 8 < 240 {
                h >> 8
            } else {
                240u16
            },
            final(self).right == if h % 0x100 <= 240 {
                h % 0x100
            } else {
                240u16
            },
            final(self).top == old(self).top,
            final(self).bottom == old(self).bottom,
    {
        self.left = if h >> 8 < 240 {
            h >> 8
        } else {
            240
        };
        let right = h % 0x100;
        self.right = if right > 240 {
            240
        } else {
            right
        };
    }

    /// Loads the vertical bounds register: top in the high byte (capped at
    /// 160), bottom in the low byte with garbage above 160 read as 160.
    pub fn set_v(&mut self, v: u16)
        ensures
            final(self).top == if v >> 8 < 160 {
                v >> 8
            } else {
                160u16
            },
            final(self).bottom == if v % 0x100 <= 160 {
                v % 0x100
            } else {
                160u16
            },
            final(self).left == old(self).left,
            final(self).right == old(self).right,
    {
        self.top = if v >> 8 < 160 {
            v >> 8
        } else {
            160
        };
        let bottom = v % 0x100;
        self.bottom = if bottom > 160 {
            160
        } else {
            bottom
        };
    }
}

/// The WININ or WINOUT register: per-window layer enables and the
/// special-effects enable, two windows per register.
#[derive(Clone, Copy, Debug, PartialEq, Eq, Structural)]
pub struct WindowControl {
    pub inner: u16,
}

impl WindowControl {
    pub fn set_value(&mut self, value: u16)
        ensures
            final(self).inner == value,
    {
        self.inner = value;
    }

    pub fn value(&self) -> (r: u16)
        ensures
            r == self.inner,
    {
        self.inner
    }

    pub open spec fn layer_enabled_spec(&self, window: Window, layer: Layer) -> bool {
        (self.inner >> ((layer_index_spec(layer) + (window_index_spec(window) as u16 % 2)
            * 8) as u16)) % 2 == 1
    }

    /// Whether the given layer may be drawn inside the given window.
    pub fn layer_enabled(&self, window: Window, layer: Layer) -> (r: bool)
        ensures
            r == self.layer_enabled_spec(window, layer),
    {
        (self.inner >> (layer.index() + window.reg_index() * 8)) % 2 == 1
    }

    pub open spec fn effects_enabled_spec(&self, window: Window) -> bool {
        (self.inner >> ((5 + (window_index_spec(window) as u16 % 2) * 8) as u16)) % 2 == 1
    }

    /// Whether color special effects apply inside the given window.
    pub fn effects_enabled(&self, window: Window) -> (r: bool)
        ensures
            r == self.effects_enabled_spec(window),
    {
        (self.inner >> (5 + window.reg_index() * 8)) % 2 == 1
    }
}

/// The color special effect the BLDCNT register selects.
#[derive(Clone, Copy, Debug, PartialEq, Eq, Structural)]
pub enum SpecialEffect {
    NoEffect,
    AlphaBlending,
    BrightnessIncrease,
    BrightnessDecrease,
}

/// The BLDCNT register: the first- and second-target masks and the effect.
#[derive(Clone, Copy, Debug, PartialEq, Eq, Structural)]
pub struct EffectsSelection {
    pub inner: u16,
}

impl EffectsSelection {
    pub fn value(&self) -> (r: u16)
        ensures
            r == self.inner,
    {
        self.inner
    }

    pub fn set_value(&mut self, value: u16)
        ensures
            final(self).inner == value,
    {
        self.inner = value;
    }

    pub open spec fn is_first_target_spec(&self, layer: Layer) -> bool {
        (self.inner >> layer_index_spec(layer)) % 2 == 1
    }

    pub fn is_first_target(&self, layer: Layer) -> (r: bool)
        ensures
            r == self.is_first_target_spec(layer),
    {
        (self.inner >> layer.index()) % 2 == 1
    }

    pub open spec fn is_second_target_spec(&self, layer: Layer) -> bool {
        (self.inner >> ((layer_index_spec(layer) + 8) as u16)) % 2 == 1
    }

    pub fn is_second_target(&self, layer: Layer) -> (r: bool)
        ensures
            r == self.is_second_target_spec(layer),
    {
        (self.inner >> (layer.index() + 8)) % 2 == 1
    }

    pub open spec fn effect_spec(&self) -> SpecialEffect {
        if (self.inner >> 6) % 4 == 0 {
            SpecialEffect::NoEffect
        } else if (self.inner >> 6) % 4 == 1 {
            SpecialEffect::AlphaBlending
        } else if (self.inner >> 6) % 4 == 2 {
            SpecialEffect::BrightnessIncrease
        } else {
            SpecialEffect::BrightnessDecrease
        }
    }

    pub fn effect(&self) -> (r: SpecialEffect)
        ensures
            r == self.effect_spec(),
    {
        match (self.inner >> 6) % 4 {
            0 => SpecialEffect::NoEffect,
            1 => SpecialEffect::AlphaBlending,
            2 => SpecialEffect::BrightnessIncrease,
            _ => SpecialEffect::BrightnessDecrease,
        }
    }
}

/// The mosaic sizes, stored as grid pitches (register value plus one).
#[derive(Clone, Copy, Debug)]
pub struct Mosaic {
    pub bg: (u8, u8),
    pub obj: (u8, u8),
}

impl Mosaic {
    pub fn set_value(&mut self, value: u16)
        ensures
            final(self).bg.0 == (value % 16) + 1,
            final(self).bg.1 == ((value >> 4) % 16) + 1,
            final(self).obj.0 == ((value >> 8) % 16) + 1,
            final(self).obj.1 == ((value >> 12) % 16) + 1,
    {
        self.bg = (((value % 16) + 1) as u8, (((value >> 4) % 16) + 1) as u8);
        self.obj = ((((value >> 8) % 16) + 1) as u8, (((value >> 12) % 16) + 1) as u8);
    }
}


impl Default for FixedPoint32 {
    fn default() -> (r: FixedPoint32)
        ensures
            r.inner == 0,
    {
        FixedPoint32 { inner: 0 }
    }
}

impl Default for DisplayStatus {
    fn default() -> (r: DisplayStatus)
        ensures
            r == (DisplayStatus {
                vblank: false,
                hblank: false,
                vcounter: false,
                vblank_irq_enable: false,
                hblank_irq_enable: false,
                vcounter_irq_enable: false,
                vcounter_setting: 0u16,
            }),
    {
        DisplayStatus {
            vblank: false,
            hblank: false,
            vcounter: false,
            vblank_irq_enable: false,
            hblank_irq_enable: false,
            vcounter_irq_enable: false,
            vcounter_setting: 0,
        }
    }
}

impl Default for DisplayControl {
    fn default() -> (r: DisplayControl)
        ensures
            r == (DisplayControl {
                mode: 0u16,
                frame_select: 0u16,
                hblank_interval_free: false,
                one_dimensional_obj: false,
                forced_blank: false,
                display_bg0: false,
                display_bg1: false,
                display_bg2: false,
                display_bg3: false,
                display_obj: false,
                display_window0: false,
                display_window1: false,
                display_window_obj: false,
            }),
    {
        DisplayControl {
            mode: 0,
            frame_select: 0,
            hblank_interval_free: false,
            one_dimensional_obj: false,
            forced_blank: false,
            display_bg0: false,
            display_bg1: false,
            display_bg2: false,
            display_bg3: false,
            display_obj: false,
            display_window0: false,
            display_window1: false,
            display_window_obj: false,
        }
    }
}

impl Default for BGControl {
    fn default() -> (r: BGControl)
        ensures
            r == (BGControl {
                priority: 0u16,
                char_base_block: 0u16,
                mosaic: false,
                palette256: false,
                screen_base_block: 0u16,
                wraparound: false,
                screen_size: 0u16,
            }),
    {
        BGControl {
            priority: 0,
            char_base_block: 0,
            mosaic: false,
            palette256: false,
            screen_base_block: 0,
            wraparound: false,
            screen_size: 0,
        }
    }
}

impl Default for BGOffset {
    fn default() -> (r: BGOffset)
        ensures
            r.x == 0 && r.y == 0,
    {
        BGOffset { x: 0, y: 0 }
    }
}

impl Default for AffineBGParams {
    fn default() -> (r: AffineBGParams)
        ensures
            r == (AffineBGParams {
                internal_x: FixedPoint32 { inner: 0i32 },
                internal_y: FixedPoint32 { inner: 0i32 },
                a: FixedPoint32 { inner: 0i32 },
                b: FixedPoint32 { inner: 0i32 },
                c: FixedPoint32 { inner: 0i32 },
                d: FixedPoint32 { inner: 0i32 },
                x: FixedPoint32 { inner: 0i32 },
                y: FixedPoint32 { inner: 0i32 },
            }),
    {
        AffineBGParams {
            internal_x: FixedPoint32 { inner: 0 },
            internal_y: FixedPoint32 { inner: 0 },
            a: FixedPoint32 { inner: 0 },
            b: FixedPoint32 { inner: 0 },
            c: FixedPoint32 { inner: 0 },
            d: FixedPoint32 { inner: 0 },
            x: FixedPoint32 { inner: 0 },
            y: FixedPoint32 { inner: 0 },
        }
    }
}

impl Default for WindowBounds {
    fn default() -> (r: WindowBounds)
        ensures
            r.left == 0 && r.top == 0 && r.right == 0 && r.bottom == 0,
    {
        WindowBounds::zero()
    }
}

impl Default for WindowControl {
    fn default() -> (r: WindowControl)
        ensures
            r.inner == 0,
    {
        WindowControl { inner: 0 }
    }
}

impl Default for EffectsSelection {
    fn default() -> (r: EffectsSelection)
        ensures
            r.inner == 0,
    {
        EffectsSelection { inner: 0 }
    }
}

impl Default for Mosaic {
    fn default() -> (r: Mosaic)
        ensures
            r.bg.0 == 1 && r.bg.1 == 1 && r.obj.0 == 1 && r.obj.1 == 1,
    {
        Mosaic { bg: (1, 1), obj: (1, 1) }
    }
}

/// All the LCD's registers.
pub struct LCDRegisters {
    /// The scanline the LCD is on (0 to 227).
    pub line: u16,
    pub dispcnt: DisplayControl,
    pub dispstat: DisplayStatus,
    pub greenswap: u16,
    pub bg_cnt: Vec<BGControl>,
    pub bg_ofs: Vec<BGOffset>,
    pub bg2_affine_params: AffineBGParams,
    pub bg3_affine_params: AffineBGParams,
    pub win0_bounds: WindowBounds,
    pub win1_bounds: WindowBounds,
    pub winin: WindowControl,
    pub winout: WindowControl,
    pub mosaic: Mosaic,
    pub effects: EffectsSelection,
    pub alpha: u16,
    pub brightness: u16,
}

impl LCDRegisters {
    pub open spec fn wf(&self) -> bool {
        &&& self.line < 228
        &&& self.bg_cnt.len() == 4
        &&& self.bg_ofs.len() == 4
        &&& self.dispcnt.mode < 8
        &&& self.dispstat.vcounter_setting < 0x100
    }

    pub fn new() -> (r: LCDRegisters)
        ensures
            r.wf(),
            r.line == 0,
            !r.dispstat.vblank,
            !r.dispstat.hblank,
    {
        let mut bg_cnt: Vec<BGControl> = Vec::new();
        let mut bg_ofs: Vec<BGOffset> = Vec::new();
        let mut i: usize = 0;
        while i < 4
            invariant
                i <= 4,
                bg_cnt.len() == i,
                bg_ofs.len() == i,
            decreases 4 - i,
        {
            bg_cnt.push(BGControl::default());
            bg_ofs.push(BGOffset::default());
            i += 1;
        }
        LCDRegisters {
            line: 0,
            dispcnt: DisplayControl::default(),
            dispstat: DisplayStatus::default(),
            greenswap: 0,
            bg_cnt,
            bg_ofs,
            bg2_affine_params: AffineBGParams::default(),
            bg3_affine_params: AffineBGParams::default(),
            win0_bounds: WindowBounds::zero(),
            win1_bounds: WindowBounds::zero(),
            winin: WindowControl::default(),
            winout: WindowControl::default(),
            mosaic: Mosaic::default(),
            effects: EffectsSelection::default(),
            alpha: 0,
            brightness: 0,
        }
    }

    /// Handles a bus write to DISPSTAT: the three status flags (bits 0-2)
    /// are read-only, the interrupt enables and the VCount setting take the
    /// written value. The unarchitected bits 6 and 7 are deliberately not
    /// latched; a read returns them as zero.
    pub fn set_dispstat(&mut self, value: u16)
        ensures
            *final(self) == (LCDRegisters {
                dispstat: DisplayStatus {
                    vblank_irq_enable: (value >> 3) % 2 == 1,
                    hblank_irq_enable: (value >> 4) % 2 == 1,
                    vcounter_irq_enable: (value >> 5) % 2 == 1,
                    vcounter_setting: value / 0x100,
                    ..old(self).dispstat
                },
                ..*old(self)
            }),
    {
        self.dispstat.vblank_irq_enable = (value >> 3) % 2 == 1;
        self.dispstat.hblank_irq_enable = (value >> 4) % 2 == 1;
        self.dispstat.vcounter_irq_enable = (value >> 5) % 2 == 1;
        self.dispstat.vcounter_setting = value / 0x100;
    }
}

/// The per-layer window masks of one scanline: where the layer may be drawn
/// and where special effects apply.
pub struct LayerWindow {
    pub display: LCDPixelBits,
    pub effects: LCDPixelBits,
}

impl LayerWindow {
    pub open spec fn wf(&self) -> bool {
        self.display.wf() && self.effects.wf()
    }

    pub fn new() -> (r: LayerWindow)
        ensures
            r.wf(),
            forall|b: int| 0 <= b < 256 ==> !r.display.get_spec(b),
            forall|b: int| 0 <= b < 256 ==> !r.effects.get_spec(b),
    {
        LayerWindow { display: LCDPixelBits::new(), effects: LCDPixelBits::new() }
    }
}

/// Whether column `x` of `line` lies in window 0.
pub open spec fn win_r0_spec(win0_enabled: bool, b0: WindowBounds, line: u16, x: int) -> bool {
    win0_enabled && b0.contains_vertical_spec(line) && b0.contains_horizontal_spec(x as u16)
}

/// Whether column `x` of `line` lies in window 1 and not in window 0
/// (window 0 takes precedence).
pub open spec fn win_r1_spec(
    win0_enabled: bool,
    win1_enabled: bool,
    b0: WindowBounds,
    b1: WindowBounds,
    line: u16,
    x: int,
) -> bool {
    win1_enabled && b1.contains_vertical_spec(line) && b1.contains_horizontal_spec(x as u16)
        && !win_r0_spec(win0_enabled, b0, line, x)
}

/// Whether column `x` falls to the object window: its mask bit is set and
/// neither rectangle window claims the column.
pub open spec fn win_robj_spec(
    prev: &WindowInfo,
    b0: WindowBounds,
    b1: WindowBounds,
    line: u16,
    x: int,
) -> bool {
    prev.winobj.get_spec(x) && !win_r0_spec(prev.win0_enabled, b0, line, x) && !win_r1_spec(
        prev.win0_enabled,
        prev.win1_enabled,
        b0,
        b1,
        line,
        x,
    )
}

/// The per-layer display decision of the window machinery at one column:
/// the region the column falls in (window 0, window 1, the object window,
/// or outside) must enable the layer.
pub open spec fn win_display_spec(
    prev: &WindowInfo,
    b0: WindowBounds,
    b1: WindowBounds,
    winin: WindowControl,
    winout: WindowControl,
    line: u16,
    layer: Layer,
    x: int,
) -> bool {
    let r0 = win_r0_spec(prev.win0_enabled, b0, line, x);
    let r1 = win_r1_spec(prev.win0_enabled, prev.win1_enabled, b0, b1, line, x);
    let robj = win_robj_spec(prev, b0, b1, line, x);
    let rout = !(r0 || r1 || robj);
    ||| (r0 && winin.layer_enabled_spec(Window::Win0, layer))
    ||| (r1 && winin.layer_enabled_spec(Window::Win1, layer))
    ||| (robj && winout.layer_enabled_spec(Window::OBJ, layer))
    ||| (rout && winout.layer_enabled_spec(Window::Outside, layer))
}

/// The per-layer effects decision: as the display decision, with the
/// region's special-effects enable added.
pub open spec fn win_effects_spec(
    prev: &WindowInfo,
    b0: WindowBounds,
    b1: WindowBounds,
    winin: WindowControl,
    winout: WindowControl,
    line: u16,
    layer: Layer,
    x: int,
) -> bool {
    let r0 = win_r0_spec(prev.win0_enabled, b0, line, x);
    let r1 = win_r1_spec(prev.win0_enabled, prev.win1_enabled, b0, b1, line, x);
    let robj = win_robj_spec(prev, b0, b1, line, x);
    let rout = !(r0 || r1 || robj);
    ||| (r0 && winin.layer_enabled_spec(Window::Win0, layer) && winin.effects_enabled_spec(
        Window::Win0,
    ))
    ||| (r1 && winin.layer_enabled_spec(Window::Win1, layer) && winin.effects_enabled_spec(
        Window::Win1,
    ))
    ||| (robj && winout.layer_enabled_spec(Window::OBJ, layer) && winout.effects_enabled_spec(
        Window::OBJ,
    ))
    ||| (rout && winout.layer_enabled_spec(Window::Outside, layer) && winout.effects_enabled_spec(
        Window::Outside,
    ))
}

/// The window state of one scanline: which windows are on, the object-window
/// mask, and the per-layer display and effects masks.
pub struct WindowInfo {
    pub enabled: bool,
    pub win0_enabled: bool,
    pub win1_enabled: bool,
    pub win_obj_enabled: bool,
    pub winobj: LCDPixelBits,
    pub layers: Vec<LayerWindow>,
}

impl WindowInfo {
    pub open spec fn wf(&self) -> bool {
        &&& self.winobj.wf()
        &&& self.layers.len() == 5
        &&& forall|i: int| 0 <= i < 5 ==> (#[trigger] self.layers@[i]).wf()
    }

    pub fn new() -> (r: WindowInfo)
        ensures
            r.wf(),
            !r.enabled,
    {
        let mut layers: Vec<LayerWindow> = Vec::new();
        let mut i: usize = 0;
        while i < 5
            invariant
                i <= 5,
                layers.len() == i,
                forall|k: int| 0 <= k < i ==> (#[trigger] layers@[k]).wf(),
            decreases 5 - i,
        {
            layers.push(LayerWindow::new());
            i += 1;
        }
        WindowInfo {
            enabled: false,
            win0_enabled: false,
            win1_enabled: false,
            win_obj_enabled: false,
            winobj: LCDPixelBits::new(),
            layers,
        }
    }

    /// Clears every per-layer mask and the object-window mask.
    pub fn clear_pixel_bits(&mut self)
        requires
            old(self).wf(),
        ensures
            final(self).wf(),
            final(self).enabled == old(self).enabled,
            final(self).win0_enabled == old(self).win0_enabled,
            final(self).win1_enabled == old(self).win1_enabled,
            final(self).win_obj_enabled == old(self).win_obj_enabled,
            forall|b: int|
                #![trigger final(self).winobj.get_spec(b)]
                0 <= b < 256 ==> !final(self).winobj.get_spec(b),
            forall|i: int, b: int|
                #![trigger final(self).layers@[i].display.get_spec(b)]
                0 <= i < 5 && 0 <= b < 256 ==> !final(self).layers@[i].display.get_spec(b),
            forall|i: int, b: int|
                #![trigger final(self).layers@[i].effects.get_spec(b)]
                0 <= i < 5 && 0 <= b < 256 ==> !final(self).layers@[i].effects.get_spec(b),
    {
        self.layers.set(0, LayerWindow::new());
        self.layers.set(1, LayerWindow::new());
        self.layers.set(2, LayerWindow::new());
        self.layers.set(3, LayerWindow::new());
        self.layers.set(4, LayerWindow::new());
        self.winobj.clear_all();
    }

    /// Computes the per-layer masks for one scanline from the two window
    /// bound boxes, the object-window mask drawn earlier, and the WININ and
    /// WINOUT controls, respecting window precedence (window 0, window 1,
    /// the object window, then the outside region).
    pub fn calculate_masks(
        &mut self,
        line: u16,
        win0_bounds: WindowBounds,
        win1_bounds: WindowBounds,
        winin_cnt: WindowControl,
        winout_cnt: WindowControl,
        dispcnt: DisplayControl,
    )
        requires
            old(self).wf(),
        ensures
            final(self).wf(),
            final(self).enabled == old(self).enabled,
            final(self).win0_enabled == old(self).win0_enabled,
            final(self).win1_enabled == old(self).win1_enabled,
            final(self).win_obj_enabled == old(self).win_obj_enabled,
            forall|x: int|
                #![trigger final(self).winobj.get_spec(x)]
                0 <= x < 240 ==> final(self).winobj.get_spec(x) == win_robj_spec(
                    old(self),
                    win0_bounds,
                    win1_bounds,
                    line,
                    x,
                ),
            forall|i: int, x: int|
                #![trigger final(self).layers@[i].display.get_spec(x)]
                0 <= i < 5 && 0 <= x < 240 ==> final(self).layers@[i].display.get_spec(x)
                    == win_display_spec(
                    old(self),
                    win0_bounds,
                    win1_bounds,
                    winin_cnt,
                    winout_cnt,
                    line,
                    layer_from_index_spec(i),
                    x,
                ),
            forall|i: int, x: int|
                #![trigger final(self).layers@[i].effects.get_spec(x)]
                0 <= i < 5 && 0 <= x < 240 ==> final(self).layers@[i].effects.get_spec(x)
                    == win_effects_spec(
                    old(self),
                    win0_bounds,
                    win1_bounds,
                    winin_cnt,
                    winout_cnt,
                    line,
                    layer_from_index_spec(i),
                    x,
                ),
    {
        let mut win0 = LCDPixelBits::new();
        if self.win0_enabled && win0_bounds.contains_vertical(line) {
            let mut x: usize = 0;
            while x < 240
                invariant
                    x <= 240,
                    win0.wf(),
                    self.win0_enabled,
                    win0_bounds.contains_vertical_spec(line),
                    forall|b: int|
                        #![trigger win0.get_spec(b)]
                        0 <= b < x ==> win0.get_spec(b) == win0_bounds.contains_horizontal_spec(
                            b as u16,
                        ),
                    forall|b: int| #![trigger win0.get_spec(b)] x <= b < 256 ==> !win0.get_spec(b),
                decreases 240 - x,
            {
                if win0_bounds.contains_horizontal(x as u16) {
                    win0.set(x);
                }
                x += 1;
            }
        }
        proof {
            assert forall|b: int| 0 <= b < 240 implies #[trigger] win0.get_spec(b) == win_r0_spec(
                self.win0_enabled,
                win0_bounds,
                line,
                b,
            ) by {}
        }
        let mut win1 = LCDPixelBits::new();
        if self.win1_enabled && win1_bounds.contains_vertical(line) {
            let mut x: usize = 0;
            while x < 240
                invariant
                    x <= 240,
                    win1.wf(),
                    self.win1_enabled,
                    win1_bounds.contains_vertical_spec(line),
                    forall|b: int|
                        #![trigger win1.get_spec(b)]
                        0 <= b < x ==> win1.get_spec(b) == win1_bounds.contains_horizontal_spec(
                            b as u16,
                        ),
                    forall|b: int| #![trigger win1.get_spec(b)] x <= b < 256 ==> !win1.get_spec(b),
                decreases 240 - x,
            {
                if win1_bounds.contains_horizontal(x as u16) {
                    win1.set(x);
                }
                x += 1;
            }
            win1.bic(&win0);
        }
        proof {
            assert forall|b: int| 0 <= b < 240 implies #[trigger] win1.get_spec(b) == win_r1_spec(
                self.win0_enabled,
                self.win1_enabled,
                win0_bounds,
                win1_bounds,
                line,
                b,
            ) by {
                let h1 = win1.get_spec(b);
                let h0 = win0.get_spec(b);
            }
        }
        self.winobj.bic(&win0);
        self.winobj.bic(&win1);
        proof {
            assert forall|b: int| 0 <= b < 240 implies #[trigger] self.winobj.get_spec(b)
                == win_robj_spec(old(self), win0_bounds, win1_bounds, line, b) by {
                let w = self.winobj.get_spec(b);
                let h0 = win0.get_spec(b);
                let h1 = win1.get_spec(b);
            }
        }
        let mut winout = LCDPixelBits::new();
        winout.or(&self.winobj);
        winout.or(&win0);
        winout.or(&win1);
        winout.not();
        proof {
            assert forall|b: int| 0 <= b < 240 implies #[trigger] winout.get_spec(b) == !(
            win_r0_spec(old(self).win0_enabled, win0_bounds, line, b) || win_r1_spec(
                old(self).win0_enabled,
                old(self).win1_enabled,
                win0_bounds,
                win1_bounds,
                line,
                b,
            ) || win_robj_spec(old(self), win0_bounds, win1_bounds, line, b)) by {
                let w = winout.get_spec(b);
                let wo = self.winobj.get_spec(b);
                let h0 = win0.get_spec(b);
                let h1 = win1.get_spec(b);
            }
        }
        let mut layer_index: u16 = 0;
        while layer_index < 5
            invariant
                self.wf(),
                self.enabled == old(self).enabled,
                self.win0_enabled == old(self).win0_enabled,
                self.win1_enabled == old(self).win1_enabled,
                self.win_obj_enabled == old(self).win_obj_enabled,
                win0.wf(),
                win1.wf(),
                winout.wf(),
                layer_index <= 5,
                forall|b: int|
                    #![trigger win0.get_spec(b)]
                    0 <= b < 240 ==> win0.get_spec(b) == win_r0_spec(
                        old(self).win0_enabled,
                        win0_bounds,
                        line,
                        b,
                    ),
                forall|b: int|
                    #![trigger win1.get_spec(b)]
                    0 <= b < 240 ==> win1.get_spec(b) == win_r1_spec(
                        old(self).win0_enabled,
                        old(self).win1_enabled,
                        win0_bounds,
                        win1_bounds,
                        line,
                        b,
                    ),
                forall|b: int|
                    #![trigger self.winobj.get_spec(b)]
                    0 <= b < 240 ==> self.winobj.get_spec(b) == win_robj_spec(
                        old(self),
                        win0_bounds,
                        win1_bounds,
                        line,
                        b,
                    ),
                forall|b: int|
                    #![trigger winout.get_spec(b)]
                    0 <= b < 240 ==> winout.get_spec(b) == !(win_r0_spec(
                        old(self).win0_enabled,
                        win0_bounds,
                        line,
                        b,
                    ) || win_r1_spec(
                        old(self).win0_enabled,
                        old(self).win1_enabled,
                        win0_bounds,
                        win1_bounds,
                        line,
                        b,
                    ) || win_robj_spec(old(self), win0_bounds, win1_bounds, line, b)),
                forall|i: int, x: int|
                    #![trigger self.layers@[i].display.get_spec(x)]
                    0 <= i < layer_index && 0 <= x < 240 ==> self.layers@[i].display.get_spec(x)
                        == win_display_spec(
                        old(self),
                        win0_bounds,
                        win1_bounds,
                        winin_cnt,
                        winout_cnt,
                        line,
                        layer_from_index_spec(i),
                        x,
                    ),
                forall|i: int, x: int|
                    #![trigger self.layers@[i].effects.get_spec(x)]
                    0 <= i < layer_index && 0 <= x < 240 ==> self.layers@[i].effects.get_spec(x)
                        == win_effects_spec(
                        old(self),
                        win0_bounds,
                        win1_bounds,
                        winin_cnt,
                        winout_cnt,
                        line,
                        layer_from_index_spec(i),
                        x,
                    ),
            decreases 5 - layer_index,
        {
            let layer = Layer::from_index(layer_index);
            let mut layer_bits = LayerWindow::new();
            if winin_cnt.layer_enabled(Window::Win0, layer) {
                layer_bits.display.or(&win0);
                if winin_cnt.effects_enabled(Window::Win0) {
                    layer_bits.effects.or(&win0);
                }
            }
            if winin_cnt.layer_enabled(Window::Win1, layer) {
                layer_bits.display.or(&win1);
                if winin_cnt.effects_enabled(Window::Win1) {
                    layer_bits.effects.or(&win1);
                }
            }
            if winout_cnt.layer_enabled(Window::OBJ, layer) {
                layer_bits.display.or(&self.winobj);
                if winout_cnt.effects_enabled(Window::OBJ) {
                    layer_bits.effects.or(&self.winobj);
                }
            }
            if winout_cnt.layer_enabled(Window::Outside, layer) {
                layer_bits.display.or(&winout);
                if winout_cnt.effects_enabled(Window::Outside) {
                    layer_bits.effects.or(&winout);
                }
            }
            proof {
                assert forall|x: int| 0 <= x < 240 implies #[trigger] layer_bits.display.get_spec(
                    x,
                ) == win_display_spec(
                    old(self),
                    win0_bounds,
                    win1_bounds,
                    winin_cnt,
                    winout_cnt,
                    line,
                    layer,
                    x,
                ) by {
                    let d = layer_bits.display.get_spec(x);
                    let h0 = win0.get_spec(x);
                    let h1 = win1.get_spec(x);
                    let wo = self.winobj.get_spec(x);
                    let ou = winout.get_spec(x);
                }
                assert forall|x: int| 0 <= x < 240 implies #[trigger] layer_bits.effects.get_spec(
                    x,
                ) == win_effects_spec(
                    old(self),
                    win0_bounds,
                    win1_bounds,
                    winin_cnt,
                    winout_cnt,
                    line,
                    layer,
                    x,
                ) by {
                    let e = layer_bits.effects.get_spec(x);
                    let h0 = win0.get_spec(x);
                    let h1 = win1.get_spec(x);
                    let wo = self.winobj.get_spec(x);
                    let ou = winout.get_spec(x);
                }
            }
            self.layers.set(layer_index as usize, layer_bits);
            layer_index += 1;
        }
    }

    /// Whether any column of the line may show the layer at all. The
    /// backdrop has no window mask of its own.
    pub fn line_visible(&self, layer: Layer) -> (r: bool)
        requires
            self.wf(),
            layer != Layer::Backdrop,
    {
        !self.layers[layer.index() as usize].display.is_all_zeroes()
    }

    /// Whether the layer may draw at column `x`: `None` forbids the pixel,
    /// and the mask says whether special effects survive there.
    pub fn check_pixel(&self, layer: Layer, x: usize) -> (r: Option<u16>)
        requires
            self.wf(),
            x < 240,
            layer != Layer::Backdrop,
        ensures
            ({
                let li = layer_index_spec(layer) as int;
                if !self.layers@[li].display.get_spec(x as int) {
                    r is None
                } else if !self.layers@[li].effects.get_spec(x as int) {
                    r == Some(!(PIXEL_FIRST_TARGET | PIXEL_SECOND_TARGET))
                } else {
                    r == Some(0xFFFFu16)
                }
            }),
    {
        if !self.layers[layer.index() as usize].display.get(x) {
            return None;
        }
        if !self.layers[layer.index() as usize].effects.get(x) {
            Some(!(PIXEL_FIRST_TARGET | PIXEL_SECOND_TARGET))
        } else {
            Some(0xFFFF)
        }
    }
}

pub open spec fn pixel_components_spec(pixel: u16) -> (u16, u16, u16) {
    (pixel % 32, (pixel >> 5) % 32, (pixel >> 10) % 32)
}

/// The three 5-bit channels of a 15-bit color: red, green, blue.
pub fn pixel_components(pixel: u16) -> (r: (u16, u16, u16))
    ensures
        r == pixel_components_spec(pixel),
        r.0 < 32 && r.1 < 32 && r.2 < 32,
{
    (pixel % 32, (pixel >> 5) % 32, (pixel >> 10) % 32)
}

pub open spec fn rgb16_spec(r: u16, g: u16, b: u16) -> u16 {
    ((r % 32) + (g % 32) * 0x20 + (b % 32) * 0x400 + 0x8000) as u16
}

/// Packs three 5-bit channels into a 15-bit color with the opaque marker
/// (bit 15) set.
pub fn rgb16(r: u16, g: u16, b: u16) -> (res: u16)
    ensures
        res == rgb16_spec(r, g, b),
        res >= 0x8000,
{
    (r % 32) + (g % 32) * 0x20 + (b % 32) * 0x400 + 0x8000
}

/// A color with the opaque marker (bit 15) set.
pub open spec fn opaque_spec(c: u16) -> u16 {
    c | 0x8000
}

/// A color with the opaque marker set and its channels unchanged.
pub fn opaque_color(c: u16) -> (r: u16)
    ensures
        r == opaque_spec(c),
        r >= 0x8000,
        pixel_components_spec(r) == pixel_components_spec(c),
        c >= 0x8000 ==> r == c,
{
    proof {
        crate::bits::lemma_u16_set_bit15(c);
    }
    c | 0x8000
}

/// The clamp at the white level that every blend channel passes through.
pub open spec fn min31_spec(x: int) -> u16 {
    if x < 31 {
        x as u16
    } else {
        31u16
    }
}

/// Alpha blending: each channel is `min(31, c1*eva/16 + c2*evb/16)`.
pub open spec fn alpha_blend_spec(first: u16, second: u16, eva: u16, evb: u16) -> u16 {
    let (r1, g1, b1) = pixel_components_spec(first);
    let (r2, g2, b2) = pixel_components_spec(second);
    rgb16_spec(
        min31_spec((r1 * eva) / 16 + (r2 * evb) / 16),
        min31_spec((g1 * eva) / 16 + (g2 * evb) / 16),
        min31_spec((b1 * eva) / 16 + (b2 * evb) / 16),
    )
}

/// Brightness increase: each channel moves toward white by `evy/16` of its
/// remaining headroom.
pub open spec fn brightness_increase_spec(color: u16, evy: u16) -> u16 {
    let (r1, g1, b1) = pixel_components_spec(color);
    rgb16_spec(
        min31_spec(r1 + ((31 - r1) * evy) / 16),
        min31_spec(g1 + ((31 - g1) * evy) / 16),
        min31_spec(b1 + ((31 - b1) * evy) / 16),
    )
}

/// Brightness decrease: each channel loses `evy/16` of itself.
pub open spec fn brightness_decrease_spec(color: u16, evy: u16) -> u16 {
    let (r1, g1, b1) = pixel_components_spec(color);
    rgb16_spec(
        (r1 - (r1 * evy) / 16) as u16,
        (g1 - (g1 * evy) / 16) as u16,
        (b1 - (b1 * evy) / 16) as u16,
    )
}

/// Every channel of an alpha-blended pixel stays at or below the white
/// level, whatever the coefficients.
pub proof fn lemma_alpha_blend_channels_bounded(first: u16, second: u16, eva: u16, evb: u16)
    ensures
        ({
            let (r1, g1, b1) = pixel_components_spec(first);
            let (r2, g2, b2) = pixel_components_spec(second);
            &&& min31_spec((r1 * eva) / 16 + (r2 * evb) / 16) <= 31
            &&& min31_spec((g1 * eva) / 16 + (g2 * evb) / 16) <= 31
            &&& min31_spec((b1 * eva) / 16 + (b2 * evb) / 16) <= 31
        }),
{
}

/// Whether the window machinery lets `layer` draw at column `x`: always
/// when windows are off, else per the layer's display mask.
pub open spec fn window_allow_spec(w: &WindowInfo, layer: Layer, x: int) -> bool {
    !w.enabled || w.layers@[layer_index_spec(layer) as int].display.get_spec(x)
}

/// The effects mask the window machinery applies to a pixel drawn at column
/// `x`: all ones where color special effects are allowed, else the two
/// blend-target bits stripped.
pub open spec fn window_mask_spec(w: &WindowInfo, layer: Layer, x: int) -> u16 {
    if !w.enabled || w.layers@[layer_index_spec(layer) as int].effects.get_spec(x) {
        0xFFFFu16
    } else {
        !(PIXEL_FIRST_TARGET | PIXEL_SECOND_TARGET)
    }
}

/// The color a composed pixel names (the spec twin of
/// `LCDLineBuffer::lookup_color`): the direct-color cache for bitmap-mode
/// BG2 pixels, the object palette for object pixels, the background palette
/// for the rest.
pub open spec fn lookup_color_spec(
    bitmap_palette: Seq<u16>,
    palette: &Palette,
    bitmap_color: bool,
    pixel: Pixel,
) -> u16 {
    if bitmap_color && pixel.layer_field_spec() == 2 {
        if pixel.pal_index_spec() < 240 {
            bitmap_palette[pixel.pal_index_spec()]
        } else {
            0u16
        }
    } else if pixel.layer_field_spec() != 4 {
        palette.bg_colors@[pixel.pal_index_spec()]
    } else {
        palette.obj_colors@[pixel.pal_index_spec()]
    }
}

/// A blend coefficient as its register field holds it: the low five bits,
/// clamped at sixteen sixteenths.
pub open spec fn coeff_spec(v: u16) -> u16 {
    if v % 32 > 16 {
        16u16
    } else {
        v % 32
    }
}

/// What the object merge leaves at one column. An absent or window-hidden
/// object pixel changes nothing; otherwise the object (with its window
/// effects mask applied) goes on top when its priority number is at most
/// the top pixel's — objects beat backgrounds of equal priority — and into
/// the lower slot when it only beats that one.
pub open spec fn obj_merge_spec(prev: Pixels2, obj: Pixel, allow: bool, masked: Pixel) -> Pixels2 {
    if obj.0 == 0 || !allow {
        prev
    } else if obj.priority_spec() <= prev.top.priority_spec() {
        Pixels2 { top: masked, bot: prev.top }
    } else if obj.priority_spec() <= prev.bot.priority_spec() {
        Pixels2 { top: prev.top, bot: masked }
    } else {
        prev
    }
}

/// The color special effects decide each output pixel (the spec twin of the
/// mix loop): alpha blending when the top pixel qualifies as a first target
/// over a second target, a semi-transparent object forcing alpha under any
/// effect, brightness moves for plain first targets, and the opaque top
/// color otherwise.
pub open spec fn mix_color_spec(
    top: Pixel,
    bot: Pixel,
    top_color: u16,
    bot_color: u16,
    effect: SpecialEffect,
    eva: u16,
    evb: u16,
    evy: u16,
) -> u16 {
    match effect {
        SpecialEffect::AlphaBlending => if !(top.semi_transparent_spec()
            || top.first_target_spec()) || !bot.second_target_spec() {
            opaque_spec(top_color)
        } else {
            alpha_blend_spec(top_color, bot_color, eva, evb)
        },
        SpecialEffect::BrightnessIncrease => if !top.first_target_spec() {
            opaque_spec(top_color)
        } else if top.semi_transparent_spec() {
            if bot.second_target_spec() {
                alpha_blend_spec(top_color, bot_color, eva, evb)
            } else {
                opaque_spec(top_color)
            }
        } else {
            brightness_increase_spec(top_color, evy)
        },
        SpecialEffect::BrightnessDecrease => if !top.first_target_spec() {
            opaque_spec(top_color)
        } else if top.semi_transparent_spec() {
            if bot.second_target_spec() {
                alpha_blend_spec(top_color, bot_color, eva, evb)
            } else {
                opaque_spec(top_color)
            }
        } else {
            brightness_decrease_spec(top_color, evy)
        },
        SpecialEffect::NoEffect => if top.semi_transparent_spec() && bot.second_target_spec() {
            alpha_blend_spec(top_color, bot_color, eva, evb)
        } else {
            opaque_spec(top_color)
        },
    }
}

/// The per-line composition state: the mixed output line, the two-deep
/// pixel stack per column, the object scratch line, the direct-color cache
/// of the bitmap modes, the window masks, and the object cycle budget.
pub struct LCDLineBuffer {
    pub mixed: Vec<u16>,
    pub unmixed: Vec<Pixels2>,
    pub obj: Vec<Pixel>,
    pub bitmap_palette: Vec<u16>,
    pub windows: WindowInfo,
    /// Cycles remaining for drawing objects on this line.
    pub obj_cycles: u16,
}

impl LCDLineBuffer {
    pub open spec fn wf(&self) -> bool {
        &&& self.mixed.len() == 240
        &&& self.unmixed.len() == 240
        &&& self.obj.len() == 240
        &&& self.bitmap_palette.len() == 240
        &&& self.windows.wf()
    }

    /// What merging the object scratch line leaves at column `x`: nothing
    /// where the scratch is empty or the object window mask forbids it, and
    /// otherwise the object pixel (its blend-target flags stripped where
    /// window effects are off) slotted by priority.
    pub open spec fn obj_merged_at_spec(&self, x: int) -> Pixels2 {
        let obj = self.obj@[x];
        let prev = self.unmixed@[x];
        if !self.windows.enabled {
            obj_merge_spec(prev, obj, true, obj)
        } else if !self.windows.layers@[4].display.get_spec(x) {
            obj_merge_spec(prev, obj, false, obj)
        } else if !self.windows.layers@[4].effects.get_spec(x) {
            obj_merge_spec(
                prev,
                obj,
                true,
                Pixel(obj.0 & !(PIXEL_FIRST_TARGET | PIXEL_SECOND_TARGET)),
            )
        } else {
            obj_merge_spec(prev, obj, true, Pixel(obj.0 & 0xFFFF))
        }
    }

    pub fn new() -> (r: LCDLineBuffer)
        ensures
            r.wf(),
    {
        let mut mixed: Vec<u16> = Vec::new();
        let mut unmixed: Vec<Pixels2> = Vec::new();
        let mut obj: Vec<Pixel> = Vec::new();
        let mut bitmap_palette: Vec<u16> = Vec::new();
        let mut i: usize = 0;
        while i < 240
            invariant
                i <= 240,
                mixed.len() == i,
                unmixed.len() == i,
                obj.len() == i,
                bitmap_palette.len() == i,
            decreases 240 - i,
        {
            mixed.push(0xFFFF);
            unmixed.push(Pixels2::zero());
            obj.push(Pixel(0));
            bitmap_palette.push(0);
            i += 1;
        }
        LCDLineBuffer {
            mixed,
            unmixed,
            obj,
            bitmap_palette,
            windows: WindowInfo::new(),
            obj_cycles: 1210,
        }
    }

    /// Resets every column to the given backdrop pixel and clears the
    /// object scratch line.
    pub fn clear(&mut self, clear_pixel: Pixel)
        requires
            old(self).wf(),
        ensures
            final(self).wf(),
            final(self).windows == old(self).windows,
            final(self).obj_cycles == old(self).obj_cycles,
            final(self).mixed@ == old(self).mixed@,
            final(self).bitmap_palette@ == old(self).bitmap_palette@,
            forall|x: int|
                0 <= x < 240 ==> (#[trigger] final(self).unmixed@[x]).top == clear_pixel && final(self).unmixed@[x].bot.0 == 0,
            forall|x: int| 0 <= x < 240 ==> (#[trigger] final(self).obj@[x]).0 == 0,
    {
        let mut x: usize = 0;
        while x < 240
            invariant
                x <= 240,
                self.wf(),
                self.windows == old(self).windows,
                self.obj_cycles == old(self).obj_cycles,
                self.mixed@ == old(self).mixed@,
                self.bitmap_palette@ == old(self).bitmap_palette@,
                forall|k: int|
                    0 <= k < x ==> (#[trigger] self.unmixed@[k]).top == clear_pixel
                        && self.unmixed@[k].bot.0 == 0,
                forall|k: int| 0 <= k < x ==> (#[trigger] self.obj@[k]).0 == 0,
            decreases 240 - x,
        {
            self.unmixed.set(x, Pixels2 { top: clear_pixel, bot: Pixel(0) });
            self.obj.set(x, Pixel(0));
            x += 1;
        }
    }

    /// Pushes a direct-color pixel of the bitmap modes: the pixel metadata
    /// (with the column as its palette index) goes on the stack, the color
    /// itself into the direct-color cache.
    pub fn push_bitmap_pixel(&mut self, index: usize, pixel_metadata: Pixel, color: u16)
        requires
            old(self).wf(),
            index < 240,
        ensures
            final(self).wf(),
            final(self).windows == old(self).windows,
            final(self).unmixed@ == old(self).unmixed@.update(
                index as int,
                Pixels2 {
                    top: Pixel(pixel_metadata.0 | (index as u16 % 256)),
                    bot: old(self).unmixed@[index as int].top,
                },
            ),
            final(self).bitmap_palette@ == old(self).bitmap_palette@.update(index as int, color),
            final(self).obj@ == old(self).obj@,
            final(self).mixed@ == old(self).mixed@,
            final(self).obj_cycles == old(self).obj_cycles,
    {
        let old_top = self.unmixed[index].top;
        self.unmixed.set(
            index,
            Pixels2 { top: Pixel(pixel_metadata.0 | (index as u16 % 256)), bot: old_top },
        );
        self.bitmap_palette.set(index, color);
    }

    /// Records an object pixel in the scratch line.
    pub fn push_obj_pixel(&mut self, index: usize, pix: Pixel)
        requires
            old(self).wf(),
            index < 240,
        ensures
            final(self).wf(),
            final(self).windows == old(self).windows,
            final(self).obj@ == old(self).obj@.update(index as int, pix),
            final(self).unmixed@ == old(self).unmixed@,
            final(self).mixed@ == old(self).mixed@,
            final(self).bitmap_palette@ == old(self).bitmap_palette@,
            final(self).obj_cycles == old(self).obj_cycles,
    {
        self.obj.set(index, pix);
    }

    /// Whether an object pixel was already drawn at this column.
    pub fn contains_obj_pixel(&self, index: usize) -> (r: bool)
        requires
            self.wf(),
            index < 240,
        ensures
            r == (self.obj@[index as int].0 != 0),
    {
        self.obj[index].0 != 0
    }

    /// Pushes a background pixel at a column.
    pub fn push_pixel(&mut self, index: usize, pix: Pixel)
        requires
            old(self).wf(),
            index < 240,
        ensures
            final(self).wf(),
            final(self).windows == old(self).windows,
            final(self).unmixed@ == old(self).unmixed@.update(
                index as int,
                Pixels2 { top: pix, bot: old(self).unmixed@[index as int].top },
            ),
            final(self).obj@ == old(self).obj@,
            final(self).mixed@ == old(self).mixed@,
            final(self).bitmap_palette@ == old(self).bitmap_palette@,
            final(self).obj_cycles == old(self).obj_cycles,
    {
        let old_top = self.unmixed[index].top;
        self.unmixed.set(index, Pixels2 { top: pix, bot: old_top });
    }

    /// The color a composed pixel names: the direct-color cache for
    /// bitmap-mode BG2 pixels, the object palette for object pixels, the
    /// background palette for the rest.
    pub fn lookup_color(&self, bitmap_color: bool, palette: &Palette, pixel: Pixel) -> (r: u16)
        requires
            self.wf(),
            palette.len_ok(),
        ensures
            r == lookup_color_spec(self.bitmap_palette@, palette, bitmap_color, pixel),
    {
        let field = (pixel.0 >> 8) % 8;
        if bitmap_color && field == 2 {
            let pi = pixel.pal_index();
            if pi < 240 {
                self.bitmap_palette[pi]
            } else {
                0
            }
        } else if field != 4 {
            palette.get_bg256_color((pixel.0 % 256) as u8)
        } else {
            palette.get_obj256_color((pixel.0 % 256) as u8)
        }
    }

    /// Alpha blending of two colors, coefficients in sixteenths (already
    /// clamped to 16): each channel is `min(31, c1*eva/16 + c2*evb/16)`,
    /// packed with the opaque marker.
    pub fn alpha_blend(first: u16, second: u16, eva: u16, evb: u16) -> (r: u16)
        requires
            eva <= 16,
            evb <= 16,
        ensures
            r == alpha_blend_spec(first, second, eva, evb),
            r >= 0x8000,
    {
        let (r1, g1, b1) = pixel_components(first);
        let (r2, g2, b2) = pixel_components(second);
        proof {
            crate::bits::lemma_mul_le(r1 as int, eva as int, 31, 16);
            crate::bits::lemma_mul_le(g1 as int, eva as int, 31, 16);
            crate::bits::lemma_mul_le(b1 as int, eva as int, 31, 16);
            crate::bits::lemma_mul_le(r2 as int, evb as int, 31, 16);
            crate::bits::lemma_mul_le(g2 as int, evb as int, 31, 16);
            crate::bits::lemma_mul_le(b2 as int, evb as int, 31, 16);
        }
        let rr = min31((r1 * eva) / 16 + (r2 * evb) / 16);
        let gg = min31((g1 * eva) / 16 + (g2 * evb) / 16);
        let bb = min31((b1 * eva) / 16 + (b2 * evb) / 16);
        rgb16(rr, gg, bb)
    }

    /// Brightness increase toward white by `evy/16` of each channel's
    /// headroom.
    pub fn brightness_increase(color: u16, evy: u16) -> (r: u16)
        requires
            evy <= 16,
        ensures
            r == brightness_increase_spec(color, evy),
            r >= 0x8000,
    {
        let (r1, g1, b1) = pixel_components(color);
        proof {
            crate::bits::lemma_mul_le((31 - r1) as int, evy as int, 31, 16);
            crate::bits::lemma_mul_le((31 - g1) as int, evy as int, 31, 16);
            crate::bits::lemma_mul_le((31 - b1) as int, evy as int, 31, 16);
        }
        let rr = min31(r1 + ((31 - r1) * evy) / 16);
        let gg = min31(g1 + ((31 - g1) * evy) / 16);
        let bb = min31(b1 + ((31 - b1) * evy) / 16);
        rgb16(rr, gg, bb)
    }

    /// Brightness decrease toward black by `evy/16` of each channel.
    pub fn brightness_decrease(color: u16, evy: u16) -> (r: u16)
        requires
            evy <= 16,
        ensures
            r == brightness_decrease_spec(color, evy),
            r >= 0x8000,
    {
        let (r1, g1, b1) = pixel_components(color);
        proof {
            crate::bits::lemma_mul_le(r1 as int, evy as int, 31, 16);
            crate::bits::lemma_mul_le(g1 as int, evy as int, 31, 16);
            crate::bits::lemma_mul_le(b1 as int, evy as int, 31, 16);
            crate::bits::lemma_mul_le(evy as int, r1 as int, 16, r1 as int);
            crate::bits::lemma_mul_le(evy as int, g1 as int, 16, g1 as int);
            crate::bits::lemma_mul_le(evy as int, b1 as int, 16, b1 as int);
        }
        let rr = r1 - (r1 * evy) / 16;
        let gg = g1 - (g1 * evy) / 16;
        let bb = b1 - (b1 * evy) / 16;
        rgb16(rr, gg, bb)
    }

    /// Merges the object scratch line into the two-deep pixel stacks,
    /// respecting priorities and, when windows are on, the object layer's
    /// window mask: each column ends as `obj_merged_at_spec` says.
    pub fn mix_obj_pixels(&mut self)
        requires
            old(self).wf(),
        ensures
            final(self).wf(),
            final(self).windows == old(self).windows,
            final(self).obj@ == old(self).obj@,
            final(self).mixed@ == old(self).mixed@,
            final(self).bitmap_palette@ == old(self).bitmap_palette@,
            final(self).obj_cycles == old(self).obj_cycles,
            forall|x: int|
                #![trigger final(self).unmixed@[x]]
                0 <= x < 240 ==> final(self).unmixed@[x] == old(self).obj_merged_at_spec(x),
    {
        let mut x: usize = 0;
        if self.windows.enabled {
            while x < 240
                invariant
                    x <= 240,
                    self.wf(),
                    self.windows.enabled,
                    self.windows == old(self).windows,
                    self.obj@ == old(self).obj@,
                    self.mixed@ == old(self).mixed@,
                    self.bitmap_palette@ == old(self).bitmap_palette@,
                    self.obj_cycles == old(self).obj_cycles,
                    forall|k: int|
                        #![trigger self.unmixed@[k]]
                        0 <= k < x ==> self.unmixed@[k] == old(self).obj_merged_at_spec(k),
                    forall|k: int|
                        #![trigger self.unmixed@[k]]
                        x <= k < 240 ==> self.unmixed@[k] == old(self).unmixed@[k],
                decreases 240 - x,
            {
                let obj_pixel = self.obj[x];
                if obj_pixel.0 != 0 {
                    let checked = self.windows.check_pixel(Layer::OBJ, x);
                    match checked {
                        Some(effects_mask) => {
                            let top = self.unmixed[x].top;
                            let bot = self.unmixed[x].bot;
                            if obj_pixel.priority() <= top.priority() {
                                let old_top = self.unmixed[x].top;
                                self.unmixed.set(
                                    x,
                                    Pixels2 {
                                        top: Pixel(obj_pixel.0 & effects_mask),
                                        bot: old_top,
                                    },
                                );
                            } else if obj_pixel.priority() <= bot.priority() {
                                self.unmixed.set(
                                    x,
                                    Pixels2 { top, bot: Pixel(obj_pixel.0 & effects_mask) },
                                );
                            }
                        },
                        None => {},
                    }
                }
                proof {
                    assert forall|k: int|
                        #![trigger self.unmixed@[k]]
                        0 <= k < x + 1 implies self.unmixed@[k] == old(self).obj_merged_at_spec(
                        k,
                    ) by {
                        let merged = old(self).obj_merged_at_spec(k);
                    }
                }
                x += 1;
            }
        } else {
            while x < 240
                invariant
                    x <= 240,
                    self.wf(),
                    !self.windows.enabled,
                    self.windows == old(self).windows,
                    self.obj@ == old(self).obj@,
                    self.mixed@ == old(self).mixed@,
                    self.bitmap_palette@ == old(self).bitmap_palette@,
                    self.obj_cycles == old(self).obj_cycles,
                    forall|k: int|
                        #![trigger self.unmixed@[k]]
                        0 <= k < x ==> self.unmixed@[k] == old(self).obj_merged_at_spec(k),
                    forall|k: int|
                        #![trigger self.unmixed@[k]]
                        x <= k < 240 ==> self.unmixed@[k] == old(self).unmixed@[k],
                decreases 240 - x,
            {
                let obj_pixel = self.obj[x];
                if obj_pixel.0 != 0 {
                    let top = self.unmixed[x].top;
                    let bot = self.unmixed[x].bot;
                    if obj_pixel.priority() <= top.priority() {
                        self.unmixed.set(x, Pixels2 { top: obj_pixel, bot: top });
                    } else if obj_pixel.priority() <= bot.priority() {
                        self.unmixed.set(x, Pixels2 { top, bot: obj_pixel });
                    }
                }
                proof {
                    assert forall|k: int|
                        #![trigger self.unmixed@[k]]
                        0 <= k < x + 1 implies self.unmixed@[k] == old(self).obj_merged_at_spec(
                        k,
                    ) by {
                        let merged = old(self).obj_merged_at_spec(k);
                    }
                }
                x += 1;
            }
        }
    }

    /// Composes the final line: merges the object scratch per
    /// `obj_merged_at_spec`, then gives each column the color that
    /// `mix_color_spec` selects from its two topmost pixels, the palettes
    /// and the clamped blend coefficients. Every output pixel carries the
    /// opaque marker.
    pub fn mix(&mut self, palette: &Palette, effect: SpecialEffect, registers: &LCDRegisters)
        requires
            old(self).wf(),
            palette.len_ok(),
            registers.wf(),
        ensures
            final(self).wf(),
            final(self).windows == old(self).windows,
            final(self).obj@ == old(self).obj@,
            final(self).bitmap_palette@ == old(self).bitmap_palette@,
            final(self).obj_cycles == old(self).obj_cycles,
            forall|x: int|
                #![trigger final(self).unmixed@[x]]
                0 <= x < 240 ==> final(self).unmixed@[x] == old(self).obj_merged_at_spec(x),
            forall|x: int|
                #![trigger final(self).mixed@[x]]
                0 <= x < 240 ==> final(self).mixed@[x] == ({
                    let merged = old(self).obj_merged_at_spec(x);
                    let bitmap = registers.dispcnt.mode == 3 || registers.dispcnt.mode == 5;
                    mix_color_spec(
                        merged.top,
                        merged.bot,
                        lookup_color_spec(
                            old(self).bitmap_palette@,
                            palette,
                            bitmap,
                            merged.top,
                        ),
                        lookup_color_spec(
                            old(self).bitmap_palette@,
                            palette,
                            bitmap,
                            merged.bot,
                        ),
                        effect,
                        coeff_spec(registers.alpha),
                        coeff_spec(registers.alpha >> 8),
                        coeff_spec(registers.brightness),
                    )
                }),
            forall|x: int| 0 <= x < 240 ==> #[trigger] final(self).mixed@[x] >= 0x8000,
    {
        self.mix_obj_pixels();
        let bitmap_color = is_bitmap_mode(registers.dispcnt.mode);
        let eva16 = registers.alpha % 32;
        let eva = if eva16 > 16 {
            16
        } else {
            eva16
        };
        let evb16 = (registers.alpha >> 8) % 32;
        let evb = if evb16 > 16 {
            16
        } else {
            evb16
        };
        let evy16 = registers.brightness % 32;
        let evy = if evy16 > 16 {
            16
        } else {
            evy16
        };
        let mut x: usize = 0;
        while x < 240
            invariant
                x <= 240,
                self.wf(),
                palette.len_ok(),
                self.windows == old(self).windows,
                self.obj@ == old(self).obj@,
                self.bitmap_palette@ == old(self).bitmap_palette@,
                self.obj_cycles == old(self).obj_cycles,
                forall|k: int|
                    #![trigger self.unmixed@[k]]
                    0 <= k < 240 ==> self.unmixed@[k] == old(self).obj_merged_at_spec(k),
                bitmap_color == (registers.dispcnt.mode == 3 || registers.dispcnt.mode == 5),
                eva == coeff_spec(registers.alpha),
                evb == coeff_spec(registers.alpha >> 8),
                evy == coeff_spec(registers.brightness),
                eva <= 16,
                evb <= 16,
                evy <= 16,
                forall|k: int|
                    #![trigger self.mixed@[k]]
                    0 <= k < x ==> self.mixed@[k] == ({
                        let merged = old(self).obj_merged_at_spec(k);
                        mix_color_spec(
                            merged.top,
                            merged.bot,
                            lookup_color_spec(
                                old(self).bitmap_palette@,
                                palette,
                                bitmap_color,
                                merged.top,
                            ),
                            lookup_color_spec(
                                old(self).bitmap_palette@,
                                palette,
                                bitmap_color,
                                merged.bot,
                            ),
                            effect,
                            coeff_spec(registers.alpha),
                            coeff_spec(registers.alpha >> 8),
                            coeff_spec(registers.brightness),
                        )
                    }),
                forall|k: int| 0 <= k < x ==> #[trigger] self.mixed@[k] >= 0x8000,
            decreases 240 - x,
        {
            let top = self.unmixed[x].top;
            let bot = self.unmixed[x].bot;
            let out: u16;
            match effect {
                SpecialEffect::AlphaBlending => {
                    if !top.semi_transparent_or_first_target() || !bot.second_target() {
                        out = opaque_color(self.lookup_color(bitmap_color, palette, top));
                    } else {
                        out = Self::alpha_blend(
                            self.lookup_color(bitmap_color, palette, top),
                            self.lookup_color(bitmap_color, palette, bot),
                            eva,
                            evb,
                        );
                    }
                },
                SpecialEffect::BrightnessIncrease => {
                    if !top.first_target() {
                        out = opaque_color(self.lookup_color(bitmap_color, palette, top));
                    } else if top.semi_transparent() {
                        if bot.second_target() {
                            out = Self::alpha_blend(
                                self.lookup_color(bitmap_color, palette, top),
                                self.lookup_color(bitmap_color, palette, bot),
                                eva,
                                evb,
                            );
                        } else {
                            out = opaque_color(self.lookup_color(bitmap_color, palette, top));
                        }
                    } else {
                        out = Self::brightness_increase(
                            self.lookup_color(bitmap_color, palette, top),
                            evy,
                        );
                    }
                },
                SpecialEffect::BrightnessDecrease => {
                    if !top.first_target() {
                        out = opaque_color(self.lookup_color(bitmap_color, palette, top));
                    } else if top.semi_transparent() {
                        if bot.second_target() {
                            out = Self::alpha_blend(
                                self.lookup_color(bitmap_color, palette, top),
                                self.lookup_color(bitmap_color, palette, bot),
                                eva,
                                evb,
                            );
                        } else {
                            out = opaque_color(self.lookup_color(bitmap_color, palette, top));
                        }
                    } else {
                        out = Self::brightness_decrease(
                            self.lookup_color(bitmap_color, palette, top),
                            evy,
                        );
                    }
                },
                SpecialEffect::NoEffect => {
                    if top.semi_transparent() && bot.second_target() {
                        out = Self::alpha_blend(
                            self.lookup_color(bitmap_color, palette, top),
                            self.lookup_color(bitmap_color, palette, bot),
                            eva,
                            evb,
                        );
                    } else {
                        out = opaque_color(self.lookup_color(bitmap_color, palette, top));
                    }
                },
            }
            self.mixed.set(x, out);
            x += 1;
        }
    }
}

/// The channel clamp at the white level.
pub fn min31(x: u16) -> (r: u16)
    ensures
        r == min31_spec(x as int),
{
    if x < 31 {
        x
    } else {
        31
    }
}

/// Snaps a coordinate down to its mosaic grid cell (grids of one pixel or
/// less change nothing).
pub fn apply_mosaic(value: u32, mosaic: u32) -> (r: u32)
    ensures
        mosaic > 1 ==> r == value - value % mosaic,
        mosaic <= 1 ==> r == value,
{
    if mosaic > 1 {
        proof {
            assert(value % mosaic <= value) by (nonlinear_arith)
                requires
                    mosaic > 1,
            ;
        }
        value - (value % mosaic)
    } else {
        value
    }
}

/// As `apply_mosaic`, applied only when the layer has mosaic enabled.
pub fn apply_mosaic_cond(mosaic_cond: bool, value: u16, mosaic: u16) -> (r: u16)
    ensures
        mosaic_cond && mosaic > 0 ==> r == value - value % mosaic,
        !(mosaic_cond && mosaic > 0) ==> r == value,
{
    if mosaic_cond && mosaic > 0 {
        proof {
            assert(value % mosaic <= value) by (nonlinear_arith)
                requires
                    mosaic > 0,
            ;
        }
        value - (value % mosaic)
    } else {
        value
    }
}

/// Whether a video mode drives BG2 from a direct-color bitmap (modes 3 and
/// 5; mode 4 is paletted).
pub fn is_bitmap_mode(mode: u16) -> (r: bool)
    ensures
        r == (mode == 3 || mode == 5),
{
    mode == 3 || mode == 5
}

/// The video collaborator the LCD hands finished lines to. The model is the
/// sequence of lines received so far and the counts of frame boundaries
/// seen: each callback's contract pins exactly how its call extends them, so
/// the LCD's contracts can say that every visible scanline is delivered
/// exactly once, in order, between one `pre_frame` and one `post_frame`.
pub trait GbaVideoOutput: Sized {
    /// The lines received so far (their line numbers, in order of arrival).
    spec fn lines(&self) -> Seq<u16>;

    /// How many frames have been started.
    spec fn frames_started(&self) -> int;

    /// How many frames have been finished.
    spec fn frames_done(&self) -> int;

    /// Called at the beginning of line 0 to signal the start of a new frame.
    fn pre_frame(&mut self)
        ensures
            final(self).lines() == old(self).lines(),
            final(self).frames_started() == old(self).frames_started() + 1,
            final(self).frames_done() == old(self).frames_done(),
    ;

    /// Called after the last visible line of a frame has been delivered.
    fn post_frame(&mut self)
        ensures
            final(self).lines() == old(self).lines(),
            final(self).frames_started() == old(self).frames_started(),
            final(self).frames_done() == old(self).frames_done() + 1,
    ;

    /// Called once per visible scanline with the 240 finished pixels.
    fn display_line(&mut self, line: u32, pixels: &Vec<u16>)
        requires
            pixels.len() == 240,
        ensures
            final(self).lines() == old(self).lines().push(line as u16),
            final(self).frames_started() == old(self).frames_started(),
            final(self).frames_done() == old(self).frames_done(),
    ;
}

/// The audio collaborator: told when to emit samples.
pub trait GbaAudioOutput: Sized {
    fn play_samples(&mut self);
}

/// A video sink that drops every line; its ghost log still records what it
/// was handed.
pub struct NoVideoOutput {
    pub log: Ghost<Seq<u16>>,
    pub started: Ghost<int>,
    pub done: Ghost<int>,
}

impl NoVideoOutput {
    pub fn new() -> (r: NoVideoOutput)
        ensures
            r.lines() == Seq::<u16>::empty(),
            r.frames_started() == 0,
            r.frames_done() == 0,
    {
        NoVideoOutput { log: Ghost(Seq::empty()), started: Ghost(0), done: Ghost(0) }
    }
}

impl GbaVideoOutput for NoVideoOutput {
    open spec fn lines(&self) -> Seq<u16> {
        self.log@
    }

    open spec fn frames_started(&self) -> int {
        self.started@
    }

    open spec fn frames_done(&self) -> int {
        self.done@
    }

    fn pre_frame(&mut self) {
        proof {
            self.started@ = self.started@ + 1;
        }
    }

    fn post_frame(&mut self) {
        proof {
            self.done@ = self.done@ + 1;
        }
    }

    fn display_line(&mut self, line: u32, pixels: &Vec<u16>) {
        proof {
            self.log@ = self.log@.push(line as u16);
        }
    }
}

/// An audio sink that drops everything.
pub struct NoAudioOutput;

impl GbaAudioOutput for NoAudioOutput {
    fn play_samples(&mut self) {
    }
}

/// The IF bits after the LCD offers interrupt `mask` to the controller:
/// when `fire` holds and the master enable and the source's IE bit permit
/// it, the bit latches; otherwise nothing changes.
pub open spec fn irq_after_spec(prev: u16, master: bool, enabled: u16, mask: u16, fire: bool) -> u16 {
    if fire && master && enabled & mask != 0 {
        prev | mask
    } else {
        prev
    }
}

/// The LCD: registers, the line composition buffer, and the phase state of
/// the HDRAW/HBLANK machine, advanced by the CPU's cycle budget.
pub struct GbaLCD {
    pub registers: LCDRegisters,
    pub pixels: LCDLineBuffer,
    /// Cycles consumed inside the current phase.
    pub cycles_acc: u32,
    /// Whether the LCD is inside the horizontal blank of the current line.
    pub in_hblank: bool,
    /// Latched at the HBLANK of the last visible line; the host may poll and
    /// clear it.
    pub end_of_frame: bool,
}

impl GbaLCD {
    pub open spec fn wf(&self) -> bool {
        self.registers.wf() && self.pixels.wf()
    }

    /// The timing invariant: the VBlank flag is set exactly on lines 160 to
    /// 226, and the HBlank flag mirrors the phase.
    pub open spec fn timing_ok(&self) -> bool {
        &&& self.registers.dispstat.vblank == (160 <= self.registers.line <= 226)
        &&& self.registers.dispstat.hblank == self.in_hblank
    }

    pub fn new() -> (r: GbaLCD)
        ensures
            r.wf(),
            r.timing_ok(),
            r.registers.line == 0,
            !r.in_hblank,
            r.cycles_acc == 0,
    {
        GbaLCD {
            registers: LCDRegisters::new(),
            pixels: LCDLineBuffer::new(),
            cycles_acc: 0,
            in_hblank: false,
            end_of_frame: false,
        }
    }

    /// Enters HDRAW of the next line: clears the HBlank flag, advances the
    /// line (wrapping 228 to 0), sets the VBlank flag on entering line 160
    /// (also copying the affine reference points into their internal
    /// running registers and posting the VBlank interrupt if enabled),
    /// clears it on line 227, refreshes the VCounter flag against the
    /// VCount setting, and posts the VCounter interrupt on a fresh match.
    pub fn hdraw(&mut self, irq: &mut GbaInterruptControl)
        requires
            old(self).wf(),
            old(self).in_hblank,
            old(self).timing_ok(),
        ensures
            final(self).wf(),
            final(self).timing_ok(),
            !final(self).in_hblank,
            final(self).registers.line == if old(self).registers.line + 1 == 228 {
                0u16
            } else {
                (old(self).registers.line + 1) as u16
            },
            final(self).registers.dispstat == (DisplayStatus {
                vblank: if final(self).registers.line == 160 {
                    true
                } else if final(self).registers.line == 227 {
                    false
                } else {
                    old(self).registers.dispstat.vblank
                },
                hblank: false,
                vcounter: final(self).registers.line
                    == old(self).registers.dispstat.vcounter_setting,
                ..old(self).registers.dispstat
            }),
            final(self).registers.bg2_affine_params == if final(self).registers.line == 160 {
                AffineBGParams {
                    internal_x: old(self).registers.bg2_affine_params.x,
                    internal_y: old(self).registers.bg2_affine_params.y,
                    ..old(self).registers.bg2_affine_params
                }
            } else {
                old(self).registers.bg2_affine_params
            },
            final(self).registers.bg3_affine_params == if final(self).registers.line == 160 {
                AffineBGParams {
                    internal_x: old(self).registers.bg3_affine_params.x,
                    internal_y: old(self).registers.bg3_affine_params.y,
                    ..old(self).registers.bg3_affine_params
                }
            } else {
                old(self).registers.bg3_affine_params
            },
            final(self).registers.dispcnt == old(self).registers.dispcnt,
            final(irq).master_enable == old(irq).master_enable,
            final(irq).enabled == old(irq).enabled,
            final(irq).request_ack == ({
                let after_vblank = irq_after_spec(
                    old(irq).request_ack,
                    old(irq).master_enable,
                    old(irq).enabled,
                    crate::irq::interrupt_mask_spec(Interrupt::LCDVBlank),
                    final(self).registers.line == 160
                        && old(self).registers.dispstat.vblank_irq_enable,
                );
                irq_after_spec(
                    after_vblank,
                    old(irq).master_enable,
                    old(irq).enabled,
                    crate::irq::interrupt_mask_spec(Interrupt::LCDVCounterMatch),
                    final(self).registers.line == old(self).registers.dispstat.vcounter_setting
                        && !old(self).registers.dispstat.vcounter
                        && old(self).registers.dispstat.vcounter_irq_enable,
                )
            }),
            final(self).pixels == old(self).pixels,
            final(self).end_of_frame == old(self).end_of_frame,
            final(self).cycles_acc == old(self).cycles_acc,
    {
        self.registers.dispstat.set_hblank(false);
        self.in_hblank = false;
        if self.registers.line + 1 == 228 {
            self.registers.line = 0;
        } else {
            self.registers.line = self.registers.line + 1;
        }
        if self.registers.line == 160 {
            self.registers.dispstat.set_vblank(true);
            self.registers.bg2_affine_params.copy_reference_points();
            self.registers.bg3_affine_params.copy_reference_points();
            if self.registers.dispstat.vblank_irq_enable() {
                let _ = irq.request(Interrupt::LCDVBlank);
            }
        } else if self.registers.line == 227 {
            self.registers.dispstat.set_vblank(false);
        }
        let vcounter_match = self.registers.dispstat.vcounter_setting() == self.registers.line;
        let was = self.registers.dispstat.vcounter();
        self.registers.dispstat.set_vcounter(vcounter_match);
        if vcounter_match && !was && self.registers.dispstat.vcounter_irq_enable() {
            let _ = irq.request(Interrupt::LCDVCounterMatch);
        }
    }

    /// Enters HBLANK of the current line: on a visible line renders it into
    /// the line buffer and delivers it to the video collaborator (with the
    /// frame callbacks on lines 0 and 159), sets the HBlank flag, and posts
    /// the HBlank interrupt exactly when its enable and the controller
    /// permit it. Returns whether this was the last visible line of the
    /// frame.
    pub fn hblank<V: GbaVideoOutput>(
        &mut self,
        vram: &Vec<u8>,
        oam: &Vec<u8>,
        palette: &Palette,
        video: &mut V,
        irq: &mut GbaInterruptControl,
    ) -> (end: bool)
        requires
            old(self).wf(),
            !old(self).in_hblank,
            old(self).timing_ok(),
            vram.len() == 0x18000,
            oam.len() == 0x400,
            palette.len_ok(),
        ensures
            final(self).wf(),
            final(self).timing_ok(),
            final(self).in_hblank,
            final(self).registers.line == old(self).registers.line,
            end == (old(self).registers.line == 159),
            old(self).registers.line < 160 ==> final(video).lines() == old(video).lines().push(
                old(self).registers.line,
            ),
            old(self).registers.line >= 160 ==> final(video).lines() == old(video).lines(),
            final(video).frames_started() == old(video).frames_started() + (
            if old(self).registers.line == 0 {
                1int
            } else {
                0int
            }),
            final(video).frames_done() == old(video).frames_done() + (
            if old(self).registers.line == 159 {
                1int
            } else {
                0int
            }),
            final(self).registers.dispstat == (DisplayStatus {
                hblank: true,
                ..old(self).registers.dispstat
            }),
            final(irq).master_enable == old(irq).master_enable,
            final(irq).enabled == old(irq).enabled,
            final(irq).request_ack == irq_after_spec(
                old(irq).request_ack,
                old(irq).master_enable,
                old(irq).enabled,
                crate::irq::interrupt_mask_spec(Interrupt::LCDHBlank),
                old(self).registers.dispstat.hblank_irq_enable,
            ),
            final(self).end_of_frame == (old(self).end_of_frame || old(self).registers.line
                == 159),
            final(self).cycles_acc == old(self).cycles_acc,
    {
        self.registers.dispstat.set_hblank(true);
        self.in_hblank = true;
        if self.registers.dispstat.hblank_irq_enable() {
            let _ = irq.request(Interrupt::LCDHBlank);
        }
        if self.registers.line < 160 {
            if self.registers.line == 0 {
                video.pre_frame();
            }
            self.draw_line(vram, oam);
            let effect = self.registers.effects.effect();
            self.pixels.mix(palette, effect, &self.registers);
            video.display_line(self.registers.line as u32, &self.pixels.mixed);
            if self.registers.line == 159 {
                video.post_frame();
            }
        }
        if self.registers.line == 159 {
            self.end_of_frame = true;
        }
        self.registers.line == 159
    }

    /// Composes one visible line into the two-deep pixel stacks: backdrop
    /// first (with its blend-target flags), then objects and windows, then
    /// the backgrounds of the current video mode. Unknown modes leave the
    /// backdrop alone.
    fn draw_line(&mut self, vram: &Vec<u8>, oam: &Vec<u8>)
        requires
            old(self).wf(),
            old(self).registers.line < 160,
            vram.len() == 0x18000,
            oam.len() == 0x400,
        ensures
            final(self).wf(),
            final(self).registers.line == old(self).registers.line,
            final(self).registers.dispstat == old(self).registers.dispstat,
            final(self).in_hblank == old(self).in_hblank,
            final(self).end_of_frame == old(self).end_of_frame,
            final(self).cycles_acc == old(self).cycles_acc,
            final(self).pixels.windows.enabled == (old(self).registers.dispcnt.display_window0
                || old(self).registers.dispcnt.display_window1 || old(
                self,
            ).registers.dispcnt.display_window_obj),
            final(self).pixels.windows.win0_enabled == old(
                self,
            ).registers.dispcnt.display_window0,
            final(self).pixels.windows.win1_enabled == old(
                self,
            ).registers.dispcnt.display_window1,
            final(self).pixels.windows.win_obj_enabled == old(
                self,
            ).registers.dispcnt.display_window_obj,
            final(self).pixels.obj_cycles <= if old(self).registers.dispcnt.hblank_interval_free {
                954u16
            } else {
                1210u16
            },
            (old(self).registers.dispcnt.mode != 1 && old(self).registers.dispcnt.mode != 2)
                ==> final(self).registers == old(self).registers,
            (old(self).registers.dispcnt.mode == 1 || old(self).registers.dispcnt.mode == 2)
                ==> final(self).registers == (LCDRegisters {
                bg2_affine_params: AffineBGParams {
                    internal_x: FixedPoint32 {
                        inner: old(self).registers.bg2_affine_params.internal_x.inner.wrapping_add(
                            old(self).registers.bg2_affine_params.b.inner,
                        ),
                    },
                    internal_y: FixedPoint32 {
                        inner: old(self).registers.bg2_affine_params.internal_y.inner.wrapping_add(
                            old(self).registers.bg2_affine_params.d.inner,
                        ),
                    },
                    ..old(self).registers.bg2_affine_params
                },
                bg3_affine_params: AffineBGParams {
                    internal_x: FixedPoint32 {
                        inner: old(self).registers.bg3_affine_params.internal_x.inner.wrapping_add(
                            old(self).registers.bg3_affine_params.b.inner,
                        ),
                    },
                    internal_y: FixedPoint32 {
                        inner: old(self).registers.bg3_affine_params.internal_y.inner.wrapping_add(
                            old(self).registers.bg3_affine_params.d.inner,
                        ),
                    },
                    ..old(self).registers.bg3_affine_params
                },
                ..old(self).registers
            }),
            exists|p: LCDLineBuffer|
                {
                    let regs = old(self).registers;
                    let bd: u16 = layer_mask_spec(Layer::Backdrop) | (
                    if regs.effects.is_first_target_spec(Layer::Backdrop) {
                        PIXEL_FIRST_TARGET
                    } else {
                        0u16
                    }) | (if regs.effects.is_second_target_spec(Layer::Backdrop) {
                        PIXEL_SECOND_TARGET
                    } else {
                        0u16
                    });
                    &&& #[trigger] p.wf()
                    &&& p.windows == final(self).pixels.windows
                    &&& p.obj@ == final(self).pixels.obj@
                    &&& p.obj_cycles == final(self).pixels.obj_cycles
                    &&& p.bitmap_palette@ == old(self).pixels.bitmap_palette@
                    &&& forall|x: int|
                        #![trigger p.unmixed@[x]]
                        0 <= x < 240 ==> p.unmixed@[x].top.0 == bd && p.unmixed@[x].bot.0 == 0
                    &&& (regs.dispcnt.mode == 0 ==> final(self).pixels.unmixed@
                        == crate::tile::mode0_after_spec(&regs, &p.windows, vram@, p.unmixed@, 16))
                    &&& (regs.dispcnt.mode == 1 ==> final(self).pixels.unmixed@
                        == crate::tile::mode1_after_spec(&regs, &p.windows, vram@, p.unmixed@, 12))
                    &&& (regs.dispcnt.mode == 2 ==> final(self).pixels.unmixed@
                        == crate::tile::mode2_after_spec(&regs, &p.windows, vram@, p.unmixed@, 8))
                    &&& (regs.dispcnt.mode == 3 ==> forall|x: int|
                        #![trigger final(self).pixels.unmixed@[x]]
                        0 <= x < 240 ==> final(self).pixels.unmixed@[x] == (
                        if regs.dispcnt.display_layer_spec(Layer::BG2) && window_allow_spec(
                            &p.windows,
                            Layer::BG2,
                            x,
                        ) {
                            Pixels2 {
                                top: Pixel(
                                    (crate::bitmap::bg2_flags_spec(&regs) & window_mask_spec(
                                        &p.windows,
                                        Layer::BG2,
                                        x,
                                    )) | (x as u16 % 256),
                                ),
                                bot: p.unmixed@[x].top,
                            }
                        } else {
                            p.unmixed@[x]
                        }))
                    &&& (regs.dispcnt.mode == 3 ==> forall|x: int|
                        #![trigger final(self).pixels.bitmap_palette@[x]]
                        0 <= x < 240 ==> final(self).pixels.bitmap_palette@[x] == (
                        if regs.dispcnt.display_layer_spec(Layer::BG2) && window_allow_spec(
                            &p.windows,
                            Layer::BG2,
                            x,
                        ) {
                            opaque_spec(
                                crate::bitmap::vram_halfword_spec(
                                    vram@,
                                    480 * regs.line + 2 * x,
                                ),
                            )
                        } else {
                            p.bitmap_palette@[x]
                        }))
                    &&& (regs.dispcnt.mode == 4 ==> final(self).pixels.bitmap_palette@
                        == p.bitmap_palette@)
                    &&& (regs.dispcnt.mode == 4 ==> forall|x: int|
                        #![trigger final(self).pixels.unmixed@[x]]
                        0 <= x < 240 ==> final(self).pixels.unmixed@[x] == ({
                            let entry = vram@[(if regs.dispcnt.frame_select == 0 {
                                0int
                            } else {
                                0xA000int
                            }) + 240 * regs.line + x];
                            if regs.dispcnt.display_layer_spec(Layer::BG2) && window_allow_spec(
                                &p.windows,
                                Layer::BG2,
                                x,
                            ) && entry != 0 {
                                Pixels2 {
                                    top: Pixel(
                                        (crate::bitmap::bg2_flags_spec(&regs) & window_mask_spec(
                                            &p.windows,
                                            Layer::BG2,
                                            x,
                                        )) | (entry as u16),
                                    ),
                                    bot: p.unmixed@[x].top,
                                }
                            } else {
                                p.unmixed@[x]
                            }
                        }))
                    &&& (regs.dispcnt.mode == 5 ==> forall|x: int|
                        #![trigger final(self).pixels.unmixed@[x]]
                        0 <= x < 240 ==> final(self).pixels.unmixed@[x] == (
                        if regs.dispcnt.display_layer_spec(Layer::BG2) && window_allow_spec(
                            &p.windows,
                            Layer::BG2,
                            x,
                        ) && regs.line < 128 && x < 160 {
                            Pixels2 {
                                top: Pixel(
                                    (crate::bitmap::bg2_flags_spec(&regs) & window_mask_spec(
                                        &p.windows,
                                        Layer::BG2,
                                        x,
                                    )) | (x as u16 % 256),
                                ),
                                bot: p.unmixed@[x].top,
                            }
                        } else {
                            p.unmixed@[x]
                        }))
                    &&& (regs.dispcnt.mode == 5 ==> forall|x: int|
                        #![trigger final(self).pixels.bitmap_palette@[x]]
                        0 <= x < 240 ==> final(self).pixels.bitmap_palette@[x] == (
                        if regs.dispcnt.display_layer_spec(Layer::BG2) && window_allow_spec(
                            &p.windows,
                            Layer::BG2,
                            x,
                        ) && regs.line < 128 && x < 160 {
                            opaque_spec(
                                crate::bitmap::vram_halfword_spec(
                                    vram@,
                                    (if regs.dispcnt.frame_select == 0 {
                                        0int
                                    } else {
                                        0xA000int
                                    }) + 320 * regs.line + 2 * x,
                                ),
                            )
                        } else {
                            p.bitmap_palette@[x]
                        }))
                    &&& (regs.dispcnt.mode >= 6 ==> final(self).pixels.unmixed@ == p.unmixed@
                        && final(self).pixels.bitmap_palette@ == p.bitmap_palette@)
                },
    {
        let first_target = self.registers.effects.is_first_target(Layer::Backdrop);
        let second_target = self.registers.effects.is_second_target(Layer::Backdrop);
        let backdrop_bits = Pixel::layer_mask(Layer::Backdrop) | (if first_target {
            PIXEL_FIRST_TARGET
        } else {
            0u16
        }) | (if second_target {
            PIXEL_SECOND_TARGET
        } else {
            0u16
        });
        let backdrop = Pixel(backdrop_bits);
        self.pixels.clear(backdrop);
        let mode = self.registers.dispcnt.mode();
        self.pixels.windows.enabled = self.registers.dispcnt.windows_enabled();
        self.pixels.windows.win0_enabled = self.registers.dispcnt.display_window0();
        self.pixels.windows.win1_enabled = self.registers.dispcnt.display_window1();
        self.pixels.windows.win_obj_enabled = self.registers.dispcnt.display_window_obj();
        self.pixels.windows.clear_pixel_bits();
        self.draw_objects_and_windows(vram, oam);
        let ghost p = self.pixels;
        if mode == 0 {
            crate::tile::render_mode0(&self.registers, vram, &mut self.pixels);
        } else if mode == 1 {
            crate::tile::render_mode1(&mut self.registers, vram, &mut self.pixels);
        } else if mode == 2 {
            crate::tile::render_mode2(&mut self.registers, vram, &mut self.pixels);
        } else if mode == 3 {
            crate::bitmap::render_mode3(&self.registers, vram, &mut self.pixels);
        } else if mode == 4 {
            crate::bitmap::render_mode4(&self.registers, vram, &mut self.pixels);
        } else if mode == 5 {
            crate::bitmap::render_mode5(&self.registers, vram, &mut self.pixels);
        }
        proof {
            assert(p.wf());
        }
    }

    /// Draws the object window's mask and the visible sprites within the
    /// per-line object cycle budget, then computes the window masks.
    fn draw_objects_and_windows(&mut self, vram: &Vec<u8>, oam: &Vec<u8>)
        requires
            old(self).wf(),
            old(self).registers.line < 160,
            vram.len() == 0x18000,
            oam.len() == 0x400,
        ensures
            final(self).wf(),
            final(self).registers == old(self).registers,
            final(self).in_hblank == old(self).in_hblank,
            final(self).end_of_frame == old(self).end_of_frame,
            final(self).cycles_acc == old(self).cycles_acc,
            final(self).pixels.obj_cycles <= if old(self).registers.dispcnt.hblank_interval_free {
                954u16
            } else {
                1210u16
            },
            final(self).pixels.windows.enabled == old(self).pixels.windows.enabled,
            final(self).pixels.windows.win0_enabled == old(self).pixels.windows.win0_enabled,
            final(self).pixels.windows.win1_enabled == old(self).pixels.windows.win1_enabled,
            final(self).pixels.windows.win_obj_enabled == old(self).pixels.windows.win_obj_enabled,
            final(self).pixels.mixed@ == old(self).pixels.mixed@,
            final(self).pixels.unmixed@ == old(self).pixels.unmixed@,
            final(self).pixels.bitmap_palette@ == old(self).pixels.bitmap_palette@,
            exists|w: WindowInfo|
                {
                    let b0 = old(self).registers.win0_bounds;
                    let b1 = old(self).registers.win1_bounds;
                    let line = old(self).registers.line;
                    &&& #[trigger] w.wf()
                    &&& w.enabled == old(self).pixels.windows.enabled
                    &&& w.win0_enabled == old(self).pixels.windows.win0_enabled
                    &&& w.win1_enabled == old(self).pixels.windows.win1_enabled
                    &&& w.win_obj_enabled == old(self).pixels.windows.win_obj_enabled
                    &&& forall|b: int|
                        #![trigger w.winobj.get_spec(b)]
                        0 <= b < 256 && old(self).pixels.windows.winobj.get_spec(b)
                            ==> w.winobj.get_spec(b)
                    &&& (!(old(self).registers.dispcnt.display_layer_spec(Layer::OBJ) && old(
                        self,
                    ).registers.dispcnt.display_window_obj) ==> w.winobj == old(
                        self,
                    ).pixels.windows.winobj)
                    &&& forall|x: int|
                        #![trigger final(self).pixels.windows.winobj.get_spec(x)]
                        0 <= x < 240 ==> final(self).pixels.windows.winobj.get_spec(x)
                            == win_robj_spec(&w, b0, b1, line, x)
                    &&& forall|i: int, x: int|
                        #![trigger final(self).pixels.windows.layers@[i].display.get_spec(x)]
                        0 <= i < 5 && 0 <= x < 240
                            ==> final(self).pixels.windows.layers@[i].display.get_spec(x)
                            == win_display_spec(
                            &w,
                            b0,
                            b1,
                            old(self).registers.winin,
                            old(self).registers.winout,
                            line,
                            layer_from_index_spec(i),
                            x,
                        )
                    &&& forall|i: int, x: int|
                        #![trigger final(self).pixels.windows.layers@[i].effects.get_spec(x)]
                        0 <= i < 5 && 0 <= x < 240
                            ==> final(self).pixels.windows.layers@[i].effects.get_spec(x)
                            == win_effects_spec(
                            &w,
                            b0,
                            b1,
                            old(self).registers.winin,
                            old(self).registers.winout,
                            line,
                            layer_from_index_spec(i),
                            x,
                        )
                },
    {
        let render_objects = self.registers.dispcnt.display_layer(Layer::OBJ);
        self.pixels.obj_cycles = if self.registers.dispcnt.hblank_interval_free() {
            954
        } else {
            1210
        };
        if render_objects && self.registers.dispcnt.display_window_obj() {
            crate::obj::render_obj_window(&self.registers, vram, oam, &mut self.pixels);
        }
        let ghost w = self.pixels.windows;
        self.pixels.windows.calculate_masks(
            self.registers.line,
            self.registers.win0_bounds,
            self.registers.win1_bounds,
            self.registers.winin,
            self.registers.winout,
            self.registers.dispcnt,
        );
        if render_objects {
            crate::obj::render_objects(&self.registers, vram, oam, &mut self.pixels);
        }
        proof {
            assert(w.wf());
        }
    }

    /// Consumes a CPU cycle budget: HDRAW lasts 960 cycles and HBLANK 272,
    /// and each boundary crossing runs the matching phase entry. The timing
    /// invariant (the VBlank flag on exactly lines 160 to 226, the HBlank
    /// flag inside HBLANK) is preserved, and each visible line crossed into
    /// HBLANK is delivered to the video collaborator exactly once.
    pub fn step<V: GbaVideoOutput>(
        &mut self,
        cycles: u32,
        vram: &Vec<u8>,
        oam: &Vec<u8>,
        palette: &Palette,
        video: &mut V,
        irq: &mut GbaInterruptControl,
    )
        requires
            old(self).wf(),
            old(self).timing_ok(),
            vram.len() == 0x18000,
            oam.len() == 0x400,
            palette.len_ok(),
        ensures
            final(self).wf(),
            final(self).timing_ok(),
            final(self).cycles_acc < if final(self).in_hblank {
                HBLANK_CYCLES
            } else {
                HDRAW_CYCLES
            },
    {
        self.cycles_acc = self.cycles_acc.saturating_add(cycles);
        loop
            invariant
                self.wf(),
                self.timing_ok(),
                vram.len() == 0x18000,
                oam.len() == 0x400,
                palette.len_ok(),
            ensures
                self.wf(),
                self.timing_ok(),
                self.cycles_acc < if self.in_hblank {
                    HBLANK_CYCLES
                } else {
                    HDRAW_CYCLES
                },
            decreases self.cycles_acc,
        {
            if !self.in_hblank {
                if self.cycles_acc >= HDRAW_CYCLES {
                    self.cycles_acc = self.cycles_acc - HDRAW_CYCLES;
                    let _ = self.hblank(vram, oam, palette, video, irq);
                } else {
                    break ;
                }
            } else {
                if self.cycles_acc >= HBLANK_CYCLES {
                    self.cycles_acc = self.cycles_acc - HBLANK_CYCLES;
                    self.hdraw(irq);
                } else {
                    break ;
                }
            }
        }
    }

    /// Checks the structural and timing invariants at run time; true
    /// exactly when they hold.
    pub fn state_ok(&self) -> (b: bool)
        ensures
            b == (self.wf() && self.timing_ok()),
    {
        let regs_ok = self.registers.line < 228 && self.registers.bg_cnt.len() == 4
            && self.registers.bg_ofs.len() == 4 && self.registers.dispcnt.mode < 8
            && self.registers.dispstat.vcounter_setting < 0x100;
        let pix = &self.pixels;
        let win = &pix.windows;
        let layers_ok = win.layers.len() == 5 && win.winobj.bits.len() == 4
            && win.layers[0].display.bits.len() == 4 && win.layers[0].effects.bits.len() == 4
            && win.layers[1].display.bits.len() == 4 && win.layers[1].effects.bits.len() == 4
            && win.layers[2].display.bits.len() == 4 && win.layers[2].effects.bits.len() == 4
            && win.layers[3].display.bits.len() == 4 && win.layers[3].effects.bits.len() == 4
            && win.layers[4].display.bits.len() == 4 && win.layers[4].effects.bits.len() == 4;
        let pixels_ok = pix.mixed.len() == 240 && pix.unmixed.len() == 240 && pix.obj.len() == 240
            && pix.bitmap_palette.len() == 240 && layers_ok;
        let timing = (self.registers.dispstat.vblank == (160 <= self.registers.line
            && self.registers.line <= 226)) && self.registers.dispstat.hblank == self.in_hblank;
        let ok = regs_ok && pixels_ok && timing;
        proof {
            if ok {
                assert forall|i: int| 0 <= i < 5 implies (#[trigger] win.layers@[i]).wf() by {}
            }
        }
        ok
    }

    /// Primes the LCD at power-on: line 0, HDRAW, flags clear.
    pub fn init(&mut self)
        ensures
            final(self).wf(),
            final(self).timing_ok(),
            final(self).registers.line == 0,
            !final(self).in_hblank,
            !final(self).end_of_frame,
            final(self).cycles_acc == 0,
    {
        self.registers = LCDRegisters::new();
        self.pixels = LCDLineBuffer::new();
        self.cycles_acc = 0;
        self.in_hblank = false;
        self.end_of_frame = false;
    }
}

} // verus!
