//! A single-pass compositing helper: instead of keeping a two-deep pixel
//! stack per column, it blends each drawn pixel into the output line at
//! once, remembering per column only what blending would still need (the
//! first-target color, the second-target flag, the priority, and whether a
//! semi-transparent object sits on top).
//!
//! Only backgrounds are poked through this path; object pixels travel
//! through the object scratch line and are merged by
//! `LCDLineBuffer::mix_obj_pixels`, which also carries their
//! semi-transparency rule.

use vstd::prelude::*;
use crate::lcd::EffectsSelection;
use crate::lcd::LCDRegisters;
use crate::lcd::Layer;
use crate::lcd::LCDLineBuffer;
use crate::lcd::SpecialEffect;
use crate::lcd::alpha_blend_spec;
use crate::lcd::brightness_decrease_spec;
use crate::lcd::brightness_increase_spec;

verus! {

/// What blending still needs to know of the pixel currently composed at one
/// column.
#[derive(Clone, Copy, Debug, PartialEq, Eq, Structural)]
pub struct PixelInfo {
    /// The color of the first-target pixel here, or zero if the top pixel is
    /// no first target.
    pub first_target_color: u16,
    /// Whether the pixel here is selected as a second blend target.
    pub is_second_target: bool,
    /// The priority of the pixel here (4 for the backdrop, below every
    /// layer).
    pub priority: u8,
    /// Whether a semi-transparent object sits here; those always blend.
    pub is_semi_transparent_obj: bool,
}

impl PixelInfo {
    /// The column state before any layer draws: the backdrop, with its
    /// blend-target flags from the selection register.
    pub fn backdrop(bldcnt: EffectsSelection, backdrop_color: u16) -> (r: PixelInfo)
        ensures
            r.first_target_color == if bldcnt.is_first_target_spec(Layer::Backdrop) {
                backdrop_color
            } else {
                0u16
            },
            r.is_second_target == bldcnt.is_second_target_spec(Layer::Backdrop),
            r.priority == 4,
            !r.is_semi_transparent_obj,
    {
        PixelInfo {
            first_target_color: if bldcnt.is_first_target(Layer::Backdrop) {
                backdrop_color
            } else {
                0
            },
            is_second_target: bldcnt.is_second_target(Layer::Backdrop),
            priority: 4,
            is_semi_transparent_obj: false,
        }
    }
}

/// The three blending registers gathered for one line: the selection
/// (BLDCNT), the alpha coefficients (BLDALPHA) and the brightness
/// coefficient (BLDY). The coefficients clamp at sixteen sixteenths.
#[derive(Clone, Copy, Debug, PartialEq, Eq, Structural)]
pub struct SpecialEffects {
    pub select: EffectsSelection,
    pub alpha: u16,
    pub brightness: u16,
}

impl SpecialEffects {
    pub fn new(select: EffectsSelection, alpha: u16, brightness: u16) -> (r: SpecialEffects)
        ensures
            r.select == select,
            r.alpha == alpha,
            r.brightness == brightness,
    {
        SpecialEffects { select, alpha, brightness }
    }

    /// The first alpha coefficient, clamped to 16.
    pub open spec fn eva_spec(&self) -> u16 {
        if self.alpha % 32 > 16 {
            16u16
        } else {
            self.alpha % 32
        }
    }

    /// The second alpha coefficient, clamped to 16.
    pub open spec fn evb_spec(&self) -> u16 {
        if (self.alpha >> 8) % 32 > 16 {
            16u16
        } else {
            (self.alpha >> 8) % 32
        }
    }

    /// The brightness coefficient, clamped to 16.
    pub open spec fn evy_spec(&self) -> u16 {
        if self.brightness % 32 > 16 {
            16u16
        } else {
            self.brightness % 32
        }
    }

    /// Applies the selected effect to a first-target color over a
    /// second-target color.
    pub fn blend(&self, first_target: u16, second_target: u16) -> (r: u16)
        ensures
            r == blend_spec(*self, first_target, second_target),
    {
        match self.select.effect() {
            SpecialEffect::NoEffect => first_target,
            SpecialEffect::AlphaBlending => self.alpha_blend(first_target, second_target),
            SpecialEffect::BrightnessIncrease => self.brightness_increase(first_target),
            SpecialEffect::BrightnessDecrease => self.brightness_decrease(first_target),
        }
    }

    /// Brightness increase by the clamped coefficient.
    pub fn brightness_increase(&self, first_target: u16) -> (r: u16)
        ensures
            r == brightness_increase_spec(first_target, self.evy_spec()),
            r >= 0x8000,
    {
        let evy16 = self.brightness % 32;
        let evy = if evy16 > 16 {
            16
        } else {
            evy16
        };
        LCDLineBuffer::brightness_increase(first_target, evy)
    }

    /// Brightness decrease by the clamped coefficient.
    pub fn brightness_decrease(&self, first_target: u16) -> (r: u16)
        ensures
            r == brightness_decrease_spec(first_target, self.evy_spec()),
            r >= 0x8000,
    {
        let evy16 = self.brightness % 32;
        let evy = if evy16 > 16 {
            16
        } else {
            evy16
        };
        LCDLineBuffer::brightness_decrease(first_target, evy)
    }

    /// Alpha blending by the clamped coefficients.
    pub fn alpha_blend(&self, first_target: u16, second_target: u16) -> (r: u16)
        ensures
            r == alpha_blend_spec(first_target, second_target, self.eva_spec(), self.evb_spec()),
            r >= 0x8000,
    {
        let eva16 = self.alpha % 32;
        let eva = if eva16 > 16 {
            16
        } else {
            eva16
        };
        let evb16 = (self.alpha >> 8) % 32;
        let evb = if evb16 > 16 {
            16
        } else {
            evb16
        };
        LCDLineBuffer::alpha_blend(first_target, second_target, eva, evb)
    }
}

/// The color the selected effect produces from a first-target color over a
/// second-target color (the spec twin of `SpecialEffects::blend`).
pub open spec fn blend_spec(e: SpecialEffects, first: u16, second: u16) -> u16 {
    match e.select.effect_spec() {
        SpecialEffect::NoEffect => first,
        SpecialEffect::AlphaBlending => alpha_blend_spec(first, second, e.eva_spec(), e.evb_spec()),
        SpecialEffect::BrightnessIncrease => brightness_increase_spec(first, e.evy_spec()),
        SpecialEffect::BrightnessDecrease => brightness_decrease_spec(first, e.evy_spec()),
    }
}

/// What one background poke leaves at a column: the output color and the
/// remembered pixel state (the spec twin of `poke_bg_pixel`). A transparent
/// color changes nothing; a higher-priority opaque pixel replaces or blends
/// in as the blend targets direct; a second-target color sliding in under
/// the stored first target re-blends the pair, with a semi-transparent
/// object on top forcing alpha.
pub open spec fn poke_bg_spec(
    bg: Layer,
    color: u16,
    bg_priority: u8,
    prev_out: u16,
    prev_info: PixelInfo,
    effects: SpecialEffects,
) -> (u16, PixelInfo) {
    if color < 0x8000 {
        (prev_out, prev_info)
    } else if prev_info.priority > bg_priority {
        if effects.select.is_first_target_spec(bg) {
            (
                if prev_info.is_second_target {
                    blend_spec(effects, color, prev_out)
                } else {
                    color
                },
                PixelInfo {
                    first_target_color: color,
                    is_second_target: false,
                    priority: bg_priority,
                    is_semi_transparent_obj: false,
                },
            )
        } else {
            (
                color,
                PixelInfo {
                    first_target_color: 0,
                    is_second_target: effects.select.is_second_target_spec(bg),
                    priority: bg_priority,
                    is_semi_transparent_obj: false,
                },
            )
        }
    } else if prev_info.first_target_color != 0 && effects.select.is_second_target_spec(bg) {
        (
            if prev_info.is_semi_transparent_obj {
                alpha_blend_spec(
                    prev_info.first_target_color,
                    color,
                    effects.eva_spec(),
                    effects.evb_spec(),
                )
            } else {
                blend_spec(effects, prev_info.first_target_color, color)
            },
            prev_info,
        )
    } else {
        (prev_out, prev_info)
    }
}

/// The per-line window state of the single-pass compositor (bounds and
/// controls gathered together; this compositor draws everywhere).
#[derive(Clone, Copy, Debug, PartialEq, Eq, Structural)]
pub struct Windows {
    pub win0h: u16,
    pub win0v: u16,
    pub win1h: u16,
    pub win1v: u16,
    pub winin: u16,
    pub winout: u16,
}

impl Windows {
    pub fn new() -> (r: Windows)
        ensures
            r.win0h == 0 && r.win0v == 0 && r.win1h == 0 && r.win1v == 0 && r.winin == 0
                && r.winout == 0,
    {
        Windows { win0h: 0, win0v: 0, win1h: 0, win1v: 0, winin: 0, winout: 0 }
    }
}

/// Blends one background pixel into the output line at `offset`. An opaque
/// color (bit 15 set) above the column's priority replaces or blends with
/// what is there; a second-target color below an existing first target
/// blends under it.
pub fn poke_bg_pixel(
    bg: Layer,
    offset: usize,
    color: u16,
    bg_priority: u8,
    out: &mut Vec<u16>,
    pixel_info: &mut Vec<PixelInfo>,
    effects: SpecialEffects,
    windows: Windows,
)
    requires
        old(out).len() == 240,
        old(pixel_info).len() == 240,
        offset < 240,
    ensures
        final(out).len() == 240,
        final(pixel_info).len() == 240,
        forall|i: int| 0 <= i < 240 && i != offset ==> final(out)@[i] == old(out)@[i],
        forall|i: int|
            0 <= i < 240 && i != offset ==> final(pixel_info)@[i] == old(pixel_info)@[i],
        ({
            let poked = poke_bg_spec(
                bg,
                color,
                bg_priority,
                old(out)@[offset as int],
                old(pixel_info)@[offset as int],
                effects,
            );
            final(out)@[offset as int] == poked.0 && final(pixel_info)@[offset as int] == poked.1
        }),
{
    if color >= 0x8000 {
        let mut info = pixel_info[offset];
        if info.priority > bg_priority {
            info.priority = bg_priority;
            info.is_semi_transparent_obj = false;
            if effects.select.is_first_target(bg) {
                if info.is_second_target {
                    let blended = effects.blend(color, out[offset]);
                    out.set(offset, blended);
                } else {
                    out.set(offset, color);
                }
                info.is_second_target = false;
                info.first_target_color = color;
            } else {
                info.first_target_color = 0;
                info.is_second_target = effects.select.is_second_target(bg);
                out.set(offset, color);
            }
            pixel_info.set(offset, info);
        } else if info.first_target_color != 0 && effects.select.is_second_target(bg) {
            // A second-target pixel slides in underneath the current first
            // target: blend the pair. A semi-transparent object on top
            // always forces alpha blending.
            if info.is_semi_transparent_obj {
                let blended = effects.alpha_blend(info.first_target_color, color);
                out.set(offset, blended);
            } else {
                let blended = effects.blend(info.first_target_color, color);
                out.set(offset, blended);
            }
        }
    }
}

/// Gathers the blending registers for one line of single-pass compositing.
pub fn get_compositing_info(registers: &LCDRegisters) -> (r: (SpecialEffects, Windows))
    ensures
        r.0.select == registers.effects,
        r.0.alpha == registers.alpha,
        r.0.brightness == registers.brightness,
{
    (
        SpecialEffects::new(registers.effects, registers.alpha, registers.brightness),
        Windows::new(),
    )
}

} // verus!
