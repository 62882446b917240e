//! The bitmap video modes: mode 3 (240x160 direct color), mode 4 (240x160
//! paletted, double-buffered), and mode 5 (160x128 direct color,
//! double-buffered), all driving BG2.

use vstd::prelude::*;
use crate::lcd::LCDLineBuffer;
use crate::lcd::LCDRegisters;
use crate::lcd::Layer;
use crate::lcd::Pixel;
use crate::lcd::Pixels2;
use crate::lcd::PIXEL_FIRST_TARGET;
use crate::lcd::PIXEL_SECOND_TARGET;
use crate::lcd::layer_mask_spec;
use crate::lcd::opaque_color;
use crate::lcd::opaque_spec;
use crate::lcd::window_allow_spec;
use crate::lcd::window_mask_spec;

verus! {

/// The little-endian halfword at `off` in VRAM.
pub open spec fn vram_halfword_spec(vram: Seq<u8>, off: int) -> u16 {
    ((vram[off] as u16) + (vram[off + 1] as u16) * 0x100) as u16
}

/// The BG2 pixel flags for the current blend selection.
pub open spec fn bg2_flags_spec(registers: &LCDRegisters) -> u16 {
    let b0 = layer_mask_spec(Layer::BG2);
    let b1 = if registers.effects.is_first_target_spec(Layer::BG2) {
        b0 | PIXEL_FIRST_TARGET
    } else {
        b0
    };
    if registers.effects.is_second_target_spec(Layer::BG2) {
        b1 | PIXEL_SECOND_TARGET
    } else {
        b1
    }
}

/// The BG2 pixel flags for the current blend selection.
fn bg2_flags(registers: &LCDRegisters) -> (r: u16)
    ensures
        r == bg2_flags_spec(registers),
{
    let mut bits = Pixel::layer_mask(Layer::BG2);
    if registers.effects.is_first_target(Layer::BG2) {
        bits = bits | PIXEL_FIRST_TARGET;
    }
    if registers.effects.is_second_target(Layer::BG2) {
        bits = bits | PIXEL_SECOND_TARGET;
    }
    bits
}

/// Mode 3: one 240x160 direct-color frame at the start of VRAM. Where BG2
/// is enabled and the window mask allows, column `x` receives a bitmap
/// pixel keyed by its column, whose stored color is the frame's halfword at
/// `480*line + 2x` with the opaque marker set; every other column keeps
/// what it had.
pub fn render_mode3(registers: &LCDRegisters, vram: &Vec<u8>, pixels: &mut LCDLineBuffer)
    requires
        old(pixels).wf(),
        registers.wf(),
        registers.line < 160,
        vram.len() == 0x18000,
    ensures
        final(pixels).wf(),
        final(pixels).windows == old(pixels).windows,
        final(pixels).obj@ == old(pixels).obj@,
        final(pixels).mixed@ == old(pixels).mixed@,
        final(pixels).obj_cycles == old(pixels).obj_cycles,
        forall|x: int|
            #![trigger final(pixels).unmixed@[x]]
            0 <= x < 240 ==> final(pixels).unmixed@[x] == (
            if registers.dispcnt.display_layer_spec(Layer::BG2) && window_allow_spec(
                &old(pixels).windows,
                Layer::BG2,
                x,
            ) {
                Pixels2 {
                    top: Pixel(
                        (bg2_flags_spec(registers) & window_mask_spec(
                            &old(pixels).windows,
                            Layer::BG2,
                            x,
                        )) | (x as u16 % 256),
                    ),
                    bot: old(pixels).unmixed@[x].top,
                }
            } else {
                old(pixels).unmixed@[x]
            }),
        forall|x: int|
            #![trigger final(pixels).bitmap_palette@[x]]
            0 <= x < 240 ==> final(pixels).bitmap_palette@[x] == (
            if registers.dispcnt.display_layer_spec(Layer::BG2) && window_allow_spec(
                &old(pixels).windows,
                Layer::BG2,
                x,
            ) {
                opaque_spec(vram_halfword_spec(vram@, 480 * registers.line + 2 * x))
            } else {
                old(pixels).bitmap_palette@[x]
            }),
{
    if !registers.dispcnt.display_layer(Layer::BG2) {
        return ;
    }
    let pflags = bg2_flags(registers);
    let line_offset: u32 = 480 * (registers.line as u32);
    let mut x: usize = 0;
    while x < 240
        invariant
            pixels.wf(),
            pixels.windows == old(pixels).windows,
            pixels.obj@ == old(pixels).obj@,
            pixels.mixed@ == old(pixels).mixed@,
            pixels.obj_cycles == old(pixels).obj_cycles,
            registers.wf(),
            registers.line < 160,
            registers.dispcnt.display_layer_spec(Layer::BG2),
            pflags == bg2_flags_spec(registers),
            vram.len() == 0x18000,
            line_offset == 480 * registers.line,
            x <= 240,
            forall|k: int|
                #![trigger pixels.unmixed@[k]]
                0 <= k < x ==> pixels.unmixed@[k] == (
                if window_allow_spec(&old(pixels).windows, Layer::BG2, k) {
                    Pixels2 {
                        top: Pixel(
                            (bg2_flags_spec(registers) & window_mask_spec(
                                &old(pixels).windows,
                                Layer::BG2,
                                k,
                            )) | (k as u16 % 256),
                        ),
                        bot: old(pixels).unmixed@[k].top,
                    }
                } else {
                    old(pixels).unmixed@[k]
                }),
            forall|k: int|
                #![trigger pixels.bitmap_palette@[k]]
                0 <= k < x ==> pixels.bitmap_palette@[k] == (
                if window_allow_spec(&old(pixels).windows, Layer::BG2, k) {
                    opaque_spec(vram_halfword_spec(vram@, 480 * registers.line + 2 * k))
                } else {
                    old(pixels).bitmap_palette@[k]
                }),
            forall|k: int|
                #![trigger pixels.unmixed@[k]]
                x <= k < 240 ==> pixels.unmixed@[k] == old(pixels).unmixed@[k],
            forall|k: int|
                #![trigger pixels.bitmap_palette@[k]]
                x <= k < 240 ==> pixels.bitmap_palette@[k] == old(pixels).bitmap_palette@[k],
        decreases 240 - x,
    {
        let allowed: bool;
        let mut mask: u16 = 0xFFFF;
        if pixels.windows.enabled {
            let checked = pixels.windows.check_pixel(Layer::BG2, x);
            match checked {
                Some(m) => {
                    allowed = true;
                    mask = m;
                },
                None => {
                    allowed = false;
                },
            }
        } else {
            allowed = true;
        }
        if allowed {
            let off = line_offset + (x as u32) * 2;
            let raw = (vram[off as usize] as u16) + (vram[(off + 1) as usize] as u16) * 0x100;
            let color = opaque_color(raw);
            pixels.push_bitmap_pixel(x, Pixel(pflags & mask), color);
            proof {
                assert(window_allow_spec(&old(pixels).windows, Layer::BG2, x as int));
                assert(mask == window_mask_spec(&old(pixels).windows, Layer::BG2, x as int));
                assert(raw == vram_halfword_spec(vram@, 480 * registers.line + 2 * (x as int)));
                assert(pixels.unmixed@[x as int].top == Pixel(
                    (bg2_flags_spec(registers) & window_mask_spec(
                        &old(pixels).windows,
                        Layer::BG2,
                        x as int,
                    )) | (x as u16 % 256),
                ));
            }
        } else {
            proof {
                assert(!window_allow_spec(&old(pixels).windows, Layer::BG2, x as int));
            }
        }
        x += 1;
    }
}

/// Mode 4: one 240x160 paletted frame, selected by the DISPCNT frame bit.
/// Where BG2 is enabled, the window mask allows, and the frame's byte at
/// `240*line + x` is a nonzero palette entry, column `x` receives a BG2
/// pixel carrying that entry; every other column keeps what it had.
pub fn render_mode4(registers: &LCDRegisters, vram: &Vec<u8>, pixels: &mut LCDLineBuffer)
    requires
        old(pixels).wf(),
        registers.wf(),
        registers.line < 160,
        vram.len() == 0x18000,
    ensures
        final(pixels).wf(),
        final(pixels).windows == old(pixels).windows,
        final(pixels).obj@ == old(pixels).obj@,
        final(pixels).mixed@ == old(pixels).mixed@,
        final(pixels).bitmap_palette@ == old(pixels).bitmap_palette@,
        final(pixels).obj_cycles == old(pixels).obj_cycles,
        forall|x: int|
            #![trigger final(pixels).unmixed@[x]]
            0 <= x < 240 ==> final(pixels).unmixed@[x] == ({
                let entry = vram@[(if registers.dispcnt.frame_select == 0 {
                    0int
                } else {
                    0xA000int
                }) + 240 * registers.line + x];
                if registers.dispcnt.display_layer_spec(Layer::BG2) && window_allow_spec(
                    &old(pixels).windows,
                    Layer::BG2,
                    x,
                ) && entry != 0 {
                    Pixels2 {
                        top: Pixel(
                            (bg2_flags_spec(registers) & window_mask_spec(
                                &old(pixels).windows,
                                Layer::BG2,
                                x,
                            )) | (entry as u16),
                        ),
                        bot: old(pixels).unmixed@[x].top,
                    }
                } else {
                    old(pixels).unmixed@[x]
                }
            }),
{
    if !registers.dispcnt.display_layer(Layer::BG2) {
        return ;
    }
    let framebuffer_start: u32 = if registers.dispcnt.frame_select() == 0 {
        0
    } else {
        0xA000
    };
    let pflags = bg2_flags(registers);
    let line_offset: u32 = framebuffer_start + 240 * (registers.line as u32);
    let mut x: usize = 0;
    while x < 240
        invariant
            pixels.wf(),
            pixels.windows == old(pixels).windows,
            pixels.obj@ == old(pixels).obj@,
            pixels.mixed@ == old(pixels).mixed@,
            pixels.bitmap_palette@ == old(pixels).bitmap_palette@,
            pixels.obj_cycles == old(pixels).obj_cycles,
            registers.wf(),
            registers.line < 160,
            registers.dispcnt.display_layer_spec(Layer::BG2),
            pflags == bg2_flags_spec(registers),
            vram.len() == 0x18000,
            line_offset == (if registers.dispcnt.frame_select == 0 {
                0int
            } else {
                0xA000int
            }) + 240 * registers.line,
            x <= 240,
            forall|k: int|
                #![trigger pixels.unmixed@[k]]
                0 <= k < x ==> pixels.unmixed@[k] == ({
                    let entry = vram@[(if registers.dispcnt.frame_select == 0 {
                        0int
                    } else {
                        0xA000int
                    }) + 240 * registers.line + k];
                    if window_allow_spec(&old(pixels).windows, Layer::BG2, k) && entry != 0 {
                        Pixels2 {
                            top: Pixel(
                                (bg2_flags_spec(registers) & window_mask_spec(
                                    &old(pixels).windows,
                                    Layer::BG2,
                                    k,
                                )) | (entry as u16),
                            ),
                            bot: old(pixels).unmixed@[k].top,
                        }
                    } else {
                        old(pixels).unmixed@[k]
                    }
                }),
            forall|k: int|
                #![trigger pixels.unmixed@[k]]
                x <= k < 240 ==> pixels.unmixed@[k] == old(pixels).unmixed@[k],
        decreases 240 - x,
    {
        let allowed: bool;
        let mut mask: u16 = 0xFFFF;
        if pixels.windows.enabled {
            let checked = pixels.windows.check_pixel(Layer::BG2, x);
            match checked {
                Some(m) => {
                    allowed = true;
                    mask = m;
                },
                None => {
                    allowed = false;
                },
            }
        } else {
            allowed = true;
        }
        if allowed {
            let palette_entry = vram[(line_offset + x as u32) as usize];
            if palette_entry != 0 {
                pixels.push_pixel(x, Pixel((pflags & mask) | (palette_entry as u16)));
            }
        }
        x += 1;
    }
}

/// Mode 5: one 160x128 direct-color frame, selected by the DISPCNT frame
/// bit. Where BG2 is enabled, the window mask allows, the line is below 128
/// and the column below 160, the column receives a bitmap pixel whose
/// stored color is the frame's halfword at `320*line + 2x` with the opaque
/// marker set; every other column keeps what it had.
pub fn render_mode5(registers: &LCDRegisters, vram: &Vec<u8>, pixels: &mut LCDLineBuffer)
    requires
        old(pixels).wf(),
        registers.wf(),
        registers.line < 160,
        vram.len() == 0x18000,
    ensures
        final(pixels).wf(),
        final(pixels).windows == old(pixels).windows,
        final(pixels).obj@ == old(pixels).obj@,
        final(pixels).mixed@ == old(pixels).mixed@,
        final(pixels).obj_cycles == old(pixels).obj_cycles,
        forall|x: int|
            #![trigger final(pixels).unmixed@[x]]
            0 <= x < 240 ==> final(pixels).unmixed@[x] == (
            if registers.dispcnt.display_layer_spec(Layer::BG2) && window_allow_spec(
                &old(pixels).windows,
                Layer::BG2,
                x,
            ) && registers.line < 128 && x < 160 {
                Pixels2 {
                    top: Pixel(
                        (bg2_flags_spec(registers) & window_mask_spec(
                            &old(pixels).windows,
                            Layer::BG2,
                            x,
                        )) | (x as u16 % 256),
                    ),
                    bot: old(pixels).unmixed@[x].top,
                }
            } else {
                old(pixels).unmixed@[x]
            }),
        forall|x: int|
            #![trigger final(pixels).bitmap_palette@[x]]
            0 <= x < 240 ==> final(pixels).bitmap_palette@[x] == (
            if registers.dispcnt.display_layer_spec(Layer::BG2) && window_allow_spec(
                &old(pixels).windows,
                Layer::BG2,
                x,
            ) && registers.line < 128 && x < 160 {
                opaque_spec(
                    vram_halfword_spec(
                        vram@,
                        (if registers.dispcnt.frame_select == 0 {
                            0int
                        } else {
                            0xA000int
                        }) + 320 * registers.line + 2 * x,
                    ),
                )
            } else {
                old(pixels).bitmap_palette@[x]
            }),
{
    if !registers.dispcnt.display_layer(Layer::BG2) {
        return ;
    }
    if registers.line >= 128 {
        return ;
    }
    let framebuffer_start: u32 = if registers.dispcnt.frame_select() == 0 {
        0
    } else {
        0xA000
    };
    let pflags = bg2_flags(registers);
    let line_offset: u32 = framebuffer_start + 320 * (registers.line as u32);
    let mut x: usize = 0;
    while x < 160
        invariant
            pixels.wf(),
            pixels.windows == old(pixels).windows,
            pixels.obj@ == old(pixels).obj@,
            pixels.mixed@ == old(pixels).mixed@,
            pixels.obj_cycles == old(pixels).obj_cycles,
            registers.wf(),
            registers.line < 128,
            registers.dispcnt.display_layer_spec(Layer::BG2),
            pflags == bg2_flags_spec(registers),
            vram.len() == 0x18000,
            line_offset == (if registers.dispcnt.frame_select == 0 {
                0int
            } else {
                0xA000int
            }) + 320 * registers.line,
            x <= 160,
            forall|k: int|
                #![trigger pixels.unmixed@[k]]
                0 <= k < x ==> pixels.unmixed@[k] == (
                if window_allow_spec(&old(pixels).windows, Layer::BG2, k) {
                    Pixels2 {
                        top: Pixel(
                            (bg2_flags_spec(registers) & window_mask_spec(
                                &old(pixels).windows,
                                Layer::BG2,
                                k,
                            )) | (k as u16 % 256),
                        ),
                        bot: old(pixels).unmixed@[k].top,
                    }
                } else {
                    old(pixels).unmixed@[k]
                }),
            forall|k: int|
                #![trigger pixels.bitmap_palette@[k]]
                0 <= k < x ==> pixels.bitmap_palette@[k] == (
                if window_allow_spec(&old(pixels).windows, Layer::BG2, k) {
                    opaque_spec(
                        vram_halfword_spec(
                            vram@,
                            (if registers.dispcnt.frame_select == 0 {
                                0int
                            } else {
                                0xA000int
                            }) + 320 * registers.line + 2 * k,
                        ),
                    )
                } else {
                    old(pixels).bitmap_palette@[k]
                }),
            forall|k: int|
                #![trigger pixels.unmixed@[k]]
                x <= k < 240 ==> pixels.unmixed@[k] == old(pixels).unmixed@[k],
            forall|k: int|
                #![trigger pixels.bitmap_palette@[k]]
                x <= k < 240 ==> pixels.bitmap_palette@[k] == old(pixels).bitmap_palette@[k],
        decreases 160 - x,
    {
        let allowed: bool;
        let mut mask: u16 = 0xFFFF;
        if pixels.windows.enabled {
            let checked = pixels.windows.check_pixel(Layer::BG2, x);
            match checked {
                Some(m) => {
                    allowed = true;
                    mask = m;
                },
                None => {
                    allowed = false;
                },
            }
        } else {
            allowed = true;
        }
        if allowed {
            let off = line_offset + (x as u32) * 2;
            let raw = (vram[off as usize] as u16) + (vram[(off + 1) as usize] as u16) * 0x100;
            let color = opaque_color(raw);
            pixels.push_bitmap_pixel(x, Pixel(pflags & mask), color);
        }
        x += 1;
    }
}

} // verus!
