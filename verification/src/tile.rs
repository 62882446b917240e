//! The tiled background modes: text backgrounds (modes 0 and 1) and affine
//! backgrounds (modes 1 and 2), composed low-priority-first so the topmost
//! pixel of every column ends up on top of the stack.

use vstd::prelude::*;
use crate::lcd::BGControl;
use crate::lcd::BGOffset;
use crate::lcd::LCDLineBuffer;
use crate::lcd::LCDRegisters;
use crate::lcd::Layer;
use crate::lcd::Mosaic;
use crate::lcd::Pixel;
use crate::lcd::Pixels2;
use crate::lcd::PIXEL_FIRST_TARGET;
use crate::lcd::PIXEL_SECOND_TARGET;
use crate::lcd::layer_mask_spec;
use crate::lcd::layer_of_bg_spec;
use crate::lcd::window_allow_spec;
use crate::lcd::window_mask_spec;
use crate::lcd::WindowInfo;
use crate::lcd::AffineBGParams;
use crate::lcd::FixedPoint32;
use crate::bitmap::vram_halfword_spec;

verus! {

/// A text background's parameters gathered for one line.
pub struct TextBG {
    /// Base address of tile character data.
    pub char_base: u32,
    /// Base address of the screen (tile map) blocks.
    pub screen_base: u32,
    pub xoffset: u32,
    pub yoffset: u32,
    pub width: u32,
    pub height: u32,
    pub mosaic_x: u32,
    pub mosaic_y: u32,
    pub first_target: bool,
    pub second_target: bool,
}

impl TextBG {
    pub open spec fn wf(&self) -> bool {
        &&& (self.width == 256 || self.width == 512)
        &&& (self.height == 256 || self.height == 512)
        &&& self.char_base <= 0xC000
        &&& self.screen_base <= 0xF800
        &&& self.xoffset < 0x1_0000
        &&& self.yoffset < 0x1_0000
    }

    /// Gathers one text background's parameters: the screen size from its
    /// control word, the scroll offsets, and the mosaic grid when enabled.
    pub fn new(
        control: BGControl,
        offset: BGOffset,
        reg_mosaic: Mosaic,
        first_target: bool,
        second_target: bool,
    ) -> (r: TextBG)
        ensures
            r.wf(),
            r == textbg_spec(control, offset, reg_mosaic, first_target, second_target),
    {
        let size = control.screen_size() % 4;
        let width: u32 = if size == 0 || size == 2 {
            256
        } else {
            512
        };
        let height: u32 = if size == 0 || size == 1 {
            256
        } else {
            512
        };
        let mosaic: (u8, u8) = if control.mosaic() {
            reg_mosaic.bg
        } else {
            (0, 0)
        };
        TextBG {
            char_base: (control.char_base_block() % 4) as u32 * 16 * 1024,
            screen_base: (control.screen_base_block() % 32) as u32 * 2 * 1024,
            xoffset: offset.x as u32,
            yoffset: offset.y as u32,
            width,
            height,
            mosaic_x: mosaic.0 as u32,
            mosaic_y: mosaic.1 as u32,
            first_target,
            second_target,
        }
    }

    /// The address of the 16-bit tile map entry covering screen coordinates
    /// (scx, scy): one of up to four 256x256 quadrants, 32x32 entries each.
    fn get_tile_info_offset(&self, scx: u32, scy: u32) -> (r: u32)
        requires
            self.wf(),
            scy < self.height,
        ensures
            r < 0x1_8000,
            r == tile_info_offset_spec(self, scx as int, scy as int),
    {
        let area_y = scy % 256;
        let area_ty = area_y / 8;
        let scx = scx % self.width;
        proof {
            crate::bits::lemma_mul_le((scy / 256) as int, (self.width / 256) as int, 1, 2);
        }
        let area_idx = (scy / 256) * (self.width / 256) + (scx / 256);
        let area_x = scx % 256;
        let area_tx = area_x / 8;
        self.screen_base + (area_idx % 4) * 2048 + ((area_ty * 32) + area_tx) * 2
    }
}

/// The parameters `TextBG::new` gathers (its spec twin).
pub open spec fn textbg_spec(
    control: BGControl,
    offset: BGOffset,
    reg_mosaic: Mosaic,
    first_target: bool,
    second_target: bool,
) -> TextBG {
    let size = control.screen_size % 4;
    let mosaic: (u8, u8) = if control.mosaic {
        reg_mosaic.bg
    } else {
        (0u8, 0u8)
    };
    TextBG {
        char_base: ((control.char_base_block % 4) * 16 * 1024) as u32,
        screen_base: ((control.screen_base_block % 32) * 2 * 1024) as u32,
        xoffset: offset.x as u32,
        yoffset: offset.y as u32,
        width: if size == 0 || size == 2 {
            256
        } else {
            512
        },
        height: if size == 0 || size == 1 {
            256
        } else {
            512
        },
        mosaic_x: mosaic.0 as u32,
        mosaic_y: mosaic.1 as u32,
        first_target,
        second_target,
    }
}

/// The address of the tile map entry covering screen coordinates (scx, scy)
/// (the spec twin of `get_tile_info_offset`).
pub open spec fn tile_info_offset_spec(bg: &TextBG, scx: int, scy: int) -> int {
    let sx = scx % (bg.width as int);
    let area_idx = (scy / 256) * (bg.width as int / 256) + sx / 256;
    bg.screen_base + (area_idx % 4) * 2048 + (((scy % 256) / 8) * 32 + (sx % 256) / 8) * 2
}

/// The vertical texture coordinate of one line, after vertical mosaic.
pub open spec fn text_bg_scy_spec(bg: &TextBG, line: u32) -> int {
    let raw_scy = (bg.yoffset + line) as int % (bg.height as int);
    if bg.mosaic_y > 1 {
        raw_scy - raw_scy % (bg.mosaic_y as int)
    } else {
        raw_scy
    }
}

/// The palette entry a text background shows at column `dx` of `line`, or
/// nothing where it is transparent or its tile data lies out of range: the
/// scrolled (and mosaic-snapped) coordinate picks a tile map entry, whose
/// tile number, palette and flips pick the texel.
pub open spec fn text_bg_entry_spec(
    bg: &TextBG,
    vram: Seq<u8>,
    line: u32,
    dx: int,
    bpp8: bool,
) -> Option<u8> {
    let scy = text_bg_scy_spec(bg, line);
    let base_ty = scy % 8;
    let mdx = if bg.mosaic_x > 1 {
        dx % (bg.mosaic_x as int)
    } else {
        0
    };
    let scx = (bg.xoffset + dx - mdx) % (bg.width as int);
    let tio = tile_info_offset_spec(bg, scx, scy);
    if tio >= 0x1_0000 {
        None
    } else {
        let tile_info = vram_halfword_spec(vram, tio);
        let tile_number = tile_info as int % 0x400;
        let hflip = (tile_info >> 10u16) % 2 == 1;
        let vflip = (tile_info >> 11u16) % 2 == 1;
        let tx = if hflip {
            7 - scx % 8
        } else {
            scx % 8
        };
        let ty = if vflip {
            7 - base_ty
        } else {
            base_ty
        };
        if !bpp8 {
            let pixel_offset = bg.char_base + 32 * tile_number + ty * 4 + tx / 2;
            if pixel_offset >= 0x1_0000 {
                None
            } else {
                let byte = vram[pixel_offset];
                let entry = if tx % 2 == 0 {
                    byte as int % 16
                } else {
                    byte as int / 16
                };
                if entry == 0 {
                    None
                } else {
                    let tile_palette = (tile_info >> 12u16) % 16;
                    Some(((tile_palette % 16) * 16 + entry) as u8)
                }
            }
        } else {
            let pixel_offset = bg.char_base + 64 * tile_number + ty * 8 + tx;
            if pixel_offset >= 0x1_0000 {
                None
            } else {
                let entry = vram[pixel_offset];
                if entry == 0 {
                    None
                } else {
                    Some(entry)
                }
            }
        }
    }
}

/// The pixel flags a text background pushes: its layer field and its blend
/// target selections.
pub open spec fn text_flags_spec(layer: Layer, first_target: bool, second_target: bool) -> u16 {
    layer_mask_spec(layer) | (if first_target {
        PIXEL_FIRST_TARGET
    } else {
        0u16
    }) | (if second_target {
        PIXEL_SECOND_TARGET
    } else {
        0u16
    })
}

/// What one text background draw leaves at column `x`: where the background
/// shows a palette entry and the window mask allows, the flagged entry goes
/// on top; everywhere else the column keeps what it had.
pub open spec fn text_bg_column_spec(
    bg: &TextBG,
    layer: Layer,
    windows: &WindowInfo,
    vram: Seq<u8>,
    line: u32,
    bpp8: bool,
    prev: Seq<Pixels2>,
    x: int,
) -> Pixels2 {
    match text_bg_entry_spec(bg, vram, line, x, bpp8) {
        Some(entry) => if window_allow_spec(windows, layer, x) {
            Pixels2 {
                top: Pixel(
                    (text_flags_spec(layer, bg.first_target, bg.second_target) & window_mask_spec(
                        windows,
                        layer,
                        x,
                    )) | (entry as u16),
                ),
                bot: prev[x].top,
            }
        } else {
            prev[x]
        },
        None => prev[x],
    }
}

/// A whole text background line, column by column.
pub open spec fn text_bg_line_spec(
    bg: &TextBG,
    layer: Layer,
    windows: &WindowInfo,
    vram: Seq<u8>,
    line: u32,
    bpp8: bool,
    prev: Seq<Pixels2>,
) -> Seq<Pixels2> {
    Seq::new(240, |x: int| text_bg_column_spec(bg, layer, windows, vram, line, bpp8, prev, x))
}

/// The little-endian halfword at `offset` in VRAM.
fn vram_halfword(vram: &Vec<u8>, offset: u32) -> (r: u16)
    requires
        vram.len() == 0x18000,
        offset < 0x17FFF,
    ensures
        r == (vram@[offset as int] as u16) + (vram@[offset as int + 1] as u16) * 0x100,
{
    (vram[offset as usize] as u16) + (vram[(offset + 1) as usize] as u16) * 0x100
}

/// Draws one 16-color text background line into the composition buffer:
/// column by column, exactly what `text_bg_column_spec` says the scrolled
/// tile map, the tile texels and the window mask select.
pub fn draw_text_bg_4bpp(
    layer: Layer,
    line: u32,
    bg: &TextBG,
    vram: &Vec<u8>,
    dest: &mut LCDLineBuffer,
)
    requires
        old(dest).wf(),
        bg.wf(),
        vram.len() == 0x18000,
        line < 160,
        layer != Layer::Backdrop,
        layer != Layer::OBJ,
    ensures
        final(dest).wf(),
        final(dest).windows == old(dest).windows,
        final(dest).obj@ == old(dest).obj@,
        final(dest).mixed@ == old(dest).mixed@,
        final(dest).bitmap_palette@ == old(dest).bitmap_palette@,
        final(dest).obj_cycles == old(dest).obj_cycles,
        final(dest).unmixed@ == text_bg_line_spec(
            bg,
            layer,
            &old(dest).windows,
            vram@,
            line,
            false,
            old(dest).unmixed@,
        ),
{
    let start_scx = bg.xoffset;
    let raw_scy = (bg.yoffset + line) % bg.height;
    let scy = if bg.mosaic_y > 1 {
        proof {
            assert(raw_scy % bg.mosaic_y <= raw_scy) by (nonlinear_arith)
                requires
                    bg.mosaic_y > 1,
            ;
        }
        raw_scy - (raw_scy % bg.mosaic_y)
    } else {
        raw_scy
    };
    let base_ty = scy % 8;
    let mut first_target_mask: u16 = 0;
    if bg.first_target {
        first_target_mask = PIXEL_FIRST_TARGET;
    }
    let mut second_target_mask: u16 = 0;
    if bg.second_target {
        second_target_mask = PIXEL_SECOND_TARGET;
    }
    let pixel_mask = Pixel::layer_mask(layer) | first_target_mask | second_target_mask;
    let mut dx: u32 = 0;
    while dx < 240
        invariant
            dest.wf(),
            dest.windows == old(dest).windows,
            dest.obj@ == old(dest).obj@,
            dest.mixed@ == old(dest).mixed@,
            dest.bitmap_palette@ == old(dest).bitmap_palette@,
            dest.obj_cycles == old(dest).obj_cycles,
            bg.wf(),
            vram.len() == 0x18000,
            start_scx == bg.xoffset,
            start_scx < 0x1_0000,
            scy == text_bg_scy_spec(bg, line),
            scy < bg.height,
            base_ty == scy % 8,
            base_ty < 8,
            pixel_mask == text_flags_spec(layer, bg.first_target, bg.second_target),
            layer != Layer::Backdrop,
            layer != Layer::OBJ,
            dx <= 240,
            forall|k: int|
                #![trigger dest.unmixed@[k]]
                0 <= k < dx ==> dest.unmixed@[k] == text_bg_column_spec(
                    bg,
                    layer,
                    &old(dest).windows,
                    vram@,
                    line,
                    false,
                    old(dest).unmixed@,
                    k,
                ),
            forall|k: int|
                #![trigger dest.unmixed@[k]]
                dx <= k < 240 ==> dest.unmixed@[k] == old(dest).unmixed@[k],
        decreases 240 - dx,
    {
        let mdx = if bg.mosaic_x > 1 {
            proof {
                assert(dx % bg.mosaic_x <= dx) by (nonlinear_arith)
                    requires
                        bg.mosaic_x > 1,
                ;
            }
            dx % bg.mosaic_x
        } else {
            0
        };
        let scx = (start_scx + dx - mdx) % bg.width;
        let tile_info_offset = bg.get_tile_info_offset(scx, scy);
        if tile_info_offset < 0x1_0000 {
            let tile_info = vram_halfword(vram, tile_info_offset);
            let tile_number = (tile_info % 0x400) as u32;
            let tile_palette = ((tile_info >> 12) % 16) as u8;
            let hflip = (tile_info >> 10) % 2 == 1;
            let vflip = (tile_info >> 11) % 2 == 1;
            let tx = if hflip {
                7 - (scx % 8)
            } else {
                scx % 8
            };
            let ty = if vflip {
                7 - base_ty
            } else {
                base_ty
            };
            let pixel_offset = bg.char_base + 32 * tile_number + ty * 4 + tx / 2;
            if pixel_offset < 0x1_0000 {
                let byte = vram[pixel_offset as usize];
                let entry = if tx % 2 == 0 {
                    byte % 16
                } else {
                    byte / 16
                };
                if entry != 0 {
                    let pal_entry = (tile_palette % 16) * 16 + entry;
                    proof {
                        assert(text_bg_entry_spec(bg, vram@, line, dx as int, false) == Some(
                            pal_entry,
                        ));
                    }
                    let allowed: bool;
                    let mut mask: u16 = 0xFFFF;
                    if dest.windows.enabled {
                        let checked = dest.windows.check_pixel(layer, dx as usize);
                        match checked {
                            Some(m) => {
                                allowed = true;
                                mask = m;
                            },
                            None => {
                                allowed = false;
                            },
                        }
                    } else {
                        allowed = true;
                    }
                    if allowed {
                        dest.push_pixel(
                            dx as usize,
                            Pixel((pixel_mask & mask) | (pal_entry as u16)),
                        );
                    }
                } else {
                    proof {
                        assert(text_bg_entry_spec(bg, vram@, line, dx as int, false) is None);
                    }
                }
            } else {
                proof {
                    assert(text_bg_entry_spec(bg, vram@, line, dx as int, false) is None);
                }
            }
        } else {
            proof {
                assert(text_bg_entry_spec(bg, vram@, line, dx as int, false) is None);
            }
        }
        proof {
            assert(dest.unmixed@[dx as int] == text_bg_column_spec(
                bg,
                layer,
                &old(dest).windows,
                vram@,
                line,
                false,
                old(dest).unmixed@,
                dx as int,
            ));
        }
        dx += 1;
    }
    proof {
        assert(dest.unmixed@ =~= text_bg_line_spec(
            bg,
            layer,
            &old(dest).windows,
            vram@,
            line,
            false,
            old(dest).unmixed@,
        ));
    }
}

/// Draws one 256-color text background line into the composition buffer:
/// column by column, exactly what `text_bg_column_spec` says.
pub fn draw_text_bg_8bpp(
    layer: Layer,
    line: u32,
    bg: &TextBG,
    vram: &Vec<u8>,
    dest: &mut LCDLineBuffer,
)
    requires
        old(dest).wf(),
        bg.wf(),
        vram.len() == 0x18000,
        line < 160,
        layer != Layer::Backdrop,
        layer != Layer::OBJ,
    ensures
        final(dest).wf(),
        final(dest).windows == old(dest).windows,
        final(dest).obj@ == old(dest).obj@,
        final(dest).mixed@ == old(dest).mixed@,
        final(dest).bitmap_palette@ == old(dest).bitmap_palette@,
        final(dest).obj_cycles == old(dest).obj_cycles,
        final(dest).unmixed@ == text_bg_line_spec(
            bg,
            layer,
            &old(dest).windows,
            vram@,
            line,
            true,
            old(dest).unmixed@,
        ),
{
    let start_scx = bg.xoffset;
    let raw_scy = (bg.yoffset + line) % bg.height;
    let scy = if bg.mosaic_y > 1 {
        proof {
            assert(raw_scy % bg.mosaic_y <= raw_scy) by (nonlinear_arith)
                requires
                    bg.mosaic_y > 1,
            ;
        }
        raw_scy - (raw_scy % bg.mosaic_y)
    } else {
        raw_scy
    };
    let base_ty = scy % 8;
    let mut first_target_mask: u16 = 0;
    if bg.first_target {
        first_target_mask = PIXEL_FIRST_TARGET;
    }
    let mut second_target_mask: u16 = 0;
    if bg.second_target {
        second_target_mask = PIXEL_SECOND_TARGET;
    }
    let pixel_mask = Pixel::layer_mask(layer) | first_target_mask | second_target_mask;
    let mut dx: u32 = 0;
    while dx < 240
        invariant
            dest.wf(),
            dest.windows == old(dest).windows,
            dest.obj@ == old(dest).obj@,
            dest.mixed@ == old(dest).mixed@,
            dest.bitmap_palette@ == old(dest).bitmap_palette@,
            dest.obj_cycles == old(dest).obj_cycles,
            bg.wf(),
            vram.len() == 0x18000,
            start_scx == bg.xoffset,
            start_scx < 0x1_0000,
            scy == text_bg_scy_spec(bg, line),
            scy < bg.height,
            base_ty == scy % 8,
            base_ty < 8,
            pixel_mask == text_flags_spec(layer, bg.first_target, bg.second_target),
            layer != Layer::Backdrop,
            layer != Layer::OBJ,
            dx <= 240,
            forall|k: int|
                #![trigger dest.unmixed@[k]]
                0 <= k < dx ==> dest.unmixed@[k] == text_bg_column_spec(
                    bg,
                    layer,
                    &old(dest).windows,
                    vram@,
                    line,
                    true,
                    old(dest).unmixed@,
                    k,
                ),
            forall|k: int|
                #![trigger dest.unmixed@[k]]
                dx <= k < 240 ==> dest.unmixed@[k] == old(dest).unmixed@[k],
        decreases 240 - dx,
    {
        let mdx = if bg.mosaic_x > 1 {
            proof {
                assert(dx % bg.mosaic_x <= dx) by (nonlinear_arith)
                    requires
                        bg.mosaic_x > 1,
                ;
            }
            dx % bg.mosaic_x
        } else {
            0
        };
        let scx = (start_scx + dx - mdx) % bg.width;
        let tile_info_offset = bg.get_tile_info_offset(scx, scy);
        if tile_info_offset < 0x1_0000 {
            let tile_info = vram_halfword(vram, tile_info_offset);
            let tile_number = (tile_info % 0x400) as u32;
            let hflip = (tile_info >> 10) % 2 == 1;
            let vflip = (tile_info >> 11) % 2 == 1;
            let tx = if hflip {
                7 - (scx % 8)
            } else {
                scx % 8
            };
            let ty = if vflip {
                7 - base_ty
            } else {
                base_ty
            };
            let pixel_offset = bg.char_base + 64 * tile_number + ty * 8 + tx;
            if pixel_offset < 0x1_0000 {
                let entry = vram[pixel_offset as usize];
                if entry != 0 {
                    proof {
                        assert(text_bg_entry_spec(bg, vram@, line, dx as int, true) == Some(entry));
                    }
                    let allowed: bool;
                    let mut mask: u16 = 0xFFFF;
                    if dest.windows.enabled {
                        let checked = dest.windows.check_pixel(layer, dx as usize);
                        match checked {
                            Some(m) => {
                                allowed = true;
                                mask = m;
                            },
                            None => {
                                allowed = false;
                            },
                        }
                    } else {
                        allowed = true;
                    }
                    if allowed {
                        dest.push_pixel(dx as usize, Pixel((pixel_mask & mask) | (entry as u16)));
                    }
                } else {
                    proof {
                        assert(text_bg_entry_spec(bg, vram@, line, dx as int, true) is None);
                    }
                }
            } else {
                proof {
                    assert(text_bg_entry_spec(bg, vram@, line, dx as int, true) is None);
                }
            }
        } else {
            proof {
                assert(text_bg_entry_spec(bg, vram@, line, dx as int, true) is None);
            }
        }
        proof {
            assert(dest.unmixed@[dx as int] == text_bg_column_spec(
                bg,
                layer,
                &old(dest).windows,
                vram@,
                line,
                true,
                old(dest).unmixed@,
                dx as int,
            ));
        }
        dx += 1;
    }
    proof {
        assert(dest.unmixed@ =~= text_bg_line_spec(
            bg,
            layer,
            &old(dest).windows,
            vram@,
            line,
            true,
            old(dest).unmixed@,
        ));
    }
}

/// A fixed-point accumulator after `dx` wrapping steps from `base`.
pub open spec fn affine_accum_spec(base: i32, step: i32, dx: int) -> i32
    decreases dx,
{
    if dx <= 0 {
        base
    } else {
        affine_accum_spec(base, step, dx - 1).wrapping_add(step)
    }
}

/// The texture side length of an affine background: 128 pixels, doubled per
/// screen-size step.
pub open spec fn affine_side_spec(control: BGControl) -> int {
    let size_field = control.screen_size % 4;
    if size_field == 0 {
        128
    } else if size_field == 1 {
        256
    } else if size_field == 2 {
        512
    } else {
        1024
    }
}

/// The palette entry an affine background samples with its accumulators at
/// (x, y), or nothing when sampling falls outside a non-wrapping texture or
/// out-of-range tile data; the texture is always 256-color.
pub open spec fn affine_entry_spec(control: BGControl, vram: Seq<u8>, x: i32, y: i32) -> Option<
    u8,
> {
    let side = affine_side_spec(control);
    let tiles_per_side = side / 8;
    let char_base = (control.char_base_block % 4) * 16 * 1024;
    let screen_base = (control.screen_base_block % 32) * 2 * 1024;
    let tex_x_raw = x >> 8u32;
    let tex_y_raw = y >> 8u32;
    if !(control.wraparound || (tex_x_raw >= 0 && tex_x_raw < side && tex_y_raw >= 0 && tex_y_raw
        < side)) {
        None
    } else {
        let tex_x = (tex_x_raw as u32) as int % side;
        let tex_y = (tex_y_raw as u32) as int % side;
        let entry_offset = screen_base + (tex_y / 8) * tiles_per_side + tex_x / 8;
        if entry_offset >= 0x1_8000 {
            None
        } else {
            let tile_number = vram[entry_offset] as int;
            let pixel_offset = char_base + tile_number * 64 + (tex_y % 8) * 8 + (tex_x % 8);
            if pixel_offset >= 0x1_0000 {
                None
            } else if vram[pixel_offset] == 0 {
                None
            } else {
                Some(vram[pixel_offset])
            }
        }
    }
}

/// What one affine background draw leaves at column `x`.
pub open spec fn affine_column_spec(
    control: BGControl,
    layer: Layer,
    windows: &WindowInfo,
    vram: Seq<u8>,
    params_x: i32,
    params_y: i32,
    param_a: i32,
    param_c: i32,
    first_target: bool,
    second_target: bool,
    prev: Seq<Pixels2>,
    x: int,
) -> Pixels2 {
    match affine_entry_spec(
        control,
        vram,
        affine_accum_spec(params_x, param_a, x),
        affine_accum_spec(params_y, param_c, x),
    ) {
        Some(entry) => if window_allow_spec(windows, layer, x) {
            Pixels2 {
                top: Pixel(
                    (text_flags_spec(layer, first_target, second_target) & window_mask_spec(
                        windows,
                        layer,
                        x,
                    )) | (entry as u16),
                ),
                bot: prev[x].top,
            }
        } else {
            prev[x]
        },
        None => prev[x],
    }
}

/// A whole affine background line, column by column.
pub open spec fn affine_line_spec(
    control: BGControl,
    layer: Layer,
    windows: &WindowInfo,
    vram: Seq<u8>,
    params_x: i32,
    params_y: i32,
    param_a: i32,
    param_c: i32,
    first_target: bool,
    second_target: bool,
    prev: Seq<Pixels2>,
) -> Seq<Pixels2> {
    Seq::new(
        240,
        |x: int|
            affine_column_spec(
                control,
                layer,
                windows,
                vram,
                params_x,
                params_y,
                param_a,
                param_c,
                first_target,
                second_target,
                prev,
                x,
            ),
    )
}

/// Draws one affine (rotation/scaling) background line: the internal
/// reference point walks the texture by (a, c) per pixel, with per-control
/// wraparound; the texture is always 256-color. Each column ends as
/// `affine_column_spec` says.
fn draw_affine_bg(
    layer: Layer,
    control: BGControl,
    params_x: i32,
    params_y: i32,
    param_a: i32,
    param_c: i32,
    first_target: bool,
    second_target: bool,
    vram: &Vec<u8>,
    dest: &mut LCDLineBuffer,
)
    requires
        old(dest).wf(),
        vram.len() == 0x18000,
        layer != Layer::Backdrop,
        layer != Layer::OBJ,
    ensures
        final(dest).wf(),
        final(dest).windows == old(dest).windows,
        final(dest).obj@ == old(dest).obj@,
        final(dest).mixed@ == old(dest).mixed@,
        final(dest).bitmap_palette@ == old(dest).bitmap_palette@,
        final(dest).obj_cycles == old(dest).obj_cycles,
        final(dest).unmixed@ == affine_line_spec(
            control,
            layer,
            &old(dest).windows,
            vram@,
            params_x,
            params_y,
            param_a,
            param_c,
            first_target,
            second_target,
            old(dest).unmixed@,
        ),
{
    // Texture side length in pixels: 128 << screen_size.
    let size_field = control.screen_size() % 4;
    let side: u32 = if size_field == 0 {
        128
    } else if size_field == 1 {
        256
    } else if size_field == 2 {
        512
    } else {
        1024
    };
    let tiles_per_side: u32 = side / 8;
    let char_base: u32 = (control.char_base_block() % 4) as u32 * 16 * 1024;
    let screen_base: u32 = (control.screen_base_block() % 32) as u32 * 2 * 1024;
    let wrap = control.wraparound();
    let mut first_target_mask: u16 = 0;
    if first_target {
        first_target_mask = PIXEL_FIRST_TARGET;
    }
    let mut second_target_mask: u16 = 0;
    if second_target {
        second_target_mask = PIXEL_SECOND_TARGET;
    }
    let pixel_mask = Pixel::layer_mask(layer) | first_target_mask | second_target_mask;
    let mut x: i32 = params_x;
    let mut y: i32 = params_y;
    let mut dx: u32 = 0;
    while dx < 240
        invariant
            dest.wf(),
            dest.windows == old(dest).windows,
            dest.obj@ == old(dest).obj@,
            dest.mixed@ == old(dest).mixed@,
            dest.bitmap_palette@ == old(dest).bitmap_palette@,
            dest.obj_cycles == old(dest).obj_cycles,
            vram.len() == 0x18000,
            side == 128 || side == 256 || side == 512 || side == 1024,
            side == affine_side_spec(control),
            tiles_per_side == side / 8,
            char_base == (control.char_base_block % 4) * 16 * 1024,
            screen_base == (control.screen_base_block % 32) * 2 * 1024,
            char_base <= 0xC000,
            screen_base <= 0xF800,
            wrap == control.wraparound,
            pixel_mask == text_flags_spec(layer, first_target, second_target),
            x == affine_accum_spec(params_x, param_a, dx as int),
            y == affine_accum_spec(params_y, param_c, dx as int),
            layer != Layer::Backdrop,
            layer != Layer::OBJ,
            dx <= 240,
            forall|k: int|
                #![trigger dest.unmixed@[k]]
                0 <= k < dx ==> dest.unmixed@[k] == affine_column_spec(
                    control,
                    layer,
                    &old(dest).windows,
                    vram@,
                    params_x,
                    params_y,
                    param_a,
                    param_c,
                    first_target,
                    second_target,
                    old(dest).unmixed@,
                    k,
                ),
            forall|k: int|
                #![trigger dest.unmixed@[k]]
                dx <= k < 240 ==> dest.unmixed@[k] == old(dest).unmixed@[k],
        decreases 240 - dx,
    {
        let tex_x_raw: i32 = x >> 8u32;
        let tex_y_raw: i32 = y >> 8u32;
        let in_range = wrap || (tex_x_raw >= 0 && tex_x_raw < side as i32 && tex_y_raw >= 0
            && tex_y_raw < side as i32);
        if in_range {
            let tex_x = (tex_x_raw as u32) % side;
            let tex_y = (tex_y_raw as u32) % side;
            let tile_x = tex_x / 8;
            let tile_y = tex_y / 8;
            let entry_offset = screen_base + tile_y * tiles_per_side + tile_x;
            if entry_offset < 0x1_8000 {
                let tile_number = vram[entry_offset as usize] as u32;
                let pixel_offset = char_base + tile_number * 64 + (tex_y % 8) * 8 + (tex_x % 8);
                if pixel_offset < 0x1_0000 {
                    let entry = vram[pixel_offset as usize];
                    if entry != 0 {
                        let allowed: bool;
                        let mut mask: u16 = 0xFFFF;
                        if dest.windows.enabled {
                            let checked = dest.windows.check_pixel(layer, dx as usize);
                            match checked {
                                Some(m) => {
                                    allowed = true;
                                    mask = m;
                                },
                                None => {
                                    allowed = false;
                                },
                            }
                        } else {
                            allowed = true;
                        }
                        if allowed {
                            dest.push_pixel(
                                dx as usize,
                                Pixel((pixel_mask & mask) | (entry as u16)),
                            );
                        }
                    }
                }
            }
        }
        proof {
            assert(dest.unmixed@[dx as int] == affine_column_spec(
                control,
                layer,
                &old(dest).windows,
                vram@,
                params_x,
                params_y,
                param_a,
                param_c,
                first_target,
                second_target,
                old(dest).unmixed@,
                dx as int,
            ));
        }
        x = x.wrapping_add(param_a);
        y = y.wrapping_add(param_c);
        dx += 1;
    }
    proof {
        assert(dest.unmixed@ =~= affine_line_spec(
            control,
            layer,
            &old(dest).windows,
            vram@,
            params_x,
            params_y,
            param_a,
            param_c,
            first_target,
            second_target,
            old(dest).unmixed@,
        ));
    }
}

/// What the text background `bg_index` contributes at `priority`: its line
/// (in the depth its `palette256` bit selects) when it is enabled and sits
/// at that priority, and nothing otherwise.
pub open spec fn text_bg_step_spec(
    registers: &LCDRegisters,
    windows: &WindowInfo,
    vram: Seq<u8>,
    prev: Seq<Pixels2>,
    bg_index: int,
    priority: int,
) -> Seq<Pixels2> {
    let layer = layer_of_bg_spec(bg_index);
    if registers.dispcnt.display_layer_spec(layer) && registers.bg_cnt@[bg_index].priority
        == priority {
        text_bg_line_spec(
            &textbg_spec(
                registers.bg_cnt@[bg_index],
                registers.bg_ofs@[bg_index],
                registers.mosaic,
                registers.effects.is_first_target_spec(layer),
                registers.effects.is_second_target_spec(layer),
            ),
            layer,
            windows,
            vram,
            registers.line as u32,
            registers.bg_cnt@[bg_index].palette256,
            prev,
        )
    } else {
        prev
    }
}

/// What the affine background `bg_index` (2 or 3) contributes at
/// `priority`, sampling from its internal reference point.
pub open spec fn affine_bg_step_spec(
    registers: &LCDRegisters,
    windows: &WindowInfo,
    vram: Seq<u8>,
    prev: Seq<Pixels2>,
    bg_index: int,
    priority: int,
) -> Seq<Pixels2> {
    let layer = layer_of_bg_spec(bg_index);
    let params = if bg_index == 2 {
        registers.bg2_affine_params
    } else {
        registers.bg3_affine_params
    };
    if registers.dispcnt.display_layer_spec(layer) && registers.bg_cnt@[bg_index].priority
        == priority {
        affine_line_spec(
            registers.bg_cnt@[bg_index],
            layer,
            windows,
            vram,
            params.internal_x.inner,
            params.internal_y.inner,
            params.a.inner,
            params.c.inner,
            registers.effects.is_first_target_spec(layer),
            registers.effects.is_second_target_spec(layer),
            prev,
        )
    } else {
        prev
    }
}

/// Draws the text background `bg_index` if it sits at `priority`.
fn draw_text_bg_if_selected(
    registers: &LCDRegisters,
    bg_index: u16,
    priority: u16,
    vram: &Vec<u8>,
    pixels: &mut LCDLineBuffer,
)
    requires
        old(pixels).wf(),
        registers.wf(),
        registers.line < 160,
        vram.len() == 0x18000,
        bg_index < 4,
    ensures
        final(pixels).wf(),
        final(pixels).windows == old(pixels).windows,
        final(pixels).obj@ == old(pixels).obj@,
        final(pixels).mixed@ == old(pixels).mixed@,
        final(pixels).bitmap_palette@ == old(pixels).bitmap_palette@,
        final(pixels).obj_cycles == old(pixels).obj_cycles,
        final(pixels).unmixed@ == text_bg_step_spec(
            registers,
            &old(pixels).windows,
            vram@,
            old(pixels).unmixed@,
            bg_index as int,
            priority as int,
        ),
{
    let layer = Layer::from_bg(bg_index);
    if registers.dispcnt.display_layer(layer) && registers.bg_cnt[bg_index as usize].priority()
        == priority {
        let first_target = registers.effects.is_first_target(layer);
        let second_target = registers.effects.is_second_target(layer);
        let textbg = TextBG::new(
            registers.bg_cnt[bg_index as usize],
            registers.bg_ofs[bg_index as usize],
            registers.mosaic,
            first_target,
            second_target,
        );
        if registers.bg_cnt[bg_index as usize].palette256() {
            draw_text_bg_8bpp(layer, registers.line as u32, &textbg, vram, pixels);
        } else {
            draw_text_bg_4bpp(layer, registers.line as u32, &textbg, vram, pixels);
        }
    }
}

/// Draws the affine background `bg_index` (2 or 3) if it sits at `priority`.
fn draw_affine_bg_if_selected(
    registers: &LCDRegisters,
    bg_index: u16,
    priority: u16,
    vram: &Vec<u8>,
    pixels: &mut LCDLineBuffer,
)
    requires
        old(pixels).wf(),
        registers.wf(),
        registers.line < 160,
        vram.len() == 0x18000,
        bg_index == 2 || bg_index == 3,
    ensures
        final(pixels).wf(),
        final(pixels).windows == old(pixels).windows,
        final(pixels).obj@ == old(pixels).obj@,
        final(pixels).mixed@ == old(pixels).mixed@,
        final(pixels).bitmap_palette@ == old(pixels).bitmap_palette@,
        final(pixels).obj_cycles == old(pixels).obj_cycles,
        final(pixels).unmixed@ == affine_bg_step_spec(
            registers,
            &old(pixels).windows,
            vram@,
            old(pixels).unmixed@,
            bg_index as int,
            priority as int,
        ),
{
    let layer = Layer::from_bg(bg_index);
    if registers.dispcnt.display_layer(layer) && registers.bg_cnt[bg_index as usize].priority()
        == priority {
        let params = if bg_index == 2 {
            registers.bg2_affine_params
        } else {
            registers.bg3_affine_params
        };
        draw_affine_bg(
            layer,
            registers.bg_cnt[bg_index as usize],
            params.internal_x.to_inner(),
            params.internal_y.to_inner(),
            params.a.to_inner(),
            params.c.to_inner(),
            registers.effects.is_first_target(layer),
            registers.effects.is_second_target(layer),
            vram,
            pixels,
        );
    }
}

/// Mode 0 composition after `steps` of its sixteen draws: priorities 3
/// down to 0, and BG3 down to BG0 within one priority, so lower priority
/// numbers end on top.
pub open spec fn mode0_after_spec(
    registers: &LCDRegisters,
    windows: &WindowInfo,
    vram: Seq<u8>,
    prev: Seq<Pixels2>,
    steps: int,
) -> Seq<Pixels2>
    decreases steps,
{
    if steps <= 0 {
        prev
    } else {
        let s = steps - 1;
        text_bg_step_spec(
            registers,
            windows,
            vram,
            mode0_after_spec(registers, windows, vram, prev, s),
            3 - s % 4,
            3 - s / 4,
        )
    }
}

/// Mode 1 composition after `steps` of its twelve draws: per priority,
/// affine BG2, then text BG1, then text BG0.
pub open spec fn mode1_after_spec(
    registers: &LCDRegisters,
    windows: &WindowInfo,
    vram: Seq<u8>,
    prev: Seq<Pixels2>,
    steps: int,
) -> Seq<Pixels2>
    decreases steps,
{
    if steps <= 0 {
        prev
    } else {
        let s = steps - 1;
        let prior = mode1_after_spec(registers, windows, vram, prev, s);
        let priority = 3 - s / 3;
        if s % 3 == 0 {
            affine_bg_step_spec(registers, windows, vram, prior, 2, priority)
        } else if s % 3 == 1 {
            text_bg_step_spec(registers, windows, vram, prior, 1, priority)
        } else {
            text_bg_step_spec(registers, windows, vram, prior, 0, priority)
        }
    }
}

/// Mode 2 composition after `steps` of its eight draws: per priority,
/// affine BG3 then affine BG2.
pub open spec fn mode2_after_spec(
    registers: &LCDRegisters,
    windows: &WindowInfo,
    vram: Seq<u8>,
    prev: Seq<Pixels2>,
    steps: int,
) -> Seq<Pixels2>
    decreases steps,
{
    if steps <= 0 {
        prev
    } else {
        let s = steps - 1;
        let prior = mode2_after_spec(registers, windows, vram, prev, s);
        let priority = 3 - s / 2;
        if s % 2 == 0 {
            affine_bg_step_spec(registers, windows, vram, prior, 3, priority)
        } else {
            affine_bg_step_spec(registers, windows, vram, prior, 2, priority)
        }
    }
}

/// Mode 0: four text backgrounds at independent priorities, composed from
/// the lowest priority up so the topmost pixel wins: the buffer ends as
/// the sixteen draws of `mode0_after_spec` leave it.
pub fn render_mode0(registers: &LCDRegisters, vram: &Vec<u8>, pixels: &mut LCDLineBuffer)
    requires
        old(pixels).wf(),
        registers.wf(),
        registers.line < 160,
        vram.len() == 0x18000,
    ensures
        final(pixels).wf(),
        final(pixels).windows == old(pixels).windows,
        final(pixels).obj@ == old(pixels).obj@,
        final(pixels).mixed@ == old(pixels).mixed@,
        final(pixels).bitmap_palette@ == old(pixels).bitmap_palette@,
        final(pixels).obj_cycles == old(pixels).obj_cycles,
        final(pixels).unmixed@ == mode0_after_spec(
            registers,
            &old(pixels).windows,
            vram@,
            old(pixels).unmixed@,
            16,
        ),
{
    let mut p: u16 = 4;
    while p > 0
        invariant
            pixels.wf(),
            pixels.windows == old(pixels).windows,
            pixels.obj@ == old(pixels).obj@,
            pixels.mixed@ == old(pixels).mixed@,
            pixels.bitmap_palette@ == old(pixels).bitmap_palette@,
            pixels.obj_cycles == old(pixels).obj_cycles,
            registers.wf(),
            registers.line < 160,
            vram.len() == 0x18000,
            p <= 4,
            pixels.unmixed@ == mode0_after_spec(
                registers,
                &old(pixels).windows,
                vram@,
                old(pixels).unmixed@,
                (4 - p) * 4,
            ),
        decreases p,
    {
        let priority = p - 1;
        let ghost k = (4 - p) * 4int;
        draw_text_bg_if_selected(registers, 3, priority, vram, pixels);
        proof {
            assert(pixels.unmixed@ == mode0_after_spec(
                registers,
                &old(pixels).windows,
                vram@,
                old(pixels).unmixed@,
                k + 1,
            ));
        }
        draw_text_bg_if_selected(registers, 2, priority, vram, pixels);
        proof {
            assert(pixels.unmixed@ == mode0_after_spec(
                registers,
                &old(pixels).windows,
                vram@,
                old(pixels).unmixed@,
                k + 2,
            ));
        }
        draw_text_bg_if_selected(registers, 1, priority, vram, pixels);
        proof {
            assert(pixels.unmixed@ == mode0_after_spec(
                registers,
                &old(pixels).windows,
                vram@,
                old(pixels).unmixed@,
                k + 3,
            ));
        }
        draw_text_bg_if_selected(registers, 0, priority, vram, pixels);
        proof {
            assert(pixels.unmixed@ == mode0_after_spec(
                registers,
                &old(pixels).windows,
                vram@,
                old(pixels).unmixed@,
                k + 4,
            ));
        }
        p = p - 1;
    }
}

/// Mode 1: BG0 and BG1 text, BG2 affine — the buffer ends as the twelve
/// draws of `mode1_after_spec` leave it — and both affine reference points
/// then advance by one scanline, by (b, d).
pub fn render_mode1(registers: &mut LCDRegisters, vram: &Vec<u8>, pixels: &mut LCDLineBuffer)
    requires
        old(pixels).wf(),
        old(registers).wf(),
        old(registers).line < 160,
        vram.len() == 0x18000,
    ensures
        final(pixels).wf(),
        final(pixels).windows == old(pixels).windows,
        final(pixels).obj@ == old(pixels).obj@,
        final(pixels).mixed@ == old(pixels).mixed@,
        final(pixels).bitmap_palette@ == old(pixels).bitmap_palette@,
        final(pixels).obj_cycles == old(pixels).obj_cycles,
        final(pixels).unmixed@ == mode1_after_spec(
            old(registers),
            &old(pixels).windows,
            vram@,
            old(pixels).unmixed@,
            12,
        ),
        final(registers).wf(),
        *final(registers) == (LCDRegisters {
            bg2_affine_params: AffineBGParams {
                internal_x: FixedPoint32 {
                    inner: old(registers).bg2_affine_params.internal_x.inner.wrapping_add(
                        old(registers).bg2_affine_params.b.inner,
                    ),
                },
                internal_y: FixedPoint32 {
                    inner: old(registers).bg2_affine_params.internal_y.inner.wrapping_add(
                        old(registers).bg2_affine_params.d.inner,
                    ),
                },
                ..old(registers).bg2_affine_params
            },
            bg3_affine_params: AffineBGParams {
                internal_x: FixedPoint32 {
                    inner: old(registers).bg3_affine_params.internal_x.inner.wrapping_add(
                        old(registers).bg3_affine_params.b.inner,
                    ),
                },
                internal_y: FixedPoint32 {
                    inner: old(registers).bg3_affine_params.internal_y.inner.wrapping_add(
                        old(registers).bg3_affine_params.d.inner,
                    ),
                },
                ..old(registers).bg3_affine_params
            },
            ..*old(registers)
        }),
{
    let mut p: u16 = 4;
    while p > 0
        invariant
            pixels.wf(),
            pixels.windows == old(pixels).windows,
            pixels.obj@ == old(pixels).obj@,
            pixels.mixed@ == old(pixels).mixed@,
            pixels.bitmap_palette@ == old(pixels).bitmap_palette@,
            pixels.obj_cycles == old(pixels).obj_cycles,
            *registers == *old(registers),
            registers.wf(),
            registers.line < 160,
            vram.len() == 0x18000,
            p <= 4,
            pixels.unmixed@ == mode1_after_spec(
                old(registers),
                &old(pixels).windows,
                vram@,
                old(pixels).unmixed@,
                (4 - p) * 3,
            ),
        decreases p,
    {
        let priority = p - 1;
        let ghost k = (4 - p) * 3int;
        draw_affine_bg_if_selected(registers, 2, priority, vram, pixels);
        proof {
            assert(pixels.unmixed@ == mode1_after_spec(
                old(registers),
                &old(pixels).windows,
                vram@,
                old(pixels).unmixed@,
                k + 1,
            ));
        }
        draw_text_bg_if_selected(registers, 1, priority, vram, pixels);
        proof {
            assert(pixels.unmixed@ == mode1_after_spec(
                old(registers),
                &old(pixels).windows,
                vram@,
                old(pixels).unmixed@,
                k + 2,
            ));
        }
        draw_text_bg_if_selected(registers, 0, priority, vram, pixels);
        proof {
            assert(pixels.unmixed@ == mode1_after_spec(
                old(registers),
                &old(pixels).windows,
                vram@,
                old(pixels).unmixed@,
                k + 3,
            ));
        }
        p = p - 1;
    }
    self_increment_affine(registers);
}

/// Mode 2: BG2 and BG3 affine — the buffer ends as the eight draws of
/// `mode2_after_spec` leave it — and both affine reference points then
/// advance by one scanline, by (b, d).
pub fn render_mode2(registers: &mut LCDRegisters, vram: &Vec<u8>, pixels: &mut LCDLineBuffer)
    requires
        old(pixels).wf(),
        old(registers).wf(),
        old(registers).line < 160,
        vram.len() == 0x18000,
    ensures
        final(pixels).wf(),
        final(pixels).windows == old(pixels).windows,
        final(pixels).obj@ == old(pixels).obj@,
        final(pixels).mixed@ == old(pixels).mixed@,
        final(pixels).bitmap_palette@ == old(pixels).bitmap_palette@,
        final(pixels).obj_cycles == old(pixels).obj_cycles,
        final(pixels).unmixed@ == mode2_after_spec(
            old(registers),
            &old(pixels).windows,
            vram@,
            old(pixels).unmixed@,
            8,
        ),
        final(registers).wf(),
        *final(registers) == (LCDRegisters {
            bg2_affine_params: AffineBGParams {
                internal_x: FixedPoint32 {
                    inner: old(registers).bg2_affine_params.internal_x.inner.wrapping_add(
                        old(registers).bg2_affine_params.b.inner,
                    ),
                },
                internal_y: FixedPoint32 {
                    inner: old(registers).bg2_affine_params.internal_y.inner.wrapping_add(
                        old(registers).bg2_affine_params.d.inner,
                    ),
                },
                ..old(registers).bg2_affine_params
            },
            bg3_affine_params: AffineBGParams {
                internal_x: FixedPoint32 {
                    inner: old(registers).bg3_affine_params.internal_x.inner.wrapping_add(
                        old(registers).bg3_affine_params.b.inner,
                    ),
                },
                internal_y: FixedPoint32 {
                    inner: old(registers).bg3_affine_params.internal_y.inner.wrapping_add(
                        old(registers).bg3_affine_params.d.inner,
                    ),
                },
                ..old(registers).bg3_affine_params
            },
            ..*old(registers)
        }),
{
    let mut p: u16 = 4;
    while p > 0
        invariant
            pixels.wf(),
            pixels.windows == old(pixels).windows,
            pixels.obj@ == old(pixels).obj@,
            pixels.mixed@ == old(pixels).mixed@,
            pixels.bitmap_palette@ == old(pixels).bitmap_palette@,
            pixels.obj_cycles == old(pixels).obj_cycles,
            *registers == *old(registers),
            registers.wf(),
            registers.line < 160,
            vram.len() == 0x18000,
            p <= 4,
            pixels.unmixed@ == mode2_after_spec(
                old(registers),
                &old(pixels).windows,
                vram@,
                old(pixels).unmixed@,
                (4 - p) * 2,
            ),
        decreases p,
    {
        let priority = p - 1;
        let ghost k = (4 - p) * 2int;
        draw_affine_bg_if_selected(registers, 3, priority, vram, pixels);
        proof {
            assert(pixels.unmixed@ == mode2_after_spec(
                old(registers),
                &old(pixels).windows,
                vram@,
                old(pixels).unmixed@,
                k + 1,
            ));
        }
        draw_affine_bg_if_selected(registers, 2, priority, vram, pixels);
        proof {
            assert(pixels.unmixed@ == mode2_after_spec(
                old(registers),
                &old(pixels).windows,
                vram@,
                old(pixels).unmixed@,
                k + 2,
            ));
        }
        p = p - 1;
    }
    self_increment_affine(registers);
}

/// Advances both affine reference points to the next scanline: each
/// internal point moves by its (b, d) step and nothing else changes.
fn self_increment_affine(registers: &mut LCDRegisters)
    requires
        old(registers).wf(),
    ensures
        final(registers).wf(),
        *final(registers) == (LCDRegisters {
            bg2_affine_params: AffineBGParams {
                internal_x: FixedPoint32 {
                    inner: old(registers).bg2_affine_params.internal_x.inner.wrapping_add(
                        old(registers).bg2_affine_params.b.inner,
                    ),
                },
                internal_y: FixedPoint32 {
                    inner: old(registers).bg2_affine_params.internal_y.inner.wrapping_add(
                        old(registers).bg2_affine_params.d.inner,
                    ),
                },
                ..old(registers).bg2_affine_params
            },
            bg3_affine_params: AffineBGParams {
                internal_x: FixedPoint32 {
                    inner: old(registers).bg3_affine_params.internal_x.inner.wrapping_add(
                        old(registers).bg3_affine_params.b.inner,
                    ),
                },
                internal_y: FixedPoint32 {
                    inner: old(registers).bg3_affine_params.internal_y.inner.wrapping_add(
                        old(registers).bg3_affine_params.d.inner,
                    ),
                },
                ..old(registers).bg3_affine_params
            },
            ..*old(registers)
        }),
{
    self_increment_one(&mut registers.bg2_affine_params);
    self_increment_one(&mut registers.bg3_affine_params);
}

fn self_increment_one(params: &mut crate::lcd::AffineBGParams)
    ensures
        *final(params) == ({
            crate::lcd::AffineBGParams {
                internal_x: crate::lcd::FixedPoint32 {
                    inner: old(params).internal_x.inner.wrapping_add(old(params).b.inner),
                },
                internal_y: crate::lcd::FixedPoint32 {
                    inner: old(params).internal_y.inner.wrapping_add(old(params).d.inner),
                },
                ..*old(params)
            }
        }),
{
    params.increment_reference_points();
}

} // verus!
