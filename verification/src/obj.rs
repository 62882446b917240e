//! The object (sprite) renderer: walks the 128 OAM entries in index order
//! (the lowest index wins a column), samples flat or affine sprites in 16- or
//! 256-color depth with 1D or 2D tile mapping, respects the per-line object
//! cycle budget, and draws either into the object scratch line or into the
//! object window mask.

use vstd::prelude::*;
use crate::lcd::LCDLineBuffer;
use crate::lcd::LCDRegisters;
use crate::lcd::Layer;
use crate::lcd::Pixel;
use crate::lcd::PIXEL_FIRST_TARGET;
use crate::lcd::PIXEL_SECOND_TARGET;
use crate::lcd::PIXEL_SEMI_TRANSPARENT;

verus! {

/// One decoded OAM entry.
struct ObjAttrs {
    y: u32,
    affine: bool,
    double_or_disable: bool,
    mode: u32,
    color256: bool,
    shape: u32,
    x: u32,
    affine_group: u32,
    hflip: bool,
    vflip: bool,
    size: u32,
    tile: u32,
    priority: u16,
    palette: u16,
}

/// The little-endian halfword at `offset` in OAM.
fn oam_halfword(oam: &Vec<u8>, offset: u32) -> (r: u16)
    requires
        oam.len() == 0x400,
        offset < 0x3FF,
{
    (oam[offset as usize] as u16) | ((oam[(offset + 1) as usize] as u16) * 0x100)
}

/// Decodes sprite `index` from OAM.
fn read_attrs(oam: &Vec<u8>, index: u32) -> (r: ObjAttrs)
    requires
        oam.len() == 0x400,
        index < 128,
    ensures
        r.shape < 4,
        r.size < 4,
        r.mode < 4,
        r.x < 512,
        r.y < 256,
        r.affine_group < 32,
        r.tile < 1024,
        r.priority < 4,
        r.palette < 16,
{
    let base = index * 8;
    let attr0 = oam_halfword(oam, base);
    let attr1 = oam_halfword(oam, base + 2);
    let attr2 = oam_halfword(oam, base + 4);
    ObjAttrs {
        y: (attr0 % 0x100) as u32,
        affine: (attr0 >> 8) % 2 == 1,
        double_or_disable: (attr0 >> 9) % 2 == 1,
        mode: ((attr0 >> 10) % 4) as u32,
        color256: (attr0 >> 13) % 2 == 1,
        shape: ((attr0 >> 14) % 4) as u32,
        x: (attr1 % 0x200) as u32,
        affine_group: ((attr1 >> 9) % 32) as u32,
        hflip: (attr1 >> 12) % 2 == 1,
        vflip: (attr1 >> 13) % 2 == 1,
        size: ((attr1 >> 14) % 4) as u32,
        tile: (attr2 % 0x400) as u32,
        priority: (attr2 >> 10) % 4,
        palette: (attr2 >> 12) % 16,
    }
}

/// A sprite's width and height in pixels, by shape and size.
fn obj_dimensions(shape: u32, size: u32) -> (r: (u32, u32))
    requires
        shape < 4,
        size < 4,
    ensures
        8 <= r.0 <= 64,
        8 <= r.1 <= 64,
{
    if shape == 0 {
        if size == 0 {
            (8, 8)
        } else if size == 1 {
            (16, 16)
        } else if size == 2 {
            (32, 32)
        } else {
            (64, 64)
        }
    } else if shape == 1 {
        if size == 0 {
            (16, 8)
        } else if size == 1 {
            (32, 8)
        } else if size == 2 {
            (32, 16)
        } else {
            (64, 32)
        }
    } else {
        if size == 0 {
            (8, 16)
        } else if size == 1 {
            (8, 32)
        } else if size == 2 {
            (16, 32)
        } else {
            (32, 64)
        }
    }
}

/// Samples one texel of a sprite. Returns the palette entry (0 means
/// transparent), already offset into the object palette for 16-color
/// sprites.
fn sample_obj_texel(
    vram: &Vec<u8>,
    one_dimensional: bool,
    bitmap_mode: bool,
    color256: bool,
    tile: u32,
    palette: u16,
    width: u32,
    px: u32,
    py: u32,
) -> (r: u8)
    requires
        vram.len() == 0x18000,
        tile < 1024,
        palette < 16,
        8 <= width <= 64,
        px < width,
        py < 64,
{
    let tx = px / 8;
    let ty = py / 8;
    proof {
        crate::bits::lemma_mul_le(ty as int, 64, 7, 64);
    }
    if !color256 {
        let stride = if one_dimensional {
            width / 8
        } else {
            32
        };
        proof {
            crate::bits::lemma_mul_le(ty as int, stride as int, 7, 32);
        }
        let unit = (tile + ty * stride + tx) % 1024;
        if bitmap_mode && unit < 512 {
            return 0;
        }
        let addr = 0x10000 + unit * 32 + (py % 8) * 4 + (px % 8) / 2;
        if addr >= 0x18000 {
            return 0;
        }
        let byte = vram[addr as usize];
        let entry = if px % 2 == 0 {
            byte % 16
        } else {
            byte / 16
        };
        if entry == 0 {
            0
        } else {
            ((palette % 16) as u8) * 16 + entry
        }
    } else {
        let stride = if one_dimensional {
            (width / 8) * 2
        } else {
            32
        };
        proof {
            crate::bits::lemma_mul_le(ty as int, stride as int, 7, 32);
        }
        let unit = (tile + ty * stride + tx * 2) % 1024;
        if bitmap_mode && unit < 512 {
            return 0;
        }
        let addr = 0x10000 + unit * 32 + (py % 8) * 8 + (px % 8);
        if addr >= 0x18000 {
            return 0;
        }
        vram[addr as usize]
    }
}

/// One of the four 8.8 affine parameters of OAM parameter group `group`.
fn read_affine_param(oam: &Vec<u8>, group: u32, which: u32) -> (r: i32)
    requires
        oam.len() == 0x400,
        group < 32,
        which < 4,
{
    let offset = group * 32 + which * 8 + 6;
    (oam_halfword(oam, offset) as i16) as i32
}

/// Draws the sprites of one scanline. With `window_pass` set, only
/// object-window sprites contribute, into the window mask; otherwise the
/// visible sprites draw into the object scratch line, lowest OAM index
/// winning each column, within the cycle budget.
fn process_objs(
    registers: &LCDRegisters,
    vram: &Vec<u8>,
    oam: &Vec<u8>,
    pixels: &mut LCDLineBuffer,
    window_pass: bool,
)
    requires
        old(pixels).wf(),
        registers.wf(),
        registers.line < 160,
        vram.len() == 0x18000,
        oam.len() == 0x400,
    ensures
        final(pixels).wf(),
        final(pixels).mixed@ == old(pixels).mixed@,
        final(pixels).unmixed@ == old(pixels).unmixed@,
        final(pixels).bitmap_palette@ == old(pixels).bitmap_palette@,
        final(pixels).obj_cycles <= old(pixels).obj_cycles,
        window_pass ==> final(pixels).windows.enabled == old(pixels).windows.enabled,
        window_pass ==> final(pixels).obj@ == old(pixels).obj@ && final(pixels).obj_cycles == old(pixels).obj_cycles,
        window_pass ==> final(pixels).windows.win0_enabled == old(pixels).windows.win0_enabled
            && final(pixels).windows.win1_enabled == old(pixels).windows.win1_enabled && final(pixels).windows.win_obj_enabled == old(pixels).windows.win_obj_enabled && final(pixels).windows.layers@ == old(pixels).windows.layers@,
        window_pass ==> forall|b: int|
            #![trigger final(pixels).windows.winobj.get_spec(b)]
            0 <= b < 256 && old(pixels).windows.winobj.get_spec(b) ==> final(pixels).windows.winobj.get_spec(b),
        window_pass ==> forall|b: int|
            #![trigger final(pixels).windows.winobj.get_spec(b)]
            240 <= b < 256 ==> final(pixels).windows.winobj.get_spec(b) == old(pixels).windows.winobj.get_spec(b),
        !window_pass ==> final(pixels).windows == old(pixels).windows,
{
    let line = registers.line as u32;
    let one_dimensional = registers.dispcnt.one_dimensional_obj();
    let bitmap_mode = registers.dispcnt.mode() >= 3;
    let first_target = registers.effects.is_first_target(Layer::OBJ);
    let second_target = registers.effects.is_second_target(Layer::OBJ);
    let mut index: u32 = 0;
    while index < 128
        invariant
            pixels.wf(),
            pixels.mixed@ == old(pixels).mixed@,
            pixels.unmixed@ == old(pixels).unmixed@,
            pixels.bitmap_palette@ == old(pixels).bitmap_palette@,
            pixels.obj_cycles <= old(pixels).obj_cycles,
            window_pass ==> pixels.windows.enabled == old(pixels).windows.enabled,
            window_pass ==> pixels.obj@ == old(pixels).obj@ && pixels.obj_cycles == old(pixels).obj_cycles,
            window_pass ==> pixels.windows.win0_enabled == old(pixels).windows.win0_enabled
                && pixels.windows.win1_enabled == old(pixels).windows.win1_enabled
                && pixels.windows.win_obj_enabled == old(pixels).windows.win_obj_enabled
                && pixels.windows.layers@ == old(pixels).windows.layers@,
            window_pass ==> forall|b: int|
                #![trigger pixels.windows.winobj.get_spec(b)]
                0 <= b < 256 && old(pixels).windows.winobj.get_spec(b)
                    ==> pixels.windows.winobj.get_spec(b),
            window_pass ==> forall|b: int|
                #![trigger pixels.windows.winobj.get_spec(b)]
                240 <= b < 256 ==> pixels.windows.winobj.get_spec(b) == old(pixels).windows.winobj.get_spec(b),
            !window_pass ==> pixels.windows == old(pixels).windows,
            registers.wf(),
            registers.line < 160,
            line == registers.line,
            vram.len() == 0x18000,
            oam.len() == 0x400,
            index <= 128,
        decreases 128 - index,
    {
        let attrs = read_attrs(oam, index);
        let is_window_obj = attrs.mode == 2;
        let disabled = !attrs.affine && attrs.double_or_disable;
        let prohibited = attrs.mode == 3;
        if is_window_obj == window_pass && !disabled && !prohibited {
            let (width, height) = obj_dimensions(attrs.shape, attrs.size);
            let bbox_w = if attrs.affine && attrs.double_or_disable {
                width * 2
            } else {
                width
            };
            let bbox_h = if attrs.affine && attrs.double_or_disable {
                height * 2
            } else {
                height
            };
            // Screen-space vertical position, wrapped at 256.
            let dy = (line + 256 - attrs.y) % 256;
            if dy < bbox_h {
                let cost = if attrs.affine {
                    2 * bbox_w + 10
                } else {
                    bbox_w
                };
                if !window_pass && (pixels.obj_cycles as u32) < cost {
                    index += 1;
                    continue ;
                }
                if !window_pass {
                    proof {
                        assert(cost <= 266);
                    }
                    pixels.obj_cycles = pixels.obj_cycles - (cost as u16);
                }
                let mut flag_bits: u16 = Pixel::layer_mask(Layer::OBJ) + (attrs.priority % 4)
                    * 0x4000;
                if attrs.mode == 1 {
                    flag_bits = flag_bits | PIXEL_SEMI_TRANSPARENT | PIXEL_FIRST_TARGET;
                } else if first_target {
                    flag_bits = flag_bits | PIXEL_FIRST_TARGET;
                }
                if second_target {
                    flag_bits = flag_bits | PIXEL_SECOND_TARGET;
                }
                let mut pa: i32 = 0x100;
                let mut pb: i32 = 0;
                let mut pc: i32 = 0;
                let mut pd: i32 = 0x100;
                if attrs.affine {
                    pa = read_affine_param(oam, attrs.affine_group, 0);
                    pb = read_affine_param(oam, attrs.affine_group, 1);
                    pc = read_affine_param(oam, attrs.affine_group, 2);
                    pd = read_affine_param(oam, attrs.affine_group, 3);
                }
                let mut sx: u32 = 0;
                while sx < bbox_w
                    invariant
                        pixels.wf(),
                        pixels.mixed@ == old(pixels).mixed@,
                        pixels.unmixed@ == old(pixels).unmixed@,
                        pixels.bitmap_palette@ == old(pixels).bitmap_palette@,
                        pixels.obj_cycles <= old(pixels).obj_cycles,
                        window_pass ==> pixels.windows.enabled == old(pixels).windows.enabled,
                        window_pass ==> pixels.obj@ == old(pixels).obj@ && pixels.obj_cycles == old(pixels).obj_cycles,
                        window_pass ==> pixels.windows.win0_enabled == old(pixels).windows.win0_enabled
                            && pixels.windows.win1_enabled == old(pixels).windows.win1_enabled
                            && pixels.windows.win_obj_enabled == old(pixels).windows.win_obj_enabled
                            && pixels.windows.layers@ == old(pixels).windows.layers@,
                        window_pass ==> forall|b: int|
                            #![trigger pixels.windows.winobj.get_spec(b)]
                            0 <= b < 256 && old(pixels).windows.winobj.get_spec(b)
                                ==> pixels.windows.winobj.get_spec(b),
                        window_pass ==> forall|b: int|
                            #![trigger pixels.windows.winobj.get_spec(b)]
                            240 <= b < 256 ==> pixels.windows.winobj.get_spec(b) == old(pixels).windows.winobj.get_spec(b),
                        !window_pass ==> pixels.windows == old(pixels).windows,
                        vram.len() == 0x18000,
                        oam.len() == 0x400,
                        8 <= width <= 64,
                        8 <= height <= 64,
                        bbox_w <= 128,
                        bbox_h <= 128,
                        dy < bbox_h,
                        attrs.tile < 1024,
                        attrs.palette < 16,
                        attrs.x < 512,
                        !attrs.affine ==> bbox_w == width && bbox_h == height,
                        sx <= bbox_w,
                    decreases bbox_w - sx,
                {
                    let column = (attrs.x + sx) % 512;
                    if column < 240 {
                        let texel: u8;
                        if attrs.affine {
                            // Texture coordinates from the affine matrix,
                            // relative to the sprite's center.
                            let lx: i32 = sx as i32 - (bbox_w / 2) as i32;
                            let ly: i32 = dy as i32 - (bbox_h / 2) as i32;
                            let tx256: i32 = pa.wrapping_mul(lx).wrapping_add(
                                pb.wrapping_mul(ly),
                            ).wrapping_add(((width / 2) as i32).wrapping_mul(0x100));
                            let ty256: i32 = pc.wrapping_mul(lx).wrapping_add(
                                pd.wrapping_mul(ly),
                            ).wrapping_add(((height / 2) as i32).wrapping_mul(0x100));
                            let tx = tx256 >> 8;
                            let ty = ty256 >> 8;
                            if tx >= 0 && (tx as u32) < width && ty >= 0 && (ty as u32) < height {
                                texel = sample_obj_texel(
                                    vram,
                                    one_dimensional,
                                    bitmap_mode,
                                    attrs.color256,
                                    attrs.tile,
                                    attrs.palette,
                                    width,
                                    tx as u32,
                                    ty as u32,
                                );
                            } else {
                                texel = 0;
                            }
                        } else {
                            let px = if attrs.hflip {
                                width - 1 - sx
                            } else {
                                sx
                            };
                            let py = if attrs.vflip {
                                height - 1 - dy
                            } else {
                                dy
                            };
                            texel = sample_obj_texel(
                                vram,
                                one_dimensional,
                                bitmap_mode,
                                attrs.color256,
                                attrs.tile,
                                attrs.palette,
                                width,
                                px,
                                py,
                            );
                        }
                        if texel != 0 {
                            if window_pass {
                                pixels.windows.winobj.set(column as usize);
                            } else if !pixels.contains_obj_pixel(column as usize) {
                                pixels.push_obj_pixel(
                                    column as usize,
                                    Pixel(flag_bits | (texel as u16)),
                                );
                            }
                        }
                    }
                    sx += 1;
                }
            }
        }
        index += 1;
    }
}

/// Draws the object-window sprites into the object window mask.
pub fn render_obj_window(
    registers: &LCDRegisters,
    vram: &Vec<u8>,
    oam: &Vec<u8>,
    pixels: &mut LCDLineBuffer,
)
    requires
        old(pixels).wf(),
        registers.wf(),
        registers.line < 160,
        vram.len() == 0x18000,
        oam.len() == 0x400,
    ensures
        final(pixels).wf(),
        final(pixels).windows.enabled == old(pixels).windows.enabled,
        final(pixels).mixed@ == old(pixels).mixed@,
        final(pixels).unmixed@ == old(pixels).unmixed@,
        final(pixels).bitmap_palette@ == old(pixels).bitmap_palette@,
        final(pixels).obj@ == old(pixels).obj@,
        final(pixels).obj_cycles == old(pixels).obj_cycles,
        final(pixels).windows.win0_enabled == old(pixels).windows.win0_enabled,
        final(pixels).windows.win1_enabled == old(pixels).windows.win1_enabled,
        final(pixels).windows.win_obj_enabled == old(pixels).windows.win_obj_enabled,
        final(pixels).windows.layers@ == old(pixels).windows.layers@,
        forall|b: int|
            #![trigger final(pixels).windows.winobj.get_spec(b)]
            0 <= b < 256 && old(pixels).windows.winobj.get_spec(b) ==> final(pixels).windows.winobj.get_spec(b),
        forall|b: int|
            #![trigger final(pixels).windows.winobj.get_spec(b)]
            240 <= b < 256 ==> final(pixels).windows.winobj.get_spec(b) == old(pixels).windows.winobj.get_spec(b),
{
    process_objs(registers, vram, oam, pixels, true);
}

/// Draws the visible sprites into the object scratch line, within the
/// per-line cycle budget.
pub fn render_objects(
    registers: &LCDRegisters,
    vram: &Vec<u8>,
    oam: &Vec<u8>,
    pixels: &mut LCDLineBuffer,
)
    requires
        old(pixels).wf(),
        registers.wf(),
        registers.line < 160,
        vram.len() == 0x18000,
        oam.len() == 0x400,
    ensures
        final(pixels).wf(),
        final(pixels).windows == old(pixels).windows,
        final(pixels).mixed@ == old(pixels).mixed@,
        final(pixels).unmixed@ == old(pixels).unmixed@,
        final(pixels).bitmap_palette@ == old(pixels).bitmap_palette@,
        final(pixels).obj_cycles <= old(pixels).obj_cycles,
{
    process_objs(registers, vram, oam, pixels, false);
}

} // verus!
