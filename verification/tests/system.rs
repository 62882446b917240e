use pyrite::gba_memory::GbaMemory;
use pyrite::irq::GbaInterruptControl;
use pyrite::irq::Interrupt;
use pyrite::lcd::GbaLCD;
use pyrite::lcd::LCDLineBuffer;
use pyrite::lcd::LCDPixelBits;
use pyrite::lcd::Pixel;
use pyrite::lcd::WindowBounds;
use pyrite::lcd::WindowControl;
use pyrite::lcd::WindowInfo;
use pyrite::lcd::HBLANK_CYCLES;
use pyrite::lcd::HDRAW_CYCLES;
use pyrite::palette::u16_to_pixel;
use pyrite::palette::Palette;
use pyrite::ArmMemory;
use pyrite::Gba;
use pyrite::KeypadInput;
use pyrite::NoAudioOutput;
use pyrite::NoVideoOutput;

fn lcd_parts() -> (Vec<u8>, Vec<u8>, Palette, NoVideoOutput, GbaInterruptControl) {
    (
        vec![0u8; 0x18000],
        vec![0u8; 0x400],
        Palette::new(),
        NoVideoOutput::new(),
        GbaInterruptControl::new(),
    )
}

#[test]
fn mode3_first_pixel() {
    let (mut vram, oam, palette, mut video, mut irq) = lcd_parts();
    let mut lcd = GbaLCD::new();
    lcd.registers.dispcnt.set_value(0x0403); // mode 3, BG2 enabled
    vram[0] = 0x1F;
    vram[1] = 0x7C; // 0x7C1F: full red and blue
    lcd.hblank(&vram, &oam, &palette, &mut video, &mut irq);
    assert_eq!(lcd.pixels.mixed[0], 0xFC1F);
    // Every other column shows the backdrop (palette entry 0), opaque.
    assert_eq!(lcd.pixels.mixed[1], 0x8000);
    assert_eq!(lcd.pixels.mixed[239], 0x8000);
}

#[test]
fn alpha_blend_halves() {
    // First target (16,16,16), second target (8,8,8), eva = evb = 8:
    // each channel is min(31, 16*8/16 + 8*8/16) = 12.
    let first = 16 + 16 * 32 + 16 * 1024;
    let second = 8 + 8 * 32 + 8 * 1024;
    let blended = LCDLineBuffer::alpha_blend(first, second, 8, 8);
    assert_eq!(blended, 0x8000 | (12 + 12 * 32 + 12 * 1024));
}

#[test]
fn alpha_blend_saturates_at_white() {
    // eva + evb = 32: both channels at full scale clamp to 31.
    let white = 31 + 31 * 32 + 31 * 1024;
    let blended = LCDLineBuffer::alpha_blend(white, white, 16, 16);
    assert_eq!(blended, 0x8000 | white);
}

#[test]
fn brightness_moves_toward_limits() {
    let mid = 16 + 16 * 32 + 16 * 1024;
    // Full increase reaches white, full decrease reaches black.
    assert_eq!(
        LCDLineBuffer::brightness_increase(mid, 16),
        0x8000 | (31 + 31 * 32 + 31 * 1024)
    );
    assert_eq!(LCDLineBuffer::brightness_decrease(mid, 16), 0x8000);
}

#[test]
fn vblank_spans_lines_160_to_226() {
    let (vram, oam, palette, mut video, mut irq) = lcd_parts();
    let mut lcd = GbaLCD::new();
    // Walk whole lines; the VBlank flag must match the line exactly.
    for _ in 0..230 {
        lcd.step(
            HDRAW_CYCLES + HBLANK_CYCLES,
            &vram,
            &oam,
            &palette,
            &mut video,
            &mut irq,
        );
        let line = lcd.registers.line;
        assert_eq!(lcd.registers.dispstat.vblank(), (160..=226).contains(&line));
    }
}

#[test]
fn hblank_flag_follows_phase() {
    let (vram, oam, palette, mut video, mut irq) = lcd_parts();
    let mut lcd = GbaLCD::new();
    assert!(!lcd.registers.dispstat.hblank());
    lcd.step(HDRAW_CYCLES, &vram, &oam, &palette, &mut video, &mut irq);
    assert!(lcd.registers.dispstat.hblank());
    lcd.step(HBLANK_CYCLES, &vram, &oam, &palette, &mut video, &mut irq);
    assert!(!lcd.registers.dispstat.hblank());
    assert_eq!(lcd.registers.line, 1);
}

#[test]
fn display_lines_are_delivered_once_in_order() {
    let (vram, oam, palette, mut video, mut irq) = lcd_parts();
    let mut lcd = GbaLCD::new();
    for _ in 0..228 {
        lcd.step(
            HDRAW_CYCLES + HBLANK_CYCLES,
            &vram,
            &oam,
            &palette,
            &mut video,
            &mut irq,
        );
    }
    assert!(lcd.end_of_frame);
}

#[test]
fn dispstat_flags_are_read_only_from_the_bus() {
    let mut memory = GbaMemory::new();
    memory.io_write16(0x04, 0xFFFF);
    // The three status flags stay clear; the enables and setting take.
    let read_back = memory.io_read16(0x04);
    assert_eq!(read_back & 0x7, 0);
    assert_eq!(read_back & 0x38, 0x38);
    assert_eq!(read_back >> 8, 0xFF);
}

#[test]
fn dispcnt_roundtrips_through_the_bus() {
    let mut memory = GbaMemory::new();
    memory.io_write16(0x00, 0x1F43);
    assert_eq!(memory.io_read16(0x00), 0x1F43);
}

#[test]
fn interrupt_request_respects_enables() {
    let mut irq = GbaInterruptControl::new();
    assert!(!irq.request(Interrupt::LCDVBlank));
    irq.master_enable = true;
    irq.enabled = Interrupt::LCDVBlank.mask();
    assert!(irq.request(Interrupt::LCDVBlank));
    assert_eq!(irq.read_if(), Interrupt::LCDVBlank.mask());
    // Writing a one to the IF bit clears it.
    irq.write_if(Interrupt::LCDVBlank.mask());
    assert_eq!(irq.read_if(), 0);
}

#[test]
fn ewram_loads_and_stores_through_the_bus() {
    let mut memory = GbaMemory::new();
    memory.write_data_word(0x0200_0010, 0xCAFE_F00D, false);
    let (word, _) = memory.read_data_word(0x0200_0010, false);
    assert_eq!(word, 0xCAFE_F00D);
    let (byte, _) = memory.read_data_byte(0x0200_0011, false);
    assert_eq!(byte, 0xF0);
}

#[test]
fn palette_store_updates_rgb_cache() {
    let mut palette = Palette::new();
    palette.store16(0x000, 0x7FFF);
    assert_eq!(palette.get_bg256_color(0), 0x7FFF);
    assert_eq!(palette.get_bg256_rgb(0), (255, 255, 255));
    assert_eq!(u16_to_pixel(0x001F), (255, 0, 0));
}

#[test]
fn pixel_bits_set_and_combine() {
    let mut a = LCDPixelBits::new();
    assert!(a.is_all_zeroes());
    a.set(7);
    a.set(200);
    assert!(a.get(7) && a.get(200) && !a.get(8));
    let mut b = LCDPixelBits::new();
    b.set(8);
    b.or(&a);
    assert!(b.get(7) && b.get(8) && b.get(200));
    b.bic(&a);
    assert!(!b.get(7) && b.get(8) && !b.get(200));
    b.clear(8);
    assert!(b.is_all_zeroes());
    b.set_all();
    assert!(b.is_all_ones());
}

#[test]
fn window_bounds_wrap_horizontally() {
    let mut bounds = WindowBounds::zero();
    // Left 200, right 40: the window wraps around the seam.
    bounds.set_h(200 * 256 + 40);
    bounds.set_v(10 * 256 + 20);
    assert!(bounds.contains(210, 15));
    assert!(bounds.contains(10, 15));
    assert!(!bounds.contains(100, 15));
    assert!(!bounds.contains(210, 25));
}

#[test]
fn window_bounds_cap_garbage() {
    let mut bounds = WindowBounds::zero();
    bounds.set_h(0x00FF); // right of 255 reads as 240
    assert_eq!(bounds.right, 240);
    bounds.set_v(0x00FF); // bottom of 255 reads as 160
    assert_eq!(bounds.bottom, 160);
}

#[test]
fn pixel_fields_decode() {
    let p = Pixel(0x3C05 | 0x8000);
    assert_eq!(p.pal_index(), 5);
    assert!(p.first_target());
    assert!(p.second_target());
    assert_eq!(p.priority(), 2);
}

#[test]
fn keypad_bits() {
    let mut gba = Gba::new();
    assert!(!gba.is_key_pressed(KeypadInput::ButtonA));
    gba.set_key_pressed(KeypadInput::ButtonA, true);
    assert!(gba.is_key_pressed(KeypadInput::ButtonA));
    gba.set_key_pressed(KeypadInput::ButtonA, false);
    assert!(!gba.is_key_pressed(KeypadInput::ButtonA));
}

#[test]
fn full_system_reaches_a_frame() {
    let mut gba = Gba::new();
    // A cartridge that spins in place: B . at the entry point.
    let mut rom = vec![0u8; 0x100];
    rom[0] = 0xFE;
    rom[1] = 0xFF;
    rom[2] = 0xFF;
    rom[3] = 0xEA;
    gba.set_rom(rom);
    gba.reset(true);
    let mut video = NoVideoOutput::new();
    let mut audio = NoAudioOutput;
    let mut steps = 0u32;
    while !gba.is_frame_ready() && steps < 1_000_000 {
        gba.step(&mut video, &mut audio);
        steps += 1;
    }
    assert!(gba.is_frame_ready());
    // The frame latch is raised at the last visible line.
    assert_eq!(gba.memory.lcd.registers.line, 159);
}

#[test]
fn reset_places_the_stacks() {
    let mut gba = Gba::new();
    gba.reset(true);
    assert_eq!(
        gba.cpu
            .registers
            .read_with_mode(pyrite::registers::CpuMode::User, 13),
        0x0300_7F00
    );
    assert_eq!(
        gba.cpu
            .registers
            .read_with_mode(pyrite::registers::CpuMode::IRQ, 13),
        0x0300_7FA0
    );
    assert_eq!(
        gba.cpu
            .registers
            .read_with_mode(pyrite::registers::CpuMode::Supervisor, 13),
        0x0300_7FE0
    );
    assert_eq!(
        gba.cpu.registers.read_mode(),
        pyrite::registers::CpuMode::System
    );
}

#[test]
fn rom_reads_are_mirrored() {
    let mut memory = GbaMemory::new();
    let mut rom = vec![0u8; 16];
    rom[0] = 0xAB;
    memory.set_gamepak_rom(rom);
    let (b0, _) = memory.read_data_byte(0x0800_0000, false);
    let (b1, _) = memory.read_data_byte(0x0A00_0000, false);
    assert_eq!(b0, 0xAB);
    assert_eq!(b1, 0xAB);
}

#[test]
fn mode4_uses_the_palette() {
    let (mut vram, oam, mut palette, mut video, mut irq) = lcd_parts();
    let mut lcd = GbaLCD::new();
    lcd.registers.dispcnt.set_value(0x0404); // mode 4, BG2 enabled
    palette.store16(0x2, 0x03E0); // palette entry 1: full green
    vram[0] = 1;
    lcd.hblank(&vram, &oam, &palette, &mut video, &mut irq);
    assert_eq!(lcd.pixels.mixed[0], 0x8000 | 0x03E0);
}

#[test]
fn sprite_appears_on_its_scanline() {
    let (mut vram, mut oam, mut palette, mut video, mut irq) = lcd_parts();
    let mut lcd = GbaLCD::new();
    lcd.registers.dispcnt.set_value(0x1000); // mode 0, objects on
    lcd.registers.line = 5;
    // Sprite 0: an 8x8 square at (10, 5), 16-color, tile 512, palette 0.
    oam[0] = 5; // attr0: y
    oam[2] = 10; // attr1: x
    oam[4] = 0x00;
    oam[5] = 0x02; // attr2: tile 512
    // Row 0 of tile 512 (the sprite's fifth row samples py = 0? no: py = 5).
    // Fill the whole tile with palette entry 1 nibbles.
    for b in 0..32 {
        vram[0x10000 + 512 * 32 + b] = 0x11;
    }
    palette.store16(0x200 + 2, 0x03FF); // object palette entry 1
    lcd.hblank(&vram, &oam, &palette, &mut video, &mut irq);
    for x in 10..18 {
        assert_eq!(lcd.pixels.mixed[x], 0x8000 | 0x03FF);
    }
    assert_eq!(lcd.pixels.mixed[9], 0x8000);
    assert_eq!(lcd.pixels.mixed[18], 0x8000);
}

#[test]
fn text_background_renders_a_tile() {
    let (mut vram, oam, mut palette, mut video, mut irq) = lcd_parts();
    let mut lcd = GbaLCD::new();
    lcd.registers.dispcnt.set_value(0x0100); // mode 0, BG0 on
    // BG0: char base block 1, screen base block 0, 16-color.
    lcd.registers.bg_cnt[0].set_value(0x0004);
    // Map entry 0 names tile 3, palette 2.
    vram[0] = 3;
    vram[1] = 0x20;
    // Tile 3 (16 color, 32 bytes per tile) in char block 1: all entry 1.
    for b in 0..32 {
        vram[0x4000 + 3 * 32 + b] = 0x11;
    }
    palette.store16((2 * 16 + 1) * 2, 0x7C00); // bg palette 2, color 1
    lcd.hblank(&vram, &oam, &palette, &mut video, &mut irq);
    assert_eq!(lcd.pixels.mixed[0], 0x8000 | 0x7C00);
    assert_eq!(lcd.pixels.mixed[7], 0x8000 | 0x7C00);
}

#[test]
fn vblank_interrupt_reaches_the_processor() {
    let mut gba = Gba::new();
    let mut rom = vec![0u8; 0x100];
    // B . at the entry point.
    rom[0] = 0xFE;
    rom[1] = 0xFF;
    rom[2] = 0xFF;
    rom[3] = 0xEA;
    gba.set_rom(rom);
    gba.reset(true);
    // Unmask IRQs in the CPSR and enable the VBlank interrupt end to end.
    let cpsr = gba.cpu.registers.read_cpsr();
    gba.cpu.registers.write_cpsr(cpsr & !0x80);
    gba.memory.ioregs.irq.master_enable = true;
    gba.memory.ioregs.irq.enabled = Interrupt::LCDVBlank.mask();
    gba.memory.io_write16(0x04, 0x08); // DISPSTAT: VBlank IRQ enable
    let mut video = NoVideoOutput::new();
    let mut audio = NoAudioOutput;
    let mut steps = 0u32;
    while gba.cpu.registers.read_mode() != pyrite::registers::CpuMode::IRQ && steps < 1_000_000 {
        gba.step(&mut video, &mut audio);
        steps += 1;
    }
    assert_eq!(
        gba.cpu.registers.read_mode(),
        pyrite::registers::CpuMode::IRQ
    );
    // The processor vectored through the IRQ entry in low memory.
    assert_eq!(gba.cpu.registers.read(15), 0x18 + 4);
}

#[test]
fn window0_takes_precedence_over_window1() {
    let mut info = WindowInfo::new();
    info.enabled = true;
    info.win0_enabled = true;
    info.win1_enabled = true;
    let win0 = WindowBounds { left: 10, top: 0, right: 20, bottom: 160 };
    let win1 = WindowBounds { left: 0, top: 0, right: 240, bottom: 160 };
    // Inside window 0 only BG0 may draw; inside window 1 only BG1 may draw.
    let mut winin = WindowControl::default();
    winin.set_value(0x0201);
    let winout = WindowControl::default();
    let dispcnt = pyrite::lcd::DisplayControl::default();
    info.calculate_masks(7, win0, win1, winin, winout, dispcnt);
    // Column 15 lies in both rectangles; window 0 wins, so BG0 draws and
    // BG1 does not.
    assert!(info.layers[0].display.get(15));
    assert!(!info.layers[1].display.get(15));
    // Column 5 lies only in window 1: BG1 draws, BG0 does not.
    assert!(info.layers[1].display.get(5));
    assert!(!info.layers[0].display.get(5));
    // Column 25 also lies only in window 1 (it spans the whole line).
    assert!(info.layers[1].display.get(25));
    // The outside control is zero, so effects are off everywhere.
    assert!(!info.layers[0].effects.get(15));
}
