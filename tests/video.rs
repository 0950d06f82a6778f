use rb_core::{BackgroundColors, Color, InterruptRequest, Mode, GPU};

fn lcd_on(gpu: &mut GPU) {
    gpu.write_register(0xFF40, 0x91);
}

#[test]
fn tile_row_decoded_on_vram_write() {
    let mut gpu = GPU::new();
    gpu.write_vram(0x0000, 0x3C);
    gpu.write_vram(0x0001, 0x7E);
    let row: Vec<u8> = (0..8).map(|x| gpu.tile_pixel_value(0, 0, x)).collect();
    assert_eq!(row, vec![0, 2, 3, 3, 3, 3, 2, 0]);
}

#[test]
fn tile_row_decoded_at_other_tile() {
    let mut gpu = GPU::new();
    // Tile 5, row 3: bytes at 5 * 16 + 2 * 3.
    gpu.write_vram(0x56, 0x81);
    gpu.write_vram(0x57, 0x01);
    let row: Vec<u8> = (0..8).map(|x| gpu.tile_pixel_value(5, 3, x)).collect();
    assert_eq!(row, vec![1, 0, 0, 0, 0, 0, 0, 3]);
    assert_eq!(gpu.read_vram(0x56), 0x81);
}

#[test]
fn writes_past_tile_data_leave_cache() {
    let mut gpu = GPU::new();
    gpu.write_vram(0x1800, 0xFF);
    assert_eq!(gpu.read_vram(0x1800), 0xFF);
    for t in 0..384 {
        assert_eq!(gpu.tile_pixel_value(t, 0, 0), 0);
    }
}

#[test]
fn lcd_off_step_does_nothing() {
    let mut gpu = GPU::new();
    assert_eq!(gpu.step(200), InterruptRequest::NoInterrupt);
    assert_eq!(gpu.line, 0);
}

#[test]
fn frame_after_reenable_sweeps_every_line_once() {
    let mut gpu = GPU::new();
    lcd_on(&mut gpu);
    gpu.write_register(0xFF40, 0x11);
    assert_eq!((gpu.line, gpu.mode), (0, Mode::OAMAccess));
    lcd_on(&mut gpu);
    let mut lines: Vec<u8> = vec![gpu.line];
    let mut vblanks = 0;
    for _ in 0..70224 {
        let r = gpu.step(1);
        if r == InterruptRequest::VBlank || r == InterruptRequest::Both {
            vblanks += 1;
        }
        if *lines.last().unwrap() != gpu.line {
            lines.push(gpu.line);
        }
    }
    let mut expected: Vec<u8> = (0..=153).collect();
    expected.push(0);
    assert_eq!(lines, expected);
    assert_eq!(vblanks, 1);
    assert_eq!((gpu.line, gpu.mode), (0, Mode::OAMAccess));
}

#[test]
fn next_line_starts_after_456_dots() {
    let mut gpu = GPU::new();
    lcd_on(&mut gpu);
    gpu.write_register(0xFF40, 0x11);
    lcd_on(&mut gpu);
    let mut n = 0;
    while !(gpu.line == 1 && gpu.mode == Mode::OAMAccess) {
        gpu.step(1);
        n += 1;
    }
    assert_eq!(n, 456);
}

#[test]
fn mode_sequence_of_a_visible_line() {
    let mut gpu = GPU::new();
    lcd_on(&mut gpu);
    // From power-on the unit is in horizontal blank of line 0.
    assert_eq!(gpu.mode, Mode::HorizontalBlank);
    gpu.step(204);
    assert_eq!((gpu.line, gpu.mode), (1, Mode::OAMAccess));
    gpu.step(80);
    assert_eq!(gpu.mode, Mode::VRAMAccess);
    gpu.step(172);
    assert_eq!(gpu.mode, Mode::HorizontalBlank);
    gpu.step(203);
    assert_eq!((gpu.line, gpu.mode), (1, Mode::HorizontalBlank));
    gpu.step(1);
    assert_eq!((gpu.line, gpu.mode), (2, Mode::OAMAccess));
}

#[test]
fn vblank_and_stat_requests() {
    let mut gpu = GPU::new();
    lcd_on(&mut gpu);
    gpu.write_register(0xFF41, 0x10);
    gpu.write_register(0xFF45, 144);
    let mut r = InterruptRequest::NoInterrupt;
    while gpu.line < 144 {
        r = gpu.step(4);
    }
    assert_eq!(r, InterruptRequest::Both);
    assert_eq!(gpu.mode, Mode::VerticalBlank);
    assert!(gpu.line_equals_line_check);
}

#[test]
fn lcd_control_round_trip() {
    let mut gpu = GPU::new();
    gpu.write_register(0xFF40, 0xE7);
    assert_eq!(gpu.read_lcdc(), 0xE7);
    assert!(gpu.lcd_display_enabled);
    assert!(gpu.window_display_enabled);
    assert!(gpu.object_display_enabled);
    gpu.write_register(0xFF41, 0x78);
    assert_eq!(gpu.read_stat() & 0x78, 0x78);
    assert_eq!(gpu.read_stat() & 0x80, 0x80);
}

#[test]
fn palettes_round_trip() {
    let p = BackgroundColors::from_byte(0xE4);
    assert_eq!(p, BackgroundColors(Color::White, Color::LightGray, Color::DarkGray, Color::Black));
    assert_eq!(p.to_byte(), 0xE4);
    assert_eq!(BackgroundColors::from_byte(0x1B).to_byte(), 0x1B);
    assert_eq!(p.shade_of(2), 96);
    let mut gpu = GPU::new();
    gpu.write_register(0xFF48, 0xE7);
    assert_eq!(gpu.read_object_palette(false), 0xE4);
    assert_eq!(gpu.obj_0_color_1, Color::LightGray);
}

#[test]
fn oam_write_decodes_object() {
    let mut gpu = GPU::new();
    gpu.write_oam(4, 0x20);
    gpu.write_oam(5, 0x10);
    gpu.write_oam(6, 0x07);
    gpu.write_oam(7, 0xF0);
    let o = gpu.object_data[1];
    assert_eq!((o.y, o.x, o.tile), (0x10, 0x08, 0x07));
    assert!(o.xflip && o.yflip && !o.priority);
    assert_eq!(o.palette, rb_core::ObjectPalette::One);
}

fn pixel(gpu: &GPU, line: usize, x: usize) -> [u8; 4] {
    let i = (line * 160 + x) * 4;
    [gpu.canvas_buffer[i], gpu.canvas_buffer[i + 1], gpu.canvas_buffer[i + 2], gpu.canvas_buffer[i + 3]]
}

fn run_to_line_end(gpu: &mut GPU, line: u8) {
    while !(gpu.line == line && gpu.mode == Mode::HorizontalBlank) {
        gpu.step(4);
    }
}

#[test]
fn background_line_rendered_through_palette() {
    let mut gpu = GPU::new();
    // Tile 1: every row 0xFF / 0x00, so all pixels are value 1.
    for row in 0..8 {
        gpu.write_vram(16 + 2 * row, 0xFF);
        gpu.write_vram(16 + 2 * row + 1, 0x00);
    }
    // Map entry (0, 1) names tile 1.
    gpu.write_vram(0x1801, 1);
    gpu.write_register(0xFF47, 0xE4);
    lcd_on(&mut gpu);
    gpu.step(200);
    run_to_line_end(&mut gpu, 1);
    assert_eq!(pixel(&gpu, 1, 0), [255, 255, 255, 255]);
    assert_eq!(pixel(&gpu, 1, 8), [192, 192, 192, 255]);
    assert_eq!(pixel(&gpu, 1, 15), [192, 192, 192, 255]);
    assert_eq!(pixel(&gpu, 1, 16), [255, 255, 255, 255]);
}

#[test]
fn signed_tile_addressing() {
    let mut gpu = GPU::new();
    // With data select 0x8800, tile number 0 names tile 256 at VRAM 0x1000.
    for row in 0..8 {
        gpu.write_vram(0x1000 + 2 * row, 0x00);
        gpu.write_vram(0x1000 + 2 * row + 1, 0xFF);
    }
    gpu.write_register(0xFF47, 0xE4);
    gpu.write_register(0xFF40, 0x81);
    gpu.step(200);
    run_to_line_end(&mut gpu, 1);
    assert_eq!(pixel(&gpu, 1, 0), [96, 96, 96, 255]);
}

#[test]
fn object_drawn_over_background() {
    let mut gpu = GPU::new();
    // Tile 2: all pixels value 3.
    for row in 0..8 {
        gpu.write_vram(32 + 2 * row, 0xFF);
        gpu.write_vram(32 + 2 * row + 1, 0xFF);
    }
    // Object 0 at screen (x = 10, y = 0) with tile 2, over the background.
    gpu.write_oam(0, 16);
    gpu.write_oam(1, 18);
    gpu.write_oam(2, 2);
    gpu.write_oam(3, 0);
    gpu.write_register(0xFF47, 0xE4);
    gpu.write_register(0xFF48, 0xE4);
    gpu.write_register(0xFF40, 0x93);
    gpu.step(200);
    run_to_line_end(&mut gpu, 1);
    assert_eq!(pixel(&gpu, 1, 9), [255, 255, 255, 255]);
    assert_eq!(pixel(&gpu, 1, 10), [0, 0, 0, 255]);
    assert_eq!(pixel(&gpu, 1, 17), [0, 0, 0, 255]);
    assert_eq!(pixel(&gpu, 1, 18), [255, 255, 255, 255]);
}

#[test]
fn window_drawn_from_its_left_edge() {
    let mut gpu = GPU::new();
    for row in 0..8 {
        gpu.write_vram(16 + 2 * row, 0xFF);
        gpu.write_vram(16 + 2 * row + 1, 0x00);
    }
    // Window map at 0x9C00: entry 0 names tile 1.
    gpu.write_vram(0x1C00, 1);
    gpu.write_register(0xFF47, 0xE4);
    gpu.write_register(0xFF4A, 0);
    gpu.write_register(0xFF4B, 87);
    gpu.write_register(0xFF40, 0xF1);
    gpu.step(200);
    run_to_line_end(&mut gpu, 1);
    assert_eq!(pixel(&gpu, 1, 79), [255, 255, 255, 255]);
    assert_eq!(pixel(&gpu, 1, 80), [192, 192, 192, 255]);
    assert_eq!(pixel(&gpu, 1, 87), [192, 192, 192, 255]);
    assert_eq!(pixel(&gpu, 1, 88), [255, 255, 255, 255]);
}

#[test]
fn stat_requests_follow_enabled_sources() {
    let mut gpu = GPU::new();
    lcd_on(&mut gpu);
    gpu.write_register(0xFF40, 0x11);
    lcd_on(&mut gpu);
    // No source on: a whole frame asks only for VBlank.
    let mut stat = 0;
    for _ in 0..70224 {
        let r = gpu.step(1);
        if r == InterruptRequest::LCDStat || r == InterruptRequest::Both {
            stat += 1;
        }
    }
    assert_eq!(stat, 0);
    // OAM source on: entering OAM access of line 1 asks for LCDStat.
    gpu.write_register(0xFF41, 0x20);
    let mut n = 0;
    loop {
        let r = gpu.step(1);
        n += 1;
        if r == InterruptRequest::LCDStat {
            break;
        }
    }
    assert_eq!(n, 456);
    assert_eq!((gpu.line, gpu.mode), (1, Mode::OAMAccess));
}

#[test]
fn line_compare_latch_and_request() {
    let mut gpu = GPU::new();
    lcd_on(&mut gpu);
    gpu.write_register(0xFF40, 0x11);
    lcd_on(&mut gpu);
    gpu.write_register(0xFF45, 2);
    gpu.write_register(0xFF41, 0x40);
    let mut r = InterruptRequest::NoInterrupt;
    while gpu.line < 2 {
        r = gpu.step(4);
    }
    assert_eq!(r, InterruptRequest::LCDStat);
    assert!(gpu.line_equals_line_check);
    assert_eq!(gpu.read_stat() & 0x04, 0x04);
    while gpu.line < 3 {
        gpu.step(4);
    }
    assert!(!gpu.line_equals_line_check);
}
