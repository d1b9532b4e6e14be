use r_ps1::gpu::{GPU, Gp0Op, Gp0State, TextureDepth};

fn gpu_with_full_area() -> GPU {
    let mut g = GPU::new();
    g.gp0_set_drawing_area_top_left(0);
    g.gp0_set_drawing_area_bottom_right(1023 | (511 << 10));
    g
}

fn pixel(g: &GPU, x: u16, y: u16) -> u16 {
    g.get_pixel_15(g.get_vram_offset_15(x, y))
}

fn set_pixel(g: &mut GPU, x: u16, y: u16, p: u16) {
    let o = g.get_vram_offset_15(x, y);
    g.vram[o] = p as u8;
    g.vram[o + 1] = (p >> 8) as u8;
}

fn run_rectangle(g: &mut GPU, words: &[u32]) {
    g.gp0state = Gp0State::WaitingCommandParameters(Gp0Op::RectangleRendering, None);
    g.operation_rectangle_rendering(words[0]);
    assert_eq!(g.gp0state, Gp0State::WaitingCommandParameters(Gp0Op::RectangleRendering, Some(words.len() - 1)));
    for w in words {
        g.cmd_fifo.push(*w);
    }
    g.operation_rectangle_rendering(0);
    assert_eq!(g.gp0state, Gp0State::WaitingCommand);
    assert_eq!(g.cmd_fifo.len(), 0);
}

#[test]
fn sprite_8x8_flat() {
    let mut g = gpu_with_full_area();
    run_rectangle(&mut g, &[0x7000_00FF, 0x0003_0002]);
    assert_eq!(pixel(&g, 2, 3), 0x001F);
    assert_eq!(pixel(&g, 9, 10), 0x001F);
    assert_eq!(pixel(&g, 10, 3), 0);
    assert_eq!(pixel(&g, 2, 11), 0);
}

#[test]
fn variable_size_and_single_pixel() {
    let mut g = gpu_with_full_area();
    run_rectangle(&mut g, &[0x6000_FF00, 0x0000_0000, 0x0002_0003]);
    assert_eq!(pixel(&g, 2, 1), 0x03E0);
    assert_eq!(pixel(&g, 3, 1), 0);
    assert_eq!(pixel(&g, 2, 2), 0);
    run_rectangle(&mut g, &[0x6800_0000 | 0xFF_0000, 0x0014_0014]);
    assert_eq!(pixel(&g, 20, 20), 0x7C00);
    assert_eq!(pixel(&g, 21, 20), 0);
}

#[test]
fn rectangle_is_clipped_and_offset() {
    let mut g = GPU::new();
    g.gp0_set_drawing_area_top_left(0);
    g.gp0_set_drawing_area_bottom_right(4 | (511 << 10));
    g.gp0_set_drawing_offset(2);
    run_rectangle(&mut g, &[0x6000_00FF, 0x0000_0000, 0x0001_0004]);
    assert_eq!(pixel(&g, 1, 0), 0);
    assert_eq!(pixel(&g, 2, 0), 0x001F);
    assert_eq!(pixel(&g, 4, 0), 0x001F);
    assert_eq!(pixel(&g, 5, 0), 0);
}

#[test]
fn textured_sprite_raw_15_bit() {
    let mut g = gpu_with_full_area();
    g.gp0_draw_mode_settings(0x101);
    assert_eq!(g.texture.depth, TextureDepth::T15Bit);
    set_pixel(&mut g, 65, 0, 0x7C00);
    run_rectangle(&mut g, &[0x6D00_0000, 0x0005_0005, 0x0000_0001]);
    assert_eq!(pixel(&g, 5, 5), 0x7C00);
    assert_eq!(g.get_texture_pixel(0, 0, 1, 0, 1, 0, TextureDepth::T15Bit), 0x7C00);
}

#[test]
fn textured_zero_texel_is_transparent() {
    let mut g = gpu_with_full_area();
    g.gp0_draw_mode_settings(0x101);
    set_pixel(&mut g, 5, 5, 0x1234);
    run_rectangle(&mut g, &[0x6D00_0000, 0x0005_0005, 0x0000_0002]);
    assert_eq!(pixel(&g, 5, 5), 0x1234);
}

#[test]
fn four_bit_texture_through_palette() {
    let mut g = gpu_with_full_area();
    set_pixel(&mut g, 0, 0, 0x0021);
    set_pixel(&mut g, 0, 100, 0x0000);
    set_pixel(&mut g, 1, 100, 0x001F);
    set_pixel(&mut g, 2, 100, 0x03E0);
    assert_eq!(g.get_texture_pixel(0, 100, 0, 0, 0, 0, TextureDepth::T4Bit), 0x001F);
    assert_eq!(g.get_texture_pixel(0, 100, 1, 0, 0, 0, TextureDepth::T4Bit), 0x03E0);
    assert_eq!(g.get_texture_pixel(0, 100, 2, 0, 0, 0, TextureDepth::T4Bit), 0x0000);
}

#[test]
fn texture_window_remaps_coordinates() {
    let mut g = gpu_with_full_area();
    g.gp0_texture_window_settings(0x01 | (0x01 << 10));
    set_pixel(&mut g, 8 + 3, 0, 0x0042);
    assert_eq!(g.get_texture_pixel(0, 0, 3, 0, 0, 0, TextureDepth::T15Bit), 0x0042);
}
