use r_ps1::gpu::{GPU, Gp0Op, Gp0State, Vertex, Color};
use r_ps1::gpu::draw_line::dither_value;

fn gpu_with_full_area() -> GPU {
    let mut g = GPU::new();
    g.gp0_set_drawing_area_top_left(0);
    g.gp0_set_drawing_area_bottom_right(1023 | (511 << 10));
    g
}

fn pixel(g: &GPU, x: u16, y: u16) -> u16 {
    g.get_pixel_15(g.get_vram_offset_15(x, y))
}

fn red() -> Color {
    Color::new(255, 0, 0, false)
}

#[test]
fn horizontal_line_includes_both_ends() {
    let mut g = gpu_with_full_area();
    g.draw_line(&Vertex { x: 0, y: 0 }, &Vertex { x: 3, y: 0 }, &red(), &red(), false, false);
    for x in 0..4 {
        assert_eq!(pixel(&g, x, 0), 0x001F);
    }
    assert_eq!(pixel(&g, 4, 0), 0);
}

#[test]
fn bresenham_steps() {
    let mut g = gpu_with_full_area();
    g.draw_line(&Vertex { x: 0, y: 0 }, &Vertex { x: 4, y: 2 }, &red(), &red(), false, false);
    for (x, y) in [(0, 0), (1, 0), (2, 1), (3, 1), (4, 2)] {
        assert_eq!(pixel(&g, x, y), 0x001F);
    }
    assert_eq!(pixel(&g, 1, 1), 0);
    assert_eq!(pixel(&g, 2, 0), 0);
}

#[test]
fn line_backwards_and_single_point() {
    let mut g = gpu_with_full_area();
    g.draw_line(&Vertex { x: 5, y: 5 }, &Vertex { x: 3, y: 3 }, &red(), &red(), false, false);
    for v in 3..6 {
        assert_eq!(pixel(&g, v, v), 0x001F);
    }
    g.draw_line(&Vertex { x: 9, y: 9 }, &Vertex { x: 9, y: 9 }, &red(), &red(), false, false);
    assert_eq!(pixel(&g, 9, 9), 0x001F);
}

#[test]
fn too_long_line_is_not_drawn() {
    let mut g = gpu_with_full_area();
    g.draw_line(&Vertex { x: 0, y: 0 }, &Vertex { x: 0, y: 512 }, &red(), &red(), false, false);
    assert_eq!(pixel(&g, 0, 0), 0);
}

#[test]
fn gouraud_line_steps_colour() {
    let mut g = gpu_with_full_area();
    g.draw_line(&Vertex { x: 0, y: 0 }, &Vertex { x: 2, y: 0 }, &Color::new(0, 0, 0, false), &Color::new(255, 255, 255, false), true, false);
    assert_eq!(pixel(&g, 0, 0), 0x0000);
    assert_eq!(pixel(&g, 1, 0), 0x3DEF);
    assert_eq!(pixel(&g, 2, 0), 0x7FFF);
}

#[test]
fn line_outside_drawing_area_is_clipped() {
    let mut g = GPU::new();
    g.gp0_set_drawing_area_top_left(1);
    g.gp0_set_drawing_area_bottom_right(2 | (511 << 10));
    g.draw_line(&Vertex { x: 0, y: 0 }, &Vertex { x: 3, y: 0 }, &red(), &red(), false, false);
    assert_eq!(pixel(&g, 0, 0), 0);
    assert_eq!(pixel(&g, 1, 0), 0x001F);
    assert_eq!(pixel(&g, 2, 0), 0x001F);
    assert_eq!(pixel(&g, 3, 0), 0);
}

#[test]
fn dither_offsets() {
    assert_eq!(dither_value(0, 0), -4);
    assert_eq!(dither_value(1, 0), 0);
    assert_eq!(dither_value(0, 1), 2);
    assert_eq!(dither_value(7, 7), -2);
    assert_eq!(dither_value(-1, 0), 1);
}

#[test]
fn line_command_and_polyline() {
    let mut g = gpu_with_full_area();
    g.gp0state = Gp0State::WaitingCommandParameters(Gp0Op::LineRendering, None);
    g.operation_line_rendering(0x4800_00FF);
    assert_eq!(g.gp0state, Gp0State::WaitingCommandParameters(Gp0Op::LineRendering, Some(2)));
    g.cmd_fifo.push(0x4800_00FF);
    g.cmd_fifo.push(0x0000_0000);
    g.cmd_fifo.push(0x0000_0002);
    g.operation_line_rendering(0);
    assert_eq!(pixel(&g, 2, 0), 0x001F);
    assert!(matches!(g.gp0state, Gp0State::WaitingPolyline(Gp0Op::LineRendering, 1, Vertex { x: 2, y: 0 }, _, false, false)));
    g.cmd_fifo.push(0x0002_0002);
    g.operation_line_rendering(0);
    assert_eq!(pixel(&g, 2, 1), 0x001F);
    assert_eq!(pixel(&g, 2, 2), 0x001F);
    assert_eq!(g.cmd_fifo.len(), 0);
}

#[test]
fn line_command_applies_drawing_offset() {
    let mut g = gpu_with_full_area();
    g.gp0_set_drawing_offset(10 | (20 << 11));
    g.gp0state = Gp0State::WaitingCommandParameters(Gp0Op::LineRendering, Some(2));
    g.cmd_fifo.push(0x4000_00FF);
    g.cmd_fifo.push(0x0000_0000);
    g.cmd_fifo.push(0x0000_0001);
    g.operation_line_rendering(0);
    assert_eq!(pixel(&g, 10, 20), 0x001F);
    assert_eq!(pixel(&g, 11, 20), 0x001F);
    assert_eq!(g.gp0state, Gp0State::WaitingCommand);
}
