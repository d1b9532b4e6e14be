use vstd::prelude::*;
use crate::gpu::{GPU, Color, Vertex, SemiTransparency, DrawingArea, Gp0State, Gp0Op, vram_offset_15, reduce8, dither_channel, sext11};
use crate::gpu::vram::draw_effect;

verus! {

/// The ordered-dither offset of a pixel, by `y & 3` (row) and `x & 3` (column).
pub open spec fn dither_table(row: i16, col: i16) -> i8 {
    if row == 0 {
        if col == 0 { -4i8 } else if col == 1 { 0i8 } else if col == 2 { -3i8 } else { 1i8 }
    } else if row == 1 {
        if col == 0 { 2i8 } else if col == 1 { -2i8 } else if col == 2 { 3i8 } else { -1i8 }
    } else if row == 2 {
        if col == 0 { -3i8 } else if col == 1 { 1i8 } else if col == 2 { -4i8 } else { 0i8 }
    } else {
        if col == 0 { 3i8 } else if col == 1 { -1i8 } else if col == 2 { 2i8 } else { -2i8 }
    }
}

/// The dither offset of pixel (x, y).
pub fn dither_value(x: i16, y: i16) -> (r: i8)
    ensures
        r == dither_table(y & 3, x & 3),
{
    let row = y & 3;
    let col = x & 3;
    if row == 0 {
        if col == 0 { -4 } else if col == 1 { 0 } else if col == 2 { -3 } else { 1 }
    } else if row == 1 {
        if col == 0 { 2 } else if col == 1 { -2 } else if col == 2 { 3 } else { -1 }
    } else if row == 2 {
        if col == 0 { -3 } else if col == 1 { 1 } else if col == 2 { -4 } else { 0 }
    } else {
        if col == 0 { 3 } else if col == 1 { -1 } else if col == 2 { 2 } else { -2 }
    }
}

/// The VRAM pixel of a colour.
pub open spec fn color_pixel(c: Color) -> u16 {
    reduce8(c.r) | (reduce8(c.g) << 5u16) | (reduce8(c.b) << 10u16) | ((if c.m { 1u16 } else { 0u16 }) << 15u16)
}

/// The colour a pixel gets at (x, y): dithered when allowed and dithering is on.
pub open spec fn shown_color(g: GPU, x: i16, y: i16, c: Color, allow_dithering: bool) -> Color {
    if allow_dithering && g.dithering {
        let d = dither_table(y & 3, x & 3);
        Color { r: dither_channel(c.r, d), g: dither_channel(c.g, d), b: dither_channel(c.b, d), m: c.m }
    } else {
        c
    }
}

/// VRAM after drawing a pixel at `v`: nothing outside the drawing area, else the pixel drawn
/// with the mask settings (see `draw_effect`).
pub open spec fn pixel_drawn(g: GPU, vram: Seq<u8>, v: Vertex, c: Color, semi: bool, mode: Option<SemiTransparency>,
    allow_dithering: bool) -> Seq<u8> {
    let a = g.drawing_area;
    if v.x >= a.area_left as i16 && v.x <= a.area_right as i16 && v.y >= a.area_top as i16 && v.y <= a.area_bottom as i16 {
        draw_effect(g.preserve_masked_pixels, g.force_set_mask_bit, vram, vram_offset_15(v.x as u16, v.y as u16),
            color_pixel(shown_color(g, v.x, v.y, c, allow_dithering)), true, semi, mode)
    } else {
        vram
    }
}

/// Per-step change of a colour channel along a line of `steps` steps, in 16.16 fixed point,
/// rounded toward zero.
pub open spec fn color_step(from: u8, to: u8, steps: int) -> int {
    if to >= from { ((to - from) * 65536) / steps } else { -(((from - to) * 65536) / steps) }
}

/// What stays fixed while a line is walked: the end point, the distances and directions,
/// the colour steps, the step budget and the semi-transparency flag.
pub struct LineWalk {
    pub ex: int,
    pub ey: int,
    pub dx: int,
    pub dy: int,
    pub sx: int,
    pub sy: int,
    pub rs: int,
    pub gs: int,
    pub bs: int,
    pub total: int,
    pub semi: bool,
}

/// The colour of a line pixel from the 16.16 channel values.
pub open spec fn walk_color(rc: int, gc: int, bc: int) -> Color {
    Color { r: (rc / 65536) as u8, g: (gc / 65536) as u8, b: (bc / 65536) as u8, m: false }
}

/// Bresenham's walk: draw the pixel at (x, y); stop at the end point (or after the step
/// budget); else move in x when `2 err > -dy`, in y when `2 err < dx`, and step the colour.
pub open spec fn line_walk(g: GPU, p: LineWalk, vram: Seq<u8>, x: int, y: int, err: int, rc: int, gc: int, bc: int, k: int) -> Seq<u8>
    decreases p.total - k,
{
    let v1 = pixel_drawn(g, vram, Vertex { x: x as i16, y: y as i16 }, walk_color(rc, gc, bc), p.semi, Some(g.semi_transparency), true);
    if (x == p.ex && y == p.ey) || k >= p.total {
        v1
    } else {
        let e2 = err * 2;
        let err1 = if e2 > -p.dy { err - p.dy } else { err };
        let x1 = if e2 > -p.dy { x + p.sx } else { x };
        let err2 = if e2 < p.dx { err1 + p.dx } else { err1 };
        let y1 = if e2 < p.dx { y + p.sy } else { y };
        line_walk(g, p, v1, x1, y1, err2, rc + p.rs, gc + p.gs, bc + p.bs, k + 1)
    }
}

/// VRAM after drawing a line: nothing when it spans more than 1023 columns or 511 lines; a
/// single pixel when both ends meet; otherwise the walk from the start with Gouraud colour
/// steps when shaded.
pub open spec fn line_drawn(g: GPU, start: Vertex, end: Vertex, c0: Color, c1: Color, shaded: bool, semi: bool) -> Seq<u8> {
    let dx = if end.x >= start.x { end.x - start.x } else { start.x - end.x };
    let dy = if end.y >= start.y { end.y - start.y } else { start.y - end.y };
    let total = if dx > dy { dx } else { dy };
    if dx > 1023 || dy > 511 {
        g.vram@
    } else if total == 0 {
        pixel_drawn(g, g.vram@, start, c0, semi, Some(g.semi_transparency), true)
    } else {
        let p = LineWalk {
            ex: end.x as int,
            ey: end.y as int,
            dx,
            dy,
            sx: if start.x < end.x { 1 } else { -1 },
            sy: if start.y < end.y { 1 } else { -1 },
            rs: if shaded { color_step(c0.r, c1.r, total) } else { 0 },
            gs: if shaded { color_step(c0.g, c1.g, total) } else { 0 },
            bs: if shaded { color_step(c0.b, c1.b, total) } else { 0 },
            total,
            semi,
        };
        line_walk(g, p, g.vram@, start.x as int, start.y as int, dx - dy, c0.r * 65536, c0.g * 65536, c0.b * 65536, 0)
    }
}

/// A colour stepped `k` times of `steps` stays between the two end colours.
proof fn lemma_color_walk(from: u8, to: u8, steps: int, k: int)
    requires
        steps > 0,
        0 <= k <= steps,
    ensures
        0 <= from * 65536 + k * color_step(from, to, steps) <= 255 * 65536,
{
    let a: int = if to >= from { (to - from) * 65536 } else { (from - to) * 65536 };
    let q = a / steps;
    assert(0 <= q * steps <= a) by (nonlinear_arith)
        requires a >= 0, steps > 0, q == a / steps;
    assert(0 <= k * q <= a) by (nonlinear_arith)
        requires 0 <= k <= steps, q >= 0, q * steps <= a;
    if to >= from {
        assert(color_step(from, to, steps) == q);
    } else {
        assert(color_step(from, to, steps) == -q);
        assert(k * (-q) == -(k * q)) by (nonlinear_arith);
    }
}

/// The channel step of a shaded line.
fn channel_step(from: u8, to: u8, steps: i32) -> (r: i32)
    requires
        0 < steps <= 1023,
    ensures
        r == color_step(from, to, steps as int),
        -255 * 65536 <= r <= 255 * 65536,
{
    if to >= from {
        let a: u32 = (to - from) as u32 * 65536;
        (a / (steps as u32)) as i32
    } else {
        let a: u32 = (from - to) as u32 * 65536;
        -((a / (steps as u32)) as i32)
    }
}

/// The colour of a command or colour word.
pub open spec fn color_word(w: u32) -> Color {
    Color { r: w as u8, g: (w >> 8u32) as u8, b: (w >> 16u32) as u8, m: false }
}

/// The vertex of a vertex word.
pub open spec fn vertex_word(w: u32) -> Vertex {
    Vertex { x: sext11(w), y: sext11(w >> 16u32) }
}

/// A vertex moved by the drawing offset.
pub open spec fn offset_vertex(v: Vertex, a: DrawingArea) -> Vertex {
    Vertex { x: (v.x + a.x_offset) as i16, y: (v.y + a.y_offset) as i16 }
}

/// Words a line command takes after the command word: a vertex, then a colour and a vertex
/// when shaded (bit 28) or just a vertex.
pub open spec fn line_words(c: u32) -> int {
    if (c & 0x1000_0000) != 0 { 4 } else { 3 }
}

/// What a line command needs: drawing offsets of 11-bit range, and the words the state waits
/// for in the command FIFO.
pub open spec fn line_ready(g: GPU) -> bool {
    &&& -1024 <= g.drawing_area.x_offset <= 1023
    &&& -1024 <= g.drawing_area.y_offset <= 1023
    &&& match g.gp0state {
        Gp0State::WaitingCommandParameters(_, Some(_)) => g.cmd_fifo.view().len() >= 1
            && g.cmd_fifo.view().len() >= line_words(g.cmd_fifo.view()[0]),
        Gp0State::WaitingPolyline(_, _, sv, _, shaded, _) => g.cmd_fifo.view().len() >= (if shaded { 2int } else { 1int })
            && -1024 <= sv.x <= 1023 && -1024 <= sv.y <= 1023,
        _ => true,
    }
}

/// The first line of a line command drawn from `o` to `f`: the command word, the vertices and
/// the colours taken from the FIFO, the line drawn, then a poly-line (bit 27) waiting for its
/// next vertex or the port ready for a command.
pub open spec fn line_started(o: GPU, f: GPU, op: Gp0Op) -> bool {
    let q = o.cmd_fifo.view();
    let c = q[0];
    let shaded = (c & 0x1000_0000) != 0;
    let semi = ((c >> 25u32) & 1) != 0;
    let c1 = if shaded { color_word(q[2]) } else { color_word(c) };
    let v1 = vertex_word(if shaded { q[3] } else { q[2] });
    &&& f.cmd_fifo.view() == q.skip(line_words(c))
    &&& f.vram@ == line_drawn(GPU { cmd_fifo: f.cmd_fifo, ..o }, offset_vertex(vertex_word(q[1]), o.drawing_area),
        offset_vertex(v1, o.drawing_area), color_word(c), c1, shaded, semi)
    &&& f.gp0state == (if (c & 0x0800_0000) != 0 {
        Gp0State::WaitingPolyline(op, if shaded { 2usize } else { 1usize }, v1, c1, shaded, semi)
    } else {
        Gp0State::WaitingCommand
    })
    &&& f == (GPU { vram: f.vram, cmd_fifo: f.cmd_fifo, gp0state: f.gp0state, ..o })
    &&& -1024 <= v1.x <= 1023 && -1024 <= v1.y <= 1023
}

/// A further poly-line vertex from `o` to `f`: the line from the previous vertex `sv` (colour
/// `sc`) to the new one, which the poly-line then starts from.
pub open spec fn line_continued(o: GPU, f: GPU, op: Gp0Op, sv: Vertex, sc: Color, shaded: bool, semi: bool) -> bool {
    let q = o.cmd_fifo.view();
    let c1 = if shaded { color_word(q[0]) } else { sc };
    let v1 = vertex_word(if shaded { q[1] } else { q[0] });
    &&& f.cmd_fifo.view() == q.skip(if shaded { 2int } else { 1int })
    &&& f.vram@ == line_drawn(GPU { cmd_fifo: f.cmd_fifo, ..o }, sv, offset_vertex(v1, o.drawing_area), sc, c1, shaded, semi)
    &&& f.gp0state == Gp0State::WaitingPolyline(op, if shaded { 2usize } else { 1usize }, v1, c1, shaded, semi)
    &&& f == (GPU { vram: f.vram, cmd_fifo: f.cmd_fifo, gp0state: f.gp0state, ..o })
    &&& -1024 <= v1.x <= 1023 && -1024 <= v1.y <= 1023
}

/// What `operation_line_rendering` does to the GPU.
pub open spec fn line_effect(o: GPU, f: GPU, cmd: u32) -> bool {
    &&& f.gp0state matches Gp0State::WaitingPolyline(_, _, sv, _, _, _) ==> -1024 <= sv.x <= 1023 && -1024 <= sv.y <= 1023
    &&& match o.gp0state {
            Gp0State::WaitingCommandParameters(op, None) => f == (GPU {
                gp0state: Gp0State::WaitingCommandParameters(op, Some(if (cmd & 0x1000_0000) != 0 { 3usize } else { 2usize })),
                ..o }),
            Gp0State::WaitingCommandParameters(op, Some(_)) => line_started(o, f, op),
            Gp0State::WaitingPolyline(op, _, sv, sc, shaded, semi) => line_continued(o, f, op, sv, sc, shaded, semi),
            _ => f == o,
        }
}

impl GPU {
    /// A line or poly-line command: first the number of parameters (three when shaded, else
    /// two); then the line from the first vertex to the second (both moved by the drawing
    /// offset), after which a poly-line waits for further vertices; each of these draws a
    /// line from the previous vertex (as given) to the new one.
    pub fn operation_line_rendering(&mut self, cmd: u32)
        requires
            old(self).wf(),
            line_ready(*old(self)),
        ensures
            final(self).wf(),
            line_effect(*old(self), *final(self), cmd),
    {
        match self.gp0state {
            Gp0State::WaitingCommandParameters(operation, None) => {
                let is_gouraud = (cmd & 0x1000_0000) != 0;
                self.gp0state = Gp0State::WaitingCommandParameters(operation, Some(if is_gouraud { 3 } else { 2 }));
            },
            Gp0State::WaitingCommandParameters(operation, Some(_)) => {
                self.line_first(operation);
            },
            Gp0State::WaitingPolyline(operation, _, start_vertex, start_color, is_gouraud, semi_transparent) => {
                self.line_next(operation, start_vertex, start_color, is_gouraud, semi_transparent);
            },
            _ => {},
        }
    }

    /// The first line of a line command, from the words in the command FIFO.
    fn line_first(&mut self, operation: Gp0Op)
        requires
            old(self).wf(),
            -1024 <= old(self).drawing_area.x_offset <= 1023,
            -1024 <= old(self).drawing_area.y_offset <= 1023,
            old(self).cmd_fifo.view().len() >= 1,
            old(self).cmd_fifo.view().len() >= line_words(old(self).cmd_fifo.view()[0]),
        ensures
            final(self).wf(),
            line_started(*old(self), *final(self), operation),
    {
        let ghost q = self.cmd_fifo.view();
        let cmd = self.cmd_fifo.pop().unwrap();
        let is_polyline = (cmd & 0x0800_0000) != 0;
        let is_gouraud = (cmd & 0x1000_0000) != 0;
        let semi_transparent = ((cmd >> 25) & 1) != 0;
        let start_color = Color::from_u32(cmd);
        let mut start_vertex = Vertex::from_command_parameter(self.cmd_fifo.pop().unwrap());
        start_vertex.add_offset(self.drawing_area.x_offset, self.drawing_area.y_offset);
        let end_color = if is_gouraud { Color::from_u32(self.cmd_fifo.pop().unwrap()) } else { start_color };
        let orig_end_vertex = Vertex::from_command_parameter(self.cmd_fifo.pop().unwrap());
        let mut end_vertex = orig_end_vertex;
        end_vertex.add_offset(self.drawing_area.x_offset, self.drawing_area.y_offset);
        proof {
            assert(self.cmd_fifo.view() =~= q.skip(line_words(q[0])));
        }
        self.draw_line(&start_vertex, &end_vertex, &start_color, &end_color, is_gouraud, semi_transparent);
        if is_polyline {
            let arg_size: usize = if is_gouraud { 2 } else { 1 };
            self.gp0state = Gp0State::WaitingPolyline(operation, arg_size, orig_end_vertex, end_color, is_gouraud, semi_transparent);
        } else {
            self.gp0state = Gp0State::WaitingCommand;
        }
    }

    /// A further vertex of a poly-line.
    fn line_next(&mut self, operation: Gp0Op, start_vertex: Vertex, start_color: Color, is_gouraud: bool, semi_transparent: bool)
        requires
            old(self).wf(),
            -1024 <= old(self).drawing_area.x_offset <= 1023,
            -1024 <= old(self).drawing_area.y_offset <= 1023,
            -1024 <= start_vertex.x <= 1023,
            -1024 <= start_vertex.y <= 1023,
            old(self).cmd_fifo.view().len() >= (if is_gouraud { 2int } else { 1int }),
        ensures
            final(self).wf(),
            line_continued(*old(self), *final(self), operation, start_vertex, start_color, is_gouraud, semi_transparent),
    {
        let ghost q = self.cmd_fifo.view();
        let end_color = if is_gouraud { Color::from_u32(self.cmd_fifo.pop().unwrap()) } else { start_color };
        let orig_end_vertex = Vertex::from_command_parameter(self.cmd_fifo.pop().unwrap());
        let mut end_vertex = orig_end_vertex;
        end_vertex.add_offset(self.drawing_area.x_offset, self.drawing_area.y_offset);
        proof {
            assert(self.cmd_fifo.view() =~= q.skip(if is_gouraud { 2int } else { 1int }));
        }
        self.draw_line(&start_vertex, &end_vertex, &start_color, &end_color, is_gouraud, semi_transparent);
        let arg_size: usize = if is_gouraud { 2 } else { 1 };
        self.gp0state = Gp0State::WaitingPolyline(operation, arg_size, orig_end_vertex, end_color, is_gouraud, semi_transparent);
    }

    /// Draws a line (see `line_drawn`) with Bresenham's algorithm; both ends are drawn.
    pub fn draw_line(&mut self, start: &Vertex, end: &Vertex, start_color: &Color, end_color: &Color, shaded: bool,
        semi_transparent: bool)
        requires
            old(self).wf(),
            -31744 <= start.x <= 31744,
            -31744 <= start.y <= 31744,
        ensures
            final(self).wf(),
            final(self).vram@ == line_drawn(*old(self), *start, *end, *start_color, *end_color, shaded, semi_transparent),
            *final(self) == (GPU { vram: final(self).vram, ..*old(self) }),
    {
        let dx: i32 = if end.x >= start.x { end.x as i32 - start.x as i32 } else { start.x as i32 - end.x as i32 };
        let dy: i32 = if end.y >= start.y { end.y as i32 - start.y as i32 } else { start.y as i32 - end.y as i32 };
        if dx > 1023 || dy > 511 {
            return;
        }
        let total_steps: i32 = if dx > dy { dx } else { dy };
        let mode = Some(self.semi_transparency);
        if total_steps == 0 {
            self.draw_pixel(start, start_color, semi_transparent, mode, true);
            return;
        }
        let sx: i16 = if start.x < end.x { 1 } else { -1 };
        let sy: i16 = if start.y < end.y { 1 } else { -1 };
        let mut err: i32 = dx - dy;
        let mut x: i16 = start.x;
        let mut y: i16 = start.y;
        let r_step: i32 = if shaded { channel_step(start_color.r, end_color.r, total_steps) } else { 0 };
        let g_step: i32 = if shaded { channel_step(start_color.g, end_color.g, total_steps) } else { 0 };
        let b_step: i32 = if shaded { channel_step(start_color.b, end_color.b, total_steps) } else { 0 };
        let mut r_current: i32 = start_color.r as i32 * 65536;
        let mut g_current: i32 = start_color.g as i32 * 65536;
        let mut b_current: i32 = start_color.b as i32 * 65536;
        let mut k: i32 = 0;
        let ghost g0 = *self;
        let ghost p = LineWalk {
            ex: end.x as int,
            ey: end.y as int,
            dx: dx as int,
            dy: dy as int,
            sx: sx as int,
            sy: sy as int,
            rs: r_step as int,
            gs: g_step as int,
            bs: b_step as int,
            total: total_steps as int,
            semi: semi_transparent,
        };
        proof {
            assert(p == LineWalk {
                ex: end.x as int, ey: end.y as int, dx: dx as int, dy: dy as int,
                sx: if start.x < end.x { 1 } else { -1 }, sy: if start.y < end.y { 1 } else { -1 },
                rs: if shaded { color_step(start_color.r, end_color.r, total_steps as int) } else { 0 },
                gs: if shaded { color_step(start_color.g, end_color.g, total_steps as int) } else { 0 },
                bs: if shaded { color_step(start_color.b, end_color.b, total_steps as int) } else { 0 },
                total: total_steps as int, semi: semi_transparent,
            });
        }
        loop
            invariant_except_break
                line_drawn(g0, *start, *end, *start_color, *end_color, shaded, semi_transparent)
                    == line_walk(g0, p, self.vram@, x as int, y as int, err as int, r_current as int, g_current as int, b_current as int, k as int),
            invariant
                self.wf(),
                *self == (GPU { vram: self.vram, ..g0 }),
                g0 == *old(self),
                mode == Some(g0.semi_transparency),
                0 <= k <= total_steps,
                0 < total_steps <= 1023,
                0 <= dx <= 1023 && 0 <= dy <= 511,
                p.total == total_steps && p.dx == dx && p.dy == dy && p.sx == sx && p.sy == sy,
                p.ex == end.x && p.ey == end.y && p.semi == semi_transparent,
                p.rs == r_step && p.gs == g_step && p.bs == b_step,
                sx == 1 || sx == -1,
                sy == 1 || sy == -1,
                start.x - k <= x <= start.x + k,
                start.y - k <= y <= start.y + k,
                -31744 <= start.x <= 31744,
                -31744 <= start.y <= 31744,
                -1534 * (k + 1) <= err <= 1534 * (k + 1),
                r_current == start_color.r * 65536 + k * r_step,
                g_current == start_color.g * 65536 + k * g_step,
                b_current == start_color.b * 65536 + k * b_step,
                r_step == (if shaded { color_step(start_color.r, end_color.r, total_steps as int) } else { 0 }),
                g_step == (if shaded { color_step(start_color.g, end_color.g, total_steps as int) } else { 0 }),
                b_step == (if shaded { color_step(start_color.b, end_color.b, total_steps as int) } else { 0 }),
            ensures
                self.wf(),
                *self == (GPU { vram: self.vram, ..g0 }),
                self.vram@ == line_drawn(g0, *start, *end, *start_color, *end_color, shaded, semi_transparent),
            decreases total_steps - k,
        {
            proof {
                if shaded {
                    lemma_color_walk(start_color.r, end_color.r, total_steps as int, k as int);
                    lemma_color_walk(start_color.g, end_color.g, total_steps as int, k as int);
                    lemma_color_walk(start_color.b, end_color.b, total_steps as int, k as int);
                }
            }
            let r = ((r_current as u32) / 65536) as u8;
            let gg = ((g_current as u32) / 65536) as u8;
            let b = ((b_current as u32) / 65536) as u8;
            let v = Vertex { x, y };
            self.draw_pixel(&v, &Color::new(r, gg, b, false), semi_transparent, mode, true);
            if (x == end.x && y == end.y) || k == total_steps {
                break;
            }
            let e2 = err * 2;
            if e2 > -dy {
                err = err - dy;
                x = x + sx;
            }
            if e2 < dx {
                err = err + dx;
                y = y + sy;
            }
            proof {
                if shaded {
                    lemma_color_walk(start_color.r, end_color.r, total_steps as int, k as int + 1);
                    lemma_color_walk(start_color.g, end_color.g, total_steps as int, k as int + 1);
                    lemma_color_walk(start_color.b, end_color.b, total_steps as int, k as int + 1);
                    assert((k + 1) * r_step == k * r_step + r_step) by (nonlinear_arith);
                    assert((k + 1) * g_step == k * g_step + g_step) by (nonlinear_arith);
                    assert((k + 1) * b_step == k * b_step + b_step) by (nonlinear_arith);
                }
            }
            r_current = r_current + r_step;
            g_current = g_current + g_step;
            b_current = b_current + b_step;
            k = k + 1;
        }
    }

    /// Draws a pixel of a primitive at `v` (see `pixel_drawn`).
    pub fn draw_pixel(&mut self, v: &Vertex, color: &Color, semi_transparent: bool, semi_transparency: Option<SemiTransparency>,
        allow_dithering: bool)
        requires
            old(self).wf(),
            semi_transparent ==> semi_transparency is Some,
        ensures
            final(self).wf(),
            final(self).vram@ == pixel_drawn(*old(self), old(self).vram@, *v, *color, semi_transparent, semi_transparency, allow_dithering),
            *final(self) == (GPU { vram: final(self).vram, ..*old(self) }),
    {
        if self.drawing_area.is_inside(v.x, v.y) {
            let c = if allow_dithering && self.dithering {
                let d = dither_value(v.x, v.y);
                color.dither(d)
            } else {
                *color
            };
            let offset = self.get_vram_offset_15(v.x as u16, v.y as u16);
            self.draw_pixel_offset(offset, c.to_u16(), true, semi_transparent, semi_transparency);
        }
    }
}

} // verus!
