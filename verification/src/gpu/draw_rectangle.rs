use vstd::prelude::*;
use crate::gpu::{GPU, Texture, TextureDepth, VRAM_SIZE, pixel_at, Color, Vertex, DrawingArea, SemiTransparency, Gp0State, Gp0Op,
    vram_offset_15, expand5, mod_color};
use crate::gpu::vram::draw_effect;
use crate::gpu::draw_line::{color_pixel, color_word, vertex_word};

verus! {

/// A texture coordinate through the texture window: the bits of `mask * 8` replaced by those
/// of `(offset & mask) * 8`.
pub open spec fn tex_coord(c: u32, mask: u8, offset: u8) -> u32 {
    (c & !((mask as u32) << 3u32)) | (((offset & mask) as u32) << 3u32)
}

/// Byte offset of the halfword in column `col` (counted from the page's left edge, wrapping
/// at 1024) of VRAM line `y`.
pub open spec fn page_word_offset(page_x: u8, col: int, y: int) -> int {
    (y * 1024 + (page_x as int * 64 + col) % 1024) * 2
}

/// Byte offset of palette entry `index` of the CLUT at (clut_x * 16, clut_y).
pub open spec fn clut_entry_offset(clut_x: u32, clut_y: u32, index: int) -> int {
    (clut_y as int * 1024 + clut_x as int * 16) * 2 + index * 2
}

/// Where a texel lies: the halfword holding it, and for indexed depths the palette entry
/// its index selects (read from `vram`).
pub open spec fn texel_word(t: Texture, u: u32, v: u32, page_x: u8, page_y: u8, depth: TextureDepth) -> int {
    let u2 = tex_coord(u, t.window_x_mask, t.window_x_offset) as int;
    let v2 = tex_coord(v, t.window_y_mask, t.window_y_offset) as int;
    let y = page_y as int * 256 + v2;
    match depth {
        TextureDepth::T4Bit => page_word_offset(page_x, u2 / 4, y),
        TextureDepth::T8Bit => page_word_offset(page_x, u2 / 2, y),
        _ => page_word_offset(page_x, u2, y),
    }
}

/// The palette index of an indexed texel: 4-bit nibble `u % 4` or byte `u % 2` of its halfword.
pub open spec fn texel_index(vram: Seq<u8>, t: Texture, u: u32, v: u32, page_x: u8, page_y: u8, depth: TextureDepth) -> int {
    let u2 = tex_coord(u, t.window_x_mask, t.window_x_offset) as int;
    let value = pixel_at(vram, texel_word(t, u, v, page_x, page_y, depth)) as int;
    match depth {
        TextureDepth::T4Bit => (value / (if u2 % 4 == 0 { 1int } else if u2 % 4 == 1 { 16 } else if u2 % 4 == 2 { 256 } else { 4096 })) % 16,
        _ => (value / (if u2 % 2 == 0 { 1int } else { 256 })) % 256,
    }
}

/// Whether the reads of a texel lie in VRAM.
pub open spec fn texel_in_vram(vram: Seq<u8>, t: Texture, clut_x: u32, clut_y: u32, u: u32, v: u32, page_x: u8, page_y: u8,
    depth: TextureDepth) -> bool {
    let w = texel_word(t, u, v, page_x, page_y, depth);
    &&& 0 <= w && w + 1 < VRAM_SIZE
    &&& (depth == TextureDepth::T4Bit || depth == TextureDepth::T8Bit) ==> {
        let c = clut_entry_offset(clut_x, clut_y, texel_index(vram, t, u, v, page_x, page_y, depth));
        0 <= c && c + 1 < VRAM_SIZE
    }
}

/// The colour of a texel: the halfword itself at 15 bits, else the palette entry.
pub open spec fn texel(vram: Seq<u8>, t: Texture, clut_x: u32, clut_y: u32, u: u32, v: u32, page_x: u8, page_y: u8,
    depth: TextureDepth) -> u16 {
    let w = texel_word(t, u, v, page_x, page_y, depth);
    match depth {
        TextureDepth::T4Bit | TextureDepth::T8Bit =>
            pixel_at(vram, clut_entry_offset(clut_x, clut_y, texel_index(vram, t, u, v, page_x, page_y, depth))),
        _ => pixel_at(vram, w),
    }
}

/// The drawing settings a rectangle is drawn with.
pub struct RectEnv {
    pub area: DrawingArea,
    pub texture: Texture,
    pub preserve: bool,
    pub force: bool,
    pub mode: SemiTransparency,
}

pub open spec fn rect_env(g: GPU) -> RectEnv {
    RectEnv { area: g.drawing_area, texture: g.texture, preserve: g.preserve_masked_pixels, force: g.force_set_mask_bit, mode: g.semi_transparency }
}

/// A rectangle command's settings: the upper left corner (moved by the drawing offset), the
/// size, texturing (raw or modulated by the command colour), semi-transparency, the texture
/// origin and the palette.
pub struct RectParams {
    pub x0: int,
    pub y0: int,
    pub width: int,
    pub height: int,
    pub textured: bool,
    pub raw: bool,
    pub semi: bool,
    pub shading: Color,
    pub base_u: u8,
    pub base_v: u8,
    pub clut_x: u32,
    pub clut_y: u32,
}

/// Words of a rectangle command: the command and a vertex, then the texture word when
/// textured (bit 26) and the size word when of variable size (bits 27-28 zero).
pub open spec fn rect_words(cmd: u32) -> int {
    2 + (if ((cmd >> 26u32) & 1) != 0 { 1int } else { 0 }) + (if ((cmd >> 27u32) & 3) == 0 { 1int } else { 0 })
}

/// The settings of a rectangle command from its words `q` and the drawing offset.
#[verifier::opaque]
pub open spec fn rect_params(q: Seq<u32>, a: DrawingArea) -> RectParams {
    let cmd = q[0];
    let textured = ((cmd >> 26u32) & 1) != 0;
    let size = (cmd >> 27u32) & 3;
    let v = vertex_word(q[1]);
    let uv = if textured { q[2] } else { 0 };
    let sz = if textured { q[3] } else { q[2] };
    let clut = uv >> 16u32;
    RectParams {
        x0: v.x + a.x_offset,
        y0: v.y + a.y_offset,
        width: if size == 0 { (sz & 0x3FF) as u16 as int } else if size == 1 { 1 } else if size == 2 { 8 } else { 16 },
        height: if size == 0 { (sz >> 16u32) as u16 as int } else if size == 1 { 1 } else if size == 2 { 8 } else { 16 },
        textured,
        raw: ((cmd >> 24u32) & 1) != 0,
        semi: ((cmd >> 25u32) & 1) != 0,
        shading: color_word(cmd),
        base_u: uv as u8,
        base_v: (uv >> 8u32) as u8,
        clut_x: clut & 0x3F,
        clut_y: (clut >> 6u32) & 0x1FF,
    }
}

/// The colour of a VRAM pixel.
pub open spec fn color_of_pixel(p: u16) -> Color {
    Color { r: expand5(p & 0x1F), g: expand5((p >> 5u16) & 0x1F), b: expand5((p >> 10u16) & 0x1F), m: (p >> 15u16) != 0 }
}

/// VRAM after the rectangle's pixel (col, row), or `None` when its texel would be read from
/// outside VRAM: pixels outside the drawing area are skipped; a textured pixel takes the texel
/// at (base_u + col, base_v + row) (each wrapping at 256), raw or modulated, and is skipped
/// when the texel is zero; an untextured one takes the command colour.
#[verifier::opaque]
pub open spec fn rect_pixel(e: RectEnv, p: RectParams, vram: Seq<u8>, col: int, row: int) -> Option<Seq<u8>> {
    let x = p.x0 + col;
    let y = p.y0 + row;
    let a = e.area;
    let off = vram_offset_15(x as i16 as u16, y as i16 as u16);
    if !(x as i16 >= a.area_left as i16 && x as i16 <= a.area_right as i16 && y as i16 >= a.area_top as i16 && y as i16 <= a.area_bottom as i16) {
        Some(vram)
    } else if p.textured {
        let u = ((p.base_u as int + col) % 256) as u8;
        let v = ((p.base_v as int + row) % 256) as u8;
        if !texel_in_vram(vram, e.texture, p.clut_x, p.clut_y, u as u32, v as u32, e.texture.page_base_x, e.texture.page_base_y, e.texture.depth) {
            None
        } else {
            let t = texel(vram, e.texture, p.clut_x, p.clut_y, u as u32, v as u32, e.texture.page_base_x, e.texture.page_base_y, e.texture.depth);
            if t == 0 {
                Some(vram)
            } else {
                let raw = color_of_pixel(t);
                let c = if p.raw { raw } else {
                    Color { r: mod_color(raw.r, p.shading.r), g: mod_color(raw.g, p.shading.g), b: mod_color(raw.b, p.shading.b), m: raw.m }
                };
                Some(draw_effect(e.preserve, e.force, vram, off, color_pixel(c), true, p.semi, Some(e.mode)))
            }
        }
    } else {
        Some(draw_effect(e.preserve, e.force, vram, off, color_pixel(p.shading), true, p.semi, Some(e.mode)))
    }
}

/// VRAM after the pixels `col..width` of row `row`, left to right.
#[verifier::opaque]
pub open spec fn rect_row(e: RectEnv, p: RectParams, vram: Seq<u8>, row: int, col: int) -> Option<Seq<u8>>
    decreases p.width - col,
{
    if col >= p.width {
        Some(vram)
    } else {
        match rect_pixel(e, p, vram, col, row) {
            Some(v) => rect_row(e, p, v, row, col + 1),
            None => None,
        }
    }
}

/// VRAM after the rows `row..height`, top to bottom.
#[verifier::opaque]
pub open spec fn rect_rows(e: RectEnv, p: RectParams, vram: Seq<u8>, row: int) -> Option<Seq<u8>>
    decreases p.height - row,
{
    if row >= p.height {
        Some(vram)
    } else {
        match rect_row(e, p, vram, row, 0) {
            Some(v) => rect_rows(e, p, v, row + 1),
            None => None,
        }
    }
}

/// What a rectangle command needs: drawing offsets of 11-bit range; and, once its words are
/// in the command FIFO, all of them, rows that stay in the 16-bit coordinate range, and every
/// texel it reads inside VRAM.
pub open spec fn rect_ready(g: GPU) -> bool {
    &&& -1024 <= g.drawing_area.x_offset <= 1023
    &&& -1024 <= g.drawing_area.y_offset <= 1023
    &&& g.gp0state matches Gp0State::WaitingCommandParameters(_, Some(_)) ==> {
        let q = g.cmd_fifo.view();
        &&& q.len() >= 1
        &&& q.len() >= rect_words(q[0])
        &&& rect_params(q, g.drawing_area).x0 + rect_params(q, g.drawing_area).width <= i16::MAX
        &&& rect_params(q, g.drawing_area).y0 + rect_params(q, g.drawing_area).height <= i16::MAX
        &&& rect_rows(rect_env(g), rect_params(q, g.drawing_area), g.vram@, 0) is Some
    }
}

/// What `operation_rectangle_rendering` does to the GPU.
pub open spec fn rect_effect(o: GPU, f: GPU, cmd: u32) -> bool {
    &&& match o.gp0state {
            Gp0State::WaitingCommandParameters(op, None) => f == (GPU {
                gp0state: Gp0State::WaitingCommandParameters(op, Some((rect_words(cmd) - 1) as usize)), ..o }),
            Gp0State::WaitingCommandParameters(_, Some(_)) => {
                let q = o.cmd_fifo.view();
                &&& f.cmd_fifo.view() == q.skip(rect_words(q[0]))
                &&& Some(f.vram@) == rect_rows(rect_env(o), rect_params(q, o.drawing_area), o.vram@, 0)
                &&& f.gp0state == Gp0State::WaitingCommand
                &&& f == (GPU { vram: f.vram, cmd_fifo: f.cmd_fifo, gp0state: f.gp0state, ..o })
            },
            _ => f == o,
        }
}

impl GPU {
    /// A rectangle command: first the number of parameters (the vertex, plus the texture word
    /// when textured and the size word when of variable size); then the rectangle drawn (see
    /// `rect_rows`) and the port ready for a command.
    pub fn operation_rectangle_rendering(&mut self, cmd: u32)
        requires
            old(self).wf(),
            rect_ready(*old(self)),
        ensures
            final(self).wf(),
            rect_effect(*old(self), *final(self), cmd),
    {
        match self.gp0state {
            Gp0State::WaitingCommandParameters(operation, None) => {
                let mut expected_data: usize = 1;
                let size = (cmd >> 27) & 3;
                let is_textured = ((cmd >> 26) & 1) != 0;
                if is_textured {
                    expected_data = expected_data + 1;
                }
                if size == 0 {
                    expected_data = expected_data + 1;
                }
                self.gp0state = Gp0State::WaitingCommandParameters(operation, Some(expected_data));
            },
            Gp0State::WaitingCommandParameters(_, Some(_)) => {
                self.rectangle_from_fifo();
            },
            _ => {},
        }
    }

    /// Takes a rectangle's words from the command FIFO: the command, the vertex, the texture
    /// word (zero when untextured) and the size word (zero when of fixed size).
    #[verifier::rlimit(50)]
    fn pop_rectangle_words(&mut self) -> (r: (u32, u32, u32, u32))
        requires
            old(self).wf(),
            old(self).cmd_fifo.view().len() >= 1,
            old(self).cmd_fifo.view().len() >= rect_words(old(self).cmd_fifo.view()[0]),
        ensures
            final(self).wf(),
            ({
                let q = old(self).cmd_fifo.view();
                let textured = ((q[0] >> 26u32) & 1) != 0;
                &&& r.0 == q[0]
                &&& r.1 == q[1]
                &&& r.2 == (if textured { q[2] } else { 0 })
                &&& r.3 == (if ((q[0] >> 27u32) & 3) == 0 { if textured { q[3] } else { q[2] } } else { 0 })
                &&& final(self).cmd_fifo.view() == q.skip(rect_words(q[0]))
            }),
            *final(self) == (GPU { cmd_fifo: final(self).cmd_fifo, ..*old(self) }),
    {
        let ghost q = self.cmd_fifo.view();
        let cmd = self.cmd_fifo.pop().unwrap();
        let vertex = self.cmd_fifo.pop().unwrap();
        let uv: u32 = if ((cmd >> 26) & 1) != 0 { self.cmd_fifo.pop().unwrap() } else { 0 };
        let sz: u32 = if ((cmd >> 27) & 3) == 0 { self.cmd_fifo.pop().unwrap() } else { 0 };
        proof {
            assert(self.cmd_fifo.view() =~= q.skip(rect_words(q[0])));
        }
        (cmd, vertex, uv, sz)
    }

    /// Takes a rectangle's words from the command FIFO and draws it.
    fn rectangle_from_fifo(&mut self)
        requires
            old(self).wf(),
            rect_ready(*old(self)),
            old(self).gp0state matches Gp0State::WaitingCommandParameters(_, Some(_)),
        ensures
            final(self).wf(),
            final(self).cmd_fifo.view() == old(self).cmd_fifo.view().skip(rect_words(old(self).cmd_fifo.view()[0])),
            Some(final(self).vram@) == rect_rows(rect_env(*old(self)), rect_params(old(self).cmd_fifo.view(), old(self).drawing_area),
                old(self).vram@, 0),
            final(self).gp0state == Gp0State::WaitingCommand,
            *final(self) == (GPU { vram: final(self).vram, cmd_fifo: final(self).cmd_fifo, gp0state: final(self).gp0state, ..*old(self) }),
    {
        let ghost q = self.cmd_fifo.view();
        let ghost g0 = *self;
        let (cmd, vertex_word, uv, sz) = self.pop_rectangle_words();
        let size = (cmd >> 27) & 3;
        let is_textured = ((cmd >> 26) & 1) != 0;
        let semi_transparent = ((cmd >> 25) & 1) != 0;
        let is_raw_texture = ((cmd >> 24) & 1) != 0;
        let shading_color = Color::from_u32(cmd);
        let mut vertex = Vertex::from_command_parameter(vertex_word);
        let (width, height): (u16, u16) = if size == 0 {
            ((sz & 0x3FF) as u16, (sz >> 16) as u16)
        } else if size == 1 {
            (1, 1)
        } else if size == 2 {
            (8, 8)
        } else {
            (16, 16)
        };
        vertex.add_offset(self.drawing_area.x_offset, self.drawing_area.y_offset);
        let base_u = uv as u8;
        let base_v = (uv >> 8) as u8;
        let clut = uv >> 16;
        let clut_x = clut & 0x3F;
        let clut_y = (clut >> 6) & 0x1FF;
        proof {
            assert(rect_params(q, g0.drawing_area) == (RectParams { x0: vertex.x as int, y0: vertex.y as int, width: width as int,
                height: height as int, textured: is_textured, raw: is_raw_texture, semi: semi_transparent, shading: shading_color,
                base_u, base_v, clut_x, clut_y })) by {
                reveal(rect_params);
            }
            assert(rect_env(*self) == rect_env(g0));
        }
        self.draw_rectangle(vertex.x, vertex.y, width, height, is_textured, is_raw_texture, semi_transparent, shading_color,
            base_u, base_v, clut_x, clut_y);
        self.gp0state = Gp0State::WaitingCommand;
    }

    /// Draws a rectangle (see `rect_rows`), row by row, left to right.
    #[verifier::rlimit(50)]
    fn draw_rectangle(&mut self, x0: i16, y0: i16, width: u16, height: u16, textured: bool, raw: bool, semi: bool,
        shading: Color, base_u: u8, base_v: u8, clut_x: u32, clut_y: u32)
        requires
            old(self).wf(),
            x0 + width <= i16::MAX,
            y0 + height <= i16::MAX,
            rect_rows(rect_env(*old(self)), RectParams { x0: x0 as int, y0: y0 as int, width: width as int, height: height as int,
                textured, raw, semi, shading, base_u, base_v, clut_x, clut_y }, old(self).vram@, 0) is Some,
        ensures
            final(self).wf(),
            Some(final(self).vram@) == rect_rows(rect_env(*old(self)), RectParams { x0: x0 as int, y0: y0 as int, width: width as int,
                height: height as int, textured, raw, semi, shading, base_u, base_v, clut_x, clut_y }, old(self).vram@, 0),
            *final(self) == (GPU { vram: final(self).vram, ..*old(self) }),
    {
        reveal(rect_pixel);
        reveal(rect_row);
        reveal(rect_rows);
        let ghost e = rect_env(*self);
        let ghost p = RectParams { x0: x0 as int, y0: y0 as int, width: width as int, height: height as int,
            textured, raw, semi, shading, base_u, base_v, clut_x, clut_y };
        let ghost total = rect_rows(e, p, self.vram@, 0);
        let ghost g0 = *self;
        let mode = Some(self.semi_transparency);
        let mut row: u16 = 0;
        while row < height
            invariant
                self.wf(),
                *self == (GPU { vram: self.vram, ..g0 }),
                e == rect_env(g0),
                mode == Some(g0.semi_transparency),
                row <= height,
                y0 + height <= i16::MAX,
                x0 + width <= i16::MAX,
                p == (RectParams { x0: x0 as int, y0: y0 as int, width: width as int, height: height as int,
                    textured, raw, semi, shading, base_u, base_v, clut_x, clut_y }),
                total is Some,
                rect_rows(e, p, self.vram@, row as int) == total,
            decreases height - row,
        {
            reveal(rect_pixel);
            reveal(rect_row);
            reveal(rect_rows);
            let y: i16 = (y0 as i32 + row as i32) as i16;
            let v: u8 = ((base_v as u32 + row as u32) % 256) as u8;
            let mut col: u16 = 0;
            while col < width
                invariant
                    self.wf(),
                    *self == (GPU { vram: self.vram, ..g0 }),
                    e == rect_env(g0),
                    mode == Some(g0.semi_transparency),
                    row < height,
                    col <= width,
                    y0 + height <= i16::MAX,
                    x0 + width <= i16::MAX,
                    y == y0 + row,
                    v == ((base_v as int + row as int) % 256) as u8,
                    p == (RectParams { x0: x0 as int, y0: y0 as int, width: width as int, height: height as int,
                        textured, raw, semi, shading, base_u, base_v, clut_x, clut_y }),
                    total is Some,
                    match rect_row(e, p, self.vram@, row as int, col as int) {
                        Some(vr) => rect_rows(e, p, vr, row as int + 1) == total,
                        None => false,
                    },
                decreases width - col,
            {
                reveal(rect_pixel);
                reveal(rect_row);
                reveal(rect_rows);
                let x: i16 = (x0 as i32 + col as i32) as i16;
                let ghost before = self.vram@;
                proof {
                    assert(rect_row(e, p, before, row as int, col as int) == match rect_pixel(e, p, before, col as int, row as int) {
                        Some(vv) => rect_row(e, p, vv, row as int, col as int + 1),
                        None => None,
                    });
                }
                if self.drawing_area.is_inside(x, y) {
                    let offset = self.get_vram_offset_15(x as u16, y as u16);
                    if textured {
                        let u: u8 = ((base_u as u32 + col as u32) % 256) as u8;
                        let t = self.get_texture_pixel(clut_x, clut_y, u as u32, v as u32, self.texture.page_base_x,
                            self.texture.page_base_y, self.texture.depth);
                        if t != 0 {
                            let raw_color = Color::from_u16(t);
                            let c = if raw { raw_color } else { raw_color.modulate_with(&shading) };
                            self.draw_pixel_offset(offset, c.to_u16(), true, semi, mode);
                        }
                        assert(rect_pixel(e, p, before, col as int, row as int) == Some(self.vram@));
                    } else {
                        self.draw_pixel_offset(offset, shading.to_u16(), true, semi, mode);
                        assert(rect_pixel(e, p, before, col as int, row as int) == Some(self.vram@));
                    }
                } else {
                    assert(rect_pixel(e, p, before, col as int, row as int) == Some(self.vram@));
                }
                col = col + 1;
            }
            proof {
                assert(rect_row(e, p, self.vram@, row as int, width as int) == Some(self.vram@));
            }
            row = row + 1;
        }
    }

    /// Whether the reads of a texel lie in VRAM (see `texel_in_vram`).
    pub fn texel_in_range(&self, clut_x: u32, clut_y: u32, u: u32, v: u32, texture_page_x: u8, texture_page_y: u8,
        texture_depth: TextureDepth) -> (r: bool)
        requires
            self.wf(),
        ensures
            r == texel_in_vram(self.vram@, self.texture, clut_x, clut_y, u, v, texture_page_x, texture_page_y, texture_depth),
    {
        let u2 = (u & !((self.texture.window_x_mask as u32) << 3u32)) | (((self.texture.window_x_offset & self.texture.window_x_mask) as u32) << 3u32);
        let v2 = (v & !((self.texture.window_y_mask as u32) << 3u32)) | (((self.texture.window_y_offset & self.texture.window_y_mask) as u32) << 3u32);
        let y: u64 = texture_page_y as u64 * 256 + v2 as u64;
        let col: u64 = match texture_depth {
            TextureDepth::T4Bit => u2 as u64 / 4,
            TextureDepth::T8Bit => u2 as u64 / 2,
            _ => u2 as u64,
        };
        let word: u64 = (y * 1024 + (texture_page_x as u64 * 64 + col) % 1024) * 2;
        if word + 1 >= VRAM_SIZE as u64 {
            return false;
        }
        match texture_depth {
            TextureDepth::T4Bit | TextureDepth::T8Bit => {
                let value = self.get_pixel_15(word as usize);
                let index: u64 = match texture_depth {
                    TextureDepth::T4Bit => {
                        let k = u2 % 4;
                        let d: u64 = if k == 0 { 1 } else if k == 1 { 16 } else if k == 2 { 256 } else { 4096 };
                        (value as u64 / d) % 16
                    },
                    _ => {
                        let d: u64 = if u2 % 2 == 0 { 1 } else { 256 };
                        (value as u64 / d) % 256
                    },
                };
                let entry: u64 = (clut_y as u64 * 1024 + clut_x as u64 * 16) * 2 + index * 2;
                entry + 1 < VRAM_SIZE as u64
            },
            _ => true,
        }
    }

    /// The texel (u, v) of a texture page, through the texture window and, for 4 and 8-bit
    /// textures, the palette at (clut_x * 16, clut_y).
    pub fn get_texture_pixel(&self, clut_x: u32, clut_y: u32, u: u32, v: u32, texture_page_x: u8, texture_page_y: u8,
        texture_depth: TextureDepth) -> (r: u16)
        requires
            self.wf(),
            texel_in_vram(self.vram@, self.texture, clut_x, clut_y, u, v, texture_page_x, texture_page_y, texture_depth),
        ensures
            r == texel(self.vram@, self.texture, clut_x, clut_y, u, v, texture_page_x, texture_page_y, texture_depth),
    {
        let u2 = (u & !((self.texture.window_x_mask as u32) << 3u32)) | (((self.texture.window_x_offset & self.texture.window_x_mask) as u32) << 3u32);
        let v2 = (v & !((self.texture.window_y_mask as u32) << 3u32)) | (((self.texture.window_y_offset & self.texture.window_y_mask) as u32) << 3u32);
        let y: u64 = texture_page_y as u64 * 256 + v2 as u64;
        let col: u64 = match texture_depth {
            TextureDepth::T4Bit => u2 as u64 / 4,
            TextureDepth::T8Bit => u2 as u64 / 2,
            _ => u2 as u64,
        };
        let word: u64 = (y * 1024 + (texture_page_x as u64 * 64 + col) % 1024) * 2;
        let value = self.get_pixel_15(word as usize);
        match texture_depth {
            TextureDepth::T4Bit | TextureDepth::T8Bit => {
                let index: u64 = match texture_depth {
                    TextureDepth::T4Bit => {
                        let k = u2 % 4;
                        let d: u64 = if k == 0 { 1 } else if k == 1 { 16 } else if k == 2 { 256 } else { 4096 };
                        (value as u64 / d) % 16
                    },
                    _ => {
                        let d: u64 = if u2 % 2 == 0 { 1 } else { 256 };
                        (value as u64 / d) % 256
                    },
                };
                let entry: u64 = (clut_y as u64 * 1024 + clut_x as u64 * 16) * 2 + index * 2;
                self.get_pixel_15(entry as usize)
            },
            _ => value,
        }
    }
}

} // verus!
