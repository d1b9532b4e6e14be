use vstd::prelude::*;
use crate::gpu::{GPU, Color, Vertex, SemiTransparency, TextureDepth, DrawingArea, Gp0State, Texture};
use crate::gpu::draw_line::{color_word, vertex_word, offset_vertex};

verus! {

/// The texture of a textured polygon: its palette (from the first vertex's texture word) and
/// its page (from the second's).
#[derive(Debug, Clone, Copy)]
pub struct PolygonTexture {
    pub clut_x: u32,
    pub clut_y: u32,
    pub page_base_x: u8,
    pub page_base_y: u8,
    pub semi_transparency: SemiTransparency,
    pub texture_depth: TextureDepth,
}

/// Texture coordinates of a vertex.
#[derive(Debug, Clone, Copy)]
pub struct UV {
    pub u: i32,
    pub v: i32,
}

/// A polygon to rasterise: its vertices with their colours and texture coordinates, and its
/// texture when textured.
#[derive(Debug)]
pub struct Polygon {
    pub vertex: Vec<(Vertex, Color, UV)>,
    pub texture: Option<PolygonTexture>,
}

/// A polygon command's drawing request.
#[derive(Debug)]
pub struct PolygonDraw {
    pub polygon: Polygon,
    pub is_gouraud: bool,
    pub is_textured: bool,
    pub semi_transparent: bool,
    pub raw_texture: bool,
}

/// Words a vertex takes: a colour (shaded polygons, but for the first vertex, whose colour is
/// in the command), the vertex, a texture word (textured polygons).
pub open spec fn vertex_words(shaded: bool, textured: bool, k: int) -> int {
    (if shaded && k > 0 { 1int } else { 0 }) + 1 + (if textured { 1int } else { 0 })
}

/// Parameter words of a polygon command: vertices (four with bit 27, else three), a colour
/// for each but the first when shaded (bit 28), a texture word for each when textured (bit 26).
pub open spec fn polygon_words(cmd: u32) -> int {
    let n: int = if (cmd & 0x0800_0000) != 0 { 4 } else { 3 };
    n + (if (cmd & 0x1000_0000) != 0 { n - 1 } else { 0 }) + (if (cmd & 0x0400_0000) != 0 { n } else { 0 })
}

/// The words after the command split into whole vertices (none left over).
pub open spec fn vertices_complete(q: Seq<u32>, shaded: bool, textured: bool, k: int) -> bool
    decreases q.len(),
{
    if q.len() == 0 {
        true
    } else {
        let w = vertex_words(shaded, textured, k);
        q.len() >= w && vertices_complete(q.skip(w), shaded, textured, k + 1)
    }
}

/// The texture word of vertex `k`, the first of the words `q` (zero when untextured).
pub open spec fn vertex_uv_word(q: Seq<u32>, shaded: bool, textured: bool, k: int) -> u32 {
    let cw: int = if shaded && k > 0 { 1 } else { 0 };
    if textured { q[cw + 1] } else { 0 }
}

/// Vertex `k`, the first of the words `q`: moved by the drawing offset, with the command
/// colour (flat, or the first vertex) or its own, and the texture coordinates of its texture
/// word (zero when untextured).
pub open spec fn vertex_entry(q: Seq<u32>, shading: Color, shaded: bool, textured: bool, a: DrawingArea, k: int) -> (Vertex, Color, UV) {
    let cw: int = if shaded && k > 0 { 1 } else { 0 };
    let color = if shaded && k > 0 { color_word(q[0]) } else { shading };
    let uvw = vertex_uv_word(q, shaded, textured, k);
    let uv = if textured { UV { u: uvw as u8 as i32, v: (uvw >> 8u32) as u8 as i32 } } else { UV { u: 0, v: 0 } };
    (offset_vertex(vertex_word(q[cw]), a), color, uv)
}

/// The vertices the words `q` describe, from vertex number `k` on.
pub open spec fn polygon_vertices(q: Seq<u32>, shading: Color, shaded: bool, textured: bool, a: DrawingArea, k: int)
    -> Seq<(Vertex, Color, UV)>
    decreases q.len(),
{
    let w = vertex_words(shaded, textured, k);
    if q.len() == 0 || q.len() < w {
        Seq::empty()
    } else {
        seq![vertex_entry(q, shading, shaded, textured, a, k)] + polygon_vertices(q.skip(w), shading, shaded, textured, a, k + 1)
    }
}

/// The texture words of the vertices `q` describes, from vertex number `k` on.
pub open spec fn polygon_uv_words(q: Seq<u32>, shaded: bool, textured: bool, k: int) -> Seq<u32>
    decreases q.len(),
{
    let w = vertex_words(shaded, textured, k);
    if q.len() == 0 || q.len() < w {
        Seq::empty()
    } else {
        seq![vertex_uv_word(q, shaded, textured, k)] + polygon_uv_words(q.skip(w), shaded, textured, k + 1)
    }
}

/// The texture depth of texpage bits 7-8.
pub open spec fn depth_of_page(page: u32) -> TextureDepth {
    let d = (page >> 7u32) & 3;
    if d == 0 { TextureDepth::T4Bit } else if d == 1 { TextureDepth::T8Bit } else if d == 2 { TextureDepth::T15Bit } else { TextureDepth::Reserved }
}

/// The semi-transparency mode of texpage bits 5-6.
pub open spec fn mode_of_page(page: u32) -> SemiTransparency {
    let m = (page >> 5u32) & 3;
    if m == 0 { SemiTransparency::Average } else if m == 1 { SemiTransparency::Additive } else if m == 2 { SemiTransparency::Subtractive } else { SemiTransparency::AddQuarter }
}

/// A polygon texture after the texture word of vertex `k`: the first gives the palette
/// (x in bits 16-21 in 16-halfword steps, y in bits 22-30), the second the page (bits 16-24
/// as GP0(E1h) bits 0-8).
pub open spec fn texture_after(t: PolygonTexture, k: int, uvw: u32) -> PolygonTexture {
    let hi = uvw >> 16u32;
    if k == 0 {
        PolygonTexture { clut_x: hi & 0x3F, clut_y: (hi >> 6u32) & 0x1FF, ..t }
    } else if k == 1 {
        PolygonTexture { page_base_x: (hi & 0xF) as u8, page_base_y: ((hi >> 4u32) & 1) as u8, semi_transparency: mode_of_page(hi),
            texture_depth: depth_of_page(hi), ..t }
    } else {
        t
    }
}

/// The texture after the texture words `ws` of vertices `k` on.
pub open spec fn texture_of(t: PolygonTexture, ws: Seq<u32>, k: int) -> PolygonTexture
    decreases ws.len(),
{
    if ws.len() == 0 { t } else { texture_of(texture_after(t, k, ws[0]), ws.drop_first(), k + 1) }
}

/// The polygon texture before any texture word.
pub open spec fn empty_texture() -> PolygonTexture {
    PolygonTexture { clut_x: 0, clut_y: 0, page_base_x: 0, page_base_y: 0, semi_transparency: SemiTransparency::Average,
        texture_depth: TextureDepth::T4Bit }
}

/// The global texture settings after a textured polygon's page word (`None`: no page word).
pub open spec fn texture_with_page(t: Texture, pt: PolygonTexture) -> Texture {
    Texture { page_base_x: pt.page_base_x, page_base_y: pt.page_base_y, depth: pt.texture_depth, ..t }
}

/// What a polygon command needs: drawing offsets of 11-bit range and, once its words are in
/// the command FIFO, the words after the command making whole vertices.
pub open spec fn polygon_ready(g: GPU) -> bool {
    &&& -1024 <= g.drawing_area.x_offset <= 1023
    &&& -1024 <= g.drawing_area.y_offset <= 1023
    &&& g.gp0state matches Gp0State::WaitingCommandParameters(_, Some(_)) ==> {
        let q = g.cmd_fifo.view();
        q.len() >= 1 && vertices_complete(q.drop_first(), (q[0] & 0x1000_0000) != 0, (q[0] & 0x0400_0000) != 0, 0)
    }
}

/// Appending a texture word extends the texture by that word.
proof fn lemma_texture_of_push(t: PolygonTexture, ws: Seq<u32>, w: u32, k: int)
    ensures
        texture_of(t, ws.push(w), k) == texture_after(texture_of(t, ws, k), k + ws.len(), w),
    decreases ws.len(),
{
    if ws.len() > 0 {
        assert(ws.push(w).drop_first() =~= ws.drop_first().push(w));
        assert(ws.push(w)[0] == ws[0]);
        lemma_texture_of_push(texture_after(t, k, ws[0]), ws.drop_first(), w, k + 1);
    } else {
        assert(ws.push(w).drop_first() =~= Seq::<u32>::empty());
        assert(ws.push(w)[0] == w);
        assert(texture_of(texture_after(t, k, w), Seq::<u32>::empty(), k + 1) == texture_after(t, k, w));
    }
}

/// What `operation_polygon_rendering` does to the GPU and what it returns.
pub open spec fn polygon_effect(o: GPU, f: GPU, cmd: u32, r: Option<PolygonDraw>) -> bool {
    &&& match o.gp0state {
            Gp0State::WaitingCommandParameters(op, None) => r is None && f == (GPU {
                gp0state: Gp0State::WaitingCommandParameters(op, Some(polygon_words(cmd) as usize)), ..o }),
            Gp0State::WaitingCommandParameters(_, Some(_)) => {
                let q = o.cmd_fifo.view();
                let c = q[0];
                let shaded = (c & 0x1000_0000) != 0;
                let textured = (c & 0x0400_0000) != 0;
                let ws = polygon_uv_words(q.drop_first(), shaded, textured, 0);
                let tex = texture_of(empty_texture(), ws, 0);
                let paged = textured && ws.len() >= 2;
                &&& r matches Some(d) && d.polygon.vertex@ == polygon_vertices(q.drop_first(), color_word(c), shaded, textured,
                        o.drawing_area, 0)
                    && d.polygon.texture == (if textured { Some(tex) } else { None })
                    && d.is_gouraud == shaded && d.is_textured == textured
                    && d.semi_transparent == ((c & 0x0200_0000) != 0) && d.raw_texture == ((c & 0x0100_0000) != 0)
                &&& f.cmd_fifo.view().len() == 0
                &&& f.gp0state == Gp0State::WaitingCommand
                &&& f.texture == (if paged { texture_with_page(o.texture, tex) } else { o.texture })
                &&& f.semi_transparency == (if paged { tex.semi_transparency } else { o.semi_transparency })
                &&& f == (GPU { cmd_fifo: f.cmd_fifo, gp0state: f.gp0state,
                    texture: f.texture, semi_transparency: f.semi_transparency, ..o })
            },
            _ => r is None && f == o,
        }
}

impl GPU {
    /// A polygon command: first the number of parameter words (see `polygon_words`); then
    /// the polygon read from the command FIFO (see `polygon_vertices`), its texture from the
    /// texture words, the texture page and semi-transparency of the second one made the global
    /// setting, and the port ready for a command. The polygon is handed back to be
    /// rasterised.
    #[verifier::rlimit(60)]
    pub fn operation_polygon_rendering(&mut self, cmd: u32) -> (r: Option<PolygonDraw>)
        requires
            old(self).wf(),
            polygon_ready(*old(self)),
        ensures
            final(self).wf(),
            polygon_effect(*old(self), *final(self), cmd, r),
    {
        match self.gp0state {
            Gp0State::WaitingCommandParameters(operation, None) => {
                let is_gouraud = (cmd & 0x1000_0000) != 0;
                let is_4_vertex = (cmd & 0x0800_0000) != 0;
                let is_textured = (cmd & 0x0400_0000) != 0;
                let vertex: usize = if is_4_vertex { 4 } else { 3 };
                let mut expected_data = vertex;
                if is_gouraud {
                    expected_data = expected_data + vertex - 1;
                }
                if is_textured {
                    expected_data = expected_data + vertex;
                }
                self.gp0state = Gp0State::WaitingCommandParameters(operation, Some(expected_data));
                None
            },
            Gp0State::WaitingCommandParameters(_, Some(_)) => Some(self.polygon_from_fifo()),
            _ => None,
        }
    }

    /// Reads vertex number `k` of a polygon from the command FIFO, updating the polygon's
    /// texture and, from the second texture word, the global texture page.
    #[verifier::rlimit(60)]
    fn polygon_vertex_from_fifo(&mut self, k: usize, is_gouraud: bool, is_textured: bool, shading_color: Color,
        texture: &mut PolygonTexture) -> (r: ((Vertex, Color, UV), u32))
        requires
            old(self).wf(),
            -1024 <= old(self).drawing_area.x_offset <= 1023,
            -1024 <= old(self).drawing_area.y_offset <= 1023,
            old(self).cmd_fifo.view().len() >= vertex_words(is_gouraud, is_textured, k as int),
        ensures
            final(self).wf(),
            r.0 == vertex_entry(old(self).cmd_fifo.view(), shading_color, is_gouraud, is_textured, old(self).drawing_area, k as int),
            r.1 == vertex_uv_word(old(self).cmd_fifo.view(), is_gouraud, is_textured, k as int),
            final(self).cmd_fifo.view() == old(self).cmd_fifo.view().skip(vertex_words(is_gouraud, is_textured, k as int)),
            is_textured ==> *final(texture) == texture_after(*old(texture), k as int, r.1),
            (is_textured && k == 1) ==> final(self).texture == texture_with_page(old(self).texture, *final(texture))
                && final(self).semi_transparency == final(texture).semi_transparency,
            !(is_textured && k == 1) ==> final(self).texture == old(self).texture
                && final(self).semi_transparency == old(self).semi_transparency,
            *final(self) == (GPU { cmd_fifo: final(self).cmd_fifo, texture: final(self).texture,
                semi_transparency: final(self).semi_transparency, ..*old(self) }),
    {
        let ghost qv = self.cmd_fifo.view();
        let color = if is_gouraud && k > 0 { Color::from_u32(self.cmd_fifo.pop().unwrap()) } else { shading_color };
        let mut vertex = Vertex::from_command_parameter(self.cmd_fifo.pop().unwrap());
        vertex.add_offset(self.drawing_area.x_offset, self.drawing_area.y_offset);
        let mut uv = UV { u: 0, v: 0 };
        let mut uvw: u32 = 0;
        if is_textured {
            let word = self.cmd_fifo.pop().unwrap();
            uvw = word;
            uv.u = word as u8 as i32;
            uv.v = (word >> 8) as u8 as i32;
            let hi = word >> 16;
            if k == 0 {
                texture.clut_x = hi & 0x3F;
                texture.clut_y = (hi >> 6) & 0x1FF;
            } else if k == 1 {
                let page_base_x = (hi & 0xF) as u8;
                let page_base_y = ((hi >> 4) & 0x1) as u8;
                let semi_transparency = SemiTransparency::from_command(hi);
                let d = (hi >> 7) & 3;
                let texture_depth = if d == 0 { TextureDepth::T4Bit } else if d == 1 { TextureDepth::T8Bit }
                    else if d == 2 { TextureDepth::T15Bit } else { TextureDepth::Reserved };
                texture.page_base_x = page_base_x;
                texture.page_base_y = page_base_y;
                texture.texture_depth = texture_depth;
                texture.semi_transparency = semi_transparency;
                self.texture.page_base_x = page_base_x;
                self.texture.page_base_y = page_base_y;
                self.texture.depth = texture_depth;
                self.semi_transparency = semi_transparency;
            }
        }
        proof {
            assert(self.cmd_fifo.view() =~= qv.skip(vertex_words(is_gouraud, is_textured, k as int)));
        }
        ((vertex, color, uv), uvw)
    }

    /// Reads a polygon command's words from the command FIFO (see `operation_polygon_rendering`).
    #[verifier::rlimit(80)]
    fn polygon_from_fifo(&mut self) -> (d: PolygonDraw)
        requires
            old(self).wf(),
            polygon_ready(*old(self)),
            old(self).gp0state matches Gp0State::WaitingCommandParameters(_, Some(_)),
        ensures
            final(self).wf(),
            ({
                let q = old(self).cmd_fifo.view();
                let c = q[0];
                let shaded = (c & 0x1000_0000) != 0;
                let textured = (c & 0x0400_0000) != 0;
                let ws = polygon_uv_words(q.drop_first(), shaded, textured, 0);
                let tex = texture_of(empty_texture(), ws, 0);
                let paged = textured && ws.len() >= 2;
                &&& d.polygon.vertex@ == polygon_vertices(q.drop_first(), color_word(c), shaded, textured, old(self).drawing_area, 0)
                &&& d.polygon.texture == (if textured { Some(tex) } else { None })
                &&& d.is_gouraud == shaded && d.is_textured == textured
                &&& d.semi_transparent == ((c & 0x0200_0000) != 0) && d.raw_texture == ((c & 0x0100_0000) != 0)
                &&& final(self).cmd_fifo.view().len() == 0
                &&& final(self).gp0state == Gp0State::WaitingCommand
                &&& final(self).texture == (if paged { texture_with_page(old(self).texture, tex) } else { old(self).texture })
                &&& final(self).semi_transparency == (if paged { tex.semi_transparency } else { old(self).semi_transparency })
            }),
            *final(self) == (GPU { cmd_fifo: final(self).cmd_fifo, gp0state: final(self).gp0state,
                texture: final(self).texture, semi_transparency: final(self).semi_transparency, ..*old(self) }),
    {
        let ghost g0 = *self;
        let cmd = self.cmd_fifo.pop().unwrap();
        let is_gouraud = (cmd & 0x1000_0000) != 0;
        let is_textured = (cmd & 0x0400_0000) != 0;
        let semi_transparent = (cmd & 0x0200_0000) != 0;
        let raw_texture = (cmd & 0x0100_0000) != 0;
        let shading_color = Color::from_u32(cmd);
        let ghost rest0 = self.cmd_fifo.view();
        let ghost g1 = *self;
        let mut vertices: Vec<(Vertex, Color, UV)> = Vec::new();
        let mut texture = PolygonTexture { clut_x: 0, clut_y: 0, page_base_x: 0, page_base_y: 0,
            semi_transparency: SemiTransparency::Average, texture_depth: TextureDepth::T4Bit };
        let mut word_index: usize = 0;
        let ghost mut ws_done: Seq<u32> = Seq::empty();
        let ghost area = g0.drawing_area;
        while !self.cmd_fifo.is_empty()
            invariant
                self.wf(),
                *self == (GPU { cmd_fifo: self.cmd_fifo, texture: self.texture, semi_transparency: self.semi_transparency, ..g1 }),
                g1.drawing_area == area,
                -1024 <= area.x_offset <= 1023,
                -1024 <= area.y_offset <= 1023,
                word_index + self.cmd_fifo.view().len() <= 16,
                vertices_complete(self.cmd_fifo.view(), is_gouraud, is_textured, word_index as int),
                vertices@.len() == word_index,
                ws_done.len() == word_index,
                vertices@ + polygon_vertices(self.cmd_fifo.view(), shading_color, is_gouraud, is_textured, area, word_index as int)
                    == polygon_vertices(rest0, shading_color, is_gouraud, is_textured, area, 0),
                ws_done + polygon_uv_words(self.cmd_fifo.view(), is_gouraud, is_textured, word_index as int)
                    == polygon_uv_words(rest0, is_gouraud, is_textured, 0),
                is_textured ==> texture == texture_of(empty_texture(), ws_done, 0),
                self.texture == (if is_textured && word_index >= 2 { texture_with_page(g1.texture, texture) } else { g1.texture }),
                self.semi_transparency == (if is_textured && word_index >= 2 { texture.semi_transparency } else { g1.semi_transparency }),
            decreases self.cmd_fifo.view().len(),
        {
            let ghost qv = self.cmd_fifo.view();
            let ghost k = word_index as int;
            let ghost tex_before = texture;
            let (entry, uvw) = self.polygon_vertex_from_fifo(word_index, is_gouraud, is_textured, shading_color, &mut texture);
            proof {
                let w = vertex_words(is_gouraud, is_textured, k);
                assert(polygon_vertices(qv, shading_color, is_gouraud, is_textured, area, k)
                    == seq![entry] + polygon_vertices(qv.skip(w), shading_color, is_gouraud, is_textured, area, k + 1));
                assert(polygon_uv_words(qv, is_gouraud, is_textured, k)
                    == seq![uvw] + polygon_uv_words(qv.skip(w), is_gouraud, is_textured, k + 1));
                lemma_texture_of_push(empty_texture(), ws_done, uvw, 0);
                ws_done = ws_done.push(uvw);
            }
            vertices.push(entry);
            proof {
                let w = vertex_words(is_gouraud, is_textured, k);
                assert(vertices@ + polygon_vertices(self.cmd_fifo.view(), shading_color, is_gouraud, is_textured, area, k + 1)
                    =~= polygon_vertices(rest0, shading_color, is_gouraud, is_textured, area, 0));
                assert(ws_done + polygon_uv_words(self.cmd_fifo.view(), is_gouraud, is_textured, k + 1)
                    =~= polygon_uv_words(rest0, is_gouraud, is_textured, 0));
            }
            word_index = word_index + 1;
        }
        proof {
            assert(vertices@ =~= polygon_vertices(rest0, shading_color, is_gouraud, is_textured, area, 0));
            assert(ws_done =~= polygon_uv_words(rest0, is_gouraud, is_textured, 0));
        }
        self.gp0state = Gp0State::WaitingCommand;
        PolygonDraw {
            polygon: Polygon { vertex: vertices, texture: if is_textured { Some(texture) } else { None } },
            is_gouraud,
            is_textured,
            semi_transparent,
            raw_texture,
        }
    }
}

} // verus!
