use vstd::prelude::*;

pub mod timings;
pub mod vram;
pub mod draw_line;
pub mod draw_rectangle;
pub mod draw_polygon;
pub mod raster;
pub mod gp0;

verus! {

/// Hardware version reported by the GPU.
pub const GPU_VERSION: u32 = 0;

/// An 8-bit-per-channel colour with the mask bit.
#[derive(Debug, Clone, Copy, PartialEq, Eq, Structural)]
pub struct Color {
    pub r: u8,
    pub g: u8,
    pub b: u8,
    pub m: bool,
}

/// A 5-bit channel widened to 8 bits (top bits repeated in the low bits).
pub open spec fn expand5(c: u16) -> u8 {
    (((c as u8) << 3u8) | ((c as u8) >> 2u8)) as u8
}

/// A 15-bit channel of a colour: the top 5 bits of the 8-bit value.
pub open spec fn reduce8(c: u8) -> u16 {
    ((c as u16) & 0xF8) >> 3u16
}

/// Texture channel modulated by a shading channel (128 is neutral), saturated at 255.
pub open spec fn mod_color(t: u8, s: u8) -> u8 {
    let v = (t as int * s as int) / 128;
    if v > 255 { 255 } else { v as u8 }
}

/// A channel moved by a dither offset, kept within 0..255.
pub open spec fn dither_channel(c: u8, d: i8) -> u8 {
    let v = c as int + d as int;
    if v < 0 { 0 } else if v > 255 { 255 } else { v as u8 }
}

impl Color {
    pub fn new(r: u8, g: u8, b: u8, m: bool) -> (c: Color)
        ensures
            c == (Color { r, g, b, m }),
    {
        Color { r, g, b, m }
    }

    /// A colour from a VRAM pixel (5 bits per channel, bit 15 the mask).
    pub fn from_u16(colour: u16) -> (c: Color)
        ensures
            c == (Color {
                r: expand5(colour & 0x1F),
                g: expand5((colour >> 5u16) & 0x1F),
                b: expand5((colour >> 10u16) & 0x1F),
                m: (colour >> 15u16) != 0,
            }),
    {
        let rb = (colour & 0x1F) as u8;
        let gb = ((colour >> 5u16) & 0x1F) as u8;
        let bb = ((colour >> 10u16) & 0x1F) as u8;
        let r = (rb << 3u8) | (rb >> 2u8);
        let g = (gb << 3u8) | (gb >> 2u8);
        let b = (bb << 3u8) | (bb >> 2u8);
        let a = (colour >> 15u16) != 0;
        Color::new(r, g, b, a)
    }

    /// A colour from a command word (red in bits 0-7, green 8-15, blue 16-23).
    pub fn from_u32(colour: u32) -> (c: Color)
        ensures
            c == (Color { r: colour as u8, g: (colour >> 8u32) as u8, b: (colour >> 16u32) as u8, m: false }),
    {
        let r = colour as u8;
        let g = (colour >> 8u32) as u8;
        let b = (colour >> 16u32) as u8;
        Color::new(r, g, b, false)
    }

    /// The VRAM pixel of this colour (each channel cut to 5 bits, mask in bit 15).
    pub fn to_u16(&self) -> (p: u16)
        ensures
            p == (reduce8(self.r) | (reduce8(self.g) << 5u16) | (reduce8(self.b) << 10u16) | ((if self.m { 1u16 } else { 0u16 }) << 15u16)),
    {
        let mut pixel: u16 = 0;
        pixel = pixel | (((self.r as u16) & 0xF8) >> 3u16);
        pixel = pixel | ((((self.g as u16) & 0xF8) >> 3u16) << 5u16);
        pixel = pixel | ((((self.b as u16) & 0xF8) >> 3u16) << 10u16);
        pixel = pixel | ((if self.m { 1u16 } else { 0u16 }) << 15u16);
        assert(((0u16 | reduce8(self.r)) | (reduce8(self.g) << 5u16)) == (reduce8(self.r) | (reduce8(self.g) << 5u16))) by (bit_vector);
        pixel
    }

    pub fn mod_colors(texture_color: u8, shading_color: u8) -> (r: u8)
        ensures
            r == mod_color(texture_color, shading_color),
    {
        assert((texture_color as u16) * (shading_color as u16) <= 255 * 255) by (nonlinear_arith)
            requires texture_color <= 255, shading_color <= 255;
        let p = (texture_color as u16) * (shading_color as u16) / 128;
        if p > 255 { 255 } else { p as u8 }
    }

    /// Each channel modulated by the matching channel of `c2`; the mask bit is kept.
    pub fn modulate_with(&self, c2: &Color) -> (c: Color)
        ensures
            c == (Color { r: mod_color(self.r, c2.r), g: mod_color(self.g, c2.g), b: mod_color(self.b, c2.b), m: self.m }),
    {
        Color::new(Color::mod_colors(self.r, c2.r), Color::mod_colors(self.g, c2.g), Color::mod_colors(self.b, c2.b), self.m)
    }

    /// Each channel moved by the dither offset, saturated to 0..255.
    pub fn dither(&self, dither_value: i8) -> (c: Color)
        ensures
            c == (Color {
                r: dither_channel(self.r, dither_value),
                g: dither_channel(self.g, dither_value),
                b: dither_channel(self.b, dither_value),
                m: self.m,
            }),
    {
        Color {
            r: dither_one(self.r, dither_value),
            g: dither_one(self.g, dither_value),
            b: dither_one(self.b, dither_value),
            m: self.m,
        }
    }

    pub fn r(&self) -> (v: i32)
        ensures
            v == self.r,
    {
        self.r as i32
    }

    pub fn g(&self) -> (v: i32)
        ensures
            v == self.g,
    {
        self.g as i32
    }

    pub fn b(&self) -> (v: i32)
        ensures
            v == self.b,
    {
        self.b as i32
    }
}

fn dither_one(c: u8, d: i8) -> (r: u8)
    ensures
        r == dither_channel(c, d),
{
    let v = c as i16 + d as i16;
    if v < 0 { 0 } else if v > 255 { 255 } else { v as u8 }
}

/// A VRAM pixel read back as a colour and written again is the same pixel.
pub proof fn lemma_color_u16_round_trip(p: u16)
    by (bit_vector)
    ensures
        reduce8(expand5(p & 0x1F)) | (reduce8(expand5((p >> 5u16) & 0x1F)) << 5u16)
            | (reduce8(expand5((p >> 10u16) & 0x1F)) << 10u16) | ((if (p >> 15u16) != 0 { 1u16 } else { 0u16 }) << 15u16) == p,
{
}

// ---------------------------------------------------------------------------
// Command FIFO
// ---------------------------------------------------------------------------

/// A ring buffer of up to 16 command words.
#[derive(Debug)]
pub struct CommandFifo {
    pub buf: [u32; 16],
    pub head: u8,
    pub tail: u8,
    pub len: u8,
}

proof fn lemma_wrap16(t: u8)
    by (bit_vector)
    requires
        t < 16u8,
    ensures
        ((t + 1) as u8) & 0x0F == (t + 1) % 16,
{
}

impl CommandFifo {
    pub open spec fn wf(&self) -> bool {
        &&& self.head < 16
        &&& self.tail < 16
        &&& self.len <= 16
        &&& self.tail == (self.head + self.len) % 16
    }

    /// The queued words, oldest first.
    pub open spec fn view(&self) -> Seq<u32> {
        Seq::new(self.len as nat, |i: int| self.buf@[(self.head + i) % 16])
    }

    pub fn new() -> (r: Self)
        ensures
            r.wf(),
            r.view().len() == 0,
    {
        CommandFifo { buf: [0u32; 16], head: 0, tail: 0, len: 0 }
    }

    /// Appends a word; a full FIFO is left unchanged and `false` returned.
    pub fn push(&mut self, value: u32) -> (r: bool)
        requires
            old(self).wf(),
        ensures
            final(self).wf(),
            r == (old(self).view().len() < 16),
            r ==> final(self).view() == old(self).view().push(value),
            !r ==> final(self).view() == old(self).view(),
    {
        if self.len == 16 {
            return false;
        }
        let t = self.tail;
        self.buf[t as usize] = value;
        proof { lemma_wrap16(t); }
        self.tail = (t + 1) & 0x0F;
        self.len = self.len + 1;
        proof {
            assert(self.view() =~= old(self).view().push(value));
        }
        true
    }

    /// Removes and returns the oldest word.
    #[verifier::rlimit(30)]
    pub fn pop(&mut self) -> (r: Option<u32>)
        requires
            old(self).wf(),
        ensures
            final(self).wf(),
            old(self).view().len() == 0 ==> r is None && final(self).view() == old(self).view(),
            old(self).view().len() > 0 ==> r == Some(old(self).view()[0]) && final(self).view() == old(self).view().drop_first(),
    {
        if self.len == 0 {
            return None;
        }
        let h = self.head;
        let v = self.buf[h as usize];
        proof { lemma_wrap16(h); }
        self.head = (h + 1) & 0x0F;
        self.len = self.len - 1;
        proof {
            assert(self.view() =~= old(self).view().drop_first());
        }
        Some(v)
    }

    pub fn is_empty(&self) -> (r: bool)
        ensures
            r == (self.view().len() == 0),
    {
        self.len == 0
    }

    pub fn is_full(&self) -> (r: bool)
        ensures
            r == (self.view().len() == 16),
    {
        self.len == 16
    }

    pub fn len(&self) -> (r: u8)
        ensures
            r == self.view().len(),
    {
        self.len
    }

    /// The oldest word, left in place.
    pub fn peek(&self) -> (r: Option<u32>)
        requires
            self.wf(),
        ensures
            self.view().len() == 0 ==> r is None,
            self.view().len() > 0 ==> r == Some(self.view()[0]),
    {
        if self.len == 0 {
            None
        } else {
            Some(self.buf[self.head as usize])
        }
    }

    /// Empties the FIFO.
    pub fn clear(&mut self)
        ensures
            final(self).wf(),
            final(self).view().len() == 0,
            *final(self) == (CommandFifo { head: 0, tail: 0, len: 0, ..*old(self) }),
    {
        self.head = 0;
        self.tail = 0;
        self.len = 0;
    }
}

impl Default for CommandFifo {
    fn default() -> (r: Self)
        ensures
            r.wf(),
            r.view().len() == 0,
    {
        CommandFifo::new()
    }
}

/// Words pushed into a FIFO with room for them come out in the order they went in, after the
/// words already queued.
pub proof fn lemma_fifo_order(q: Seq<u32>, a: u32, b: u32)
    ensures
        q.push(a).push(b).drop_first() =~= (if q.len() == 0 { seq![b] } else { q.drop_first().push(a).push(b) }),
        q.len() == 0 ==> q.push(a).push(b)[0] == a,
{
    if q.len() == 0 {
        assert(q.push(a).push(b).drop_first() =~= seq![b]);
    } else {
        assert(q.push(a).push(b).drop_first() =~= q.drop_first().push(a).push(b));
    }
}

// ---------------------------------------------------------------------------
// Semi-transparency
// ---------------------------------------------------------------------------

/// How a semi-transparent pixel combines with the one below (B = back, F = front).
#[derive(Debug, Clone, Copy, PartialEq, Eq, Structural)]
pub enum SemiTransparency {
    /// B/2 + F/2
    Average,
    /// B + F
    Additive,
    /// B - F
    Subtractive,
    /// B + F/4
    AddQuarter,
}

/// One 5-bit channel blended by a mode.
pub open spec fn blend_channel(mode: SemiTransparency, f: int, b: int) -> int {
    match mode {
        SemiTransparency::Average => (b + f) / 2,
        SemiTransparency::Additive => if b + f > 31 { 31 } else { b + f },
        SemiTransparency::Subtractive => if b > f { b - f } else { 0 },
        SemiTransparency::AddQuarter => if b + f / 4 > 31 { 31 } else { b + f / 4 },
    }
}

/// Channel `k` (0 red, 1 green, 2 blue) of a 15-bit pixel.
pub open spec fn channel(p: u16, k: int) -> int {
    ((p as int) / (if k == 0 { 1int } else if k == 1 { 32int } else { 1024int })) % 32
}

fn blend_one(mode: SemiTransparency, f: u8, b: u8) -> (r: u8)
    requires
        f < 32,
        b < 32,
    ensures
        r == blend_channel(mode, f as int, b as int),
        r < 32,
{
    match mode {
        SemiTransparency::Average => (b + f) / 2,
        SemiTransparency::Additive => if b + f > 31 { 31 } else { b + f },
        SemiTransparency::Subtractive => b.saturating_sub(f),
        SemiTransparency::AddQuarter => {
            let q = f / 4;
            if b + q > 31 { 31 } else { b + q }
        },
    }
}

impl SemiTransparency {
    /// The mode of GP0(E1h) bits 5-6.
    pub fn from_command(cmd: u32) -> (r: Self)
        ensures
            r == (match (cmd >> 5u32) & 3 {
                0 => SemiTransparency::Average,
                1 => SemiTransparency::Additive,
                2 => SemiTransparency::Subtractive,
                _ => SemiTransparency::AddQuarter,
            }),
    {
        match (cmd >> 5u32) & 3 {
            0 => SemiTransparency::Average,
            1 => SemiTransparency::Additive,
            2 => SemiTransparency::Subtractive,
            _ => SemiTransparency::AddQuarter,
        }
    }

    /// The GPUSTAT bits 5-6 value of the mode.
    pub fn to_status(&self) -> (r: u32)
        ensures
            r == (match *self {
                SemiTransparency::Average => 0u32,
                SemiTransparency::Additive => 1u32,
                SemiTransparency::Subtractive => 2u32,
                SemiTransparency::AddQuarter => 3u32,
            }),
    {
        match self {
            SemiTransparency::Average => 0,
            SemiTransparency::Additive => 1,
            SemiTransparency::Subtractive => 2,
            SemiTransparency::AddQuarter => 3,
        }
    }

    /// Blends a front pixel over a back pixel, channel by channel; the result has no mask bit.
    pub fn blend_rgb555(&self, fg_rgb555: u16, bg_rgb555: u16) -> (r: u16)
        ensures
            r == blend_channel(*self, channel(fg_rgb555, 0), channel(bg_rgb555, 0))
                + 32 * blend_channel(*self, channel(fg_rgb555, 1), channel(bg_rgb555, 1))
                + 1024 * blend_channel(*self, channel(fg_rgb555, 2), channel(bg_rgb555, 2)),
    {
        let fg_r = (fg_rgb555 & 0x1F) as u8;
        let fg_g = ((fg_rgb555 >> 5u16) & 0x1F) as u8;
        let fg_b = ((fg_rgb555 >> 10u16) & 0x1F) as u8;
        let bg_r = (bg_rgb555 & 0x1F) as u8;
        let bg_g = ((bg_rgb555 >> 5u16) & 0x1F) as u8;
        let bg_b = ((bg_rgb555 >> 10u16) & 0x1F) as u8;
        proof {
            lemma_channels(fg_rgb555);
            lemma_channels(bg_rgb555);
        }
        let r = blend_one(*self, fg_r, bg_r);
        let g = blend_one(*self, fg_g, bg_g);
        let b = blend_one(*self, fg_b, bg_b);
        let out = ((b as u16) << 10u16) | ((g as u16) << 5u16) | (r as u16);
        assert(out == (r as u16) + 32 * (g as u16) + 1024 * (b as u16)) by (bit_vector)
            requires out == ((b as u16) << 10u16) | ((g as u16) << 5u16) | (r as u16), r < 32u8, g < 32u8, b < 32u8;
        out
    }
}

proof fn lemma_channels(p: u16)
    ensures
        (p & 0x1F) as int == channel(p, 0),
        ((p >> 5u16) & 0x1F) as int == channel(p, 1),
        ((p >> 10u16) & 0x1F) as int == channel(p, 2),
        (p & 0x1F) < 32,
        ((p >> 5u16) & 0x1F) < 32,
        ((p >> 10u16) & 0x1F) < 32,
{
    assert((p & 0x1F) == p % 32 && ((p >> 5u16) & 0x1F) == (p / 32) % 32 && ((p >> 10u16) & 0x1F) == (p / 1024) % 32) by (bit_vector);
}

impl Default for SemiTransparency {
    fn default() -> (r: Self)
        ensures
            r == SemiTransparency::Average,
    {
        SemiTransparency::Average
    }
}

// ---------------------------------------------------------------------------
// Display modes and coordinates
// ---------------------------------------------------------------------------

/// Horizontal display resolution in pixels (256, 320, 368, 512 or 640).
#[derive(Debug, Clone, Copy, PartialEq, Eq, Structural)]
pub struct VideoHorizontalResolution(pub usize);

impl VideoHorizontalResolution {
    pub open spec fn wf(&self) -> bool {
        self.0 == 256 || self.0 == 320 || self.0 == 368 || self.0 == 512 || self.0 == 640
    }

    /// The resolution of GP1(08h): bit 6 selects 368, else bits 0-1 select 256/320/512/640.
    pub fn from_gp1_08(mode: u32) -> (r: Self)
        ensures
            r.wf(),
            r.0 == (if (mode >> 6u32) & 1 == 1 { 368usize } else if mode & 3 == 0 { 256usize }
                else if mode & 3 == 1 { 320usize } else if mode & 3 == 2 { 512usize } else { 640usize }),
    {
        let hres = if ((mode >> 6u32) & 1) == 1 {
            368
        } else {
            match mode & 3 {
                0 => 256,
                1 => 320,
                2 => 512,
                _ => 640,
            }
        };
        VideoHorizontalResolution(hres)
    }

    /// GPUSTAT bits 16-18 of the resolution.
    pub fn to_status(&self) -> (r: u32)
        requires
            self.wf(),
        ensures
            r == (if self.0 == 256 { 0u32 } else if self.0 == 320 { 2u32 } else if self.0 == 512 { 4u32 }
                else if self.0 == 640 { 6u32 } else { 1u32 }),
    {
        match self.0 {
            256 => 0,
            320 => 2,
            512 => 4,
            640 => 6,
            _ => 1,
        }
    }

    /// Video clock cycles per pixel of the resolution.
    pub fn get_divider(&self) -> (r: usize)
        requires
            self.wf(),
        ensures
            r == (if self.0 == 256 { 10usize } else if self.0 == 320 { 8usize } else if self.0 == 512 { 5usize }
                else if self.0 == 640 { 4usize } else { 7usize }),
    {
        match self.0 {
            256 => 10,
            320 => 8,
            512 => 5,
            640 => 4,
            _ => 7,
        }
    }
}

impl Default for VideoHorizontalResolution {
    fn default() -> (r: Self)
        ensures
            r.0 == 320,
    {
        VideoHorizontalResolution(320)
    }
}

/// Progress of a VRAM transfer: start corner, position within the rectangle and its size.
#[derive(Debug, Clone, Copy, PartialEq, Eq, Structural)]
pub struct VRamCopyConfig {
    pub coord_x: u16,
    pub coord_y: u16,
    pub counter_x: u16,
    pub counter_y: u16,
    pub width: u16,
    pub height: u16,
}

impl VRamCopyConfig {
    /// The position after one word (two halfwords): the next line once the row is done, `None`
    /// after the last line.
    pub fn next(&self) -> (r: Option<VRamCopyConfig>)
        requires
            self.counter_y < self.height,
        ensures
            ({
                let cx = self.counter_x.wrapping_add(2);
                if cx >= self.width {
                    if self.counter_y + 1 == self.height {
                        r is None
                    } else {
                        r == Some(VRamCopyConfig { counter_x: 0, counter_y: (self.counter_y + 1) as u16, ..*self })
                    }
                } else {
                    r == Some(VRamCopyConfig { counter_x: cx, ..*self })
                }
            }),
    {
        let mut counter_x = self.counter_x.wrapping_add(2);
        let mut counter_y = self.counter_y;
        let mut finished = false;
        if counter_x >= self.width {
            counter_x = 0;
            counter_y = counter_y + 1;
            finished = counter_y == self.height;
        }
        if finished {
            None
        } else {
            Some(VRamCopyConfig {
                coord_x: self.coord_x,
                coord_y: self.coord_y,
                counter_x,
                counter_y,
                width: self.width,
                height: self.height,
            })
        }
    }
}

/// A vertex of a drawing command (11-bit signed coordinates).
#[derive(Debug, Clone, Copy, PartialEq, Eq, Structural)]
pub struct Vertex {
    pub x: i16,
    pub y: i16,
}

/// An 11-bit field sign-extended.
pub open spec fn sext11(v: u32) -> i16 {
    let f = v & 0x7FF;
    if f >= 0x400 { (f as int - 0x800) as i16 } else { f as i16 }
}

fn sext11_of(v: u32) -> (r: i16)
    ensures
        r == sext11(v),
        -1024 <= r <= 1023,
{
    let f = v & 0x7FF;
    assert(f <= 0x7FF) by (bit_vector) requires f == v & 0x7FF;
    if f >= 0x400 { (f as i32 - 0x800) as i16 } else { f as i16 }
}

impl Vertex {
    /// The vertex of a parameter word: X in bits 0-10, Y in bits 16-26.
    pub fn from_command_parameter(cmd: u32) -> (r: Self)
        ensures
            r == (Vertex { x: sext11(cmd), y: sext11(cmd >> 16u32) }),
            -1024 <= r.x <= 1023,
            -1024 <= r.y <= 1023,
    {
        let x = sext11_of(cmd);
        let y = sext11_of(cmd >> 16u32);
        Vertex { x, y }
    }

    /// Moves the vertex by the drawing offset.
    pub fn add_offset(&mut self, x_offset: i16, y_offset: i16)
        requires
            i16::MIN <= old(self).x + x_offset <= i16::MAX,
            i16::MIN <= old(self).y + y_offset <= i16::MAX,
        ensures
            final(self).x == old(self).x + x_offset,
            final(self).y == old(self).y + y_offset,
    {
        self.x = self.x + x_offset;
        self.y = self.y + y_offset;
    }

    pub fn dx(&self, other: &Vertex) -> (r: i16)
        requires
            i16::MIN <= other.x - self.x <= i16::MAX,
        ensures
            r == other.x - self.x,
    {
        other.x - self.x
    }

    pub fn dy(&self, other: &Vertex) -> (r: i16)
        requires
            i16::MIN <= other.y - self.y <= i16::MAX,
        ensures
            r == other.y - self.y,
    {
        other.y - self.y
    }
}

// ---------------------------------------------------------------------------
// GPU state
// ---------------------------------------------------------------------------

/// Colour depth of a texture page.
#[derive(Debug, Clone, Copy, PartialEq, Eq, Structural)]
pub enum TextureDepth {
    T4Bit,
    T8Bit,
    T15Bit,
    /// Same as 15 bits.
    Reserved,
}

pub open spec fn depth_code(d: TextureDepth) -> u32 {
    match d {
        TextureDepth::T4Bit => 0,
        TextureDepth::T8Bit => 1,
        TextureDepth::T15Bit => 2,
        TextureDepth::Reserved => 3,
    }
}

/// Texture page and texture window settings.
#[derive(Debug, Clone, Copy, PartialEq, Eq, Structural)]
pub struct Texture {
    /// Texture page base X (64-halfword steps).
    pub page_base_x: u8,
    /// Texture page base Y (256-line steps).
    pub page_base_y: u8,
    pub depth: TextureDepth,
    pub rectangle_x_flip: bool,
    pub rectangle_y_flip: bool,
    /// Texture window masks and offsets (8-pixel steps).
    pub window_x_mask: u8,
    pub window_y_mask: u8,
    pub window_x_offset: u8,
    pub window_y_offset: u8,
}

/// The clipping rectangle and the offset added to every vertex.
#[derive(Debug, Clone, Copy, PartialEq, Eq, Structural)]
pub struct DrawingArea {
    pub draw_to_display: bool,
    pub area_left: u16,
    pub area_top: u16,
    pub area_right: u16,
    pub area_bottom: u16,
    pub x_offset: i16,
    pub y_offset: i16,
}

impl DrawingArea {
    /// Whether a point lies in the drawing area (edges included).
    pub fn is_inside(&self, x: i16, y: i16) -> (r: bool)
        ensures
            r == (x >= self.area_left as i16 && x <= self.area_right as i16 && y >= self.area_top as i16
                && y <= self.area_bottom as i16),
    {
        x >= self.area_left as i16 && x <= self.area_right as i16 && y >= self.area_top as i16 && y <= self.area_bottom as i16
    }
}

#[derive(Debug, Clone, Copy, PartialEq, Eq, Structural)]
pub enum InterlaceField {
    Even,
    Odd,
}

#[derive(Debug, Clone, Copy, PartialEq, Eq, Structural)]
pub enum VideoVerticalResolution {
    Y240Lines,
    Y480Lines,
}

impl VideoVerticalResolution {
    pub fn total_lines(&self) -> (r: usize)
        ensures
            r == (if *self == VideoVerticalResolution::Y240Lines { 240usize } else { 480usize }),
    {
        match self {
            VideoVerticalResolution::Y240Lines => 240,
            VideoVerticalResolution::Y480Lines => 480,
        }
    }
}

#[derive(Debug, Clone, Copy, PartialEq, Eq, Structural)]
pub enum VideoMode {
    Ntsc,
    Pal,
}

impl VideoMode {
    /// Scanlines per field (NTSC 263, PAL 314).
    pub fn total_lines(&self) -> (r: usize)
        ensures
            r == (if *self == VideoMode::Ntsc { 263usize } else { 314usize }),
    {
        match self {
            VideoMode::Ntsc => 263,
            VideoMode::Pal => 314,
        }
    }

    /// Video clock frequency in Hz.
    pub fn video_clock(&self) -> (r: usize)
        ensures
            r == (if *self == VideoMode::Ntsc { 53_693_175usize } else { 53_203_425usize }),
    {
        match self {
            VideoMode::Ntsc => 53_693_175,
            VideoMode::Pal => 53_203_425,
        }
    }

    /// Video clock cycles per scanline.
    pub fn horizontal_cycles(&self) -> (r: usize)
        ensures
            r == (if *self == VideoMode::Ntsc { 3413usize } else { 3406usize }),
    {
        match self {
            VideoMode::Ntsc => 3413,
            VideoMode::Pal => 3406,
        }
    }

    /// Microseconds per frame (a whole number: 1000000 / 60 rounded down, 1000000 / 50).
    pub fn frame_micros(&self) -> (r: u64)
        ensures
            r == (if *self == VideoMode::Ntsc { 1_000_000u64 / 60 } else { 1_000_000u64 / 50 }),
    {
        match self {
            VideoMode::Ntsc => 1_000_000 / 60,
            VideoMode::Pal => 1_000_000 / 50,
        }
    }
}

#[derive(Debug, Clone, Copy, PartialEq, Eq, Structural)]
pub enum DisplayDepth {
    D15Bits,
    D24Bits,
}

/// What GPUSTAT bit 25 reports and which transfers DMA serves.
#[derive(Debug, Clone, Copy, PartialEq, Eq, Structural)]
pub enum DMADirection {
    Off,
    Fifo,
    CpuToGp0,
    VRamToCpu,
}

pub open spec fn dma_code(d: DMADirection) -> u32 {
    match d {
        DMADirection::Off => 0,
        DMADirection::Fifo => 1,
        DMADirection::CpuToGp0 => 2,
        DMADirection::VRamToCpu => 3,
    }
}

/// Where and how the display area is shown.
#[derive(Debug, Clone, Copy, PartialEq, Eq, Structural)]
pub struct DisplayConfig {
    pub vram_x_start: u16,
    pub vram_y_start: u16,
    pub horizontal_start: u16,
    pub horizontal_end: u16,
    pub vertical_start: u16,
    pub vertical_end: u16,
    pub field: InterlaceField,
    pub h_res: VideoHorizontalResolution,
    pub v_res: VideoVerticalResolution,
    pub video_mode: VideoMode,
    pub display_depth: DisplayDepth,
    pub display_disabled: bool,
    pub interlaced: bool,
}

#[derive(Debug, Clone, Copy, PartialEq, Eq, Structural)]
pub struct ReadyBits {
    pub ready_to_receive_cmd_word: bool,
    pub ready_to_send_vram_to_cpu: bool,
    pub ready_to_receive_dma_block: bool,
}

/// Beam position and blanking state.
#[derive(Debug, Clone, Copy, PartialEq, Eq, Structural)]
pub struct Raster {
    pub total_lines: usize,
    pub total_cycles: usize,
    pub cycles: usize,
    pub v_blank: bool,
    pub h_blank: bool,
    pub raster_line: usize,
}

/// The GP0 operations a command word selects.
#[derive(Debug, Clone, Copy, PartialEq, Eq, Structural)]
pub enum Gp0Op {
    PolygonRendering,
    LineRendering,
    RectangleRendering,
    VramVramCopy,
    CpuToVramCopy,
    VramToCpuCopy,
    Nop,
    FlushTextureCache,
    QuickVramFill,
    DrawModeSettings,
    TextureWindowSettings,
    DrawingAreaTopLeft,
    DrawingAreaBottomRight,
    DrawingOffset,
    MaskBitSettings,
    SetIrq,
}

/// What the GP0 port expects next.
#[derive(Debug, Clone, Copy, PartialEq, Eq, Structural)]
pub enum Gp0State {
    WaitingCommand,
    /// An operation waiting for its parameters (how many are still to come, once known).
    WaitingCommandParameters(Gp0Op, Option<usize>),
    /// A transfer between the CPU and VRAM in progress.
    VRamCopy(Gp0Op, VRamCopyConfig),
    /// A poly-line: words per vertex, start vertex, colour, shaded, semi-transparent.
    WaitingPolyline(Gp0Op, usize, Vertex, Color, bool, bool),
}

/// Bytes of VRAM (1024 x 512 halfwords).
pub const VRAM_SIZE: usize = 1048576;

/// The graphics processor: VRAM, command FIFOs, drawing and display settings.
pub struct GPU {
    /// VRAM, little-endian halfwords, 2048 bytes per line.
    pub vram: Vec<u8>,
    pub cmd_fifo: CommandFifo,
    /// Words received while a command is executing.
    pub gp0_fifo: CommandFifo,
    pub texture: Texture,
    pub semi_transparency: SemiTransparency,
    /// Dither 24-bit colours down to 15 bits.
    pub dithering: bool,
    /// Set the mask bit of every pixel drawn.
    pub force_set_mask_bit: bool,
    /// Leave pixels with the mask bit set untouched.
    pub preserve_masked_pixels: bool,
    pub drawing_area: DrawingArea,
    pub display_config: DisplayConfig,
    pub reverse_flag: bool,
    /// The GPU interrupt is active.
    pub irq: bool,
    pub dma_direction: DMADirection,
    pub ready_bits: ReadyBits,
    pub raster: Raster,
    pub dot_clock_cycles: usize,
    pub gpu_read_register: u32,
    pub gp0state: Gp0State,
    pub show_whole_vram: bool,
}

/// A VRAM transfer position stays inside the transfer rectangle and VRAM.
pub open spec fn copy_config_ok(c: VRamCopyConfig) -> bool {
    &&& c.coord_x <= 0x3FF
    &&& c.coord_y <= 0x1FF
    &&& 1 <= c.width <= 0x400
    &&& 1 <= c.height <= 0x200
    &&& c.counter_x < c.width
    &&& c.counter_y < c.height
}

pub proof fn lemma_coord_masks(x: u16, y: u16)
    by (bit_vector)
    ensures
        (x & 0x3FF) <= 0x3FF,
        (y & 0x1FF) <= 0x1FF,
{
}

/// Byte offset of the halfword pixel (x, y) of VRAM, both wrapped to the VRAM size.
pub open spec fn vram_offset_15(x: u16, y: u16) -> int {
    (y & 0x1FF) as int * 2048 + (x & 0x3FF) as int * 2
}

/// Byte offset of the 24-bit pixel (x, y) of VRAM.
pub open spec fn vram_offset_24(x: u16, y: u16) -> int {
    (y & 0x1FF) as int * 2048 + (x & 0x3FF) as int * 3
}

/// The little-endian halfword of `vram` at byte `offset`.
pub open spec fn pixel_at(vram: Seq<u8>, offset: int) -> u16 {
    (vram[offset] as int + 256 * vram[offset + 1] as int) as u16
}

pub open spec fn b2u(b: bool) -> u32 {
    if b { 1 } else { 0 }
}

/// GPUSTAT packed from its fields (bit positions as the hardware documents them).
#[verifier::opaque]
pub open spec fn pack_status(page_x: u32, page_y: u32, semi: u32, depth: u32, dither: u32, draw_display: u32,
    set_mask: u32, check_mask: u32, field: u32, reverse: u32, hres: u32, vres: u32, mode: u32, disp_depth: u32,
    interlaced: u32, disabled: u32, irq: u32, dma: u32, ready_cmd: u32, ready_vram: u32, ready_dma: u32,
    dma_dir: u32, bit31: u32) -> u32 {
    page_x | (page_y << 4u32) | (semi << 5u32) | (depth << 7u32) | (dither << 9u32) | (draw_display << 10u32)
        | (set_mask << 11u32) | (check_mask << 12u32) | (field << 13u32) | (reverse << 14u32) | (hres << 16u32)
        | (vres << 19u32) | (mode << 20u32) | (disp_depth << 21u32) | (interlaced << 22u32) | (disabled << 23u32)
        | (irq << 24u32) | (dma << 25u32) | (ready_cmd << 26u32) | (ready_vram << 27u32) | (ready_dma << 28u32)
        | (dma_dir << 29u32) | (bit31 << 31u32)
}

fn pack_status_exec(page_x: u32, page_y: u32, semi: u32, depth: u32, dither: u32, draw_display: u32,
    set_mask: u32, check_mask: u32, field: u32, reverse: u32, hres: u32, vres: u32, mode: u32, disp_depth: u32,
    interlaced: u32, disabled: u32, irq: u32, dma: u32, ready_cmd: u32, ready_vram: u32, ready_dma: u32,
    dma_dir: u32, bit31: u32) -> (r: u32)
    ensures
        r == pack_status(page_x, page_y, semi, depth, dither, draw_display, set_mask, check_mask, field, reverse, hres,
            vres, mode, disp_depth, interlaced, disabled, irq, dma, ready_cmd, ready_vram, ready_dma, dma_dir, bit31),
{
    proof { reveal(pack_status); }
    page_x | (page_y << 4u32) | (semi << 5u32) | (depth << 7u32) | (dither << 9u32) | (draw_display << 10u32)
        | (set_mask << 11u32) | (check_mask << 12u32) | (field << 13u32) | (reverse << 14u32) | (hres << 16u32)
        | (vres << 19u32) | (mode << 20u32) | (disp_depth << 21u32) | (interlaced << 22u32) | (disabled << 23u32)
        | (irq << 24u32) | (dma << 25u32) | (ready_cmd << 26u32) | (ready_vram << 27u32) | (ready_dma << 28u32)
        | (dma_dir << 29u32) | (bit31 << 31u32)
}

/// The DMA request bit of GPUSTAT (25) for the DMA direction: zero when off, FIFO not full,
/// bit 28 for CPU to GP0, bit 27 for GPUREAD to CPU.
pub open spec fn dma_request_bit(g: GPU) -> u32 {
    match g.dma_direction {
        DMADirection::Off => 0,
        DMADirection::Fifo => b2u(g.cmd_fifo.view().len() != 16),
        DMADirection::CpuToGp0 => b2u(g.ready_bits.ready_to_receive_dma_block),
        DMADirection::VRamToCpu => b2u(g.ready_bits.ready_to_send_vram_to_cpu),
    }
}

/// The GPUSTAT register.
pub open spec fn gpu_status(g: GPU) -> u32 {
    pack_status(
        g.texture.page_base_x as u32,
        (g.texture.page_base_y & 1) as u32,
        g.semi_transparency.to_status_spec(),
        depth_code(g.texture.depth),
        b2u(g.dithering),
        b2u(g.drawing_area.draw_to_display),
        b2u(g.force_set_mask_bit),
        b2u(g.preserve_masked_pixels),
        b2u(g.display_config.field == InterlaceField::Odd),
        b2u(g.reverse_flag),
        h_res_status(g.display_config.h_res),
        b2u(g.display_config.v_res == VideoVerticalResolution::Y480Lines),
        b2u(g.display_config.video_mode == VideoMode::Pal),
        b2u(g.display_config.display_depth == DisplayDepth::D24Bits),
        b2u(g.display_config.interlaced),
        b2u(g.display_config.display_disabled),
        b2u(g.irq),
        dma_request_bit(g),
        b2u(g.gp0state == Gp0State::WaitingCommand),
        b2u(g.ready_bits.ready_to_send_vram_to_cpu),
        b2u(g.ready_bits.ready_to_receive_dma_block),
        dma_code(g.dma_direction),
        if g.display_config.interlaced && g.display_config.field == InterlaceField::Odd && !g.raster.v_blank { 1 } else { 0 },
    )
}

pub open spec fn h_res_status(h: VideoHorizontalResolution) -> u32 {
    if h.0 == 256 { 0 } else if h.0 == 320 { 2 } else if h.0 == 512 { 4 } else if h.0 == 640 { 6 } else { 1 }
}

impl SemiTransparency {
    pub open spec fn to_status_spec(&self) -> u32 {
        match *self {
            SemiTransparency::Average => 0,
            SemiTransparency::Additive => 1,
            SemiTransparency::Subtractive => 2,
            SemiTransparency::AddQuarter => 3,
        }
    }
}

fn b2u_of(b: bool) -> (r: u32)
    ensures
        r == b2u(b),
{
    if b { 1 } else { 0 }
}

impl GPU {
    pub open spec fn wf(&self) -> bool {
        &&& self.vram@.len() == VRAM_SIZE
        &&& self.cmd_fifo.wf()
        &&& self.gp0_fifo.wf()
        &&& self.display_config.h_res.wf()
        &&& (self.gp0state matches Gp0State::VRamCopy(_, c) ==> copy_config_ok(c))
    }

    /// A GPU after power-on: display off, 320-pixel NTSC timing, ready for commands.
    pub fn new() -> (g: GPU)
        ensures
            g.wf(),
            forall|i: int| 0 <= i < VRAM_SIZE ==> g.vram@[i] == 0,
            g.gp0state == Gp0State::WaitingCommand,
            g.display_config.display_disabled,
            g.ready_bits.ready_to_receive_cmd_word,
            g.ready_bits.ready_to_receive_dma_block,
            !g.ready_bits.ready_to_send_vram_to_cpu,
            g.display_config.horizontal_start == 0x260,
            g.display_config.horizontal_end == 0x260 + 320 * 8,
            g.display_config.vertical_start == 0x88 - 120,
            g.display_config.vertical_end == 0x88 + 120,
            g.raster.total_lines == 263,
            g.raster.total_cycles == 3413,
    {
        let texture = Texture {
            page_base_x: 0, page_base_y: 0, depth: TextureDepth::T4Bit, rectangle_x_flip: false, rectangle_y_flip: false,
            window_x_mask: 0, window_y_mask: 0, window_x_offset: 0, window_y_offset: 0,
        };
        let drawing_area = DrawingArea {
            draw_to_display: false, area_left: 0, area_top: 0, area_right: 0, area_bottom: 0, x_offset: 0, y_offset: 0,
        };
        let display_config = DisplayConfig {
            vram_x_start: 0,
            vram_y_start: 0,
            horizontal_start: 0x260,
            horizontal_end: 0x260 + 320 * 8,
            vertical_start: 0x88 - 240 / 2,
            vertical_end: 0x88 + 240 / 2,
            field: InterlaceField::Odd,
            h_res: VideoHorizontalResolution(320),
            v_res: VideoVerticalResolution::Y240Lines,
            video_mode: VideoMode::Ntsc,
            display_depth: DisplayDepth::D15Bits,
            display_disabled: true,
            interlaced: false,
        };
        let raster = Raster { total_lines: 263, total_cycles: 3413, cycles: 0, v_blank: false, h_blank: false, raster_line: 0 };
        GPU {
            vram: vec![0u8; 1048576],
            cmd_fifo: CommandFifo::new(),
            gp0_fifo: CommandFifo::new(),
            texture,
            semi_transparency: SemiTransparency::Average,
            dithering: false,
            force_set_mask_bit: false,
            preserve_masked_pixels: false,
            drawing_area,
            display_config,
            reverse_flag: false,
            irq: false,
            dma_direction: DMADirection::Off,
            ready_bits: ReadyBits { ready_to_receive_cmd_word: true, ready_to_send_vram_to_cpu: false, ready_to_receive_dma_block: true },
            raster,
            dot_clock_cycles: 0,
            gpu_read_register: 0,
            gp0state: Gp0State::WaitingCommand,
            show_whole_vram: false,
        }
    }

    pub fn set_show_vram(&mut self, enabled: bool)
        ensures
            final(self).show_whole_vram == enabled,
            final(self).vram == old(self).vram,
            final(self).gp0state == old(self).gp0state,
            final(self).cmd_fifo == old(self).cmd_fifo,
            final(self).gp0_fifo == old(self).gp0_fifo,
            final(self).display_config == old(self).display_config,
    {
        self.show_whole_vram = enabled;
    }

    /// GPUSTAT (1F801814h).
    #[verifier::spinoff_prover]
    #[verifier::rlimit(50)]
    pub fn gpu_stat_read(&self) -> (st: u32)
        requires
            self.wf(),
        ensures
            st == gpu_status(*self),
    {
        let dma: u32 = match self.dma_direction {
            DMADirection::Off => 0,
            DMADirection::Fifo => b2u_of(!self.cmd_fifo.is_full()),
            DMADirection::CpuToGp0 => b2u_of(self.ready_bits.ready_to_receive_dma_block),
            DMADirection::VRamToCpu => b2u_of(self.ready_bits.ready_to_send_vram_to_cpu),
        };
        let depth: u32 = match self.texture.depth {
            TextureDepth::T4Bit => 0,
            TextureDepth::T8Bit => 1,
            TextureDepth::T15Bit => 2,
            TextureDepth::Reserved => 3,
        };
        let dma_dir: u32 = match self.dma_direction {
            DMADirection::Off => 0,
            DMADirection::Fifo => 1,
            DMADirection::CpuToGp0 => 2,
            DMADirection::VRamToCpu => 3,
        };
        let waiting = match self.gp0state {
            Gp0State::WaitingCommand => true,
            _ => false,
        };
        let bit31: u32 = if self.display_config.interlaced && self.display_config.field == InterlaceField::Odd && !self.raster.v_blank { 1 } else { 0 };
        assert(dma == dma_request_bit(*self));
        assert(depth == depth_code(self.texture.depth));
        assert(dma_dir == dma_code(self.dma_direction));
        assert(waiting == (self.gp0state == Gp0State::WaitingCommand));
        pack_status_exec(
            self.texture.page_base_x as u32,
            (self.texture.page_base_y & 1) as u32,
            self.semi_transparency.to_status(),
            depth,
            b2u_of(self.dithering),
            b2u_of(self.drawing_area.draw_to_display),
            b2u_of(self.force_set_mask_bit),
            b2u_of(self.preserve_masked_pixels),
            b2u_of(self.display_config.field == InterlaceField::Odd),
            b2u_of(self.reverse_flag),
            self.display_config.h_res.to_status(),
            b2u_of(self.display_config.v_res == VideoVerticalResolution::Y480Lines),
            b2u_of(self.display_config.video_mode == VideoMode::Pal),
            b2u_of(self.display_config.display_depth == DisplayDepth::D24Bits),
            b2u_of(self.display_config.interlaced),
            b2u_of(self.display_config.display_disabled),
            b2u_of(self.irq),
            dma,
            b2u_of(waiting),
            b2u_of(self.ready_bits.ready_to_send_vram_to_cpu),
            b2u_of(self.ready_bits.ready_to_receive_dma_block),
            dma_dir,
            bit31,
        )
    }

    /// The GPUREAD latch, without side effects.
    pub fn gpu_read_peek(&self) -> (r: u32)
        ensures
            r == self.gpu_read_register,
    {
        self.gpu_read_register
    }

    /// Byte offset of the halfword pixel (x, y); coordinates wrap at 1024 x 512.
    pub fn get_vram_offset_15(&self, x: u16, y: u16) -> (r: usize)
        ensures
            r == vram_offset_15(x, y),
            r + 1 < VRAM_SIZE,
    {
        proof { lemma_coord_masks(x, y); }
        (((y & 0x1FF) as usize) * 2048) + (((x & 0x3FF) as usize) * 2)
    }

    /// Byte offset of the 24-bit pixel (x, y).
    pub fn get_vram_offset_24(&self, x: u16, y: u16) -> (r: usize)
        ensures
            r == vram_offset_24(x, y),
    {
        proof { lemma_coord_masks(x, y); }
        (((y & 0x1FF) as usize) * 2048) + (((x & 0x3FF) as usize) * 3)
    }

    /// The halfword at a byte offset of VRAM.
    pub fn get_pixel_15(&self, offset: usize) -> (r: u16)
        requires
            self.wf(),
            offset + 1 < self.vram@.len(),
        ensures
            r == pixel_at(self.vram@, offset as int),
    {
        let lo = self.vram[offset];
        let hi = self.vram[offset + 1];
        assert((lo as u16 | ((hi as u16) << 8u16)) == (lo as int + 256 * hi as int) as u16) by (bit_vector);
        lo as u16 | ((hi as u16) << 8u16)
    }
}


// ---------------------------------------------------------------------------
// GP1 display control and the GP0 environment commands
// ---------------------------------------------------------------------------

/// Both command FIFOs emptied, ready for a command word.
pub open spec fn reset_buffers(g: GPU) -> GPU {
    GPU {
        cmd_fifo: CommandFifo { head: 0, tail: 0, len: 0, ..g.cmd_fifo },
        gp0_fifo: CommandFifo { head: 0, tail: 0, len: 0, ..g.gp0_fifo },
        ready_bits: ReadyBits { ready_to_receive_cmd_word: true, ..g.ready_bits },
        ..g
    }
}

/// The DMA direction of GP1(04h) bits 0-1.
pub open spec fn dma_direction_of(cmd: u32) -> DMADirection {
    let d = cmd & 3;
    if d == 0 { DMADirection::Off } else if d == 1 { DMADirection::Fifo } else if d == 2 { DMADirection::CpuToGp0 } else { DMADirection::VRamToCpu }
}

/// The display settings of GP1(08h).
pub open spec fn display_mode_of(g: GPU, cmd: u32) -> GPU {
    let mode = if cmd & 0x8 != 0 { VideoMode::Pal } else { VideoMode::Ntsc };
    GPU {
        display_config: DisplayConfig {
            h_res: VideoHorizontalResolution(if (cmd >> 6u32) & 1 == 1 { 368usize } else if cmd & 3 == 0 { 256usize }
                else if cmd & 3 == 1 { 320usize } else if cmd & 3 == 2 { 512usize } else { 640usize }),
            v_res: if cmd & 0x4 != 0 { VideoVerticalResolution::Y480Lines } else { VideoVerticalResolution::Y240Lines },
            video_mode: mode,
            display_depth: if cmd & 0x10 != 0 { DisplayDepth::D24Bits } else { DisplayDepth::D15Bits },
            interlaced: cmd & 0x20 != 0,
            ..g.display_config
        },
        raster: Raster {
            total_lines: if mode == VideoMode::Ntsc { 263usize } else { 314usize },
            total_cycles: if mode == VideoMode::Ntsc { 3413usize } else { 3406usize },
            ..g.raster
        },
        ..g
    }
}

/// The GPUREAD latch after GP1(10h..1Fh) asks for internal register `cmd & 7`.
pub open spec fn internal_register(g: GPU, cmd: u32) -> u32 {
    let index = cmd & 7;
    if index == 2 {
        (g.texture.window_x_mask as u32) | ((g.texture.window_y_mask as u32) << 5u32)
            | ((g.texture.window_x_offset as u32) << 10u32) | ((g.texture.window_y_offset as u32) << 15u32)
    } else if index == 3 {
        (g.drawing_area.area_left as u32) | ((g.drawing_area.area_top as u32) << 10u32)
    } else if index == 4 {
        (g.drawing_area.area_right as u32) | ((g.drawing_area.area_bottom as u32) << 10u32)
    } else if index == 5 {
        ((g.drawing_area.x_offset as u32) & 0x7FF) | (((g.drawing_area.y_offset as u32) & 0x7FF) << 11u32)
    } else {
        g.gpu_read_register
    }
}

/// GP0(E1h): texture page, semi-transparency, texture depth, dithering, drawing to the display
/// area and the rectangle flips.
pub open spec fn draw_mode_of(g: GPU, cmd: u32) -> GPU {
    let d = (cmd >> 7u32) & 3;
    GPU {
        texture: Texture {
            page_base_x: (cmd & 0xF) as u8,
            page_base_y: ((cmd >> 4u32) & 1) as u8,
            depth: if d == 0 { TextureDepth::T4Bit } else if d == 1 { TextureDepth::T8Bit } else if d == 2 { TextureDepth::T15Bit } else { TextureDepth::Reserved },
            rectangle_x_flip: (cmd >> 12u32) & 1 != 0,
            rectangle_y_flip: (cmd >> 13u32) & 1 != 0,
            ..g.texture
        },
        semi_transparency: SemiTransparency::from_command_spec(cmd),
        dithering: (cmd >> 9u32) & 1 != 0,
        drawing_area: DrawingArea { draw_to_display: (cmd >> 10u32) & 1 != 0, ..g.drawing_area },
        ..g
    }
}

/// GP0(E2h): texture window masks and offsets.
pub open spec fn texture_window_of(g: GPU, cmd: u32) -> GPU {
    GPU {
        texture: Texture {
            window_x_mask: (cmd & 0x1F) as u8,
            window_y_mask: ((cmd >> 5u32) & 0x1F) as u8,
            window_x_offset: ((cmd >> 10u32) & 0x1F) as u8,
            window_y_offset: ((cmd >> 15u32) & 0x1F) as u8,
            ..g.texture
        },
        ..g
    }
}

impl SemiTransparency {
    pub open spec fn from_command_spec(cmd: u32) -> SemiTransparency {
        let m = (cmd >> 5u32) & 3;
        if m == 0 { SemiTransparency::Average } else if m == 1 { SemiTransparency::Additive }
        else if m == 2 { SemiTransparency::Subtractive } else { SemiTransparency::AddQuarter }
    }
}

/// The GPU after a GP1 command (command number in bits 24-29, parameter in bits 0-23).
pub open spec fn gp1_result(g: GPU, cmd: u32) -> GPU {
    let c = (cmd >> 24u32) & 0x3F;
    let p = cmd & 0xFF_FFFF;
    if c == 0x00 {
        gp1_reset_result(g)
    } else if c == 0x01 {
        reset_buffers(g)
    } else if c == 0x02 {
        GPU { irq: false, ..g }
    } else if c == 0x03 {
        GPU { display_config: DisplayConfig { display_disabled: p == 1, ..g.display_config }, ..g }
    } else if c == 0x04 {
        GPU { dma_direction: dma_direction_of(p), ..g }
    } else if c == 0x05 {
        GPU { display_config: DisplayConfig { vram_x_start: (p & 0x3FF) as u16, vram_y_start: ((p >> 10u32) & 0x1FF) as u16, ..g.display_config }, ..g }
    } else if c == 0x06 {
        GPU { display_config: DisplayConfig { horizontal_start: (p & 0xFFF) as u16, horizontal_end: ((p >> 12u32) & 0xFFF) as u16, ..g.display_config }, ..g }
    } else if c == 0x07 {
        GPU { display_config: DisplayConfig { vertical_start: (p & 0x3FF) as u16, vertical_end: ((p >> 10u32) & 0x3FF) as u16, ..g.display_config }, ..g }
    } else if c == 0x08 {
        display_mode_of(g, p)
    } else if 0x10 <= c <= 0x1F {
        GPU { gpu_read_register: internal_register(g, p), ..g }
    } else {
        g
    }
}

/// The GPU after GP1(00h): buffers reset, IRQ acknowledged, display off, DMA off, display area
/// at 0, default display ranges and mode, drawing settings cleared.
pub open spec fn gp1_reset_result(g: GPU) -> GPU {
    let g1 = reset_buffers(g);
    let g2 = GPU {
        irq: false,
        dma_direction: DMADirection::Off,
        display_config: DisplayConfig {
            display_disabled: true,
            vram_x_start: 0,
            vram_y_start: 0,
            horizontal_start: 0x200,
            horizontal_end: 0xC00u16,
            vertical_start: 0x10,
            vertical_end: 0x100u16,
            ..g1.display_config
        },
        ..g1
    };
    let g3 = display_mode_of(g2, 0);
    let g4 = texture_window_of(draw_mode_of(g3, 0), 0);
    GPU {
        drawing_area: DrawingArea { area_left: 0, area_top: 0, area_right: 0, area_bottom: 0, x_offset: 0, y_offset: 0, ..g4.drawing_area },
        force_set_mask_bit: false,
        preserve_masked_pixels: false,
        gp0state: Gp0State::WaitingCommand,
        ..g4
    }
}

impl GPU {
    fn gp1_reset_command_buffer(&mut self)
        requires
            old(self).wf(),
        ensures
            *final(self) == reset_buffers(*old(self)),
            final(self).wf(),
    {
        self.cmd_fifo.clear();
        self.gp0_fifo.clear();
        self.ready_bits.ready_to_receive_cmd_word = true;
    }

    #[verifier::spinoff_prover]
    #[verifier::rlimit(40)]
    fn gp1_display_mode(&mut self, cmd: u32)
        requires
            old(self).wf(),
        ensures
            *final(self) == display_mode_of(*old(self), cmd),
            final(self).wf(),
    {
        self.display_config.h_res = VideoHorizontalResolution::from_gp1_08(cmd);
        self.display_config.v_res = if (cmd & 0x4) != 0 { VideoVerticalResolution::Y480Lines } else { VideoVerticalResolution::Y240Lines };
        self.display_config.video_mode = if (cmd & 0x8) != 0 { VideoMode::Pal } else { VideoMode::Ntsc };
        self.display_config.display_depth = if (cmd & 0x10) != 0 { DisplayDepth::D24Bits } else { DisplayDepth::D15Bits };
        self.display_config.interlaced = (cmd & 0x20) != 0;
        self.raster.total_lines = self.display_config.video_mode.total_lines();
        self.raster.total_cycles = self.display_config.video_mode.horizontal_cycles();
    }

    fn gp1_read_gpu_internal_register(&mut self, cmd: u32)
        ensures
            *final(self) == (GPU { gpu_read_register: internal_register(*old(self), cmd), ..*old(self) }),
    {
        let index = cmd & 0x7;
        let v = if index == 2 {
            (self.texture.window_x_mask as u32) | ((self.texture.window_y_mask as u32) << 5u32)
                | ((self.texture.window_x_offset as u32) << 10u32) | ((self.texture.window_y_offset as u32) << 15u32)
        } else if index == 3 {
            (self.drawing_area.area_left as u32) | ((self.drawing_area.area_top as u32) << 10u32)
        } else if index == 4 {
            (self.drawing_area.area_right as u32) | ((self.drawing_area.area_bottom as u32) << 10u32)
        } else if index == 5 {
            ((self.drawing_area.x_offset as u32) & 0x7FF) | (((self.drawing_area.y_offset as u32) & 0x7FF) << 11u32)
        } else {
            self.gpu_read_register
        };
        self.gpu_read_register = v;
    }

    /// GP0(E1h) draw mode setting.
    pub fn gp0_draw_mode_settings(&mut self, cmd: u32) -> (r: usize)
        ensures
            *final(self) == draw_mode_of(*old(self), cmd),
            r == 0,
    {
        self.texture.page_base_x = (cmd & 0xF) as u8;
        self.texture.page_base_y = ((cmd >> 4u32) & 0x1) as u8;
        self.semi_transparency = SemiTransparency::from_command(cmd);
        let d = (cmd >> 7u32) & 3;
        self.texture.depth = if d == 0 { TextureDepth::T4Bit } else if d == 1 { TextureDepth::T8Bit }
            else if d == 2 { TextureDepth::T15Bit } else { TextureDepth::Reserved };
        self.dithering = ((cmd >> 9u32) & 1) != 0;
        self.drawing_area.draw_to_display = ((cmd >> 10u32) & 1) != 0;
        self.texture.rectangle_x_flip = ((cmd >> 12u32) & 1) != 0;
        self.texture.rectangle_y_flip = ((cmd >> 13u32) & 1) != 0;
        0
    }

    /// GP0(E2h) texture window setting.
    pub fn gp0_texture_window_settings(&mut self, cmd: u32) -> (r: usize)
        ensures
            *final(self) == texture_window_of(*old(self), cmd),
            r == 0,
    {
        self.texture.window_x_mask = (cmd & 0x1F) as u8;
        self.texture.window_y_mask = ((cmd >> 5u32) & 0x1F) as u8;
        self.texture.window_x_offset = ((cmd >> 10u32) & 0x1F) as u8;
        self.texture.window_y_offset = ((cmd >> 15u32) & 0x1F) as u8;
        0
    }

    /// GP0(E3h) drawing area top left.
    pub fn gp0_set_drawing_area_top_left(&mut self, cmd: u32) -> (r: usize)
        ensures
            *final(self) == (GPU { drawing_area: DrawingArea { area_left: (cmd & 0x3FF) as u16, area_top: ((cmd >> 10u32) & 0x1FF) as u16, ..old(self).drawing_area }, ..*old(self) }),
            r == 0,
    {
        self.drawing_area.area_left = (cmd & 0x3FF) as u16;
        self.drawing_area.area_top = ((cmd >> 10u32) & 0x1FF) as u16;
        0
    }

    /// GP0(E4h) drawing area bottom right.
    pub fn gp0_set_drawing_area_bottom_right(&mut self, cmd: u32) -> (r: usize)
        ensures
            *final(self) == (GPU { drawing_area: DrawingArea { area_right: (cmd & 0x3FF) as u16, area_bottom: ((cmd >> 10u32) & 0x1FF) as u16, ..old(self).drawing_area }, ..*old(self) }),
            r == 0,
    {
        self.drawing_area.area_right = (cmd & 0x3FF) as u16;
        self.drawing_area.area_bottom = ((cmd >> 10u32) & 0x1FF) as u16;
        0
    }

    /// GP0(E5h) drawing offset: two 11-bit signed values.
    pub fn gp0_set_drawing_offset(&mut self, cmd: u32) -> (r: usize)
        ensures
            *final(self) == (GPU { drawing_area: DrawingArea { x_offset: sext11(cmd), y_offset: sext11(cmd >> 11u32), ..old(self).drawing_area }, ..*old(self) }),
            r == 0,
    {
        self.drawing_area.x_offset = sext11_of(cmd);
        self.drawing_area.y_offset = sext11_of(cmd >> 11u32);
        0
    }

    /// GP0(E6h) mask bit setting.
    pub fn gp0_mask_bit_settings(&mut self, cmd: u32) -> (r: usize)
        ensures
            *final(self) == (GPU { force_set_mask_bit: (cmd & 1) != 0, preserve_masked_pixels: (cmd & 2) != 0, ..*old(self) }),
            r == 0,
    {
        self.force_set_mask_bit = (cmd & 1) != 0;
        self.preserve_masked_pixels = (cmd & 2) != 0;
        0
    }

    /// GP0(1Fh): raises the GPU interrupt.
    pub fn gp0_set_irq(&mut self, irq_handler: &mut crate::interrupt::IrqHandler) -> (r: usize)
        ensures
            *final(self) == (GPU { irq: true, ..*old(self) }),
            (old(irq_handler).irqs ^ crate::interrupt::irq_mask(crate::interrupt::InterruptType::GPU)) != 0
                ==> final(irq_handler).irqs == old(irq_handler).irqs | crate::interrupt::irq_mask(crate::interrupt::InterruptType::GPU)
                && final(irq_handler).changed,
            (old(irq_handler).irqs ^ crate::interrupt::irq_mask(crate::interrupt::InterruptType::GPU)) == 0
                ==> *final(irq_handler) == *old(irq_handler),
            r == 0,
    {
        self.irq = true;
        irq_handler.set_irq(crate::interrupt::InterruptType::GPU);
        0
    }

    fn gp1_reset_cpu(&mut self)
        requires
            old(self).wf(),
        ensures
            *final(self) == gp1_reset_result(*old(self)),
            final(self).wf(),
    {
        self.gp1_reset_command_buffer();
        self.irq = false;
        self.display_config.display_disabled = true;
        self.dma_direction = DMADirection::Off;
        self.display_config.vram_x_start = 0;
        self.display_config.vram_y_start = 0;
        self.display_config.horizontal_start = 0x200;
        self.display_config.horizontal_end = 0x200 + 256 * 10;
        self.display_config.vertical_start = 0x10;
        self.display_config.vertical_end = 0x10 + 240;
        self.gp1_display_mode(0);
        self.gp0_draw_mode_settings(0);
        self.gp0_texture_window_settings(0);
        self.gp0_set_drawing_area_top_left(0);
        self.gp0_set_drawing_area_bottom_right(0);
        self.gp0_set_drawing_offset(0);
        self.gp0_mask_bit_settings(0);
        self.gp0state = Gp0State::WaitingCommand;
        proof {
            assert((0u32 & 0x3FFu32) as u16 == 0u16 && ((0u32 >> 10u32) & 0x1FFu32) as u16 == 0u16
                && (0u32 & 1u32) == 0u32 && (0u32 & 2u32) == 0u32
                && 0u32 & 0x7FFu32 == 0u32 && (0u32 >> 11u32) & 0x7FFu32 == 0u32) by (bit_vector);
            assert(sext11(0u32) == 0i16 && sext11(0u32 >> 11u32) == 0i16);
        }
    }

    /// A GP1 display control command: the command number in bits 24-29 (40h..FFh mirror
    /// 00h..3Fh), its parameter in bits 0-23.
    pub fn gp1_cmd(&mut self, cmd: u32)
        requires
            old(self).wf(),
        ensures
            *final(self) == gp1_result(*old(self), cmd),
            final(self).wf(),
    {
        let c = (cmd >> 24u32) & 0x3F;
        let p = cmd & 0xFF_FFFF;
        if c == 0x00 {
            self.gp1_reset_cpu();
        } else if c == 0x01 {
            self.gp1_reset_command_buffer();
        } else if c == 0x02 {
            self.irq = false;
        } else if c == 0x03 {
            self.display_config.display_disabled = p == 1;
        } else if c == 0x04 {
            self.gp1_dma_direction(p);
        } else if c == 0x05 {
            self.gp1_start_of_display_area(p);
        } else if c == 0x06 {
            self.gp1_horizontal_display_range(p);
        } else if c == 0x07 {
            self.gp1_vertical_display_range(p);
        } else if c == 0x08 {
            self.gp1_display_mode(p);
        } else if 0x10 <= c && c <= 0x1F {
            self.gp1_read_gpu_internal_register(p);
        }
    }

    fn gp1_dma_direction(&mut self, p: u32)
        ensures
            *final(self) == (GPU { dma_direction: dma_direction_of(p), ..*old(self) }),
    {
        let d = p & 3;
        self.dma_direction = if d == 0 { DMADirection::Off } else if d == 1 { DMADirection::Fifo }
            else if d == 2 { DMADirection::CpuToGp0 } else { DMADirection::VRamToCpu };
    }

    fn gp1_start_of_display_area(&mut self, p: u32)
        ensures
            *final(self) == (GPU { display_config: DisplayConfig { vram_x_start: (p & 0x3FF) as u16, vram_y_start: ((p >> 10u32) & 0x1FF) as u16, ..old(self).display_config }, ..*old(self) }),
    {
        self.display_config.vram_x_start = (p & 0x3FF) as u16;
        self.display_config.vram_y_start = ((p >> 10u32) & 0x1FF) as u16;
    }

    fn gp1_horizontal_display_range(&mut self, p: u32)
        ensures
            *final(self) == (GPU { display_config: DisplayConfig { horizontal_start: (p & 0xFFF) as u16, horizontal_end: ((p >> 12u32) & 0xFFF) as u16, ..old(self).display_config }, ..*old(self) }),
    {
        self.display_config.horizontal_start = (p & 0xFFF) as u16;
        self.display_config.horizontal_end = ((p >> 12u32) & 0xFFF) as u16;
    }

    fn gp1_vertical_display_range(&mut self, p: u32)
        ensures
            *final(self) == (GPU { display_config: DisplayConfig { vertical_start: (p & 0x3FF) as u16, vertical_end: ((p >> 10u32) & 0x3FF) as u16, ..old(self).display_config }, ..*old(self) }),
    {
        self.display_config.vertical_start = (p & 0x3FF) as u16;
        self.display_config.vertical_end = ((p >> 10u32) & 0x3FF) as u16;
    }
}

} // verus!
