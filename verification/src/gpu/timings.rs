use vstd::prelude::*;

verus! {

/// Cycle costs of GPU drawing commands.
pub struct GPUTimings {}

/// Extra cycles of each segment of a poly-line.
pub const POLY_LINE_PENALTY: usize = 15;

impl GPUTimings {
    /// A rectangle: base cost plus a per-pixel cost (doubled for textures, one more when
    /// semi-transparent). The pixel count is a 16-bit product.
    pub fn rectangle(width: u16, height: u16, is_textured: bool, is_semi_transparent: bool) -> (r: usize)
        requires
            width * height <= u16::MAX,
        ensures
            r == (if is_textured { 30int } else { 20int })
                + width * height * ((if is_textured { 2int } else { 1int }) + (if is_semi_transparent { 1int } else { 0int })),
    {
        let area = width * height;
        let (base_cycles, mut pixel_cycles): (usize, usize) = if is_textured { (30, 2) } else { (20, 1) };
        if is_semi_transparent {
            pixel_cycles = pixel_cycles + 1;
        }
        assert(area as usize * pixel_cycles <= 0xFFFF * 3) by (nonlinear_arith)
            requires area <= 0xFFFF, pixel_cycles <= 3;
        base_cycles + area as usize * pixel_cycles
    }

    /// A quick fill: one cycle per pixel.
    pub fn rectangle_fill(width: u16, height: u16) -> (r: usize)
        ensures
            r == width * height,
    {
        assert(width as usize * height as usize <= 0xFFFF * 0xFFFF) by (nonlinear_arith)
            requires width <= 0xFFFF, height <= 0xFFFF;
        width as usize * height as usize * 1
    }

    /// A line: 20 cycles plus one per pixel, one more for shading and one more when semi-transparent.
    pub fn line(pixels: usize, is_gouraud: bool, is_semi_transparent: bool) -> (r: usize)
        requires
            20 + pixels * 3 <= usize::MAX,
        ensures
            r == 20 + pixels * (1 + (if is_gouraud { 1int } else { 0int }) + (if is_semi_transparent { 1int } else { 0int })),
    {
        let mut pixel_cycles: usize = 1;
        if is_gouraud {
            pixel_cycles = pixel_cycles + 1;
        }
        if is_semi_transparent {
            pixel_cycles = pixel_cycles + 1;
        }
        assert(pixels * pixel_cycles <= pixels * 3) by (nonlinear_arith)
            requires pixel_cycles <= 3;
        20 + pixels * pixel_cycles
    }

    /// A triangle: 30 cycles (+10 textured, +5 shaded) plus a per-pixel cost (+1 each for
    /// texture, shading and semi-transparency).
    pub fn triangle(pixels: usize, is_gouraud: bool, is_semi_transparent: bool, is_texture: bool) -> (r: usize)
        requires
            45 + pixels * 4 <= usize::MAX,
        ensures
            r == 30 + (if is_texture { 10int } else { 0int }) + (if is_gouraud { 5int } else { 0int })
                + pixels * (1 + (if is_texture { 1int } else { 0int }) + (if is_gouraud { 1int } else { 0int })
                + (if is_semi_transparent { 1int } else { 0int })),
    {
        let mut base_cycles: usize = 30;
        let mut pixel_cycles: usize = 1;
        if is_texture {
            base_cycles = base_cycles + 10;
            pixel_cycles = pixel_cycles + 1;
        }
        if is_gouraud {
            base_cycles = base_cycles + 5;
            pixel_cycles = pixel_cycles + 1;
        }
        if is_semi_transparent {
            pixel_cycles = pixel_cycles + 1;
        }
        assert(pixel_cycles * pixels <= pixels * 4 && pixel_cycles * pixels == pixels * pixel_cycles) by (nonlinear_arith)
            requires pixel_cycles <= 4;
        base_cycles + pixel_cycles * pixels
    }

    /// A VRAM to VRAM copy: 30 cycles plus one per two pixels.
    pub fn vram_to_vram_copy(width: usize, height: usize) -> (r: usize)
        requires
            width * height <= usize::MAX,
        ensures
            r == 30 + (width * height) / 2,
    {
        let area = width * height;
        assert(area / 2 + 30 <= usize::MAX) by (nonlinear_arith)
            requires area <= usize::MAX, usize::MAX >= 0xFFFF_FFFF;
        30 + area / 2
    }
}

} // verus!
