use vstd::prelude::*;
use vstd::std_specs::bits::{u16_leading_zeros, axiom_u16_leading_zeros};
use crate::cpu::CopResult;

verus! {

/// Number of extra cycles a register write to the GTE costs.
pub const GTE_REG_WRITE_CYCLES: usize = 2;

/// A 3x3 matrix of signed 1.3.12 fixed-point elements.
#[derive(Clone, Copy, Debug)]
pub struct Matrix3x3 {
    pub m11: i16, pub m12: i16, pub m13: i16,
    pub m21: i16, pub m22: i16, pub m23: i16,
    pub m31: i16, pub m32: i16, pub m33: i16,
}

/// A two-component vector.
#[derive(Clone, Copy, Debug)]
pub struct Vec2<T> {
    pub x: T,
    pub y: T,
}

/// A three-component vector.
#[derive(Clone, Copy, Debug)]
pub struct Vec3<T> {
    pub x: T,
    pub y: T,
    pub z: T,
}

/// An RGB colour with its code byte.
#[derive(Clone, Copy, Debug)]
pub struct RGB {
    pub r: u8,
    pub g: u8,
    pub b: u8,
    pub c: u8,
}

impl Matrix3x3 {
    pub fn zero() -> (m: Matrix3x3)
        ensures
            m == spec_zero_matrix(),
    {
        Matrix3x3 { m11: 0, m12: 0, m13: 0, m21: 0, m22: 0, m23: 0, m31: 0, m32: 0, m33: 0 }
    }
}

pub open spec fn spec_zero_matrix() -> Matrix3x3 {
    Matrix3x3 { m11: 0, m12: 0, m13: 0, m21: 0, m22: 0, m23: 0, m31: 0, m32: 0, m33: 0 }
}

/// The Geometry Transformation Engine (coprocessor 2).
///
/// Its registers are held as named fields; the MAC accumulators are 44-bit wide
/// during a computation and the flag register collects every saturation that occurred.
#[derive(Clone, Copy, Debug)]
pub struct Cop2 {
    /// Shift applied to the fractional part (0 or 12).
    pub sf: u32,
    /// MVMVA matrix selector.
    pub mx: u32,
    /// MVMVA vector selector.
    pub sv: u32,
    /// MVMVA translation selector.
    pub cv: u32,
    /// Saturate IR1..IR3 to 0..7FFFh rather than -8000h..7FFFh.
    pub lm: bool,
    // control registers
    pub rotation: Matrix3x3,
    pub tr: Vec3<i32>,
    pub light: Matrix3x3,
    pub bk: Vec3<i32>,
    pub colour: Matrix3x3,
    pub fc: Vec3<i32>,
    pub ofx: i32,
    pub ofy: i32,
    pub h: u16,
    pub dqa: i16,
    pub dqb: i32,
    pub zsf3: i16,
    pub zsf4: i16,
    pub flags: u32,
    // data registers
    pub v0: Vec3<i16>,
    pub v1: Vec3<i16>,
    pub v2: Vec3<i16>,
    pub rgb: RGB,
    pub otz: u16,
    pub ir0: i16,
    pub ir1: i16,
    pub ir2: i16,
    pub ir3: i16,
    pub sxy0: Vec2<i16>,
    pub sxy1: Vec2<i16>,
    pub sxy2: Vec2<i16>,
    pub sz0: u16,
    pub sz1: u16,
    pub sz2: u16,
    pub sz3: u16,
    pub rgb0: RGB,
    pub rgb1: RGB,
    pub rgb2: RGB,
    pub res1: u32,
    pub mac0: i32,
    pub mac1: i32,
    pub mac2: i32,
    pub mac3: i32,
    pub lzcs: i32,
    pub lzcr: i32,
}

// ---------------------------------------------------------------------------
// Saturation primitives
// ---------------------------------------------------------------------------

/// The 44-bit wrap of the MAC1..MAC3 accumulators: the low 44 bits, sign-extended.
pub open spec fn wrap44(v: i64) -> i64 {
    (v << 20u64) >> 20u64
}

/// Flag bits raised by an accumulator value that leaves the 44-bit range.
pub open spec fn a_bits(index: int, v: int) -> u32 {
    let neg: u32 = if v < -0x800_0000_0000 {
        if index == 1 { 0x800_0000u32 } else if index == 2 { 0x400_0000u32 } else { 0x200_0000u32 }
    } else {
        0u32
    };
    let pos: u32 = if v > 0x7ff_ffff_ffff {
        if index == 1 { 0x4000_0000u32 } else if index == 2 { 0x2000_0000u32 } else { 0x1000_0000u32 }
    } else {
        0u32
    };
    neg | pos
}

/// The IR saturation flag bit of component `index` (1..3).
pub open spec fn ir_flag(index: int) -> u32 {
    if index == 1 { 0x100_0000u32 } else if index == 2 { 0x80_0000u32 } else { 0x40_0000u32 }
}

/// Result of saturating a value to the IR range (0..7FFFh when `lm`, else -8000h..7FFFh).
pub open spec fn sat_ir(v: int, lm: bool) -> i16 {
    if lm && v < 0 {
        0
    } else if !lm && v < -0x8000 {
        -0x8000i16
    } else if v > 0x7fff {
        0x7fff
    } else {
        v as i16
    }
}

/// True when saturating `v` to the IR range changes it.
pub open spec fn ir_saturates(v: int, lm: bool) -> bool {
    (lm && v < 0) || (!lm && v < -0x8000) || v > 0x7fff
}

/// The colour FIFO saturation flag bit of component `index` (1..3).
pub open spec fn color_flag(index: int) -> u32 {
    if index == 1 { 0x20_0000u32 } else if index == 2 { 0x10_0000u32 } else { 0x8_0000u32 }
}

/// Result of saturating a value to a colour byte.
pub open spec fn sat_color(v: int) -> u8 {
    if v < 0 { 0 } else if v > 0xff { 0xff } else { v as u8 }
}

/// Result of saturating a value to the unsigned 16-bit Z range.
pub open spec fn sat_z(v: int) -> u16 {
    if v < 0 { 0 } else if v > 0xffff { 0xffff } else { v as u16 }
}

/// Flag bits raised by a MAC0 value out of the 32-bit range.
pub open spec fn mac0_bits(v: int) -> u32 {
    if v < -0x8000_0000 { 0x8000u32 } else if v > 0x7fff_ffff { 0x1_0000u32 } else { 0u32 }
}

/// The screen coordinate saturation flag bit of component `index` (1..2).
pub open spec fn sxy_flag(index: int) -> u32 {
    if index == 1 { 0x4000u32 } else { 0x2000u32 }
}

/// Result of saturating a value to the screen coordinate range -400h..3FFh.
pub open spec fn sat_sxy(v: int) -> i16 {
    if v < -0x400 { -0x400i16 } else if v > 0x3ff { 0x3ff } else { v as i16 }
}

/// Result of saturating a value to the IR0 range 0..1000h.
pub open spec fn sat_ir0(v: int) -> i16 {
    if v < 0 { 0 } else if v > 0x1000 { 0x1000 } else { v as i16 }
}

/// Saturation of a signed value to an unsigned 5-bit colour component.
pub open spec fn sat_u5(v: int) -> u8 {
    if v > 0x1f { 0x1f } else if v < 0 { 0 } else { v as u8 }
}

pub open spec fn with_flags(s: Cop2, bits: u32) -> Cop2 {
    Cop2 { flags: s.flags | bits, ..s }
}

/// A 44-bit wrapped accumulator lies in the signed 44-bit range.
pub proof fn lemma_wrap44_range(v: i64)
    ensures
        -0x800_0000_0000 <= wrap44(v) <= 0x7ff_ffff_ffff,
{
    assert(-0x800_0000_0000i64 <= ((v << 20u64) >> 20u64) && ((v << 20u64) >> 20u64) <= 0x7ff_ffff_ffffi64) by (bit_vector);
}

proof fn lemma_mul_bound(a: int, b: int, ba: int, bb: int)
    requires
        -ba <= a <= ba,
        -bb <= b <= bb,
        ba >= 0,
        bb >= 0,
    ensures
        -(ba * bb) <= a * b <= ba * bb,
{
    assert(-(ba * bb) <= a * b <= ba * bb) by (nonlinear_arith)
        requires -ba <= a <= ba, -bb <= b <= bb, ba >= 0, bb >= 0;
}

impl Cop2 {
    /// Saturation of a signed value to an unsigned 5-bit colour component.
    pub fn saturate_i16_to_u5(value: i16) -> (r: u8)
        ensures
            r == sat_u5(value as int),
    {
        if value > 0x1f {
            return 0x1f;
        }
        if value < 0 {
            return 0;
        }
        value as u8
    }

    fn saturate_i64_to_i44(value: i64) -> (r: i64)
        ensures
            r == wrap44(value),
            -0x800_0000_0000 <= r <= 0x7ff_ffff_ffff,
    {
        proof { lemma_wrap44_range(value); }
        (value << 20u64) >> 20u64
    }

    /// Accumulator stage: wraps to 44 bits and flags the overflow.
    fn a(&mut self, index: usize, value: i64) -> (r: i64)
        requires
            1 <= index <= 3,
        ensures
            r == wrap44(value),
            -0x800_0000_0000 <= r <= 0x7ff_ffff_ffff,
            *final(self) == with_flags(*old(self), a_bits(index as int, value as int)),
    {
        let mut bits: u32 = 0;
        if value < -0x800_0000_0000 {
            bits = if index == 1 { 0x800_0000u32 } else if index == 2 { 0x400_0000u32 } else { 0x200_0000u32 };
        }
        let mut pos: u32 = 0;
        if value > 0x7ff_ffff_ffff {
            pos = if index == 1 { 0x4000_0000u32 } else if index == 2 { 0x2000_0000u32 } else { 0x1000_0000u32 };
        }
        self.flags = self.flags | (bits | pos);
        Cop2::saturate_i64_to_i44(value)
    }

    /// IR stage: saturates to the IR range and flags the saturation.
    fn lm_b(&mut self, index: usize, value: i32, lm: bool) -> (r: i16)
        requires
            1 <= index <= 3,
        ensures
            r == sat_ir(value as int, lm),
            *final(self) == with_flags(*old(self), if ir_saturates(value as int, lm) { ir_flag(index as int) } else { 0u32 }),
    {
        let flag: u32 = if index == 1 { 0x100_0000u32 } else if index == 2 { 0x80_0000u32 } else { 0x40_0000u32 };
        if lm && value < 0 {
            self.flags = self.flags | flag;
            return 0;
        }
        if !lm && value < -0x8000 {
            self.flags = self.flags | flag;
            return -0x8000;
        }
        if value > 0x7fff {
            self.flags = self.flags | flag;
            return 0x7fff;
        }
        self.flags = self.flags | 0u32;
        value as i16
    }

    /// IR3 stage of the perspective transformation: the flag tracks the unshifted Z.
    fn lm_b_z(&mut self, value: i32, old_z: i64, lm: bool) -> (r: i16)
        ensures
            r == sat_ir(value as int, lm),
            *final(self) == with_flags(*old(self), if old_z < -0x8000 || old_z > 0x7fff { 0x40_0000u32 } else { 0u32 }),
    {
        if old_z < -0x8000 || old_z > 0x7fff {
            self.flags = self.flags | 0x40_0000u32;
        } else {
            self.flags = self.flags | 0u32;
        }
        if lm && value < 0 {
            return 0;
        }
        if !lm && value < -0x8000 {
            return -0x8000;
        }
        if value > 0x7fff {
            return 0x7fff;
        }
        value as i16
    }

    /// Colour stage: saturates to a byte and flags the saturation.
    fn lm_c(&mut self, index: usize, value: i32) -> (r: u8)
        requires
            1 <= index <= 3,
        ensures
            r == sat_color(value as int),
            *final(self) == with_flags(*old(self), if value < 0 || value > 0xff { color_flag(index as int) } else { 0u32 }),
    {
        let flag: u32 = if index == 1 { 0x20_0000u32 } else if index == 2 { 0x10_0000u32 } else { 0x8_0000u32 };
        if value < 0 {
            self.flags = self.flags | flag;
            return 0;
        }
        if value > 0xff {
            self.flags = self.flags | flag;
            return 0xff;
        }
        self.flags = self.flags | 0u32;
        value as u8
    }

    /// Z stage: saturates to 0..FFFFh and flags the saturation.
    fn lm_d(&mut self, value: i64) -> (r: u16)
        ensures
            r == sat_z(value as int),
            *final(self) == with_flags(*old(self), if value < 0 || value > 0xffff { 0x4_0000u32 } else { 0u32 }),
    {
        if value < 0 {
            self.flags = self.flags | 0x4_0000u32;
            return 0;
        }
        if value > 0xffff {
            self.flags = self.flags | 0x4_0000u32;
            return 0xffff;
        }
        self.flags = self.flags | 0u32;
        value as u16
    }

    /// MAC0 stage: flags a value out of the 32-bit range and passes it through.
    fn f(&mut self, value: i64) -> (r: i64)
        ensures
            r == value,
            *final(self) == with_flags(*old(self), mac0_bits(value as int)),
    {
        if value < -0x8000_0000 {
            self.flags = self.flags | 0x8000u32;
        } else if value > 0x7fff_ffff {
            self.flags = self.flags | 0x1_0000u32;
        } else {
            self.flags = self.flags | 0u32;
        }
        value
    }

    /// Screen coordinate stage: saturates to -400h..3FFh and flags the saturation.
    fn lm_g(&mut self, index: usize, value: i32) -> (r: i16)
        requires
            1 <= index <= 2,
        ensures
            r == sat_sxy(value as int),
            *final(self) == with_flags(*old(self), if value < -0x400 || value > 0x3ff { sxy_flag(index as int) } else { 0u32 }),
    {
        let flag: u32 = if index == 1 { 0x4000u32 } else { 0x2000u32 };
        if value < -0x400 {
            self.flags = self.flags | flag;
            return -0x400;
        }
        if value > 0x3ff {
            self.flags = self.flags | flag;
            return 0x3ff;
        }
        self.flags = self.flags | 0u32;
        value as i16
    }

    /// IR0 stage: saturates to 0..1000h and flags the saturation.
    fn lm_h(&mut self, value: i64) -> (r: i16)
        ensures
            r == sat_ir0(value as int),
            *final(self) == with_flags(*old(self), if value < 0 || value > 0x1000 { 0x1000u32 } else { 0u32 }),
    {
        if value < 0 {
            self.flags = self.flags | 0x1000u32;
            return 0;
        }
        if value > 0x1000 {
            self.flags = self.flags | 0x1000u32;
            return 0x1000;
        }
        self.flags = self.flags | 0u32;
        value as i16
    }
}


// ---------------------------------------------------------------------------
// Pipeline stages shared by the commands
// ---------------------------------------------------------------------------

/// One column of a matrix-vector product: each accumulator gets `column * v` added and is
/// wrapped to 44 bits, in the order MAC1, MAC2, MAC3.
pub open spec fn col_spec(s: Cop2, a1: int, a2: int, a3: int, c1: int, c2: int, c3: int, v: int) -> (Cop2, (i64, i64, i64)) {
    let x1 = a1 + c1 * v;
    let x2 = a2 + c2 * v;
    let x3 = a3 + c3 * v;
    let s1 = with_flags(s, a_bits(1, x1));
    let s2 = with_flags(s1, a_bits(2, x2));
    let s3 = with_flags(s2, a_bits(3, x3));
    (s3, (wrap44(x1 as i64), wrap44(x2 as i64), wrap44(x3 as i64)))
}

/// Matrix times vector plus translation, through the 44-bit accumulators.
pub open spec fn mat_vec_spec(s: Cop2, m: Matrix3x3, t1: int, t2: int, t3: int, vx: int, vy: int, vz: int) -> (Cop2, (i64, i64, i64)) {
    let c1 = col_spec(s, t1, t2, t3, m.m11 as int, m.m21 as int, m.m31 as int, vx);
    let c2 = col_spec(c1.0, c1.1.0 as int, c1.1.1 as int, c1.1.2 as int, m.m12 as int, m.m22 as int, m.m32 as int, vy);
    col_spec(c2.0, c2.1.0 as int, c2.1.1 as int, c2.1.2 as int, m.m13 as int, m.m23 as int, m.m33 as int, vz)
}

/// Wrap three values through the accumulators (no product).
pub open spec fn acc_spec(s: Cop2, x1: int, x2: int, x3: int) -> (Cop2, (i64, i64, i64)) {
    let s1 = with_flags(s, a_bits(1, x1));
    let s2 = with_flags(s1, a_bits(2, x2));
    let s3 = with_flags(s2, a_bits(3, x3));
    (s3, (wrap44(x1 as i64), wrap44(x2 as i64), wrap44(x3 as i64)))
}

pub open spec fn ir_bits(v: int, lm: bool, index: int) -> u32 {
    if ir_saturates(v, lm) { ir_flag(index) } else { 0u32 }
}

/// MAC1..MAC3 take the shifted accumulators; IR1..IR3 take them saturated.
pub open spec fn mac_ir_spec(s: Cop2, t1: i64, t2: i64, t3: i64, lm: bool) -> Cop2 {
    let m1 = (t1 >> s.sf) as i32;
    let m2 = (t2 >> s.sf) as i32;
    let m3 = (t3 >> s.sf) as i32;
    let f = s.flags | ir_bits(m1 as int, lm, 1) | ir_bits(m2 as int, lm, 2) | ir_bits(m3 as int, lm, 3);
    Cop2 {
        mac1: m1, mac2: m2, mac3: m3,
        ir1: sat_ir(m1 as int, lm), ir2: sat_ir(m2 as int, lm), ir3: sat_ir(m3 as int, lm),
        flags: f,
        ..s
    }
}

/// IR1..IR3 take MAC1..MAC3 saturated.
pub open spec fn ir_from_mac_spec(s: Cop2, lm: bool) -> Cop2 {
    let f = s.flags | ir_bits(s.mac1 as int, lm, 1) | ir_bits(s.mac2 as int, lm, 2) | ir_bits(s.mac3 as int, lm, 3);
    Cop2 {
        ir1: sat_ir(s.mac1 as int, lm), ir2: sat_ir(s.mac2 as int, lm), ir3: sat_ir(s.mac3 as int, lm),
        flags: f,
        ..s
    }
}

pub open spec fn color_bits(v: int, index: int) -> u32 {
    if v < 0 || v > 0xff { color_flag(index) } else { 0u32 }
}

/// The colour FIFO is pushed with MAC1..MAC3 / 16 saturated to bytes and the current code.
pub open spec fn color_push_spec(s: Cop2) -> Cop2 {
    let r = (s.mac1 >> 4u32) as int;
    let g = (s.mac2 >> 4u32) as int;
    let b = (s.mac3 >> 4u32) as int;
    let f = s.flags | color_bits(r, 1) | color_bits(g, 2) | color_bits(b, 3);
    Cop2 {
        rgb0: s.rgb1,
        rgb1: s.rgb2,
        rgb2: RGB { r: sat_color(r), g: sat_color(g), b: sat_color(b), c: s.rgb.c },
        flags: f,
        ..s
    }
}

/// The vector register selected by `index` (0..2).
pub open spec fn vec_at(s: Cop2, index: int) -> Vec3<i16> {
    if index == 0 { s.v0 } else if index == 1 { s.v1 } else { s.v2 }
}

pub open spec fn scaled(v: Vec3<i32>) -> (int, int, int) {
    (v.x as int * 4096, v.y as int * 4096, v.z as int * 4096)
}

impl Cop2 {
    pub open spec fn wf(&self) -> bool {
        &&& (self.sf == 0 || self.sf == 12)
        &&& self.mx <= 3
        &&& self.sv <= 3
        &&& self.cv <= 3
    }

    /// One column of a matrix-vector product.
    fn mac_col(&mut self, a1: i64, a2: i64, a3: i64, c1: i16, c2: i16, c3: i16, v: i64) -> (r: (i64, i64, i64))
        requires
            -0x800_0000_0000 <= a1 <= 0x800_0000_0000,
            -0x800_0000_0000 <= a2 <= 0x800_0000_0000,
            -0x800_0000_0000 <= a3 <= 0x800_0000_0000,
            -0x8000 <= v <= 0x8000,
        ensures
            (*final(self), r) == col_spec(*old(self), a1 as int, a2 as int, a3 as int, c1 as int, c2 as int, c3 as int, v as int),
            -0x800_0000_0000 <= r.0 <= 0x7ff_ffff_ffff,
            -0x800_0000_0000 <= r.1 <= 0x7ff_ffff_ffff,
            -0x800_0000_0000 <= r.2 <= 0x7ff_ffff_ffff,
    {
        proof {
            lemma_mul_bound(c1 as int, v as int, 0x8000, 0x8000);
            lemma_mul_bound(c2 as int, v as int, 0x8000, 0x8000);
            lemma_mul_bound(c3 as int, v as int, 0x8000, 0x8000);
        }
        let x1 = a1 + (c1 as i64) * v;
        let x2 = a2 + (c2 as i64) * v;
        let x3 = a3 + (c3 as i64) * v;
        let r1 = self.a(1, x1);
        let r2 = self.a(2, x2);
        let r3 = self.a(3, x3);
        (r1, r2, r3)
    }

    /// Matrix times vector plus translation.
    fn mat_vec(&mut self, m: Matrix3x3, t1: i64, t2: i64, t3: i64, vx: i64, vy: i64, vz: i64) -> (r: (i64, i64, i64))
        requires
            -0x800_0000_0000 <= t1 <= 0x800_0000_0000,
            -0x800_0000_0000 <= t2 <= 0x800_0000_0000,
            -0x800_0000_0000 <= t3 <= 0x800_0000_0000,
            -0x8000 <= vx <= 0x8000,
            -0x8000 <= vy <= 0x8000,
            -0x8000 <= vz <= 0x8000,
        ensures
            (*final(self), r) == mat_vec_spec(*old(self), m, t1 as int, t2 as int, t3 as int, vx as int, vy as int, vz as int),
    {
        let c1 = self.mac_col(t1, t2, t3, m.m11, m.m21, m.m31, vx);
        let c2 = self.mac_col(c1.0, c1.1, c1.2, m.m12, m.m22, m.m32, vy);
        self.mac_col(c2.0, c2.1, c2.2, m.m13, m.m23, m.m33, vz)
    }

    /// Three values through the accumulators.
    fn acc3(&mut self, x1: i64, x2: i64, x3: i64) -> (r: (i64, i64, i64))
        ensures
            (*final(self), r) == acc_spec(*old(self), x1 as int, x2 as int, x3 as int),
    {
        let r1 = self.a(1, x1);
        let r2 = self.a(2, x2);
        let r3 = self.a(3, x3);
        (r1, r2, r3)
    }

    /// MAC1..MAC3 and IR1..IR3 from three accumulators.
    fn set_mac_ir(&mut self, t1: i64, t2: i64, t3: i64, lm: bool)
        requires
            old(self).sf <= 12,
        ensures
            *final(self) == mac_ir_spec(*old(self), t1, t2, t3, lm),
    {
        self.mac1 = (t1 >> self.sf) as i32;
        self.mac2 = (t2 >> self.sf) as i32;
        self.mac3 = (t3 >> self.sf) as i32;
        let m1 = self.mac1;
        let m2 = self.mac2;
        let m3 = self.mac3;
        self.ir1 = self.lm_b(1, m1, lm);
        self.ir2 = self.lm_b(2, m2, lm);
        self.ir3 = self.lm_b(3, m3, lm);
    }

    /// IR1..IR3 from MAC1..MAC3.
    fn set_ir_from_mac(&mut self, lm: bool)
        ensures
            *final(self) == ir_from_mac_spec(*old(self), lm),
    {
        let m1 = self.mac1;
        let m2 = self.mac2;
        let m3 = self.mac3;
        self.ir1 = self.lm_b(1, m1, lm);
        self.ir2 = self.lm_b(2, m2, lm);
        self.ir3 = self.lm_b(3, m3, lm);
    }

    /// Pushes the colour computed from MAC1..MAC3 into the colour FIFO.
    fn color_push(&mut self)
        ensures
            *final(self) == color_push_spec(*old(self)),
    {
        let m1 = self.mac1 >> 4u32;
        let m2 = self.mac2 >> 4u32;
        let m3 = self.mac3 >> 4u32;
        let r = self.lm_c(1, m1);
        let g = self.lm_c(2, m2);
        let b = self.lm_c(3, m3);
        let c = self.rgb.c;
        self.push_rgb(r, g, b, c);
    }

    fn push_sx(&mut self, sx: i16)
        ensures
            *final(self) == (Cop2 {
                sxy0: Vec2 { x: old(self).sxy1.x, y: old(self).sxy0.y },
                sxy1: Vec2 { x: old(self).sxy2.x, y: old(self).sxy1.y },
                sxy2: Vec2 { x: sx, y: old(self).sxy2.y },
                ..*old(self)
            }),
    {
        self.sxy0.x = self.sxy1.x;
        self.sxy1.x = self.sxy2.x;
        self.sxy2.x = sx;
    }

    fn push_sy(&mut self, sy: i16)
        ensures
            *final(self) == (Cop2 {
                sxy0: Vec2 { x: old(self).sxy0.x, y: old(self).sxy1.y },
                sxy1: Vec2 { x: old(self).sxy1.x, y: old(self).sxy2.y },
                sxy2: Vec2 { x: old(self).sxy2.x, y: sy },
                ..*old(self)
            }),
    {
        self.sxy0.y = self.sxy1.y;
        self.sxy1.y = self.sxy2.y;
        self.sxy2.y = sy;
    }

    fn push_sz(&mut self, sz: u16)
        ensures
            *final(self) == (Cop2 { sz0: old(self).sz1, sz1: old(self).sz2, sz2: old(self).sz3, sz3: sz, ..*old(self) }),
    {
        self.sz0 = self.sz1;
        self.sz1 = self.sz2;
        self.sz2 = self.sz3;
        self.sz3 = sz;
    }

    fn push_rgb(&mut self, r: u8, g: u8, b: u8, c: u8)
        ensures
            *final(self) == (Cop2 { rgb0: old(self).rgb1, rgb1: old(self).rgb2, rgb2: RGB { r, g, b, c }, ..*old(self) }),
    {
        self.rgb0 = self.rgb1;
        self.rgb1 = self.rgb2;
        self.rgb2 = RGB { r, g, b, c };
    }
}


// ---------------------------------------------------------------------------
// Commands
// ---------------------------------------------------------------------------

/// NCLIP: the signed area (times two) of the screen triangle SXY0, SXY1, SXY2 goes to MAC0.
pub open spec fn nclip_spec(s: Cop2) -> Cop2 {
    let (x0, y0) = (s.sxy0.x as int, s.sxy0.y as int);
    let (x1, y1) = (s.sxy1.x as int, s.sxy1.y as int);
    let (x2, y2) = (s.sxy2.x as int, s.sxy2.y as int);
    let p = x0 * y1 + x1 * y2 + x2 * y0 - x0 * y2 - x1 * y0 - x2 * y1;
    Cop2 { mac0: p as i32, flags: s.flags | mac0_bits(p), ..s }
}

/// OP: outer product of IR with the rotation matrix diagonal.
pub open spec fn op_spec(s: Cop2) -> Cop2 {
    let (i1, i2, i3) = (s.ir1 as int, s.ir2 as int, s.ir3 as int);
    let (d1, d2, d3) = (s.rotation.m11 as int, s.rotation.m22 as int, s.rotation.m33 as int);
    let a = acc_spec(s, i3 * d2 - i2 * d3, i1 * d3 - i3 * d1, i2 * d1 - i1 * d2);
    mac_ir_spec(a.0, a.1.0, a.1.1, a.1.2, s.lm)
}

/// SQR: square of the IR vector.
pub open spec fn sqr_spec(s: Cop2) -> Cop2 {
    let (i1, i2, i3) = (s.ir1 as int, s.ir2 as int, s.ir3 as int);
    let a = acc_spec(s, i1 * i1, i2 * i2, i3 * i3);
    mac_ir_spec(a.0, a.1.0, a.1.1, a.1.2, s.lm)
}

/// AVSZ3: average of SZ1..SZ3 scaled by ZSF3 goes to MAC0 and OTZ.
pub open spec fn avsz3_spec(s: Cop2) -> Cop2 {
    let avg = s.zsf3 as int * (s.sz1 as int + s.sz2 as int + s.sz3 as int);
    Cop2 {
        mac0: avg as i32,
        otz: sat_z((avg as i64 >> 12u64) as int),
        flags: s.flags | mac0_bits(avg) | (if (avg as i64 >> 12u64) < 0 || (avg as i64 >> 12u64) > 0xffff { 0x4_0000u32 } else { 0u32 }),
        ..s
    }
}

/// AVSZ4: average of SZ0..SZ3 scaled by ZSF4 goes to MAC0 and OTZ.
pub open spec fn avsz4_spec(s: Cop2) -> Cop2 {
    let avg = s.zsf4 as int * (s.sz0 as int + s.sz1 as int + s.sz2 as int + s.sz3 as int);
    Cop2 {
        mac0: avg as i32,
        otz: sat_z((avg as i64 >> 12u64) as int),
        flags: s.flags | mac0_bits(avg) | (if (avg as i64 >> 12u64) < 0 || (avg as i64 >> 12u64) > 0xffff { 0x4_0000u32 } else { 0u32 }),
        ..s
    }
}

/// Second half of depth cueing: interpolates `(r, g, b)` (already scaled) towards the far colour by IR0.
pub open spec fn depth_cue_spec(s: Cop2, r: int, g: int, b: int) -> Cop2 {
    let fc = scaled(s.fc);
    let a = acc_spec(s, fc.0 - r, fc.1 - g, fc.2 - b);
    let m = mac_ir_spec(a.0, a.1.0, a.1.1, a.1.2, false);
    let ir0 = m.ir0 as int;
    let a2 = acc_spec(m, r + m.ir1 as int * ir0, g + m.ir2 as int * ir0, b + m.ir3 as int * ir0);
    color_push_spec(mac_ir_spec(a2.0, a2.1.0, a2.1.1, a2.1.2, s.lm))
}

/// DPCS / DPCT step: depth cueing of RGB (or of the first colour FIFO entry).
pub open spec fn dpc_spec(s: Cop2, use_fifo: bool) -> Cop2 {
    let c = if use_fifo { s.rgb0 } else { s.rgb };
    depth_cue_spec(s, c.r as int * 65536, c.g as int * 65536, c.b as int * 65536)
}

/// INTPL: interpolation between IR and the far colour by IR0.
pub open spec fn intpl_spec(s: Cop2) -> Cop2 {
    depth_cue_spec(s, s.ir1 as int * 4096, s.ir2 as int * 4096, s.ir3 as int * 4096)
}

/// MAC1..MAC3 from the accumulators, each then saturated (without storing IR) for the next stage.
pub open spec fn mac_sat_spec(s: Cop2, t1: i64, t2: i64, t3: i64) -> (Cop2, (i16, i16, i16)) {
    let m1 = (t1 >> s.sf) as i32;
    let m2 = (t2 >> s.sf) as i32;
    let m3 = (t3 >> s.sf) as i32;
    let f = s.flags | ir_bits(m1 as int, false, 1) | ir_bits(m2 as int, false, 2) | ir_bits(m3 as int, false, 3);
    (Cop2 { mac1: m1, mac2: m2, mac3: m3, flags: f, ..s }, (sat_ir(m1 as int, false), sat_ir(m2 as int, false), sat_ir(m3 as int, false)))
}

/// DCPL: depth cue of the colour light in IR.
pub open spec fn dcpl_spec(s: Cop2) -> Cop2 {
    let (r, g, b) = (s.rgb.r as int * 16, s.rgb.g as int * 16, s.rgb.b as int * 16);
    let (i1, i2, i3) = (s.ir1 as int, s.ir2 as int, s.ir3 as int);
    let ir0 = s.ir0 as int;
    let fc = scaled(s.fc);
    let a = acc_spec(s, fc.0 - r * i1, fc.1 - g * i2, fc.2 - b * i3);
    let m = mac_sat_spec(a.0, a.1.0, a.1.1, a.1.2);
    let a2 = acc_spec(m.0, r * i1 + ir0 * m.1.0 as int, g * i2 + ir0 * m.1.1 as int, b * i3 + ir0 * m.1.2 as int);
    color_push_spec(mac_ir_spec(a2.0, a2.1.0, a2.1.1, a2.1.2, s.lm))
}

/// Colour matrix times IR plus background colour, into MAC/IR.
pub open spec fn color_matrix_spec(s: Cop2) -> Cop2 {
    let bk = scaled(s.bk);
    let a = mat_vec_spec(s, s.colour, bk.0, bk.1, bk.2, s.ir1 as int, s.ir2 as int, s.ir3 as int);
    mac_ir_spec(a.0, a.1.0, a.1.1, a.1.2, s.lm)
}

/// RGB times IR, into MAC/IR, then pushed as a colour.
pub open spec fn color_mul_spec(s: Cop2) -> Cop2 {
    let (r, g, b) = (s.rgb.r as int * 16, s.rgb.g as int * 16, s.rgb.b as int * 16);
    let a = acc_spec(s, r * s.ir1 as int, g * s.ir2 as int, b * s.ir3 as int);
    color_push_spec(mac_ir_spec(a.0, a.1.0, a.1.1, a.1.2, s.lm))
}

/// CC: colour colour.
pub open spec fn cc_spec(s: Cop2) -> Cop2 {
    color_mul_spec(color_matrix_spec(s))
}

/// CDP: colour depth cue.
pub open spec fn cdp_spec(s: Cop2) -> Cop2 {
    dcpl_spec(color_matrix_spec(s))
}

/// Light matrix times vector `index`, into MAC/IR.
pub open spec fn light_spec(s: Cop2, index: int) -> Cop2 {
    let v = vec_at(s, index);
    let a = mat_vec_spec(s, s.light, 0, 0, 0, v.x as int, v.y as int, v.z as int);
    mac_ir_spec(a.0, a.1.0, a.1.1, a.1.2, s.lm)
}

/// NCS / NCT step: normal colour.
pub open spec fn nc_spec(s: Cop2, index: int) -> Cop2 {
    color_push_spec(color_matrix_spec(light_spec(s, index)))
}

/// NCCS / NCCT step: normal colour colour.
pub open spec fn ncc_spec(s: Cop2, index: int) -> Cop2 {
    color_mul_spec(color_matrix_spec(light_spec(s, index)))
}

/// NCDS / NCDT step: normal colour depth cue.
pub open spec fn ncd_spec(s: Cop2, index: int) -> Cop2 {
    let t = color_matrix_spec(light_spec(s, index));
    let (p1, p2, p3) = (t.ir1 as int, t.ir2 as int, t.ir3 as int);
    let (r, g, b) = (t.rgb.r as int * 16, t.rgb.g as int * 16, t.rgb.b as int * 16);
    let fc = scaled(t.fc);
    let a = acc_spec(t, fc.0 - r * p1, fc.1 - g * p2, fc.2 - b * p3);
    let m = mac_ir_spec(a.0, a.1.0, a.1.1, a.1.2, false);
    let ir0 = m.ir0 as int;
    let a2 = acc_spec(m, r * p1 + ir0 * m.ir1 as int, g * p2 + ir0 * m.ir2 as int, b * p3 + ir0 * m.ir3 as int);
    color_push_spec(mac_ir_spec(a2.0, a2.1.0, a2.1.1, a2.1.2, t.lm))
}

/// GPF: IR scaled by IR0.
pub open spec fn gpf_spec(s: Cop2) -> Cop2 {
    let ir0 = s.ir0 as int;
    let a = acc_spec(s, ir0 * s.ir1 as int, ir0 * s.ir2 as int, ir0 * s.ir3 as int);
    let t = Cop2 {
        mac1: (a.1.0 as i32) >> a.0.sf,
        mac2: (a.1.1 as i32) >> a.0.sf,
        mac3: (a.1.2 as i32) >> a.0.sf,
        ..a.0
    };
    color_push_spec(ir_from_mac_spec(t, s.lm))
}

/// GPL: IR scaled by IR0 added to MAC.
pub open spec fn gpl_spec(s: Cop2) -> Cop2 {
    let ir0 = s.ir0 as int;
    let k: int = if s.sf == 12 { 4096 } else { 1 };
    let a = acc_spec(s, ir0 * s.ir1 as int + s.mac1 as int * k, ir0 * s.ir2 as int + s.mac2 as int * k, ir0 * s.ir3 as int + s.mac3 as int * k);
    color_push_spec(mac_ir_spec(a.0, a.1.0, a.1.1, a.1.2, s.lm))
}

impl Cop2 {
    fn vec_at(&self, index: usize) -> (v: Vec3<i16>)
        ensures
            v == vec_at(*self, index as int),
    {
        if index == 0 { self.v0 } else if index == 1 { self.v1 } else { self.v2 }
    }

    fn command_nclip(&mut self)
        ensures
            *final(self) == nclip_spec(*old(self)),
    {
        let x0 = self.sxy0.x as i64;
        let y0 = self.sxy0.y as i64;
        let x1 = self.sxy1.x as i64;
        let y1 = self.sxy1.y as i64;
        let x2 = self.sxy2.x as i64;
        let y2 = self.sxy2.y as i64;
        proof {
            lemma_mul_bound(x0 as int, y1 as int, 0x8000, 0x8000);
            lemma_mul_bound(x1 as int, y2 as int, 0x8000, 0x8000);
            lemma_mul_bound(x2 as int, y0 as int, 0x8000, 0x8000);
            lemma_mul_bound(x0 as int, y2 as int, 0x8000, 0x8000);
            lemma_mul_bound(x1 as int, y0 as int, 0x8000, 0x8000);
            lemma_mul_bound(x2 as int, y1 as int, 0x8000, 0x8000);
        }
        let p = x0 * y1 + x1 * y2 + x2 * y0 - x0 * y2 - x1 * y0 - x2 * y1;
        let m = self.f(p);
        self.mac0 = m as i32;
    }

    fn command_op(&mut self)
        requires
            old(self).wf(),
        ensures
            *final(self) == op_spec(*old(self)),
    {
        let lm = self.lm;
        let i1 = self.ir1 as i64;
        let i2 = self.ir2 as i64;
        let i3 = self.ir3 as i64;
        let d1 = self.rotation.m11 as i64;
        let d2 = self.rotation.m22 as i64;
        let d3 = self.rotation.m33 as i64;
        proof {
            lemma_mul_bound(i3 as int, d2 as int, 0x8000, 0x8000);
            lemma_mul_bound(i2 as int, d3 as int, 0x8000, 0x8000);
            lemma_mul_bound(i1 as int, d3 as int, 0x8000, 0x8000);
            lemma_mul_bound(i3 as int, d1 as int, 0x8000, 0x8000);
            lemma_mul_bound(i2 as int, d1 as int, 0x8000, 0x8000);
            lemma_mul_bound(i1 as int, d2 as int, 0x8000, 0x8000);
        }
        let t = self.acc3(i3 * d2 - i2 * d3, i1 * d3 - i3 * d1, i2 * d1 - i1 * d2);
        self.set_mac_ir(t.0, t.1, t.2, lm);
    }

    fn command_sqr(&mut self)
        requires
            old(self).wf(),
        ensures
            *final(self) == sqr_spec(*old(self)),
    {
        let lm = self.lm;
        let i1 = self.ir1 as i64;
        let i2 = self.ir2 as i64;
        let i3 = self.ir3 as i64;
        proof {
            lemma_mul_bound(i1 as int, i1 as int, 0x8000, 0x8000);
            lemma_mul_bound(i2 as int, i2 as int, 0x8000, 0x8000);
            lemma_mul_bound(i3 as int, i3 as int, 0x8000, 0x8000);
        }
        let t = self.acc3(i1 * i1, i2 * i2, i3 * i3);
        self.set_mac_ir(t.0, t.1, t.2, lm);
    }

    fn command_avsz3(&mut self)
        ensures
            *final(self) == avsz3_spec(*old(self)),
    {
        let sum = self.sz1 as i64 + self.sz2 as i64 + self.sz3 as i64;
        proof { lemma_mul_bound(self.zsf3 as int, sum as int, 0x8000, 0x30000); }
        let average = (self.zsf3 as i64) * sum;
        let m = self.f(average);
        self.mac0 = m as i32;
        self.otz = self.lm_d(average >> 12u64);
    }

    fn command_avsz4(&mut self)
        ensures
            *final(self) == avsz4_spec(*old(self)),
    {
        let sum = self.sz0 as i64 + self.sz1 as i64 + self.sz2 as i64 + self.sz3 as i64;
        proof { lemma_mul_bound(self.zsf4 as int, sum as int, 0x8000, 0x40000); }
        let average = (self.zsf4 as i64) * sum;
        let m = self.f(average);
        self.mac0 = m as i32;
        self.otz = self.lm_d(average >> 12u64);
    }

    fn depth_cue(&mut self, r: i64, g: i64, b: i64)
        requires
            old(self).wf(),
            -0x800_0000 <= r <= 0x800_0000,
            -0x800_0000 <= g <= 0x800_0000,
            -0x800_0000 <= b <= 0x800_0000,
        ensures
            *final(self) == depth_cue_spec(*old(self), r as int, g as int, b as int),
    {
        let lm = self.lm;
        let rfc = self.fc.x as i64 * 4096;
        let gfc = self.fc.y as i64 * 4096;
        let bfc = self.fc.z as i64 * 4096;
        let t = self.acc3(rfc - r, gfc - g, bfc - b);
        self.set_mac_ir(t.0, t.1, t.2, false);
        let ir0 = self.ir0 as i64;
        let i1 = self.ir1 as i64;
        let i2 = self.ir2 as i64;
        let i3 = self.ir3 as i64;
        proof {
            lemma_mul_bound(i1 as int, ir0 as int, 0x8000, 0x8000);
            lemma_mul_bound(i2 as int, ir0 as int, 0x8000, 0x8000);
            lemma_mul_bound(i3 as int, ir0 as int, 0x8000, 0x8000);
        }
        let t2 = self.acc3(r + i1 * ir0, g + i2 * ir0, b + i3 * ir0);
        self.set_mac_ir(t2.0, t2.1, t2.2, lm);
        self.color_push();
    }

    fn dpc(&mut self, use_fifo: bool)
        requires
            old(self).wf(),
        ensures
            *final(self) == dpc_spec(*old(self), use_fifo),
    {
        let c = if use_fifo { self.rgb0 } else { self.rgb };
        self.depth_cue(c.r as i64 * 65536, c.g as i64 * 65536, c.b as i64 * 65536);
    }

    fn command_dpcs(&mut self)
        requires
            old(self).wf(),
        ensures
            *final(self) == dpc_spec(*old(self), false),
    {
        self.dpc(false);
    }

    fn command_dpct(&mut self)
        requires
            old(self).wf(),
        ensures
            *final(self) == dpc_spec(dpc_spec(dpc_spec(*old(self), true), true), true),
    {
        self.dpc(true);
        self.dpc(true);
        self.dpc(true);
    }

    fn command_intpl(&mut self)
        requires
            old(self).wf(),
        ensures
            *final(self) == intpl_spec(*old(self)),
    {
        let p1 = self.ir1 as i64 * 4096;
        let p2 = self.ir2 as i64 * 4096;
        let p3 = self.ir3 as i64 * 4096;
        self.depth_cue(p1, p2, p3);
    }
}


impl Cop2 {
    /// MAC1..MAC3 from the accumulators and their saturated values (IR left untouched).
    fn set_mac_sat(&mut self, t1: i64, t2: i64, t3: i64) -> (r: (i16, i16, i16))
        requires
            old(self).sf <= 12,
        ensures
            (*final(self), r) == mac_sat_spec(*old(self), t1, t2, t3),
    {
        self.mac1 = (t1 >> self.sf) as i32;
        self.mac2 = (t2 >> self.sf) as i32;
        self.mac3 = (t3 >> self.sf) as i32;
        let m1 = self.mac1;
        let m2 = self.mac2;
        let m3 = self.mac3;
        let l1 = self.lm_b(1, m1, false);
        let l2 = self.lm_b(2, m2, false);
        let l3 = self.lm_b(3, m3, false);
        (l1, l2, l3)
    }

    fn command_dcpl(&mut self)
        requires
            old(self).wf(),
        ensures
            *final(self) == dcpl_spec(*old(self)),
    {
        let lm = self.lm;
        let ir0 = self.ir0 as i64;
        let i1 = self.ir1 as i64;
        let i2 = self.ir2 as i64;
        let i3 = self.ir3 as i64;
        let rfc = self.fc.x as i64 * 4096;
        let gfc = self.fc.y as i64 * 4096;
        let bfc = self.fc.z as i64 * 4096;
        let r = self.rgb.r as i64 * 16;
        let g = self.rgb.g as i64 * 16;
        let b = self.rgb.b as i64 * 16;
        proof {
            lemma_mul_bound(r as int, i1 as int, 0x1000, 0x8000);
            lemma_mul_bound(g as int, i2 as int, 0x1000, 0x8000);
            lemma_mul_bound(b as int, i3 as int, 0x1000, 0x8000);
        }
        let t = self.acc3(rfc - r * i1, gfc - g * i2, bfc - b * i3);
        let l = self.set_mac_sat(t.0, t.1, t.2);
        proof {
            lemma_mul_bound(ir0 as int, l.0 as int, 0x8000, 0x8000);
            lemma_mul_bound(ir0 as int, l.1 as int, 0x8000, 0x8000);
            lemma_mul_bound(ir0 as int, l.2 as int, 0x8000, 0x8000);
        }
        let t2 = self.acc3(r * i1 + ir0 * (l.0 as i64), g * i2 + ir0 * (l.1 as i64), b * i3 + ir0 * (l.2 as i64));
        self.set_mac_ir(t2.0, t2.1, t2.2, lm);
        self.color_push();
    }

    fn color_matrix(&mut self)
        requires
            old(self).wf(),
        ensures
            *final(self) == color_matrix_spec(*old(self)),
    {
        let lm = self.lm;
        let m = self.colour;
        let bx = self.bk.x as i64 * 4096;
        let by = self.bk.y as i64 * 4096;
        let bz = self.bk.z as i64 * 4096;
        let i1 = self.ir1 as i64;
        let i2 = self.ir2 as i64;
        let i3 = self.ir3 as i64;
        let t = self.mat_vec(m, bx, by, bz, i1, i2, i3);
        self.set_mac_ir(t.0, t.1, t.2, lm);
    }

    fn color_mul(&mut self)
        requires
            old(self).wf(),
        ensures
            *final(self) == color_mul_spec(*old(self)),
    {
        let lm = self.lm;
        let r = self.rgb.r as i64 * 16;
        let g = self.rgb.g as i64 * 16;
        let b = self.rgb.b as i64 * 16;
        let i1 = self.ir1 as i64;
        let i2 = self.ir2 as i64;
        let i3 = self.ir3 as i64;
        proof {
            lemma_mul_bound(r as int, i1 as int, 0x1000, 0x8000);
            lemma_mul_bound(g as int, i2 as int, 0x1000, 0x8000);
            lemma_mul_bound(b as int, i3 as int, 0x1000, 0x8000);
        }
        let t = self.acc3(r * i1, g * i2, b * i3);
        self.set_mac_ir(t.0, t.1, t.2, lm);
        self.color_push();
    }

    fn command_cc(&mut self)
        requires
            old(self).wf(),
        ensures
            *final(self) == cc_spec(*old(self)),
    {
        self.color_matrix();
        self.color_mul();
    }

    fn command_cdp(&mut self)
        requires
            old(self).wf(),
        ensures
            *final(self) == cdp_spec(*old(self)),
    {
        self.color_matrix();
        self.command_dcpl();
    }

    fn light(&mut self, index: usize)
        requires
            old(self).wf(),
        ensures
            *final(self) == light_spec(*old(self), index as int),
    {
        let lm = self.lm;
        let v = self.vec_at(index);
        let m = self.light;
        let t = self.mat_vec(m, 0, 0, 0, v.x as i64, v.y as i64, v.z as i64);
        self.set_mac_ir(t.0, t.1, t.2, lm);
    }

    fn nc(&mut self, index: usize)
        requires
            old(self).wf(),
        ensures
            *final(self) == nc_spec(*old(self), index as int),
    {
        self.light(index);
        self.color_matrix();
        self.color_push();
    }

    fn ncc(&mut self, index: usize)
        requires
            old(self).wf(),
        ensures
            *final(self) == ncc_spec(*old(self), index as int),
    {
        self.light(index);
        self.color_matrix();
        self.color_mul();
    }

    fn ncd(&mut self, index: usize)
        requires
            old(self).wf(),
        ensures
            *final(self) == ncd_spec(*old(self), index as int),
    {
        self.light(index);
        self.color_matrix();
        let lm = self.lm;
        let p1 = self.ir1 as i64;
        let p2 = self.ir2 as i64;
        let p3 = self.ir3 as i64;
        let r = self.rgb.r as i64 * 16;
        let g = self.rgb.g as i64 * 16;
        let b = self.rgb.b as i64 * 16;
        let rfc = self.fc.x as i64 * 4096;
        let gfc = self.fc.y as i64 * 4096;
        let bfc = self.fc.z as i64 * 4096;
        proof {
            lemma_mul_bound(r as int, p1 as int, 0x1000, 0x8000);
            lemma_mul_bound(g as int, p2 as int, 0x1000, 0x8000);
            lemma_mul_bound(b as int, p3 as int, 0x1000, 0x8000);
        }
        let t = self.acc3(rfc - r * p1, gfc - g * p2, bfc - b * p3);
        self.set_mac_ir(t.0, t.1, t.2, false);
        let ir0 = self.ir0 as i64;
        let i1 = self.ir1 as i64;
        let i2 = self.ir2 as i64;
        let i3 = self.ir3 as i64;
        proof {
            lemma_mul_bound(ir0 as int, i1 as int, 0x8000, 0x8000);
            lemma_mul_bound(ir0 as int, i2 as int, 0x8000, 0x8000);
            lemma_mul_bound(ir0 as int, i3 as int, 0x8000, 0x8000);
        }
        let t2 = self.acc3(r * p1 + ir0 * i1, g * p2 + ir0 * i2, b * p3 + ir0 * i3);
        self.set_mac_ir(t2.0, t2.1, t2.2, lm);
        self.color_push();
    }

    fn command_ncs(&mut self)
        requires old(self).wf(),
        ensures *final(self) == nc_spec(*old(self), 0),
    {
        self.nc(0);
    }

    fn command_nct(&mut self)
        requires old(self).wf(),
        ensures *final(self) == nc_spec(nc_spec(nc_spec(*old(self), 0), 1), 2),
    {
        self.nc(0);
        self.nc(1);
        self.nc(2);
    }

    fn command_nccs(&mut self)
        requires old(self).wf(),
        ensures *final(self) == ncc_spec(*old(self), 0),
    {
        self.ncc(0);
    }

    fn command_ncct(&mut self)
        requires old(self).wf(),
        ensures *final(self) == ncc_spec(ncc_spec(ncc_spec(*old(self), 0), 1), 2),
    {
        self.ncc(0);
        self.ncc(1);
        self.ncc(2);
    }

    fn command_ncds(&mut self)
        requires old(self).wf(),
        ensures *final(self) == ncd_spec(*old(self), 0),
    {
        self.ncd(0);
    }

    fn command_ncdt(&mut self)
        requires old(self).wf(),
        ensures *final(self) == ncd_spec(ncd_spec(ncd_spec(*old(self), 0), 1), 2),
    {
        self.ncd(0);
        self.ncd(1);
        self.ncd(2);
    }

    fn command_gpf(&mut self)
        requires
            old(self).wf(),
        ensures
            *final(self) == gpf_spec(*old(self)),
    {
        let lm = self.lm;
        let ir0 = self.ir0 as i64;
        let i1 = self.ir1 as i64;
        let i2 = self.ir2 as i64;
        let i3 = self.ir3 as i64;
        proof {
            lemma_mul_bound(ir0 as int, i1 as int, 0x8000, 0x8000);
            lemma_mul_bound(ir0 as int, i2 as int, 0x8000, 0x8000);
            lemma_mul_bound(ir0 as int, i3 as int, 0x8000, 0x8000);
        }
        let t = self.acc3(ir0 * i1, ir0 * i2, ir0 * i3);
        self.mac1 = (t.0 as i32) >> self.sf;
        self.mac2 = (t.1 as i32) >> self.sf;
        self.mac3 = (t.2 as i32) >> self.sf;
        self.set_ir_from_mac(lm);
        self.color_push();
    }

    fn command_gpl(&mut self)
        requires
            old(self).wf(),
        ensures
            *final(self) == gpl_spec(*old(self)),
    {
        let lm = self.lm;
        let k: i64 = if self.sf == 12 { 4096 } else { 1 };
        let m1 = self.mac1 as i64 * k;
        let m2 = self.mac2 as i64 * k;
        let m3 = self.mac3 as i64 * k;
        let ir0 = self.ir0 as i64;
        let i1 = self.ir1 as i64;
        let i2 = self.ir2 as i64;
        let i3 = self.ir3 as i64;
        proof {
            lemma_mul_bound(ir0 as int, i1 as int, 0x8000, 0x8000);
            lemma_mul_bound(ir0 as int, i2 as int, 0x8000, 0x8000);
            lemma_mul_bound(ir0 as int, i3 as int, 0x8000, 0x8000);
        }
        let t = self.acc3(ir0 * i1 + m1, ir0 * i2 + m2, ir0 * i3 + m3);
        self.set_mac_ir(t.0, t.1, t.2, lm);
        self.color_push();
    }
}


// ---------------------------------------------------------------------------
// Division used by the perspective transformation
// ---------------------------------------------------------------------------

/// The reciprocal table of the GTE divider (entry i approximates 0x10000 / (i + 0x100) - 0x101).
pub open spec fn unr_table() -> Seq<u8> {
    seq![0xFFu8, 0xFDu8, 0xFBu8, 0xF9u8, 0xF7u8, 0xF5u8, 0xF3u8, 0xF1u8, 0xEFu8, 0xEEu8, 0xECu8, 0xEAu8, 0xE8u8, 0xE6u8, 0xE4u8, 0xE3u8, 0xE1u8, 0xDFu8, 0xDDu8, 0xDCu8, 0xDAu8, 0xD8u8, 0xD6u8, 0xD5u8, 0xD3u8, 0xD1u8, 0xD0u8, 0xCEu8, 0xCDu8, 0xCBu8, 0xC9u8, 0xC8u8, 0xC6u8, 0xC5u8, 0xC3u8, 0xC1u8, 0xC0u8, 0xBEu8, 0xBDu8, 0xBBu8, 0xBAu8, 0xB8u8, 0xB7u8, 0xB5u8, 0xB4u8, 0xB2u8, 0xB1u8, 0xB0u8, 0xAEu8, 0xADu8, 0xABu8, 0xAAu8, 0xA9u8, 0xA7u8, 0xA6u8, 0xA4u8, 0xA3u8, 0xA2u8, 0xA0u8, 0x9Fu8, 0x9Eu8, 0x9Cu8, 0x9Bu8, 0x9Au8, 0x99u8, 0x97u8, 0x96u8, 0x95u8, 0x94u8, 0x92u8, 0x91u8, 0x90u8, 0x8Fu8, 0x8Du8, 0x8Cu8, 0x8Bu8, 0x8Au8, 0x89u8, 0x87u8, 0x86u8, 0x85u8, 0x84u8, 0x83u8, 0x82u8, 0x81u8, 0x7Fu8, 0x7Eu8, 0x7Du8, 0x7Cu8, 0x7Bu8, 0x7Au8, 0x79u8, 0x78u8, 0x77u8, 0x75u8, 0x74u8, 0x73u8, 0x72u8, 0x71u8, 0x70u8, 0x6Fu8, 0x6Eu8, 0x6Du8, 0x6Cu8, 0x6Bu8, 0x6Au8, 0x69u8, 0x68u8, 0x67u8, 0x66u8, 0x65u8, 0x64u8, 0x63u8, 0x62u8, 0x61u8, 0x60u8, 0x5Fu8, 0x5Eu8, 0x5Du8, 0x5Du8, 0x5Cu8, 0x5Bu8, 0x5Au8, 0x59u8, 0x58u8, 0x57u8, 0x56u8, 0x55u8, 0x54u8, 0x53u8, 0x53u8, 0x52u8, 0x51u8, 0x50u8, 0x4Fu8, 0x4Eu8, 0x4Du8, 0x4Du8, 0x4Cu8, 0x4Bu8, 0x4Au8, 0x49u8, 0x48u8, 0x48u8, 0x47u8, 0x46u8, 0x45u8, 0x44u8, 0x43u8, 0x43u8, 0x42u8, 0x41u8, 0x40u8, 0x3Fu8, 0x3Fu8, 0x3Eu8, 0x3Du8, 0x3Cu8, 0x3Cu8, 0x3Bu8, 0x3Au8, 0x39u8, 0x39u8, 0x38u8, 0x37u8, 0x36u8, 0x36u8, 0x35u8, 0x34u8, 0x33u8, 0x33u8, 0x32u8, 0x31u8, 0x31u8, 0x30u8, 0x2Fu8, 0x2Eu8, 0x2Eu8, 0x2Du8, 0x2Cu8, 0x2Cu8, 0x2Bu8, 0x2Au8, 0x2Au8, 0x29u8, 0x28u8, 0x28u8, 0x27u8, 0x26u8, 0x26u8, 0x25u8, 0x24u8, 0x24u8, 0x23u8, 0x22u8, 0x22u8, 0x21u8, 0x20u8, 0x20u8, 0x1Fu8, 0x1Eu8, 0x1Eu8, 0x1Du8, 0x1Du8, 0x1Cu8, 0x1Bu8, 0x1Bu8, 0x1Au8, 0x19u8, 0x19u8, 0x18u8, 0x18u8, 0x17u8, 0x16u8, 0x16u8, 0x15u8, 0x15u8, 0x14u8, 0x14u8, 0x13u8, 0x12u8, 0x12u8, 0x11u8, 0x11u8, 0x10u8, 0x0Fu8, 0x0Fu8, 0x0Eu8, 0x0Eu8, 0x0Du8, 0x0Du8, 0x0Cu8, 0x0Cu8, 0x0Bu8, 0x0Au8, 0x0Au8, 0x09u8, 0x09u8, 0x08u8, 0x08u8, 0x07u8, 0x07u8, 0x06u8, 0x06u8, 0x05u8, 0x05u8, 0x04u8, 0x04u8, 0x03u8, 0x03u8, 0x02u8, 0x02u8, 0x01u8, 0x01u8, 0x00u8, 0x00u8, 0x00u8]
}

/// The GTE's unsigned Newton-Raphson division of `n` by `d` (with `d > 0`),
/// the result clamped to 1FFFFh.
pub open spec fn divide_spec(n: u16, d: u16) -> u32 {
    let z = u16_leading_zeros(d) as u64;
    let nn = (n as u64) << z;
    let dd = (d as u64) << z;
    let u = unr_table()[((dd - 0x7fc0) / 128) as int] as int + 0x101;
    let d2 = (0x2000080 - dd * u) / 256;
    let d3 = (0x80 + d2 * u) / 256;
    let q = ((nn * d3 + 0x8000) / 65536) as u32;
    if 0x1ffff < q { 0x1ffff } else { q }
}

proof fn lemma_normalize(d: u16, n: u16, z: u16)
    requires
        z < 16,
        (d >> ((15 - z) as u16)) & 1u16 != 0u16,
        d >> ((16 - z) as u16) == 0u16,
    ensures
        0x8000 <= ((d as u64) << (z as u64)) <= 0xFFFF,
        ((n as u64) << (z as u64)) < 0x8000_0000,
{
    assert(0x8000u64 <= ((d as u64) << (z as u64)) && ((d as u64) << (z as u64)) <= 0xFFFFu64) by (bit_vector)
        requires z < 16u16, (d >> ((15 - z) as u16)) & 1u16 != 0u16, d >> ((16 - z) as u16) == 0u16;
    assert(((n as u64) << (z as u64)) < 0x8000_0000u64) by (bit_vector)
        requires z < 16u16;
}

fn unr_entry(i: usize) -> (r: u8)
    requires
        i < 257,
    ensures
        r == unr_table()[i as int],
{
    let t: [u8; 257] = [0xFFu8, 0xFDu8, 0xFBu8, 0xF9u8, 0xF7u8, 0xF5u8, 0xF3u8, 0xF1u8, 0xEFu8, 0xEEu8, 0xECu8, 0xEAu8, 0xE8u8, 0xE6u8, 0xE4u8, 0xE3u8, 0xE1u8, 0xDFu8, 0xDDu8, 0xDCu8, 0xDAu8, 0xD8u8, 0xD6u8, 0xD5u8, 0xD3u8, 0xD1u8, 0xD0u8, 0xCEu8, 0xCDu8, 0xCBu8, 0xC9u8, 0xC8u8, 0xC6u8, 0xC5u8, 0xC3u8, 0xC1u8, 0xC0u8, 0xBEu8, 0xBDu8, 0xBBu8, 0xBAu8, 0xB8u8, 0xB7u8, 0xB5u8, 0xB4u8, 0xB2u8, 0xB1u8, 0xB0u8, 0xAEu8, 0xADu8, 0xABu8, 0xAAu8, 0xA9u8, 0xA7u8, 0xA6u8, 0xA4u8, 0xA3u8, 0xA2u8, 0xA0u8, 0x9Fu8, 0x9Eu8, 0x9Cu8, 0x9Bu8, 0x9Au8, 0x99u8, 0x97u8, 0x96u8, 0x95u8, 0x94u8, 0x92u8, 0x91u8, 0x90u8, 0x8Fu8, 0x8Du8, 0x8Cu8, 0x8Bu8, 0x8Au8, 0x89u8, 0x87u8, 0x86u8, 0x85u8, 0x84u8, 0x83u8, 0x82u8, 0x81u8, 0x7Fu8, 0x7Eu8, 0x7Du8, 0x7Cu8, 0x7Bu8, 0x7Au8, 0x79u8, 0x78u8, 0x77u8, 0x75u8, 0x74u8, 0x73u8, 0x72u8, 0x71u8, 0x70u8, 0x6Fu8, 0x6Eu8, 0x6Du8, 0x6Cu8, 0x6Bu8, 0x6Au8, 0x69u8, 0x68u8, 0x67u8, 0x66u8, 0x65u8, 0x64u8, 0x63u8, 0x62u8, 0x61u8, 0x60u8, 0x5Fu8, 0x5Eu8, 0x5Du8, 0x5Du8, 0x5Cu8, 0x5Bu8, 0x5Au8, 0x59u8, 0x58u8, 0x57u8, 0x56u8, 0x55u8, 0x54u8, 0x53u8, 0x53u8, 0x52u8, 0x51u8, 0x50u8, 0x4Fu8, 0x4Eu8, 0x4Du8, 0x4Du8, 0x4Cu8, 0x4Bu8, 0x4Au8, 0x49u8, 0x48u8, 0x48u8, 0x47u8, 0x46u8, 0x45u8, 0x44u8, 0x43u8, 0x43u8, 0x42u8, 0x41u8, 0x40u8, 0x3Fu8, 0x3Fu8, 0x3Eu8, 0x3Du8, 0x3Cu8, 0x3Cu8, 0x3Bu8, 0x3Au8, 0x39u8, 0x39u8, 0x38u8, 0x37u8, 0x36u8, 0x36u8, 0x35u8, 0x34u8, 0x33u8, 0x33u8, 0x32u8, 0x31u8, 0x31u8, 0x30u8, 0x2Fu8, 0x2Eu8, 0x2Eu8, 0x2Du8, 0x2Cu8, 0x2Cu8, 0x2Bu8, 0x2Au8, 0x2Au8, 0x29u8, 0x28u8, 0x28u8, 0x27u8, 0x26u8, 0x26u8, 0x25u8, 0x24u8, 0x24u8, 0x23u8, 0x22u8, 0x22u8, 0x21u8, 0x20u8, 0x20u8, 0x1Fu8, 0x1Eu8, 0x1Eu8, 0x1Du8, 0x1Du8, 0x1Cu8, 0x1Bu8, 0x1Bu8, 0x1Au8, 0x19u8, 0x19u8, 0x18u8, 0x18u8, 0x17u8, 0x16u8, 0x16u8, 0x15u8, 0x15u8, 0x14u8, 0x14u8, 0x13u8, 0x12u8, 0x12u8, 0x11u8, 0x11u8, 0x10u8, 0x0Fu8, 0x0Fu8, 0x0Eu8, 0x0Eu8, 0x0Du8, 0x0Du8, 0x0Cu8, 0x0Cu8, 0x0Bu8, 0x0Au8, 0x0Au8, 0x09u8, 0x09u8, 0x08u8, 0x08u8, 0x07u8, 0x07u8, 0x06u8, 0x06u8, 0x05u8, 0x05u8, 0x04u8, 0x04u8, 0x03u8, 0x03u8, 0x02u8, 0x02u8, 0x01u8, 0x01u8, 0x00u8, 0x00u8, 0x00u8];
    proof {
        assert(t@ =~= unr_table());
    }
    t[i]
}

impl Cop2 {
    /// The GTE's division of `numerator` by `divisor`, clamped to 1FFFFh.
    pub fn divide(numerator: u16, divisor: u16) -> (r: u32)
        requires
            divisor > 0,
        ensures
            r == divide_spec(numerator, divisor),
            r <= 0x1ffff,
    {
        let z = divisor.leading_zeros();
        proof {
            axiom_u16_leading_zeros(divisor);
            lemma_normalize(divisor, numerator, z as u16);
        }
        let n = (numerator as u64) << (z as u64);
        let d = (divisor as u64) << (z as u64);
        let u = unr_entry(((d - 0x7fc0) / 128) as usize) as u64 + 0x101;
        proof {
            lemma_mul_bound(d as int, u as int, 0xFFFF, 0x200);
        }
        let d2 = (0x2000080 - d * u) / 256;
        proof {
            lemma_mul_bound(d2 as int, u as int, 0x20001, 0x200);
        }
        let d3 = (0x80 + d2 * u) / 256;
        proof {
            assert(d3 <= 0x40100) by (nonlinear_arith)
                requires d3 == (0x80 + d2 * u) / 256, d2 * u <= 0x20001 * 0x200, d2 >= 0, u >= 0;
            lemma_mul_bound(n as int, d3 as int, 0x8000_0000, 0x40100);
        }
        let q = ((n * d3 + 0x8000) / 65536) as u32;
        if 0x1ffff < q { 0x1ffff } else { q }
    }
}


// ---------------------------------------------------------------------------
// MVMVA and perspective transformation
// ---------------------------------------------------------------------------

/// The matrix selected by MVMVA's `mx` field (3 selects the reserved, garbage matrix).
pub open spec fn mvmva_matrix(s: Cop2) -> Matrix3x3 {
    if s.mx == 0 {
        s.rotation
    } else if s.mx == 1 {
        s.light
    } else if s.mx == 2 {
        s.colour
    } else {
        let r = (s.rgb.r as i16 * 16) as i16;
        Matrix3x3 {
            m11: (-r) as i16, m12: r, m13: s.ir0,
            m21: s.rotation.m13, m22: s.rotation.m13, m23: s.rotation.m13,
            m31: s.rotation.m22, m32: s.rotation.m22, m33: s.rotation.m22,
        }
    }
}

/// The vector selected by MVMVA's `sv` field (3 selects IR1..IR3).
pub open spec fn mvmva_vector(s: Cop2) -> Vec3<i16> {
    if s.sv == 0 { s.v0 } else if s.sv == 1 { s.v1 } else if s.sv == 2 { s.v2 } else { Vec3 { x: s.ir1, y: s.ir2, z: s.ir3 } }
}

/// The translation selected by MVMVA's `cv` field (3 selects none).
pub open spec fn mvmva_translation(s: Cop2) -> Vec3<i32> {
    if s.cv == 0 { s.tr } else if s.cv == 1 { s.bk } else if s.cv == 2 { s.fc } else { Vec3 { x: 0, y: 0, z: 0 } }
}

/// MVMVA: matrix times vector plus translation. With the far colour as translation the
/// hardware only flags the first column (saturated to IR) and then drops it.
pub open spec fn mvmva_spec(s: Cop2) -> Cop2 {
    let m = mvmva_matrix(s);
    let v = mvmva_vector(s);
    let t = scaled(mvmva_translation(s));
    let c1 = col_spec(s, t.0, t.1, t.2, m.m11 as int, m.m21 as int, m.m31 as int, v.x as int);
    let after = if s.cv == 2 {
        let f1 = with_flags(c1.0, ir_bits(((c1.1.0 >> s.sf) as i32) as int, false, 1));
        let f2 = with_flags(f1, ir_bits(((c1.1.1 >> s.sf) as i32) as int, false, 2));
        let f3 = with_flags(f2, ir_bits(((c1.1.2 >> s.sf) as i32) as int, false, 3));
        (f3, (0i64, 0i64, 0i64))
    } else {
        c1
    };
    let c2 = col_spec(after.0, after.1.0 as int, after.1.1 as int, after.1.2 as int, m.m12 as int, m.m22 as int, m.m32 as int, v.y as int);
    let c3 = col_spec(c2.0, c2.1.0 as int, c2.1.1 as int, c2.1.2 as int, m.m13 as int, m.m23 as int, m.m33 as int, v.z as int);
    mac_ir_spec(c3.0, c3.1.0, c3.1.1, c3.1.2, s.lm)
}

/// First stage of RTP: rotation and translation of vector `index`; returns the state and the Z value
/// (accumulator MAC3 shifted by 12).
pub open spec fn rtp_transform_spec(s: Cop2, index: int) -> (Cop2, i64) {
    let v = vec_at(s, index);
    let t = scaled(s.tr);
    let a = mat_vec_spec(s, s.rotation, t.0, t.1, t.2, v.x as int, v.y as int, v.z as int);
    let m1 = (a.1.0 >> s.sf) as i32;
    let m2 = (a.1.1 >> s.sf) as i32;
    let m3 = (a.1.2 >> s.sf) as i32;
    let zs = a.1.2 >> 12u64;
    let f = a.0.flags | ir_bits(m1 as int, s.lm, 1) | ir_bits(m2 as int, s.lm, 2)
        | (if zs < -0x8000 || zs > 0x7fff { 0x40_0000u32 } else { 0u32 });
    (Cop2 {
        mac1: m1, mac2: m2, mac3: m3,
        ir1: sat_ir(m1 as int, s.lm), ir2: sat_ir(m2 as int, s.lm), ir3: sat_ir(m3 as int, s.lm),
        flags: f,
        ..a.0
    }, zs)
}

/// Second stage of RTP: Z goes into the Z FIFO and the projection factor H/SZ3 is computed
/// (1FFFFh with the divide-overflow flag when SZ3 is not above H/2).
pub open spec fn rtp_divide_spec(s: Cop2, zs: i64) -> (Cop2, u32) {
    let sz = sat_z(zs as int);
    let f = with_flags(s, if zs < 0 || zs > 0xffff { 0x4_0000u32 } else { 0u32 });
    let p = Cop2 { sz0: f.sz1, sz1: f.sz2, sz2: f.sz3, sz3: sz, ..f };
    if sz > s.h / 2 {
        (p, divide_spec(s.h, sz))
    } else {
        (with_flags(p, 0x2_0000u32), 0x1ffffu32)
    }
}

/// Third stage of RTP: screen coordinates pushed into the XY FIFO and, when `dq`, the depth cue.
pub open spec fn rtp_project_spec(s: Cop2, hdiv: u32, dq: bool) -> Cop2 {
    let sx = s.ofx as int + s.ir1 as int * hdiv as int;
    let sxv = ((sx as i64 >> 16u64) as i32) as int;
    let f1 = with_flags(with_flags(s, mac0_bits(sx)), if sxv < -0x400 || sxv > 0x3ff { sxy_flag(1) } else { 0u32 });
    let px = Cop2 {
        sxy0: Vec2 { x: f1.sxy1.x, y: f1.sxy0.y },
        sxy1: Vec2 { x: f1.sxy2.x, y: f1.sxy1.y },
        sxy2: Vec2 { x: sat_sxy(sxv), y: f1.sxy2.y },
        ..f1
    };
    let sy = s.ofy as int + s.ir2 as int * hdiv as int;
    let syv = ((sy as i64 >> 16u64) as i32) as int;
    let f2 = with_flags(with_flags(px, mac0_bits(sy)), if syv < -0x400 || syv > 0x3ff { sxy_flag(2) } else { 0u32 });
    let py = Cop2 {
        sxy0: Vec2 { x: f2.sxy0.x, y: f2.sxy1.y },
        sxy1: Vec2 { x: f2.sxy1.x, y: f2.sxy2.y },
        sxy2: Vec2 { x: f2.sxy2.x, y: sat_sxy(syv) },
        ..f2
    };
    if dq {
        let depth = s.dqb as int + s.dqa as int * hdiv as int;
        let dz = depth as i64 >> 12u64;
        let f3 = with_flags(with_flags(py, mac0_bits(depth)), if dz < 0 || dz > 0x1000 { 0x1000u32 } else { 0u32 });
        Cop2 { mac0: depth as i32, ir0: sat_ir0(dz as int), ..f3 }
    } else {
        py
    }
}

/// RTPS / RTPT step: perspective transformation of vector `index`.
pub open spec fn rtp_spec(s: Cop2, index: int, dq: bool) -> Cop2 {
    let a = rtp_transform_spec(s, index);
    let b = rtp_divide_spec(a.0, a.1);
    rtp_project_spec(b.0, b.1, dq)
}

impl Cop2 {
    fn mvmva_matrix(&self) -> (m: Matrix3x3)
        ensures
            m == mvmva_matrix(*self),
    {
        if self.mx == 0 {
            self.rotation
        } else if self.mx == 1 {
            self.light
        } else if self.mx == 2 {
            self.colour
        } else {
            let r = (self.rgb.r as i16) * 16;
            Matrix3x3 {
                m11: -r, m12: r, m13: self.ir0,
                m21: self.rotation.m13, m22: self.rotation.m13, m23: self.rotation.m13,
                m31: self.rotation.m22, m32: self.rotation.m22, m33: self.rotation.m22,
            }
        }
    }

    fn command_mvmva(&mut self)
        requires
            old(self).wf(),
        ensures
            *final(self) == mvmva_spec(*old(self)),
    {
        let sf = self.sf;
        let lm = self.lm;
        let m = self.mvmva_matrix();
        let v = if self.sv == 0 { self.v0 } else if self.sv == 1 { self.v1 } else if self.sv == 2 { self.v2 } else { Vec3 { x: self.ir1, y: self.ir2, z: self.ir3 } };
        let t = if self.cv == 0 { self.tr } else if self.cv == 1 { self.bk } else if self.cv == 2 { self.fc } else { Vec3 { x: 0i32, y: 0i32, z: 0i32 } };
        let c1 = self.mac_col(t.x as i64 * 4096, t.y as i64 * 4096, t.z as i64 * 4096, m.m11, m.m21, m.m31, v.x as i64);
        let after = if self.cv == 2 {
            let _ = self.lm_b(1, (c1.0 >> sf) as i32, false);
            let _ = self.lm_b(2, (c1.1 >> sf) as i32, false);
            let _ = self.lm_b(3, (c1.2 >> sf) as i32, false);
            (0i64, 0i64, 0i64)
        } else {
            c1
        };
        let c2 = self.mac_col(after.0, after.1, after.2, m.m12, m.m22, m.m32, v.y as i64);
        let c3 = self.mac_col(c2.0, c2.1, c2.2, m.m13, m.m23, m.m33, v.z as i64);
        self.set_mac_ir(c3.0, c3.1, c3.2, lm);
    }

    fn rtp_transform(&mut self, index: usize) -> (zs: i64)
        requires
            old(self).wf(),
        ensures
            (*final(self), zs) == rtp_transform_spec(*old(self), index as int),
    {
        let sf = self.sf;
        let lm = self.lm;
        let v = self.vec_at(index);
        let m = self.rotation;
        let t = self.mat_vec(m, self.tr.x as i64 * 4096, self.tr.y as i64 * 4096, self.tr.z as i64 * 4096, v.x as i64, v.y as i64, v.z as i64);
        self.mac1 = (t.0 >> sf) as i32;
        self.mac2 = (t.1 >> sf) as i32;
        self.mac3 = (t.2 >> sf) as i32;
        let zs = t.2 >> 12u64;
        let m1 = self.mac1;
        let m2 = self.mac2;
        let m3 = self.mac3;
        self.ir1 = self.lm_b(1, m1, lm);
        self.ir2 = self.lm_b(2, m2, lm);
        self.ir3 = self.lm_b_z(m3, zs, lm);
        zs
    }

    fn rtp_divide(&mut self, zs: i64) -> (hdiv: u32)
        ensures
            (*final(self), hdiv) == rtp_divide_spec(*old(self), zs),
            hdiv <= 0x1ffff,
    {
        let sz3 = self.lm_d(zs);
        self.push_sz(sz3);
        if sz3 > (self.h / 2) {
            Cop2::divide(self.h, sz3)
        } else {
            self.flags = self.flags | 0x2_0000u32;
            0x1ffff
        }
    }

    fn rtp_project(&mut self, hdiv: u32, dq: bool)
        requires
            hdiv <= 0x1ffff,
        ensures
            *final(self) == rtp_project_spec(*old(self), hdiv, dq),
    {
        let h = hdiv as i64;
        proof {
            lemma_mul_bound(self.ir1 as int, h as int, 0x8000, 0x1ffff);
            lemma_mul_bound(self.ir2 as int, h as int, 0x8000, 0x1ffff);
            lemma_mul_bound(self.dqa as int, h as int, 0x8000, 0x1ffff);
        }
        let sx2 = self.ofx as i64 + self.ir1 as i64 * h;
        let sx2_f = self.f(sx2) >> 16u64;
        let sx = self.lm_g(1, sx2_f as i32);
        self.push_sx(sx);
        let sy2 = self.ofy as i64 + self.ir2 as i64 * h;
        let sy2_f = self.f(sy2) >> 16u64;
        let sy = self.lm_g(2, sy2_f as i32);
        self.push_sy(sy);
        if dq {
            let depth = self.dqb as i64 + self.dqa as i64 * h;
            let d = self.f(depth);
            self.mac0 = d as i32;
            self.ir0 = self.lm_h(depth >> 12u64);
        }
    }

    fn rtp(&mut self, index: usize, dq: bool)
        requires
            old(self).wf(),
        ensures
            *final(self) == rtp_spec(*old(self), index as int, dq),
    {
        let zs = self.rtp_transform(index);
        let hdiv = self.rtp_divide(zs);
        self.rtp_project(hdiv, dq);
    }

    fn command_rtps(&mut self)
        requires old(self).wf(),
        ensures *final(self) == rtp_spec(*old(self), 0, true),
    {
        self.rtp(0, true);
    }

    fn command_rtpt(&mut self)
        requires old(self).wf(),
        ensures *final(self) == rtp_spec(rtp_spec(rtp_spec(*old(self), 0, false), 1, false), 2, true),
    {
        self.rtp(0, false);
        self.rtp(1, false);
        self.rtp(2, true);
    }
}


// ---------------------------------------------------------------------------
// Leading-bit count, command dispatch
// ---------------------------------------------------------------------------

/// Length of the run of bits equal to bit 31, scanning from bit `31 - i` downwards,
/// counted from `i` (at least `i`, at most 32).
pub open spec fn lead_run(x: u32, i: int) -> int
    decreases 32 - i,
{
    if i >= 32 {
        32
    } else if (x >> ((31 - i) as u32)) & 1u32 == x >> 31u32 {
        lead_run(x, i + 1)
    } else {
        i
    }
}

/// Number of leading bits of `x` equal to its sign bit (1..32).
pub open spec fn leading_count_spec(x: i32) -> u32 {
    lead_run(x as u32, 1) as u32
}

pub proof fn lemma_lead_run_range(x: u32, i: int)
    requires
        1 <= i <= 32,
    ensures
        i <= lead_run(x, i) <= 32,
    decreases 32 - i,
{
    if i < 32 {
        lemma_lead_run_range(x, i + 1);
    }
}

/// The initial (power-on) state: every register zero.
pub open spec fn initial_cop2() -> Cop2 {
    let z3 = Vec3 { x: 0i32, y: 0i32, z: 0i32 };
    let v3 = Vec3 { x: 0i16, y: 0i16, z: 0i16 };
    let v2 = Vec2 { x: 0i16, y: 0i16 };
    let c = RGB { r: 0, g: 0, b: 0, c: 0 };
    Cop2 {
        sf: 0, mx: 0, sv: 0, cv: 0, lm: false,
        rotation: spec_zero_matrix(), tr: z3, light: spec_zero_matrix(), bk: z3, colour: spec_zero_matrix(), fc: z3,
        ofx: 0, ofy: 0, h: 0, dqa: 0, dqb: 0, zsf3: 0, zsf4: 0, flags: 0,
        v0: v3, v1: v3, v2: v3, rgb: c, otz: 0, ir0: 0, ir1: 0, ir2: 0, ir3: 0,
        sxy0: v2, sxy1: v2, sxy2: v2, sz0: 0, sz1: 0, sz2: 0, sz3: 0,
        rgb0: c, rgb1: c, rgb2: c, res1: 0, mac0: 0, mac1: 0, mac2: 0, mac3: 0, lzcs: 0, lzcr: 0,
    }
}

/// The fields a command word sets before the command runs.
pub open spec fn setup_spec(s: Cop2, command: u32) -> Cop2 {
    Cop2 {
        sf: if command & 0x8_0000u32 != 0 { 12 } else { 0 },
        mx: (command >> 17u32) & 3u32,
        sv: (command >> 15u32) & 3u32,
        cv: (command >> 13u32) & 3u32,
        lm: command & 0x400u32 != 0,
        flags: 0,
        ..s
    }
}

/// What the GTE command `opcode` (bits 0..5 of the command word) does; unknown opcodes do nothing.
pub open spec fn run_spec(s: Cop2, opcode: u32) -> Cop2 {
    if opcode == 0x01 { rtp_spec(s, 0, true) }
    else if opcode == 0x06 { nclip_spec(s) }
    else if opcode == 0x0C { op_spec(s) }
    else if opcode == 0x10 { dpc_spec(s, false) }
    else if opcode == 0x11 { intpl_spec(s) }
    else if opcode == 0x12 { mvmva_spec(s) }
    else if opcode == 0x13 { ncd_spec(s, 0) }
    else if opcode == 0x14 { cdp_spec(s) }
    else if opcode == 0x16 { ncd_spec(ncd_spec(ncd_spec(s, 0), 1), 2) }
    else if opcode == 0x1B { ncc_spec(s, 0) }
    else if opcode == 0x1C { cc_spec(s) }
    else if opcode == 0x1E { nc_spec(s, 0) }
    else if opcode == 0x20 { nc_spec(nc_spec(nc_spec(s, 0), 1), 2) }
    else if opcode == 0x28 { sqr_spec(s) }
    else if opcode == 0x29 { dcpl_spec(s) }
    else if opcode == 0x2A { dpc_spec(dpc_spec(dpc_spec(s, true), true), true) }
    else if opcode == 0x2D { avsz3_spec(s) }
    else if opcode == 0x2E { avsz4_spec(s) }
    else if opcode == 0x30 { rtp_spec(rtp_spec(rtp_spec(s, 0, false), 1, false), 2, true) }
    else if opcode == 0x3D { gpf_spec(s) }
    else if opcode == 0x3E { gpl_spec(s) }
    else if opcode == 0x3F { ncc_spec(ncc_spec(ncc_spec(s, 0), 1), 2) }
    else { s }
}

/// Bit 31 of FLAG summarises the error bits 13..18 and 23..30.
pub open spec fn fix_flags(s: Cop2) -> Cop2 {
    if s.flags & 0x7F87E000u32 != 0 { with_flags(s, 0x8000_0000u32) } else { s }
}

/// Cycles taken by the GTE command `opcode`.
pub open spec fn command_penalty_spec(opcode: u32) -> usize {
    if opcode == 0x01 { 15 }
    else if opcode == 0x06 { 8 }
    else if opcode == 0x0C { 6 }
    else if opcode == 0x10 { 8 }
    else if opcode == 0x11 { 8 }
    else if opcode == 0x12 { 8 }
    else if opcode == 0x13 { 19 }
    else if opcode == 0x14 { 13 }
    else if opcode == 0x16 { 44 }
    else if opcode == 0x1B { 17 }
    else if opcode == 0x1C { 11 }
    else if opcode == 0x1E { 14 }
    else if opcode == 0x20 { 30 }
    else if opcode == 0x28 { 5 }
    else if opcode == 0x29 { 8 }
    else if opcode == 0x2A { 17 }
    else if opcode == 0x2D { 5 }
    else if opcode == 0x2E { 6 }
    else if opcode == 0x30 { 23 }
    else if opcode == 0x3D { 5 }
    else if opcode == 0x3E { 5 }
    else if opcode == 0x3F { 39 }
    else { 0 }
}

impl Cop2 {
    /// Number of leading bits of `lzcs` equal to its sign bit.
    pub fn leading_count(lzcs: i32) -> (r: u32)
        ensures
            r == leading_count_spec(lzcs),
            1 <= r <= 32,
    {
        let x = lzcs as u32;
        let leading_bit = x >> 31u32;
        let mut count: u32 = 1;
        let mut i: u32 = 1;
        proof { lemma_lead_run_range(x, 1); }
        while i < 32
            invariant
                1 <= i <= 32,
                count == i,
                x == lzcs as u32,
                leading_bit == x >> 31u32,
                lead_run(x, i as int) == lead_run(x, 1),
            decreases 32 - i,
        {
            if ((x >> (31 - i)) & 1u32) == leading_bit {
                count += 1;
                i += 1;
            } else {
                return count;
            }
        }
        count
    }

    /// Cycles taken by the GTE command `opcode`.
    pub fn command_penalty(opcode: u32) -> (r: usize)
        ensures
            r == command_penalty_spec(opcode),
    {
        match opcode {
            0x01 => 15,
            0x06 => 8,
            0x0C => 6,
            0x10 => 8,
            0x11 => 8,
            0x12 => 8,
            0x13 => 19,
            0x14 => 13,
            0x16 => 44,
            0x1B => 17,
            0x1C => 11,
            0x1E => 14,
            0x20 => 30,
            0x28 => 5,
            0x29 => 8,
            0x2A => 17,
            0x2D => 5,
            0x2E => 6,
            0x30 => 23,
            0x3D => 5,
            0x3E => 5,
            0x3F => 39,
            _ => 0,
        }
    }

    /// A GTE with every register zero.
    pub fn new() -> (r: Cop2)
        ensures
            r == initial_cop2(),
            r.wf(),
    {
        let z3 = Vec3 { x: 0i32, y: 0i32, z: 0i32 };
        let v3 = Vec3 { x: 0i16, y: 0i16, z: 0i16 };
        let v2 = Vec2 { x: 0i16, y: 0i16 };
        let c = RGB { r: 0, g: 0, b: 0, c: 0 };
        Cop2 {
            sf: 0, mx: 0, sv: 0, cv: 0, lm: false,
            rotation: Matrix3x3::zero(), tr: z3, light: Matrix3x3::zero(), bk: z3, colour: Matrix3x3::zero(), fc: z3,
            ofx: 0, ofy: 0, h: 0, dqa: 0, dqb: 0, zsf3: 0, zsf4: 0, flags: 0,
            v0: v3, v1: v3, v2: v3, rgb: c, otz: 0, ir0: 0, ir1: 0, ir2: 0, ir3: 0,
            sxy0: v2, sxy1: v2, sxy2: v2, sz0: 0, sz1: 0, sz2: 0, sz3: 0,
            rgb0: c, rgb1: c, rgb2: c, res1: 0, mac0: 0, mac1: 0, mac2: 0, mac3: 0, lzcs: 0, lzcr: 0,
        }
    }

    /// Executes a GTE command word.
    pub fn execute(&mut self, command: u32) -> (r: CopResult)
        ensures
            *final(self) == fix_flags(run_spec(setup_spec(*old(self), command), command & 0x3Fu32)),
            r == CopResult(0, command_penalty_spec(command & 0x3Fu32)),
    {
        self.sf = if (command & 0x8_0000u32) != 0 { 12 } else { 0 };
        self.mx = (command >> 17u32) & 3u32;
        self.sv = (command >> 15u32) & 3u32;
        self.cv = (command >> 13u32) & 3u32;
        self.lm = (command & 0x400u32) != 0;
        let opcode = command & 0x3Fu32;
        self.flags = 0;
        proof {
            assert(((command >> 17u32) & 3u32) <= 3u32) by (bit_vector);
            assert(((command >> 15u32) & 3u32) <= 3u32) by (bit_vector);
            assert(((command >> 13u32) & 3u32) <= 3u32) by (bit_vector);
        }
        match opcode {
            0x01 => self.command_rtps(),
            0x06 => self.command_nclip(),
            0x0C => self.command_op(),
            0x10 => self.command_dpcs(),
            0x11 => self.command_intpl(),
            0x12 => self.command_mvmva(),
            0x13 => self.command_ncds(),
            0x14 => self.command_cdp(),
            0x16 => self.command_ncdt(),
            0x1B => self.command_nccs(),
            0x1C => self.command_cc(),
            0x1E => self.command_ncs(),
            0x20 => self.command_nct(),
            0x28 => self.command_sqr(),
            0x29 => self.command_dcpl(),
            0x2A => self.command_dpct(),
            0x2D => self.command_avsz3(),
            0x2E => self.command_avsz4(),
            0x30 => self.command_rtpt(),
            0x3D => self.command_gpf(),
            0x3E => self.command_gpl(),
            0x3F => self.command_ncct(),
            _ => {}
        }
        if (self.flags & 0x7F87E000u32) != 0 {
            self.flags = self.flags | 0x8000_0000u32;
        }
        CopResult(0, Cop2::command_penalty(opcode))
    }
}


// ---------------------------------------------------------------------------
// Register file
// ---------------------------------------------------------------------------

/// Two signed halves packed low/high into a word.
pub open spec fn pack16(lo: i16, hi: i16) -> u32 {
    (lo as u16 as u32) | ((hi as u16 as u32) << 16u32)
}

/// A colour packed as R | G << 8 | B << 16 | C << 24.
pub open spec fn pack_rgb(c: RGB) -> u32 {
    (c.r as u32) | ((c.g as u32) << 8u32) | ((c.b as u32) << 16u32) | ((c.c as u32) << 24u32)
}

/// A colour unpacked from R | G << 8 | B << 16 | C << 24.
pub open spec fn unpack_rgb(v: u32) -> RGB {
    RGB { r: v as u8, g: (v >> 8u32) as u8, b: (v >> 16u32) as u8, c: (v >> 24u32) as u8 }
}

/// The 15-bit colour read back from IR1..IR3 (ORGB / IRGB).
pub open spec fn orgb(s: Cop2) -> u32 {
    (sat_u5((s.ir1 >> 7u32) as int) as u32) | ((sat_u5((s.ir2 >> 7u32) as int) as u32) << 5u32)
        | ((sat_u5((s.ir3 >> 7u32) as int) as u32) << 10u32)
}

/// The value of data register `index` (0..31).
pub open spec fn read_data_spec(s: Cop2, index: int) -> u32 {
    if index == 0 { pack16(s.v0.x, s.v0.y) }
    else if index == 1 { s.v0.z as u32 }
    else if index == 2 { pack16(s.v1.x, s.v1.y) }
    else if index == 3 { s.v1.z as u32 }
    else if index == 4 { pack16(s.v2.x, s.v2.y) }
    else if index == 5 { s.v2.z as u32 }
    else if index == 6 { pack_rgb(s.rgb) }
    else if index == 7 { s.otz as u32 }
    else if index == 8 { s.ir0 as i32 as u32 }
    else if index == 9 { s.ir1 as i32 as u32 }
    else if index == 10 { s.ir2 as i32 as u32 }
    else if index == 11 { s.ir3 as i32 as u32 }
    else if index == 12 { pack16(s.sxy0.x, s.sxy0.y) }
    else if index == 13 { pack16(s.sxy1.x, s.sxy1.y) }
    else if index == 14 || index == 15 { pack16(s.sxy2.x, s.sxy2.y) }
    else if index == 16 { s.sz0 as u32 }
    else if index == 17 { s.sz1 as u32 }
    else if index == 18 { s.sz2 as u32 }
    else if index == 19 { s.sz3 as u32 }
    else if index == 20 { pack_rgb(s.rgb0) }
    else if index == 21 { pack_rgb(s.rgb1) }
    else if index == 22 { pack_rgb(s.rgb2) }
    else if index == 23 { s.res1 }
    else if index == 24 { s.mac0 as u32 }
    else if index == 25 { s.mac1 as u32 }
    else if index == 26 { s.mac2 as u32 }
    else if index == 27 { s.mac3 as u32 }
    else if index == 28 || index == 29 { orgb(s) }
    else if index == 30 { s.lzcs as u32 }
    else { s.lzcr as u32 }
}

pub open spec fn vec3_lo_hi(v: Vec3<i16>, value: u32) -> Vec3<i16> {
    Vec3 { x: value as i16, y: (value >> 16u32) as i16, z: v.z }
}

/// The state after writing `value` to data register `index` (0..31).
pub open spec fn write_data_spec(s: Cop2, index: int, value: u32) -> Cop2 {
    if index == 0 { Cop2 { v0: vec3_lo_hi(s.v0, value), ..s } }
    else if index == 1 { Cop2 { v0: Vec3 { z: value as i16, ..s.v0 }, ..s } }
    else if index == 2 { Cop2 { v1: vec3_lo_hi(s.v1, value), ..s } }
    else if index == 3 { Cop2 { v1: Vec3 { z: value as i16, ..s.v1 }, ..s } }
    else if index == 4 { Cop2 { v2: vec3_lo_hi(s.v2, value), ..s } }
    else if index == 5 { Cop2 { v2: Vec3 { z: value as i16, ..s.v2 }, ..s } }
    else if index == 6 { Cop2 { rgb: unpack_rgb(value), ..s } }
    else if index == 7 { Cop2 { otz: value as u16, ..s } }
    else if index == 8 { Cop2 { ir0: value as i16, ..s } }
    else if index == 9 { Cop2 { ir1: value as i16, ..s } }
    else if index == 10 { Cop2 { ir2: value as i16, ..s } }
    else if index == 11 { Cop2 { ir3: value as i16, ..s } }
    else if index == 12 { Cop2 { sxy0: Vec2 { x: value as i16, y: (value >> 16u32) as i16 }, ..s } }
    else if index == 13 { Cop2 { sxy1: Vec2 { x: value as i16, y: (value >> 16u32) as i16 }, ..s } }
    else if index == 14 { Cop2 { sxy2: Vec2 { x: value as i16, y: (value >> 16u32) as i16 }, ..s } }
    else if index == 15 {
        Cop2 {
            sxy0: s.sxy1,
            sxy1: s.sxy2,
            sxy2: Vec2 { x: value as i16, y: (value >> 16u32) as i16 },
            ..s
        }
    }
    else if index == 16 { Cop2 { sz0: value as u16, ..s } }
    else if index == 17 { Cop2 { sz1: value as u16, ..s } }
    else if index == 18 { Cop2 { sz2: value as u16, ..s } }
    else if index == 19 { Cop2 { sz3: value as u16, ..s } }
    else if index == 20 { Cop2 { rgb0: unpack_rgb(value), ..s } }
    else if index == 21 { Cop2 { rgb1: unpack_rgb(value), ..s } }
    else if index == 22 { Cop2 { rgb2: unpack_rgb(value), ..s } }
    else if index == 23 { Cop2 { res1: value, ..s } }
    else if index == 24 { Cop2 { mac0: value as i32, ..s } }
    else if index == 25 { Cop2 { mac1: value as i32, ..s } }
    else if index == 26 { Cop2 { mac2: value as i32, ..s } }
    else if index == 27 { Cop2 { mac3: value as i32, ..s } }
    else if index == 28 {
        Cop2 {
            ir1: ((value & 0x1fu32) << 7u32) as i16,
            ir2: (((value >> 5u32) & 0x1fu32) << 7u32) as i16,
            ir3: (((value >> 10u32) & 0x1fu32) << 7u32) as i16,
            ..s
        }
    }
    else if index == 30 { Cop2 { lzcs: value as i32, lzcr: leading_count_spec(value as i32) as i32, ..s } }
    else { s }
}

/// Two signed matrix elements packed low/high.
pub open spec fn mat_pair(lo: i16, hi: i16) -> u32 {
    ((hi as u16 as u32) << 16u32) | (lo as u16 as u32)
}

/// The value of control register `index` (0..31).
pub open spec fn read_control_spec(s: Cop2, index: int) -> u32 {
    if index == 0 { mat_pair(s.rotation.m11, s.rotation.m12) }
    else if index == 1 { mat_pair(s.rotation.m13, s.rotation.m21) }
    else if index == 2 { mat_pair(s.rotation.m22, s.rotation.m23) }
    else if index == 3 { mat_pair(s.rotation.m31, s.rotation.m32) }
    else if index == 4 { s.rotation.m33 as u32 }
    else if index == 5 { s.tr.x as u32 }
    else if index == 6 { s.tr.y as u32 }
    else if index == 7 { s.tr.z as u32 }
    else if index == 8 { mat_pair(s.light.m11, s.light.m12) }
    else if index == 9 { mat_pair(s.light.m13, s.light.m21) }
    else if index == 10 { mat_pair(s.light.m22, s.light.m23) }
    else if index == 11 { mat_pair(s.light.m31, s.light.m32) }
    else if index == 12 { s.light.m33 as u32 }
    else if index == 13 { s.bk.x as u32 }
    else if index == 14 { s.bk.y as u32 }
    else if index == 15 { s.bk.z as u32 }
    else if index == 16 { mat_pair(s.colour.m11, s.colour.m12) }
    else if index == 17 { mat_pair(s.colour.m13, s.colour.m21) }
    else if index == 18 { mat_pair(s.colour.m22, s.colour.m23) }
    else if index == 19 { mat_pair(s.colour.m31, s.colour.m32) }
    else if index == 20 { s.colour.m33 as u32 }
    else if index == 21 { s.fc.x as u32 }
    else if index == 22 { s.fc.y as u32 }
    else if index == 23 { s.fc.z as u32 }
    else if index == 24 { s.ofx as u32 }
    else if index == 25 { s.ofy as u32 }
    else if index == 26 { s.h as i16 as u32 }
    else if index == 27 { s.dqa as u32 }
    else if index == 28 { s.dqb as u32 }
    else if index == 29 { s.zsf3 as u32 }
    else if index == 30 { s.zsf4 as u32 }
    else { s.flags }
}

/// A matrix with the element pair of control word `k` (0..4 within the matrix) replaced.
pub open spec fn set_mat_word(m: Matrix3x3, k: int, value: u32) -> Matrix3x3 {
    let lo = value as i16;
    let hi = (value >> 16u32) as i16;
    if k == 0 { Matrix3x3 { m11: lo, m12: hi, ..m } }
    else if k == 1 { Matrix3x3 { m13: lo, m21: hi, ..m } }
    else if k == 2 { Matrix3x3 { m22: lo, m23: hi, ..m } }
    else if k == 3 { Matrix3x3 { m31: lo, m32: hi, ..m } }
    else { Matrix3x3 { m33: lo, ..m } }
}

/// FLAG as written by software: bits 12..30 kept, bit 31 recomputed.
pub open spec fn written_flags(value: u32) -> u32 {
    let f = value & 0x7FFF_F000u32;
    if value & 0x7F87E000u32 != 0 { f | 0x8000_0000u32 } else { f }
}

/// The state after writing `value` to control register `index` (0..31).
pub open spec fn write_control_spec(s: Cop2, index: int, value: u32) -> Cop2 {
    if index <= 4 { Cop2 { rotation: set_mat_word(s.rotation, index, value), ..s } }
    else if index == 5 { Cop2 { tr: Vec3 { x: value as i32, ..s.tr }, ..s } }
    else if index == 6 { Cop2 { tr: Vec3 { y: value as i32, ..s.tr }, ..s } }
    else if index == 7 { Cop2 { tr: Vec3 { z: value as i32, ..s.tr }, ..s } }
    else if index <= 12 { Cop2 { light: set_mat_word(s.light, index - 8, value), ..s } }
    else if index == 13 { Cop2 { bk: Vec3 { x: value as i32, ..s.bk }, ..s } }
    else if index == 14 { Cop2 { bk: Vec3 { y: value as i32, ..s.bk }, ..s } }
    else if index == 15 { Cop2 { bk: Vec3 { z: value as i32, ..s.bk }, ..s } }
    else if index <= 20 { Cop2 { colour: set_mat_word(s.colour, index - 16, value), ..s } }
    else if index == 21 { Cop2 { fc: Vec3 { x: value as i32, ..s.fc }, ..s } }
    else if index == 22 { Cop2 { fc: Vec3 { y: value as i32, ..s.fc }, ..s } }
    else if index == 23 { Cop2 { fc: Vec3 { z: value as i32, ..s.fc }, ..s } }
    else if index == 24 { Cop2 { ofx: value as i32, ..s } }
    else if index == 25 { Cop2 { ofy: value as i32, ..s } }
    else if index == 26 { Cop2 { h: value as u16, ..s } }
    else if index == 27 { Cop2 { dqa: value as i16, ..s } }
    else if index == 28 { Cop2 { dqb: value as i32, ..s } }
    else if index == 29 { Cop2 { zsf3: value as i16, ..s } }
    else if index == 30 { Cop2 { zsf4: value as i16, ..s } }
    else { Cop2 { flags: written_flags(value), ..s } }
}

fn store_mat_word(m: &mut Matrix3x3, k: usize, value: u32)
    requires
        k <= 4,
    ensures
        *final(m) == set_mat_word(*old(m), k as int, value),
{
    let lo = value as i16;
    let hi = (value >> 16u32) as i16;
    if k == 0 {
        m.m11 = lo;
        m.m12 = hi;
    } else if k == 1 {
        m.m13 = lo;
        m.m21 = hi;
    } else if k == 2 {
        m.m22 = lo;
        m.m23 = hi;
    } else if k == 3 {
        m.m31 = lo;
        m.m32 = hi;
    } else {
        m.m33 = lo;
    }
}

fn pack_halves(lo: i16, hi: i16) -> (r: u32)
    ensures
        r == pack16(lo, hi),
{
    (lo as u16 as u32) | ((hi as u16 as u32) << 16u32)
}

fn pack_color(c: RGB) -> (r: u32)
    ensures
        r == pack_rgb(c),
{
    (c.r as u32) | ((c.g as u32) << 8u32) | ((c.b as u32) << 16u32) | ((c.c as u32) << 24u32)
}

fn unpack_color(v: u32) -> (r: RGB)
    ensures
        r == unpack_rgb(v),
{
    RGB { r: v as u8, g: (v >> 8u32) as u8, b: (v >> 16u32) as u8, c: (v >> 24u32) as u8 }
}

fn pack_pair(lo: i16, hi: i16) -> (r: u32)
    ensures
        r == mat_pair(lo, hi),
{
    ((hi as u16 as u32) << 16u32) | (lo as u16 as u32)
}

impl Cop2 {
    /// Reads data register `index`.
    pub fn read_data(&self, index: usize) -> (r: u32)
        requires
            index < 32,
        ensures
            r == read_data_spec(*self, index as int),
    {
        match index {
            0 => pack_halves(self.v0.x, self.v0.y),
            1 => self.v0.z as u32,
            2 => pack_halves(self.v1.x, self.v1.y),
            3 => self.v1.z as u32,
            4 => pack_halves(self.v2.x, self.v2.y),
            5 => self.v2.z as u32,
            6 => pack_color(self.rgb),
            7 => self.otz as u32,
            8 => self.ir0 as i32 as u32,
            9 => self.ir1 as i32 as u32,
            10 => self.ir2 as i32 as u32,
            11 => self.ir3 as i32 as u32,
            12 => pack_halves(self.sxy0.x, self.sxy0.y),
            13 => pack_halves(self.sxy1.x, self.sxy1.y),
            14 | 15 => pack_halves(self.sxy2.x, self.sxy2.y),
            16 => self.sz0 as u32,
            17 => self.sz1 as u32,
            18 => self.sz2 as u32,
            19 => self.sz3 as u32,
            20 => pack_color(self.rgb0),
            21 => pack_color(self.rgb1),
            22 => pack_color(self.rgb2),
            23 => self.res1,
            24 => self.mac0 as u32,
            25 => self.mac1 as u32,
            26 => self.mac2 as u32,
            27 => self.mac3 as u32,
            28 | 29 => {
                let r = Cop2::saturate_i16_to_u5(self.ir1 >> 7u32) as u32;
                let g = Cop2::saturate_i16_to_u5(self.ir2 >> 7u32) as u32;
                let b = Cop2::saturate_i16_to_u5(self.ir3 >> 7u32) as u32;
                r | (g << 5u32) | (b << 10u32)
            },
            30 => self.lzcs as u32,
            _ => self.lzcr as u32,
        }
    }

    /// Writes data register `index`.
    pub fn write_data(&mut self, index: usize, value: u32)
        requires
            index < 32,
        ensures
            *final(self) == write_data_spec(*old(self), index as int, value),
    {
        match index {
            0 => {
                self.v0.x = value as i16;
                self.v0.y = (value >> 16u32) as i16;
            },
            1 => self.v0.z = value as i16,
            2 => {
                self.v1.x = value as i16;
                self.v1.y = (value >> 16u32) as i16;
            },
            3 => self.v1.z = value as i16,
            4 => {
                self.v2.x = value as i16;
                self.v2.y = (value >> 16u32) as i16;
            },
            5 => self.v2.z = value as i16,
            6 => self.rgb = unpack_color(value),
            7 => self.otz = value as u16,
            8 => self.ir0 = value as i16,
            9 => self.ir1 = value as i16,
            10 => self.ir2 = value as i16,
            11 => self.ir3 = value as i16,
            12 => self.sxy0 = Vec2 { x: value as i16, y: (value >> 16u32) as i16 },
            13 => self.sxy1 = Vec2 { x: value as i16, y: (value >> 16u32) as i16 },
            14 => self.sxy2 = Vec2 { x: value as i16, y: (value >> 16u32) as i16 },
            15 => {
                self.push_sx(value as i16);
                self.push_sy((value >> 16u32) as i16);
            },
            16 => self.sz0 = value as u16,
            17 => self.sz1 = value as u16,
            18 => self.sz2 = value as u16,
            19 => self.sz3 = value as u16,
            20 => self.rgb0 = unpack_color(value),
            21 => self.rgb1 = unpack_color(value),
            22 => self.rgb2 = unpack_color(value),
            23 => self.res1 = value,
            24 => self.mac0 = value as i32,
            25 => self.mac1 = value as i32,
            26 => self.mac2 = value as i32,
            27 => self.mac3 = value as i32,
            28 => {
                self.ir1 = ((value & 0x1fu32) << 7u32) as i16;
                self.ir2 = (((value >> 5u32) & 0x1fu32) << 7u32) as i16;
                self.ir3 = (((value >> 10u32) & 0x1fu32) << 7u32) as i16;
            },
            30 => {
                self.lzcs = value as i32;
                self.lzcr = Cop2::leading_count(value as i32) as i32;
            },
            _ => {},
        }
    }

    /// Reads control register `index`.
    pub fn read_control(&self, index: usize) -> (r: u32)
        requires
            index < 32,
        ensures
            r == read_control_spec(*self, index as int),
    {
        match index {
            0 => pack_pair(self.rotation.m11, self.rotation.m12),
            1 => pack_pair(self.rotation.m13, self.rotation.m21),
            2 => pack_pair(self.rotation.m22, self.rotation.m23),
            3 => pack_pair(self.rotation.m31, self.rotation.m32),
            4 => self.rotation.m33 as u32,
            5 => self.tr.x as u32,
            6 => self.tr.y as u32,
            7 => self.tr.z as u32,
            8 => pack_pair(self.light.m11, self.light.m12),
            9 => pack_pair(self.light.m13, self.light.m21),
            10 => pack_pair(self.light.m22, self.light.m23),
            11 => pack_pair(self.light.m31, self.light.m32),
            12 => self.light.m33 as u32,
            13 => self.bk.x as u32,
            14 => self.bk.y as u32,
            15 => self.bk.z as u32,
            16 => pack_pair(self.colour.m11, self.colour.m12),
            17 => pack_pair(self.colour.m13, self.colour.m21),
            18 => pack_pair(self.colour.m22, self.colour.m23),
            19 => pack_pair(self.colour.m31, self.colour.m32),
            20 => self.colour.m33 as u32,
            21 => self.fc.x as u32,
            22 => self.fc.y as u32,
            23 => self.fc.z as u32,
            24 => self.ofx as u32,
            25 => self.ofy as u32,
            26 => self.h as i16 as u32,
            27 => self.dqa as u32,
            28 => self.dqb as u32,
            29 => self.zsf3 as u32,
            30 => self.zsf4 as u32,
            _ => self.flags,
        }
    }

    /// Writes control register `index`.
    pub fn write_control(&mut self, index: usize, value: u32)
        requires
            index < 32,
        ensures
            *final(self) == write_control_spec(*old(self), index as int, value),
    {
        if index <= 4 {
            store_mat_word(&mut self.rotation, index, value);
        } else if index == 5 {
            self.tr.x = value as i32;
        } else if index == 6 {
            self.tr.y = value as i32;
        } else if index == 7 {
            self.tr.z = value as i32;
        } else if index <= 12 {
            store_mat_word(&mut self.light, index - 8, value);
        } else if index == 13 {
            self.bk.x = value as i32;
        } else if index == 14 {
            self.bk.y = value as i32;
        } else if index == 15 {
            self.bk.z = value as i32;
        } else if index <= 20 {
            store_mat_word(&mut self.colour, index - 16, value);
        } else if index == 21 {
            self.fc.x = value as i32;
        } else if index == 22 {
            self.fc.y = value as i32;
        } else if index == 23 {
            self.fc.z = value as i32;
        } else if index == 24 {
            self.ofx = value as i32;
        } else if index == 25 {
            self.ofy = value as i32;
        } else if index == 26 {
            self.h = value as u16;
        } else if index == 27 {
            self.dqa = value as i16;
        } else if index == 28 {
            self.dqb = value as i32;
        } else if index == 29 {
            self.zsf3 = value as i16;
        } else if index == 30 {
            self.zsf4 = value as i16;
        } else {
            self.flags = value & 0x7FFF_F000u32;
            if (value & 0x7F87E000u32) != 0 {
                self.flags = self.flags | 0x8000_0000u32;
            }
        }
    }
}

proof fn lemma_irgb_bits(v: u32)
    by (bit_vector)
    ensures
        (((v & 0x1fu32) << 7u32) as i16) >> 7u32 == (v & 0x1fu32) as i16,
        ((((v >> 5u32) & 0x1fu32) << 7u32) as i16) >> 7u32 == ((v >> 5u32) & 0x1fu32) as i16,
        ((((v >> 10u32) & 0x1fu32) << 7u32) as i16) >> 7u32 == ((v >> 10u32) & 0x1fu32) as i16,
        (((v & 0x1fu32) << 7u32) as i16) as i32 as u32 == (v & 0x1fu32) << 7u32,
        ((((v >> 5u32) & 0x1fu32) << 7u32) as i16) as i32 as u32 == ((v >> 5u32) & 0x1fu32) << 7u32,
        ((((v >> 10u32) & 0x1fu32) << 7u32) as i16) as i32 as u32 == ((v >> 10u32) & 0x1fu32) << 7u32,
        (v & 0x1fu32) | (((v >> 5u32) & 0x1fu32) << 5u32) | (((v >> 10u32) & 0x1fu32) << 10u32) == v & 0x7FFFu32,
        v & 0x1fu32 <= 0x1f,
        (v >> 5u32) & 0x1fu32 <= 0x1f,
        (v >> 10u32) & 0x1fu32 <= 0x1f,
{
}

/// Writing IRGB (data register 28) sets IR1-IR3 from its three 5-bit fields (times 80h), and
/// ORGB (28 and 29) then reads back those fields: the low 15 bits of what was written.
pub proof fn lemma_irgb_orgb(c: Cop2, v: u32)
    ensures
        read_data_spec(write_data_spec(c, 28, v), 28) == v & 0x7FFFu32,
        read_data_spec(write_data_spec(c, 28, v), 29) == v & 0x7FFFu32,
        read_data_spec(write_data_spec(c, 28, v), 9) == (v & 0x1Fu32) << 7u32,
        read_data_spec(write_data_spec(c, 28, v), 10) == ((v >> 5u32) & 0x1Fu32) << 7u32,
        read_data_spec(write_data_spec(c, 28, v), 11) == ((v >> 10u32) & 0x1Fu32) << 7u32,
{
    lemma_irgb_bits(v);
    let s = write_data_spec(c, 28, v);
    let a1 = v & 0x1fu32;
    let a2 = (v >> 5u32) & 0x1fu32;
    let a3 = (v >> 10u32) & 0x1fu32;
    assert(sat_u5((s.ir1 >> 7u32) as int) as u32 == a1);
    assert(sat_u5((s.ir2 >> 7u32) as int) as u32 == a2);
    assert(sat_u5((s.ir3 >> 7u32) as int) as u32 == a3);
}


/// NCLIP puts in MAC0 twice the signed area of the screen triangle SXY0, SXY1, SXY2 (positive
/// for a counter-clockwise triangle): (SX1 - SX0) * (SY2 - SY0) - (SX2 - SX0) * (SY1 - SY0),
/// cut to 32 bits; the screen FIFO is left as it was.
pub proof fn lemma_nclip_signed_area(c: Cop2, command: u32)
    requires
        command & 0x3Fu32 == 6,
    ensures
        ({
            let r = fix_flags(run_spec(setup_spec(c, command), command & 0x3Fu32));
            let (x0, y0) = (c.sxy0.x as int, c.sxy0.y as int);
            let (x1, y1) = (c.sxy1.x as int, c.sxy1.y as int);
            let (x2, y2) = (c.sxy2.x as int, c.sxy2.y as int);
            &&& r.mac0 == ((x1 - x0) * (y2 - y0) - (x2 - x0) * (y1 - y0)) as i32
            &&& r.sxy0 == c.sxy0 && r.sxy1 == c.sxy1 && r.sxy2 == c.sxy2
        }),
{
    let (x0, y0) = (c.sxy0.x as int, c.sxy0.y as int);
    let (x1, y1) = (c.sxy1.x as int, c.sxy1.y as int);
    let (x2, y2) = (c.sxy2.x as int, c.sxy2.y as int);
    assert(x0 * y1 + x1 * y2 + x2 * y0 - x0 * y2 - x1 * y0 - x2 * y1
        == (x1 - x0) * (y2 - y0) - (x2 - x0) * (y1 - y0)) by (nonlinear_arith);
}


/// AVSZ3 and AVSZ4 put in MAC0 the sum of the last three (AVSZ3: SZ1..SZ3, weighted by ZSF3)
/// or four (AVSZ4: SZ0..SZ3, weighted by ZSF4) depths times the weight; the depth FIFO is left
/// as it was.
pub proof fn lemma_average_depth(c: Cop2, command: u32)
    requires
        command & 0x3Fu32 == 0x2D || command & 0x3Fu32 == 0x2E,
    ensures
        ({
            let r = fix_flags(run_spec(setup_spec(c, command), command & 0x3Fu32));
            let four = command & 0x3Fu32 == 0x2E;
            let sum = (if four { c.sz0 as int } else { 0 }) + c.sz1 as int + c.sz2 as int + c.sz3 as int;
            let avg = (if four { c.zsf4 as int } else { c.zsf3 as int }) * sum;
            &&& r.mac0 == avg as i32
            &&& r.sz0 == c.sz0 && r.sz1 == c.sz1 && r.sz2 == c.sz2 && r.sz3 == c.sz3
        }),
{
}


} // verus!
