//! Fixed-point transform math for the camera and model matrices.
//!
//! Values are Q16.16: an `i64` holding the real value times 65536.  The
//! verifier owns every rounding step, so products divide by the scale with
//! truncation toward zero, stated exactly by [`tdiv16`].  The unverified
//! shell converts these matrices to the driver's floating-point layout at
//! the upload boundary.

use vstd::prelude::*;
use vstd::arithmetic::div_mod::lemma_div_is_ordered;

verus! {

/// The Q16.16 representation of 1.
pub const FX_ONE: i64 = 65536;

/// Largest entry magnitude a matrix product accepts without overflowing:
/// two to the 38th.
pub const MAT_IN_BOUND: i64 = 0x40_0000_0000;

/// Largest model-extent coordinate magnitude `model_matrix` accepts:
/// two to the 27th, a coordinate of 2048 model units.
pub const VEC_BOUND: i64 = 0x800_0000;

/// Smallest largest-dimension `model_matrix` accepts: 1/32 model unit,
/// keeping its reciprocal within the product bound.
pub const MIN_MODEL_EXTENT: i64 = 2048;

/// Division by the Q16.16 scale, truncating toward zero as the executable
/// arithmetic does.
pub open spec fn tdiv16(x: int) -> int {
    if x >= 0 {
        x / 65536
    } else {
        -((-x) / 65536)
    }
}

/// Q16.16 product of two values.
pub open spec fn fx_mul_spec(a: int, b: int) -> int {
    tdiv16(a * b)
}

/// Q16.16 dot product of four value pairs, rounded once after summing.
pub open spec fn fx_dot4_spec(
    a0: int,
    b0: int,
    a1: int,
    b1: int,
    a2: int,
    b2: int,
    a3: int,
    b3: int,
) -> int {
    tdiv16(a0 * b0 + a1 * b1 + a2 * b2 + a3 * b3)
}

proof fn lemma_tdiv16_bound(x: int, bound: int)
    requires
        -bound <= x <= bound,
        bound >= 0,
    ensures
        -(bound / 65536) <= tdiv16(x) <= bound / 65536,
{
    if x >= 0 {
        lemma_div_is_ordered(x, bound, 65536);
        lemma_div_is_ordered(0, x, 65536);
    } else {
        lemma_div_is_ordered(-x, bound, 65536);
        lemma_div_is_ordered(0, -x, 65536);
    }
}

/// Q16.16 dot product with overflow-free 128-bit intermediates.
fn fx_dot4(a0: i64, b0: i64, a1: i64, b1: i64, a2: i64, b2: i64, a3: i64, b3: i64) -> (r: i64)
    requires
        -MAT_IN_BOUND <= a0 <= MAT_IN_BOUND,
        -MAT_IN_BOUND <= b0 <= MAT_IN_BOUND,
        -MAT_IN_BOUND <= a1 <= MAT_IN_BOUND,
        -MAT_IN_BOUND <= b1 <= MAT_IN_BOUND,
        -MAT_IN_BOUND <= a2 <= MAT_IN_BOUND,
        -MAT_IN_BOUND <= b2 <= MAT_IN_BOUND,
        -MAT_IN_BOUND <= a3 <= MAT_IN_BOUND,
        -MAT_IN_BOUND <= b3 <= MAT_IN_BOUND,
    ensures
        r == fx_dot4_spec(a0 as int, b0 as int, a1 as int, b1 as int, a2 as int, b2 as int, a3 as int, b3 as int),
{
    proof {
        assert(-0x1000_0000_0000_0000_0000 <= (a0 as int) * (b0 as int) <= 0x1000_0000_0000_0000_0000
            && -0x1000_0000_0000_0000_0000 <= (a1 as int) * (b1 as int) <= 0x1000_0000_0000_0000_0000
            && -0x1000_0000_0000_0000_0000 <= (a2 as int) * (b2 as int) <= 0x1000_0000_0000_0000_0000
            && -0x1000_0000_0000_0000_0000 <= (a3 as int) * (b3 as int) <= 0x1000_0000_0000_0000_0000)
            by (nonlinear_arith)
            requires
                -0x40_0000_0000 <= a0 <= 0x40_0000_0000,
                -0x40_0000_0000 <= b0 <= 0x40_0000_0000,
                -0x40_0000_0000 <= a1 <= 0x40_0000_0000,
                -0x40_0000_0000 <= b1 <= 0x40_0000_0000,
                -0x40_0000_0000 <= a2 <= 0x40_0000_0000,
                -0x40_0000_0000 <= b2 <= 0x40_0000_0000,
                -0x40_0000_0000 <= a3 <= 0x40_0000_0000,
                -0x40_0000_0000 <= b3 <= 0x40_0000_0000,
        ;
    }
    let s: i128 = (a0 as i128) * (b0 as i128) + (a1 as i128) * (b1 as i128) + (a2 as i128) * (
    b2 as i128) + (a3 as i128) * (b3 as i128);
    if s >= 0 {
        let q: u128 = (s as u128) / 65536;
        proof {
            lemma_div_is_ordered(s as int, 0x4000_0000_0000_0000_0000, 65536);
            lemma_div_is_ordered(0, s as int, 65536);
        }
        q as i64
    } else {
        let m: i128 = -s;
        let q: u128 = (m as u128) / 65536;
        proof {
            lemma_div_is_ordered(m as int, 0x4000_0000_0000_0000_0000, 65536);
            lemma_div_is_ordered(0, m as int, 65536);
        }
        -(q as i64)
    }
}

/// Q16.16 product.
pub fn fx_mul(a: i64, b: i64) -> (r: i64)
    requires
        -MAT_IN_BOUND <= a <= MAT_IN_BOUND,
        -MAT_IN_BOUND <= b <= MAT_IN_BOUND,
    ensures
        r == fx_mul_spec(a as int, b as int),
{
    let r = fx_dot4(a, b, 0, 0, 0, 0, 0, 0);
    proof {
        assert((a as int) * (b as int) + 0 * 0 + 0 * 0 + 0 * 0 == (a as int) * (b as int))
            by (nonlinear_arith);
    }
    r
}

/// Q16.16 reciprocal of a positive value: `1 / b`.
pub open spec fn fx_recip_spec(b: int) -> int {
    0x1_0000_0000int / b
}

pub fn fx_recip(b: i64) -> (r: i64)
    requires
        b >= 1,
    ensures
        r == fx_recip_spec(b as int),
        0 <= r <= 0x1_0000_0000,
{
    proof {
        lemma_div_is_ordered(0int, 0x1_0000_0000int, b as int);
        vstd::arithmetic::div_mod::lemma_div_nonincreasing(0x1_0000_0000int, b as int);
    }
    let q: u64 = 0x1_0000_0000u64 / (b as u64);
    q as i64
}

/// Clamp a Q16.16 value into the closed unit interval.
pub open spec fn fx_clamp01_spec(x: int) -> int {
    if x < 0 {
        0
    } else if x > FX_ONE {
        FX_ONE as int
    } else {
        x
    }
}

pub fn fx_clamp01(x: i64) -> (r: i64)
    ensures
        r == fx_clamp01_spec(x as int),
{
    if x < 0 {
        0
    } else if x > FX_ONE {
        FX_ONE
    } else {
        x
    }
}

/// A Q16.16 3-vector.
#[derive(Clone, Copy, PartialEq, Eq, Structural, Debug)]
pub struct Vector3 {
    pub x: i64,
    pub y: i64,
    pub z: i64,
}

pub open spec fn vec_bounded(v: Vector3, bound: int) -> bool {
    &&& -bound <= v.x <= bound
    &&& -bound <= v.y <= bound
    &&& -bound <= v.z <= bound
}

/// A Q16.16 4x4 matrix, row major: `mRC` is row `R`, column `C`.
#[derive(Clone, Copy, PartialEq, Eq, Structural, Debug)]
pub struct Matrix4 {
    pub m00: i64, pub m01: i64, pub m02: i64, pub m03: i64,
    pub m10: i64, pub m11: i64, pub m12: i64, pub m13: i64,
    pub m20: i64, pub m21: i64, pub m22: i64, pub m23: i64,
    pub m30: i64, pub m31: i64, pub m32: i64, pub m33: i64,
}

pub open spec fn mat_bounded(m: Matrix4, bound: int) -> bool {
    &&& -bound <= m.m00 <= bound && -bound <= m.m01 <= bound && -bound <= m.m02 <= bound && -bound
        <= m.m03 <= bound
    &&& -bound <= m.m10 <= bound && -bound <= m.m11 <= bound && -bound <= m.m12 <= bound && -bound
        <= m.m13 <= bound
    &&& -bound <= m.m20 <= bound && -bound <= m.m21 <= bound && -bound <= m.m22 <= bound && -bound
        <= m.m23 <= bound
    &&& -bound <= m.m30 <= bound && -bound <= m.m31 <= bound && -bound <= m.m32 <= bound && -bound
        <= m.m33 <= bound
}

pub open spec fn identity_spec() -> Matrix4 {
    Matrix4 {
        m00: FX_ONE as i64, m01: 0, m02: 0, m03: 0,
        m10: 0, m11: FX_ONE as i64, m12: 0, m13: 0,
        m20: 0, m21: 0, m22: FX_ONE as i64, m23: 0,
        m30: 0, m31: 0, m32: 0, m33: FX_ONE as i64,
    }
}

pub open spec fn from_scale_spec(s: int) -> Matrix4 {
    Matrix4 {
        m00: s as i64, m01: 0, m02: 0, m03: 0,
        m10: 0, m11: s as i64, m12: 0, m13: 0,
        m20: 0, m21: 0, m22: s as i64, m23: 0,
        m30: 0, m31: 0, m32: 0, m33: FX_ONE as i64,
    }
}

pub open spec fn from_translation_spec(t: Vector3) -> Matrix4 {
    Matrix4 {
        m00: FX_ONE as i64, m01: 0, m02: 0, m03: t.x,
        m10: 0, m11: FX_ONE as i64, m12: 0, m13: t.y,
        m20: 0, m21: 0, m22: FX_ONE as i64, m23: t.z,
        m30: 0, m31: 0, m32: 0, m33: FX_ONE as i64,
    }
}

pub open spec fn mat_mul_spec(a: Matrix4, b: Matrix4) -> Matrix4 {
    Matrix4 {
        m00: fx_dot4_spec(a.m00 as int, b.m00 as int, a.m01 as int, b.m10 as int, a.m02 as int, b.m20 as int, a.m03 as int, b.m30 as int) as i64,
        m01: fx_dot4_spec(a.m00 as int, b.m01 as int, a.m01 as int, b.m11 as int, a.m02 as int, b.m21 as int, a.m03 as int, b.m31 as int) as i64,
        m02: fx_dot4_spec(a.m00 as int, b.m02 as int, a.m01 as int, b.m12 as int, a.m02 as int, b.m22 as int, a.m03 as int, b.m32 as int) as i64,
        m03: fx_dot4_spec(a.m00 as int, b.m03 as int, a.m01 as int, b.m13 as int, a.m02 as int, b.m23 as int, a.m03 as int, b.m33 as int) as i64,
        m10: fx_dot4_spec(a.m10 as int, b.m00 as int, a.m11 as int, b.m10 as int, a.m12 as int, b.m20 as int, a.m13 as int, b.m30 as int) as i64,
        m11: fx_dot4_spec(a.m10 as int, b.m01 as int, a.m11 as int, b.m11 as int, a.m12 as int, b.m21 as int, a.m13 as int, b.m31 as int) as i64,
        m12: fx_dot4_spec(a.m10 as int, b.m02 as int, a.m11 as int, b.m12 as int, a.m12 as int, b.m22 as int, a.m13 as int, b.m32 as int) as i64,
        m13: fx_dot4_spec(a.m10 as int, b.m03 as int, a.m11 as int, b.m13 as int, a.m12 as int, b.m23 as int, a.m13 as int, b.m33 as int) as i64,
        m20: fx_dot4_spec(a.m20 as int, b.m00 as int, a.m21 as int, b.m10 as int, a.m22 as int, b.m20 as int, a.m23 as int, b.m30 as int) as i64,
        m21: fx_dot4_spec(a.m20 as int, b.m01 as int, a.m21 as int, b.m11 as int, a.m22 as int, b.m21 as int, a.m23 as int, b.m31 as int) as i64,
        m22: fx_dot4_spec(a.m20 as int, b.m02 as int, a.m21 as int, b.m12 as int, a.m22 as int, b.m22 as int, a.m23 as int, b.m32 as int) as i64,
        m23: fx_dot4_spec(a.m20 as int, b.m03 as int, a.m21 as int, b.m13 as int, a.m22 as int, b.m23 as int, a.m23 as int, b.m33 as int) as i64,
        m30: fx_dot4_spec(a.m30 as int, b.m00 as int, a.m31 as int, b.m10 as int, a.m32 as int, b.m20 as int, a.m33 as int, b.m30 as int) as i64,
        m31: fx_dot4_spec(a.m30 as int, b.m01 as int, a.m31 as int, b.m11 as int, a.m32 as int, b.m21 as int, a.m33 as int, b.m31 as int) as i64,
        m32: fx_dot4_spec(a.m30 as int, b.m02 as int, a.m31 as int, b.m12 as int, a.m32 as int, b.m22 as int, a.m33 as int, b.m32 as int) as i64,
        m33: fx_dot4_spec(a.m30 as int, b.m03 as int, a.m31 as int, b.m13 as int, a.m32 as int, b.m23 as int, a.m33 as int, b.m33 as int) as i64,
    }
}

/// Every entry of a product of matrices bounded by `ba` and `bb` stays
/// within `4 * ba * bb / 65536`.
pub proof fn lemma_mat_mul_bounded(a: Matrix4, b: Matrix4, ba: int, bb: int)
    requires
        mat_bounded(a, ba),
        mat_bounded(b, bb),
        0 <= ba,
        0 <= bb,
    ensures
        mat_bounded(mat_mul_spec(a, b), (4 * ba * bb) / 65536),
{
    lemma_dot4_bound_all(a, b, ba, bb);
}

proof fn lemma_dot4_bound(
    a0: int, b0: int, a1: int, b1: int, a2: int, b2: int, a3: int, b3: int, ba: int, bb: int,
)
    requires
        -ba <= a0 <= ba, -ba <= a1 <= ba, -ba <= a2 <= ba, -ba <= a3 <= ba,
        -bb <= b0 <= bb, -bb <= b1 <= bb, -bb <= b2 <= bb, -bb <= b3 <= bb,
        0 <= ba,
        0 <= bb,
    ensures
        -((4 * ba * bb) / 65536) <= fx_dot4_spec(a0, b0, a1, b1, a2, b2, a3, b3) <= (4 * ba * bb)
            / 65536,
{
    assert(-(4 * ba * bb) <= a0 * b0 + a1 * b1 + a2 * b2 + a3 * b3 <= 4 * ba * bb && 0 <= 4 * ba
        * bb) by (nonlinear_arith)
        requires
            -ba <= a0 <= ba, -ba <= a1 <= ba, -ba <= a2 <= ba, -ba <= a3 <= ba,
            -bb <= b0 <= bb, -bb <= b1 <= bb, -bb <= b2 <= bb, -bb <= b3 <= bb,
            0 <= ba,
            0 <= bb,
    ;
    lemma_tdiv16_bound(a0 * b0 + a1 * b1 + a2 * b2 + a3 * b3, 4 * ba * bb);
}

proof fn lemma_dot4_bound_all(a: Matrix4, b: Matrix4, ba: int, bb: int)
    requires
        mat_bounded(a, ba),
        mat_bounded(b, bb),
        0 <= ba,
        0 <= bb,
    ensures
        mat_bounded(mat_mul_spec(a, b), (4 * ba * bb) / 65536),
{
    lemma_dot4_bound(a.m00 as int, b.m00 as int, a.m01 as int, b.m10 as int, a.m02 as int, b.m20 as int, a.m03 as int, b.m30 as int, ba, bb);
    lemma_dot4_bound(a.m00 as int, b.m01 as int, a.m01 as int, b.m11 as int, a.m02 as int, b.m21 as int, a.m03 as int, b.m31 as int, ba, bb);
    lemma_dot4_bound(a.m00 as int, b.m02 as int, a.m01 as int, b.m12 as int, a.m02 as int, b.m22 as int, a.m03 as int, b.m32 as int, ba, bb);
    lemma_dot4_bound(a.m00 as int, b.m03 as int, a.m01 as int, b.m13 as int, a.m02 as int, b.m23 as int, a.m03 as int, b.m33 as int, ba, bb);
    lemma_dot4_bound(a.m10 as int, b.m00 as int, a.m11 as int, b.m10 as int, a.m12 as int, b.m20 as int, a.m13 as int, b.m30 as int, ba, bb);
    lemma_dot4_bound(a.m10 as int, b.m01 as int, a.m11 as int, b.m11 as int, a.m12 as int, b.m21 as int, a.m13 as int, b.m31 as int, ba, bb);
    lemma_dot4_bound(a.m10 as int, b.m02 as int, a.m11 as int, b.m12 as int, a.m12 as int, b.m22 as int, a.m13 as int, b.m32 as int, ba, bb);
    lemma_dot4_bound(a.m10 as int, b.m03 as int, a.m11 as int, b.m13 as int, a.m12 as int, b.m23 as int, a.m13 as int, b.m33 as int, ba, bb);
    lemma_dot4_bound(a.m20 as int, b.m00 as int, a.m21 as int, b.m10 as int, a.m22 as int, b.m20 as int, a.m23 as int, b.m30 as int, ba, bb);
    lemma_dot4_bound(a.m20 as int, b.m01 as int, a.m21 as int, b.m11 as int, a.m22 as int, b.m21 as int, a.m23 as int, b.m31 as int, ba, bb);
    lemma_dot4_bound(a.m20 as int, b.m02 as int, a.m21 as int, b.m12 as int, a.m22 as int, b.m22 as int, a.m23 as int, b.m32 as int, ba, bb);
    lemma_dot4_bound(a.m20 as int, b.m03 as int, a.m21 as int, b.m13 as int, a.m22 as int, b.m23 as int, a.m23 as int, b.m33 as int, ba, bb);
    lemma_dot4_bound(a.m30 as int, b.m00 as int, a.m31 as int, b.m10 as int, a.m32 as int, b.m20 as int, a.m33 as int, b.m30 as int, ba, bb);
    lemma_dot4_bound(a.m30 as int, b.m01 as int, a.m31 as int, b.m11 as int, a.m32 as int, b.m21 as int, a.m33 as int, b.m31 as int, ba, bb);
    lemma_dot4_bound(a.m30 as int, b.m02 as int, a.m31 as int, b.m12 as int, a.m32 as int, b.m22 as int, a.m33 as int, b.m32 as int, ba, bb);
    lemma_dot4_bound(a.m30 as int, b.m03 as int, a.m31 as int, b.m13 as int, a.m32 as int, b.m23 as int, a.m33 as int, b.m33 as int, ba, bb);
}

impl Matrix4 {
    /// The identity transform.
    pub fn unit() -> (r: Matrix4)
        ensures
            r == identity_spec(),
    {
        Matrix4 {
            m00: FX_ONE, m01: 0, m02: 0, m03: 0,
            m10: 0, m11: FX_ONE, m12: 0, m13: 0,
            m20: 0, m21: 0, m22: FX_ONE, m23: 0,
            m30: 0, m31: 0, m32: 0, m33: FX_ONE,
        }
    }

    /// Uniform scale by `s`.
    pub fn from_scale(s: i64) -> (r: Matrix4)
        ensures
            r == from_scale_spec(s as int),
    {
        Matrix4 {
            m00: s, m01: 0, m02: 0, m03: 0,
            m10: 0, m11: s, m12: 0, m13: 0,
            m20: 0, m21: 0, m22: s, m23: 0,
            m30: 0, m31: 0, m32: 0, m33: FX_ONE,
        }
    }

    /// Translation by `t`.
    pub fn from_translation(t: Vector3) -> (r: Matrix4)
        ensures
            r == from_translation_spec(t),
    {
        Matrix4 {
            m00: FX_ONE, m01: 0, m02: 0, m03: t.x,
            m10: 0, m11: FX_ONE, m12: 0, m13: t.y,
            m20: 0, m21: 0, m22: FX_ONE, m23: t.z,
            m30: 0, m31: 0, m32: 0, m33: FX_ONE,
        }
    }

    /// Matrix product `self * other`, each entry rounded once.
    pub fn mul(&self, other: &Matrix4) -> (r: Matrix4)
        requires
            mat_bounded(*self, MAT_IN_BOUND as int),
            mat_bounded(*other, MAT_IN_BOUND as int),
        ensures
            r == mat_mul_spec(*self, *other),
    {
        let a = self;
        let b = other;
        Matrix4 {
            m00: fx_dot4(a.m00, b.m00, a.m01, b.m10, a.m02, b.m20, a.m03, b.m30),
            m01: fx_dot4(a.m00, b.m01, a.m01, b.m11, a.m02, b.m21, a.m03, b.m31),
            m02: fx_dot4(a.m00, b.m02, a.m01, b.m12, a.m02, b.m22, a.m03, b.m32),
            m03: fx_dot4(a.m00, b.m03, a.m01, b.m13, a.m02, b.m23, a.m03, b.m33),
            m10: fx_dot4(a.m10, b.m00, a.m11, b.m10, a.m12, b.m20, a.m13, b.m30),
            m11: fx_dot4(a.m10, b.m01, a.m11, b.m11, a.m12, b.m21, a.m13, b.m31),
            m12: fx_dot4(a.m10, b.m02, a.m11, b.m12, a.m12, b.m22, a.m13, b.m32),
            m13: fx_dot4(a.m10, b.m03, a.m11, b.m13, a.m12, b.m23, a.m13, b.m33),
            m20: fx_dot4(a.m20, b.m00, a.m21, b.m10, a.m22, b.m20, a.m23, b.m30),
            m21: fx_dot4(a.m20, b.m01, a.m21, b.m11, a.m22, b.m21, a.m23, b.m31),
            m22: fx_dot4(a.m20, b.m02, a.m21, b.m12, a.m22, b.m22, a.m23, b.m32),
            m23: fx_dot4(a.m20, b.m03, a.m21, b.m13, a.m22, b.m23, a.m23, b.m33),
            m30: fx_dot4(a.m30, b.m00, a.m31, b.m10, a.m32, b.m20, a.m33, b.m30),
            m31: fx_dot4(a.m30, b.m01, a.m31, b.m11, a.m32, b.m21, a.m33, b.m31),
            m32: fx_dot4(a.m30, b.m02, a.m31, b.m12, a.m32, b.m22, a.m33, b.m32),
            m33: fx_dot4(a.m30, b.m03, a.m31, b.m13, a.m32, b.m23, a.m33, b.m33),
        }
    }

    /// True exactly when every entry is within the product bound, so the
    /// matrix may enter [`Matrix4::mul`].
    pub fn is_bounded(&self) -> (r: bool)
        ensures
            r <==> mat_bounded(*self, MAT_IN_BOUND as int),
    {
        let b = MAT_IN_BOUND;
        -b <= self.m00 && self.m00 <= b && -b <= self.m01 && self.m01 <= b && -b <= self.m02
            && self.m02 <= b && -b <= self.m03 && self.m03 <= b && -b <= self.m10 && self.m10 <= b
            && -b <= self.m11 && self.m11 <= b && -b <= self.m12 && self.m12 <= b && -b <= self.m13
            && self.m13 <= b && -b <= self.m20 && self.m20 <= b && -b <= self.m21 && self.m21 <= b
            && -b <= self.m22 && self.m22 <= b && -b <= self.m23 && self.m23 <= b && -b <= self.m30
            && self.m30 <= b && -b <= self.m31 && self.m31 <= b && -b <= self.m32 && self.m32 <= b
            && -b <= self.m33 && self.m33 <= b
    }
}

} // verus!
