//! Fixed-point unit quaternions and isometries: body frames and their
//! composition, the quaternion kernels of the joint assembler, and the
//! square root used to renormalize rotations after integration.

use vstd::prelude::*;

use crate::fx::{
    fx_add, fx_add_v, fx_div, fx_div_v, fx_mul, fx_mul_v, fx_neg, fx_sub, fx_sub_v, FX_ONE,
};
use crate::vect::{
    m3_add_s, m3_mul_s, m3_scale_s, m3_sub_s, v3_add_s, v3_cross_s, v3_outer_s, v3_scale_s, Mat3,
    Vec3,
};

verus! {

/// Half of one, in fixed point.
pub const FX_HALF: i64 = 32768;

/// A fixed-point quaternion `w + x*i + y*j + z*k`; unit ones encode
/// rotations.
#[derive(Clone, Copy, PartialEq, Eq, Structural, Debug)]
pub struct Quat {
    pub x: i64,
    pub y: i64,
    pub z: i64,
    pub w: i64,
}

/// A rigid-body placement: a rotation followed by a translation.
#[derive(Clone, Copy, PartialEq, Eq, Structural, Debug)]
pub struct Iso {
    pub rotation: Quat,
    pub translation: Vec3,
}

/// The largest integer whose square does not exceed `n`.
pub open spec fn sqrt_floor(n: int) -> int
    decreases n,
{
    if n <= 0 {
        0
    } else {
        let s = sqrt_floor(n - 1);
        if (s + 1) * (s + 1) <= n {
            s + 1
        } else {
            s
        }
    }
}

proof fn lemma_sqrt_floor_bounds(n: int)
    requires
        n >= 0,
    ensures
        sqrt_floor(n) >= 0,
        sqrt_floor(n) * sqrt_floor(n) <= n,
        (sqrt_floor(n) + 1) * (sqrt_floor(n) + 1) > n,
    decreases n,
{
    if n == 0 {
    } else {
        lemma_sqrt_floor_bounds(n - 1);
        let s = sqrt_floor(n - 1);
        if (s + 1) * (s + 1) <= n {
            assert((s + 2) * (s + 2) > (s + 1) * (s + 1)) by (nonlinear_arith)
                requires
                    s >= 0,
            ;
        }
    }
}

proof fn lemma_sqrt_floor_unique(n: int, r: int)
    requires
        n >= 0,
        r >= 0,
        r * r <= n,
        (r + 1) * (r + 1) > n,
    ensures
        r == sqrt_floor(n),
{
    lemma_sqrt_floor_bounds(n);
    let s = sqrt_floor(n);
    if r < s {
        assert((r + 1) * (r + 1) <= s * s) by (nonlinear_arith)
            requires
                r >= 0,
                r + 1 <= s,
        ;
    }
    if r > s {
        assert((s + 1) * (s + 1) <= r * r) by (nonlinear_arith)
            requires
                s >= 0,
                s + 1 <= r,
        ;
    }
}

fn isqrt_u128(n: u128) -> (r: u128)
    ensures
        r as int == sqrt_floor(n as int),
{
    let mut lo: u128 = 0;
    let mut hi: u128 = 0xFFFF_FFFF_FFFF_FFFF;
    if n >= hi * hi {
        proof {
            lemma_sqrt_floor_unique(n as int, hi as int);
        }
        return hi;
    }
    while hi - lo > 1
        invariant
            lo < hi <= 0xFFFF_FFFF_FFFF_FFFF,
            (lo * lo) as int <= n as int,
            (hi * hi) as int > n as int,
        decreases hi - lo,
    {
        let mid = lo + (hi - lo) / 2;
        proof {
            assert(mid * mid <= 0xFFFF_FFFF_FFFF_FFFFu128 * 0xFFFF_FFFF_FFFF_FFFFu128)
                by (nonlinear_arith)
                requires
                    mid <= 0xFFFF_FFFF_FFFF_FFFFu128,
            ;
        }
        if mid * mid <= n {
            lo = mid;
        } else {
            hi = mid;
        }
    }
    proof {
        lemma_sqrt_floor_unique(n as int, lo as int);
    }
    lo
}

/// The fixed-point square root of a fixed-point scalar: the largest scalar
/// whose fixed-point square does not exceed the argument.
pub fn fx_sqrt(a: i64) -> (r: i64)
    requires
        a >= 0,
    ensures
        r as int == sqrt_floor(a * (FX_ONE as int)),
        r >= 0,
{
    proof {
        assert((a as u128) * (FX_ONE as u128) <= 0x7FFF_FFFF_FFFF_FFFFu128 * 0x10000u128)
            by (nonlinear_arith)
            requires
                a as u128 <= 0x7FFF_FFFF_FFFF_FFFFu128,
        ;
    }
    let n: u128 = (a as u128) * (FX_ONE as u128);
    let r = isqrt_u128(n);
    proof {
        lemma_sqrt_floor_bounds(n as int);
        assert(sqrt_floor(n as int) < 0x100_0000_0000) by (nonlinear_arith)
            requires
                sqrt_floor(n as int) >= 0,
                sqrt_floor(n as int) * sqrt_floor(n as int) <= n as int,
                n as int <= 0x7FFF_FFFF_FFFF_FFFF * 0x10000,
        ;
    }
    r as i64
}

/// The exact Hamilton product of two quaternions.
pub open spec fn quat_mul_s(a: Quat, b: Quat) -> Quat {
    Quat {
        x: fx_sub_v(
            fx_add_v(
                fx_add_v(fx_mul_v(a.w as int, b.x as int), fx_mul_v(a.x as int, b.w as int)),
                fx_mul_v(a.y as int, b.z as int),
            ),
            fx_mul_v(a.z as int, b.y as int),
        ) as i64,
        y: fx_add_v(
            fx_sub_v(
                fx_add_v(fx_mul_v(a.w as int, b.y as int), fx_mul_v(a.y as int, b.w as int)),
                fx_mul_v(a.x as int, b.z as int),
            ),
            fx_mul_v(a.z as int, b.x as int),
        ) as i64,
        z: fx_sub_v(
            fx_add_v(
                fx_add_v(fx_mul_v(a.w as int, b.z as int), fx_mul_v(a.z as int, b.w as int)),
                fx_mul_v(a.x as int, b.y as int),
            ),
            fx_mul_v(a.y as int, b.x as int),
        ) as i64,
        w: fx_sub_v(
            fx_sub_v(
                fx_sub_v(fx_mul_v(a.w as int, b.w as int), fx_mul_v(a.x as int, b.x as int)),
                fx_mul_v(a.y as int, b.y as int),
            ),
            fx_mul_v(a.z as int, b.z as int),
        ) as i64,
    }
}

/// The exact image of a vector under a unit quaternion, through the
/// two-cross-product form `v + w*t + qv x t` with `t = 2 * (qv x v)`.
pub open spec fn quat_rotate_s(q: Quat, v: Vec3) -> Vec3 {
    let qv = Vec3 { x: q.x, y: q.y, z: q.z };
    let t = v3_scale_s(v3_cross_s(qv, v), 2 * (FX_ONE as int));
    v3_add_s(v3_add_s(v, v3_scale_s(t, q.w as int)), v3_cross_s(qv, t))
}

/// The exact conjugate of a quaternion.
pub open spec fn quat_conj_s(q: Quat) -> Quat {
    Quat {
        x: crate::fx::sat64(-(q.x as int)) as i64,
        y: crate::fx::sat64(-(q.y as int)) as i64,
        z: crate::fx::sat64(-(q.z as int)) as i64,
        w: q.w,
    }
}

/// The exact squared norm of a quaternion.
pub open spec fn quat_norm2_s(q: Quat) -> int {
    fx_add_v(
        fx_add_v(
            fx_add_v(fx_mul_v(q.x as int, q.x as int), fx_mul_v(q.y as int, q.y as int)),
            fx_mul_v(q.z as int, q.z as int),
        ),
        fx_mul_v(q.w as int, q.w as int),
    )
}

/// The exact normalization of a quaternion: each component divided by the
/// fixed-point norm; the identity quaternion when the norm is zero.
pub open spec fn quat_normalize_s(q: Quat) -> Quat {
    let n = sqrt_floor(quat_norm2_s(q) * (FX_ONE as int));
    if n == 0 {
        Quat { x: 0i64, y: 0i64, z: 0i64, w: FX_ONE }
    } else {
        Quat {
            x: fx_div_v(q.x as int, n) as i64,
            y: fx_div_v(q.y as int, n) as i64,
            z: fx_div_v(q.z as int, n) as i64,
            w: fx_div_v(q.w as int, n) as i64,
        }
    }
}

impl Quat {
    /// The identity rotation.
    pub fn identity() -> (r: Quat)
        ensures
            r == (Quat { x: 0i64, y: 0i64, z: 0i64, w: FX_ONE }),
    {
        Quat { x: 0, y: 0, z: 0, w: FX_ONE }
    }

    /// The imaginary part as a vector.
    pub fn imag(self) -> (r: Vec3)
        ensures
            r == (Vec3 { x: self.x, y: self.y, z: self.z }),
    {
        Vec3 { x: self.x, y: self.y, z: self.z }
    }

    /// The conjugate: the inverse rotation for a unit quaternion.
    pub fn conjugate(self) -> (r: Quat)
        ensures
            r == quat_conj_s(self),
    {
        Quat { x: fx_neg(self.x), y: fx_neg(self.y), z: fx_neg(self.z), w: self.w }
    }

    /// Hamilton product of two quaternions: the composed rotation.
    pub fn mul(self, o: Quat) -> (r: Quat)
        ensures
            r == quat_mul_s(self, o),
    {
        Quat {
            x: fx_sub(
                fx_add(fx_add(fx_mul(self.w, o.x), fx_mul(self.x, o.w)), fx_mul(self.y, o.z)),
                fx_mul(self.z, o.y),
            ),
            y: fx_add(
                fx_sub(fx_add(fx_mul(self.w, o.y), fx_mul(self.y, o.w)), fx_mul(self.x, o.z)),
                fx_mul(self.z, o.x),
            ),
            z: fx_sub(
                fx_add(fx_add(fx_mul(self.w, o.z), fx_mul(self.z, o.w)), fx_mul(self.x, o.y)),
                fx_mul(self.y, o.x),
            ),
            w: fx_sub(
                fx_sub(fx_sub(fx_mul(self.w, o.w), fx_mul(self.x, o.x)), fx_mul(self.y, o.y)),
                fx_mul(self.z, o.z),
            ),
        }
    }

    /// The image of a vector under this rotation.
    pub fn rotate(self, v: Vec3) -> (r: Vec3)
        ensures
            r == quat_rotate_s(self, v),
    {
        let qv = self.imag();
        let t = qv.gcross(v).scale(2 * FX_ONE);
        v.add(t.scale(self.w)).add(qv.gcross(t))
    }

    /// Normalization to unit length; the identity when the norm is zero, so a
    /// degenerate state recovers to a valid rotation.
    pub fn normalize(self) -> (r: Quat)
        ensures
            r == quat_normalize_s(self),
    {
        let n2 = fx_add(
            fx_add(
                fx_add(fx_mul(self.x, self.x), fx_mul(self.y, self.y)),
                fx_mul(self.z, self.z),
            ),
            fx_mul(self.w, self.w),
        );
        proof {
            crate::fx::lemma_fx_square_nonneg(self.x as int);
            crate::fx::lemma_fx_square_nonneg(self.y as int);
            crate::fx::lemma_fx_square_nonneg(self.z as int);
            crate::fx::lemma_fx_square_nonneg(self.w as int);
        }
        let n = fx_sqrt(n2);
        if n == 0 {
            Quat::identity()
        } else {
            Quat {
                x: fx_div(self.x, n),
                y: fx_div(self.y, n),
                z: fx_div(self.z, n),
                w: fx_div(self.w, n),
            }
        }
    }
}

/// Trait to compute the matrix relating the difference of two rotations to an
/// angular velocity.
pub trait WQuat {
    /// The resulting matrix type.
    type Result;

    /// Computes the matrix `M` such that, for two unit quaternions `q1` and
    /// `q2`, `M * angvel` approximates the time derivative carrying `q1`
    /// toward `q2`.
    fn diff_conj1_2(&self, rhs: &Self) -> Self::Result;
}

/// The exact value of the rotation-difference matrix of two quaternions.
pub open spec fn quat_diff_conj1_2_s(a: Quat, b: Quat) -> Mat3 {
    let v1 = Vec3 { x: a.x, y: a.y, z: a.z };
    let v2 = Vec3 { x: b.x, y: b.y, z: b.z };
    let sum = v3_add_s(v3_scale_s(v1, b.w as int), v3_scale_s(v2, a.w as int));
    let cross1 = Mat3 {
        m11: 0i64,
        m12: crate::fx::sat64(-(v1.z as int)) as i64,
        m13: v1.y,
        m21: v1.z,
        m22: 0i64,
        m23: crate::fx::sat64(-(v1.x as int)) as i64,
        m31: crate::fx::sat64(-(v1.y as int)) as i64,
        m32: v1.x,
        m33: 0i64,
    };
    let cross2 = Mat3 {
        m11: 0i64,
        m12: crate::fx::sat64(-(v2.z as int)) as i64,
        m13: v2.y,
        m21: v2.z,
        m22: 0i64,
        m23: crate::fx::sat64(-(v2.x as int)) as i64,
        m31: crate::fx::sat64(-(v2.y as int)) as i64,
        m32: v2.x,
        m33: 0i64,
    };
    let cross_sum = Mat3 {
        m11: 0i64,
        m12: crate::fx::sat64(-(sum.z as int)) as i64,
        m13: sum.y,
        m21: sum.z,
        m22: 0i64,
        m23: crate::fx::sat64(-(sum.x as int)) as i64,
        m31: crate::fx::sat64(-(sum.y as int)) as i64,
        m32: sum.x,
        m33: 0i64,
    };
    let diag = Mat3 {
        m11: fx_mul_v(a.w as int, b.w as int) as i64,
        m12: 0i64,
        m13: 0i64,
        m21: 0i64,
        m22: fx_mul_v(a.w as int, b.w as int) as i64,
        m23: 0i64,
        m31: 0i64,
        m32: 0i64,
        m33: fx_mul_v(a.w as int, b.w as int) as i64,
    };
    m3_scale_s(
        m3_add_s(
            m3_sub_s(m3_add_s(v3_outer_s(v1, v2), diag), cross_sum),
            m3_mul_s(cross1, cross2),
        ),
        FX_HALF as int,
    )
}

impl WQuat for Quat {
    type Result = Mat3;

    fn diff_conj1_2(&self, rhs: &Self) -> (r: Mat3)
        ensures
            r == quat_diff_conj1_2_s(*self, *rhs),
    {
        let v1 = self.imag();
        let v2 = rhs.imag();
        let w1 = self.w;
        let w2 = rhs.w;
        let sum = v1.scale(w2).add(v2.scale(w1));
        crate::vect::v3_outer(v1, v2)
            .add(Mat3::from_diagonal_element(fx_mul(w1, w2)))
            .sub(sum.gcross_matrix())
            .add(v1.gcross_matrix().mul(v2.gcross_matrix()))
            .scale(FX_HALF)
    }
}

/// The exact composition of two placements: rotations composed, the second
/// translation carried through the first rotation.
pub open spec fn iso_mul_s(a: Iso, b: Iso) -> Iso {
    Iso {
        rotation: quat_mul_s(a.rotation, b.rotation),
        translation: v3_add_s(a.translation, quat_rotate_s(a.rotation, b.translation)),
    }
}

/// The exact image of a point under a placement.
pub open spec fn iso_transform_s(a: Iso, p: Vec3) -> Vec3 {
    v3_add_s(a.translation, quat_rotate_s(a.rotation, p))
}

/// The identity placement, as a specification value.
pub open spec fn iso_identity_s() -> Iso {
    Iso {
        rotation: Quat { x: 0i64, y: 0i64, z: 0i64, w: FX_ONE },
        translation: Vec3 { x: 0i64, y: 0i64, z: 0i64 },
    }
}

impl Iso {
    /// The identity placement.
    pub fn identity() -> (r: Iso)
        ensures
            r == (Iso {
                rotation: Quat { x: 0i64, y: 0i64, z: 0i64, w: FX_ONE },
                translation: Vec3 { x: 0i64, y: 0i64, z: 0i64 },
            }),
    {
        Iso { rotation: Quat::identity(), translation: Vec3::zero() }
    }

    /// A pure translation.
    pub fn from_translation(t: Vec3) -> (r: Iso)
        ensures
            r == (Iso { rotation: Quat { x: 0i64, y: 0i64, z: 0i64, w: FX_ONE }, translation: t }),
    {
        Iso { rotation: Quat::identity(), translation: t }
    }

    /// Composition of two placements.
    pub fn mul(self, o: Iso) -> (r: Iso)
        ensures
            r == iso_mul_s(self, o),
    {
        Iso {
            rotation: self.rotation.mul(o.rotation),
            translation: self.translation.add(self.rotation.rotate(o.translation)),
        }
    }

    /// The image of a point under this placement.
    pub fn transform_point(self, p: Vec3) -> (r: Vec3)
        ensures
            r == iso_transform_s(self, p),
    {
        self.translation.add(self.rotation.rotate(p))
    }
}

} // verus!
