//! Fixed-point vectors and matrices: the small dense kernels the solver is
//! built from. Cross-product matrices, orthonormal bases and the inverse of a
//! symmetric positive-definite 3x3 matrix all come with contracts that pin
//! each component exactly.

use vstd::prelude::*;

use crate::fx::{
    fx_add, fx_add_v, fx_div, fx_div_v, fx_mag, fx_mul, fx_mul_v, fx_neg, fx_sub, fx_sub_v, sat64,
    WSign, FX_ONE,
};

verus! {

/// A 3-component fixed-point vector.
#[derive(Clone, Copy, PartialEq, Eq, Structural, Debug)]
pub struct Vec3 {
    pub x: i64,
    pub y: i64,
    pub z: i64,
}

/// A 3x3 fixed-point matrix in row-major naming: `mRC` is row `R`, column `C`.
#[derive(Clone, Copy, PartialEq, Eq, Structural, Debug)]
pub struct Mat3 {
    pub m11: i64,
    pub m12: i64,
    pub m13: i64,
    pub m21: i64,
    pub m22: i64,
    pub m23: i64,
    pub m31: i64,
    pub m32: i64,
    pub m33: i64,
}

/// A symmetric positive-definite 3x3 fixed-point matrix, stored as its upper
/// triangle. Holds world inverse-inertia tensors and their square roots.
#[derive(Clone, Copy, PartialEq, Eq, Structural, Debug)]
pub struct SdpMat3 {
    pub m11: i64,
    pub m12: i64,
    pub m13: i64,
    pub m22: i64,
    pub m23: i64,
    pub m33: i64,
}

/// The exact componentwise sum of two vectors.
pub open spec fn v3_add_s(a: Vec3, b: Vec3) -> Vec3 {
    Vec3 {
        x: fx_add_v(a.x as int, b.x as int) as i64,
        y: fx_add_v(a.y as int, b.y as int) as i64,
        z: fx_add_v(a.z as int, b.z as int) as i64,
    }
}

/// The exact componentwise difference of two vectors.
pub open spec fn v3_sub_s(a: Vec3, b: Vec3) -> Vec3 {
    Vec3 {
        x: fx_sub_v(a.x as int, b.x as int) as i64,
        y: fx_sub_v(a.y as int, b.y as int) as i64,
        z: fx_sub_v(a.z as int, b.z as int) as i64,
    }
}

/// The exact componentwise negation of a vector.
pub open spec fn v3_neg_s(a: Vec3) -> Vec3 {
    Vec3 {
        x: sat64(-(a.x as int)) as i64,
        y: sat64(-(a.y as int)) as i64,
        z: sat64(-(a.z as int)) as i64,
    }
}

/// The exact scaling of a vector by a scalar.
pub open spec fn v3_scale_s(a: Vec3, s: int) -> Vec3 {
    Vec3 {
        x: fx_mul_v(a.x as int, s) as i64,
        y: fx_mul_v(a.y as int, s) as i64,
        z: fx_mul_v(a.z as int, s) as i64,
    }
}

/// The exact componentwise product of two vectors.
pub open spec fn v3_comp_mul_s(a: Vec3, b: Vec3) -> Vec3 {
    Vec3 {
        x: fx_mul_v(a.x as int, b.x as int) as i64,
        y: fx_mul_v(a.y as int, b.y as int) as i64,
        z: fx_mul_v(a.z as int, b.z as int) as i64,
    }
}

/// The exact dot product of two vectors, summed left to right.
pub open spec fn v3_dot_s(a: Vec3, b: Vec3) -> int {
    fx_add_v(
        fx_add_v(fx_mul_v(a.x as int, b.x as int), fx_mul_v(a.y as int, b.y as int)),
        fx_mul_v(a.z as int, b.z as int),
    )
}

/// The exact cross product of two vectors.
pub open spec fn v3_cross_s(a: Vec3, b: Vec3) -> Vec3 {
    Vec3 {
        x: fx_sub_v(fx_mul_v(a.y as int, b.z as int), fx_mul_v(a.z as int, b.y as int)) as i64,
        y: fx_sub_v(fx_mul_v(a.z as int, b.x as int), fx_mul_v(a.x as int, b.z as int)) as i64,
        z: fx_sub_v(fx_mul_v(a.x as int, b.y as int), fx_mul_v(a.y as int, b.x as int)) as i64,
    }
}

impl Vec3 {
    /// The zero vector.
    pub fn zero() -> (r: Vec3)
        ensures
            r == (Vec3 { x: 0i64, y: 0i64, z: 0i64 }),
    {
        Vec3 { x: 0, y: 0, z: 0 }
    }

    /// Componentwise saturating sum.
    pub fn add(self, o: Vec3) -> (r: Vec3)
        ensures
            r == v3_add_s(self, o),
    {
        Vec3 { x: fx_add(self.x, o.x), y: fx_add(self.y, o.y), z: fx_add(self.z, o.z) }
    }

    /// Componentwise saturating difference.
    pub fn sub(self, o: Vec3) -> (r: Vec3)
        ensures
            r == v3_sub_s(self, o),
    {
        Vec3 { x: fx_sub(self.x, o.x), y: fx_sub(self.y, o.y), z: fx_sub(self.z, o.z) }
    }

    /// Componentwise saturating negation.
    pub fn neg(self) -> (r: Vec3)
        ensures
            r == v3_neg_s(self),
    {
        Vec3 { x: fx_neg(self.x), y: fx_neg(self.y), z: fx_neg(self.z) }
    }

    /// Scaling by a fixed-point scalar.
    pub fn scale(self, s: i64) -> (r: Vec3)
        ensures
            r == v3_scale_s(self, s as int),
    {
        Vec3 { x: fx_mul(self.x, s), y: fx_mul(self.y, s), z: fx_mul(self.z, s) }
    }

    /// Componentwise product.
    pub fn component_mul(self, o: Vec3) -> (r: Vec3)
        ensures
            r == v3_comp_mul_s(self, o),
    {
        Vec3 { x: fx_mul(self.x, o.x), y: fx_mul(self.y, o.y), z: fx_mul(self.z, o.z) }
    }

    /// Generalized dot product of two vectors.
    pub fn gdot(self, o: Vec3) -> (r: i64)
        ensures
            r as int == v3_dot_s(self, o),
    {
        fx_add(fx_add(fx_mul(self.x, o.x), fx_mul(self.y, o.y)), fx_mul(self.z, o.z))
    }

    /// Generalized cross product of two vectors.
    pub fn gcross(self, o: Vec3) -> (r: Vec3)
        ensures
            r == v3_cross_s(self, o),
    {
        Vec3 {
            x: fx_sub(fx_mul(self.y, o.z), fx_mul(self.z, o.y)),
            y: fx_sub(fx_mul(self.z, o.x), fx_mul(self.x, o.z)),
            z: fx_sub(fx_mul(self.x, o.y), fx_mul(self.y, o.x)),
        }
    }

    /// The skew-symmetric matrix `[self]x` with `[self]x * v == self x v`.
    pub fn gcross_matrix(self) -> (r: Mat3)
        ensures
            r == (Mat3 {
                m11: 0i64,
                m12: sat64(-(self.z as int)) as i64,
                m13: self.y,
                m21: self.z,
                m22: 0i64,
                m23: sat64(-(self.x as int)) as i64,
                m31: sat64(-(self.y as int)) as i64,
                m32: self.x,
                m33: 0i64,
            }),
    {
        Mat3 {
            m11: 0,
            m12: fx_neg(self.z),
            m13: self.y,
            m21: self.z,
            m22: 0,
            m23: fx_neg(self.x),
            m31: fx_neg(self.y),
            m32: self.x,
            m33: 0,
        }
    }

    /// The transpose of the skew-symmetric matrix `[self]x`.
    pub fn gcross_matrix_tr(self) -> (r: Mat3)
        ensures
            r == (Mat3 {
                m11: 0i64,
                m12: self.z,
                m13: sat64(-(self.y as int)) as i64,
                m21: sat64(-(self.z as int)) as i64,
                m22: 0i64,
                m23: self.x,
                m31: self.y,
                m32: sat64(-(self.x as int)) as i64,
                m33: 0i64,
            }),
    {
        Mat3 {
            m11: 0,
            m12: self.z,
            m13: fx_neg(self.y),
            m21: fx_neg(self.z),
            m22: 0,
            m23: self.x,
            m31: self.y,
            m32: fx_neg(self.x),
            m33: 0,
        }
    }
}

impl WSign<Vec3> for i64 {
    fn copy_sign_to(self, to: Vec3) -> (r: Vec3)
        ensures
            r.x as int == sat64(
                if self < 0 {
                    -fx_mag(to.x as int)
                } else {
                    fx_mag(to.x as int)
                },
            ),
            r.y as int == sat64(
                if self < 0 {
                    -fx_mag(to.y as int)
                } else {
                    fx_mag(to.y as int)
                },
            ),
            r.z as int == sat64(
                if self < 0 {
                    -fx_mag(to.z as int)
                } else {
                    fx_mag(to.z as int)
                },
            ),
    {
        Vec3 {
            x: self.copy_sign_to(to.x),
            y: self.copy_sign_to(to.y),
            z: self.copy_sign_to(to.z),
        }
    }
}

impl WSign<Vec3> for Vec3 {
    fn copy_sign_to(self, to: Vec3) -> (r: Vec3)
        ensures
            r.x as int == sat64(
                if self.x < 0 {
                    -fx_mag(to.x as int)
                } else {
                    fx_mag(to.x as int)
                },
            ),
            r.y as int == sat64(
                if self.y < 0 {
                    -fx_mag(to.y as int)
                } else {
                    fx_mag(to.y as int)
                },
            ),
            r.z as int == sat64(
                if self.z < 0 {
                    -fx_mag(to.z as int)
                } else {
                    fx_mag(to.z as int)
                },
            ),
    {
        Vec3 {
            x: self.x.copy_sign_to(to.x),
            y: self.y.copy_sign_to(to.y),
            z: self.z.copy_sign_to(to.z),
        }
    }
}

/// The exact value of `a1*b1 + a2*b2 + a3*b3`, summed left to right.
pub open spec fn dot3_v(a1: int, a2: int, a3: int, b1: int, b2: int, b3: int) -> int {
    fx_add_v(fx_add_v(fx_mul_v(a1, b1), fx_mul_v(a2, b2)), fx_mul_v(a3, b3))
}

/// Fixed-point `a1*b1 + a2*b2 + a3*b3`, summed left to right.
pub fn dot3(a1: i64, a2: i64, a3: i64, b1: i64, b2: i64, b3: i64) -> (r: i64)
    ensures
        r as int == dot3_v(a1 as int, a2 as int, a3 as int, b1 as int, b2 as int, b3 as int),
{
    fx_add(fx_add(fx_mul(a1, b1), fx_mul(a2, b2)), fx_mul(a3, b3))
}

/// The exact componentwise sum of two matrices.
pub open spec fn m3_add_s(a: Mat3, b: Mat3) -> Mat3 {
    Mat3 {
        m11: fx_add_v(a.m11 as int, b.m11 as int) as i64,
        m12: fx_add_v(a.m12 as int, b.m12 as int) as i64,
        m13: fx_add_v(a.m13 as int, b.m13 as int) as i64,
        m21: fx_add_v(a.m21 as int, b.m21 as int) as i64,
        m22: fx_add_v(a.m22 as int, b.m22 as int) as i64,
        m23: fx_add_v(a.m23 as int, b.m23 as int) as i64,
        m31: fx_add_v(a.m31 as int, b.m31 as int) as i64,
        m32: fx_add_v(a.m32 as int, b.m32 as int) as i64,
        m33: fx_add_v(a.m33 as int, b.m33 as int) as i64,
    }
}

/// The exact componentwise difference of two matrices.
pub open spec fn m3_sub_s(a: Mat3, b: Mat3) -> Mat3 {
    Mat3 {
        m11: fx_sub_v(a.m11 as int, b.m11 as int) as i64,
        m12: fx_sub_v(a.m12 as int, b.m12 as int) as i64,
        m13: fx_sub_v(a.m13 as int, b.m13 as int) as i64,
        m21: fx_sub_v(a.m21 as int, b.m21 as int) as i64,
        m22: fx_sub_v(a.m22 as int, b.m22 as int) as i64,
        m23: fx_sub_v(a.m23 as int, b.m23 as int) as i64,
        m31: fx_sub_v(a.m31 as int, b.m31 as int) as i64,
        m32: fx_sub_v(a.m32 as int, b.m32 as int) as i64,
        m33: fx_sub_v(a.m33 as int, b.m33 as int) as i64,
    }
}

/// The exact scaling of a matrix by a scalar.
pub open spec fn m3_scale_s(a: Mat3, s: int) -> Mat3 {
    Mat3 {
        m11: fx_mul_v(a.m11 as int, s) as i64,
        m12: fx_mul_v(a.m12 as int, s) as i64,
        m13: fx_mul_v(a.m13 as int, s) as i64,
        m21: fx_mul_v(a.m21 as int, s) as i64,
        m22: fx_mul_v(a.m22 as int, s) as i64,
        m23: fx_mul_v(a.m23 as int, s) as i64,
        m31: fx_mul_v(a.m31 as int, s) as i64,
        m32: fx_mul_v(a.m32 as int, s) as i64,
        m33: fx_mul_v(a.m33 as int, s) as i64,
    }
}

/// The exact product of two matrices.
pub open spec fn m3_mul_s(a: Mat3, b: Mat3) -> Mat3 {
    Mat3 {
        m11: dot3_v(a.m11 as int, a.m12 as int, a.m13 as int, b.m11 as int, b.m21 as int, b.m31 as int) as i64,
        m12: dot3_v(a.m11 as int, a.m12 as int, a.m13 as int, b.m12 as int, b.m22 as int, b.m32 as int) as i64,
        m13: dot3_v(a.m11 as int, a.m12 as int, a.m13 as int, b.m13 as int, b.m23 as int, b.m33 as int) as i64,
        m21: dot3_v(a.m21 as int, a.m22 as int, a.m23 as int, b.m11 as int, b.m21 as int, b.m31 as int) as i64,
        m22: dot3_v(a.m21 as int, a.m22 as int, a.m23 as int, b.m12 as int, b.m22 as int, b.m32 as int) as i64,
        m23: dot3_v(a.m21 as int, a.m22 as int, a.m23 as int, b.m13 as int, b.m23 as int, b.m33 as int) as i64,
        m31: dot3_v(a.m31 as int, a.m32 as int, a.m33 as int, b.m11 as int, b.m21 as int, b.m31 as int) as i64,
        m32: dot3_v(a.m31 as int, a.m32 as int, a.m33 as int, b.m12 as int, b.m22 as int, b.m32 as int) as i64,
        m33: dot3_v(a.m31 as int, a.m32 as int, a.m33 as int, b.m13 as int, b.m23 as int, b.m33 as int) as i64,
    }
}

/// The exact outer product `a * b^T` of two vectors.
pub open spec fn v3_outer_s(a: Vec3, b: Vec3) -> Mat3 {
    Mat3 {
        m11: fx_mul_v(a.x as int, b.x as int) as i64,
        m12: fx_mul_v(a.x as int, b.y as int) as i64,
        m13: fx_mul_v(a.x as int, b.z as int) as i64,
        m21: fx_mul_v(a.y as int, b.x as int) as i64,
        m22: fx_mul_v(a.y as int, b.y as int) as i64,
        m23: fx_mul_v(a.y as int, b.z as int) as i64,
        m31: fx_mul_v(a.z as int, b.x as int) as i64,
        m32: fx_mul_v(a.z as int, b.y as int) as i64,
        m33: fx_mul_v(a.z as int, b.z as int) as i64,
    }
}

/// The exact image of a vector under a matrix.
pub open spec fn m3_transform_s(m: Mat3, v: Vec3) -> Vec3 {
    Vec3 {
        x: dot3_v(m.m11 as int, m.m12 as int, m.m13 as int, v.x as int, v.y as int, v.z as int) as i64,
        y: dot3_v(m.m21 as int, m.m22 as int, m.m23 as int, v.x as int, v.y as int, v.z as int) as i64,
        z: dot3_v(m.m31 as int, m.m32 as int, m.m33 as int, v.x as int, v.y as int, v.z as int) as i64,
    }
}

impl Mat3 {
    /// The zero matrix.
    pub fn zero() -> (r: Mat3)
        ensures
            r == (Mat3 {
                m11: 0i64, m12: 0i64, m13: 0i64,
                m21: 0i64, m22: 0i64, m23: 0i64,
                m31: 0i64, m32: 0i64, m33: 0i64,
            }),
    {
        Mat3 { m11: 0, m12: 0, m13: 0, m21: 0, m22: 0, m23: 0, m31: 0, m32: 0, m33: 0 }
    }

    /// The matrix with `elt` on the diagonal and zero elsewhere.
    pub fn from_diagonal_element(elt: i64) -> (r: Mat3)
        ensures
            r == (Mat3 {
                m11: elt, m12: 0i64, m13: 0i64,
                m21: 0i64, m22: elt, m23: 0i64,
                m31: 0i64, m32: 0i64, m33: elt,
            }),
    {
        Mat3 { m11: elt, m12: 0, m13: 0, m21: 0, m22: elt, m23: 0, m31: 0, m32: 0, m33: elt }
    }

    /// Componentwise saturating sum.
    pub fn add(self, o: Mat3) -> (r: Mat3)
        ensures
            r == m3_add_s(self, o),
    {
        Mat3 {
            m11: fx_add(self.m11, o.m11),
            m12: fx_add(self.m12, o.m12),
            m13: fx_add(self.m13, o.m13),
            m21: fx_add(self.m21, o.m21),
            m22: fx_add(self.m22, o.m22),
            m23: fx_add(self.m23, o.m23),
            m31: fx_add(self.m31, o.m31),
            m32: fx_add(self.m32, o.m32),
            m33: fx_add(self.m33, o.m33),
        }
    }

    /// Componentwise saturating difference.
    pub fn sub(self, o: Mat3) -> (r: Mat3)
        ensures
            r == m3_sub_s(self, o),
    {
        Mat3 {
            m11: fx_sub(self.m11, o.m11),
            m12: fx_sub(self.m12, o.m12),
            m13: fx_sub(self.m13, o.m13),
            m21: fx_sub(self.m21, o.m21),
            m22: fx_sub(self.m22, o.m22),
            m23: fx_sub(self.m23, o.m23),
            m31: fx_sub(self.m31, o.m31),
            m32: fx_sub(self.m32, o.m32),
            m33: fx_sub(self.m33, o.m33),
        }
    }

    /// Scaling by a fixed-point scalar.
    pub fn scale(self, s: i64) -> (r: Mat3)
        ensures
            r == m3_scale_s(self, s as int),
    {
        Mat3 {
            m11: fx_mul(self.m11, s),
            m12: fx_mul(self.m12, s),
            m13: fx_mul(self.m13, s),
            m21: fx_mul(self.m21, s),
            m22: fx_mul(self.m22, s),
            m23: fx_mul(self.m23, s),
            m31: fx_mul(self.m31, s),
            m32: fx_mul(self.m32, s),
            m33: fx_mul(self.m33, s),
        }
    }

    /// Matrix product.
    pub fn mul(self, o: Mat3) -> (r: Mat3)
        ensures
            r == m3_mul_s(self, o),
    {
        Mat3 {
            m11: dot3(self.m11, self.m12, self.m13, o.m11, o.m21, o.m31),
            m12: dot3(self.m11, self.m12, self.m13, o.m12, o.m22, o.m32),
            m13: dot3(self.m11, self.m12, self.m13, o.m13, o.m23, o.m33),
            m21: dot3(self.m21, self.m22, self.m23, o.m11, o.m21, o.m31),
            m22: dot3(self.m21, self.m22, self.m23, o.m12, o.m22, o.m32),
            m23: dot3(self.m21, self.m22, self.m23, o.m13, o.m23, o.m33),
            m31: dot3(self.m31, self.m32, self.m33, o.m11, o.m21, o.m31),
            m32: dot3(self.m31, self.m32, self.m33, o.m12, o.m22, o.m32),
            m33: dot3(self.m31, self.m32, self.m33, o.m13, o.m23, o.m33),
        }
    }

    /// The image of a vector under this matrix.
    pub fn transform_vector(self, v: Vec3) -> (r: Vec3)
        ensures
            r == m3_transform_s(self, v),
    {
        Vec3 {
            x: dot3(self.m11, self.m12, self.m13, v.x, v.y, v.z),
            y: dot3(self.m21, self.m22, self.m23, v.x, v.y, v.z),
            z: dot3(self.m31, self.m32, self.m33, v.x, v.y, v.z),
        }
    }
}

/// The outer product `a * b^T` of two vectors.
pub fn v3_outer(a: Vec3, b: Vec3) -> (r: Mat3)
    ensures
        r == v3_outer_s(a, b),
{
    Mat3 {
        m11: fx_mul(a.x, b.x),
        m12: fx_mul(a.x, b.y),
        m13: fx_mul(a.x, b.z),
        m21: fx_mul(a.y, b.x),
        m22: fx_mul(a.y, b.y),
        m23: fx_mul(a.y, b.z),
        m31: fx_mul(a.z, b.x),
        m32: fx_mul(a.z, b.y),
        m33: fx_mul(a.z, b.z),
    }
}

/// The componentwise minimum over four lanes of vectors.
pub open spec fn horizontal_inf_s(vs: [Vec3; 4]) -> Vec3 {
    Vec3 {
        x: min4_v(vs[0].x as int, vs[1].x as int, vs[2].x as int, vs[3].x as int) as i64,
        y: min4_v(vs[0].y as int, vs[1].y as int, vs[2].y as int, vs[3].y as int) as i64,
        z: min4_v(vs[0].z as int, vs[1].z as int, vs[2].z as int, vs[3].z as int) as i64,
    }
}

/// The componentwise maximum over four lanes of vectors.
pub open spec fn horizontal_sup_s(vs: [Vec3; 4]) -> Vec3 {
    Vec3 {
        x: max4_v(vs[0].x as int, vs[1].x as int, vs[2].x as int, vs[3].x as int) as i64,
        y: max4_v(vs[0].y as int, vs[1].y as int, vs[2].y as int, vs[3].y as int) as i64,
        z: max4_v(vs[0].z as int, vs[1].z as int, vs[2].z as int, vs[3].z as int) as i64,
    }
}

/// The least of four scalars.
pub open spec fn min4_v(a: int, b: int, c: int, d: int) -> int {
    let ab = if a <= b {
        a
    } else {
        b
    };
    let abc = if ab <= c {
        ab
    } else {
        c
    };
    if abc <= d {
        abc
    } else {
        d
    }
}

/// The greatest of four scalars.
pub open spec fn max4_v(a: int, b: int, c: int, d: int) -> int {
    let ab = if a >= b {
        a
    } else {
        b
    };
    let abc = if ab >= c {
        ab
    } else {
        c
    };
    if abc >= d {
        abc
    } else {
        d
    }
}

/// The componentwise minimum over the four lanes of a wide vector.
pub fn horizontal_inf(vs: &[Vec3; 4]) -> (r: Vec3)
    ensures
        r == horizontal_inf_s(*vs),
{
    Vec3 {
        x: crate::fx::fx_min(crate::fx::fx_min(crate::fx::fx_min(vs[0].x, vs[1].x), vs[2].x), vs[3].x),
        y: crate::fx::fx_min(crate::fx::fx_min(crate::fx::fx_min(vs[0].y, vs[1].y), vs[2].y), vs[3].y),
        z: crate::fx::fx_min(crate::fx::fx_min(crate::fx::fx_min(vs[0].z, vs[1].z), vs[2].z), vs[3].z),
    }
}

/// The componentwise maximum over the four lanes of a wide vector.
pub fn horizontal_sup(vs: &[Vec3; 4]) -> (r: Vec3)
    ensures
        r == horizontal_sup_s(*vs),
{
    Vec3 {
        x: crate::fx::fx_max(crate::fx::fx_max(crate::fx::fx_max(vs[0].x, vs[1].x), vs[2].x), vs[3].x),
        y: crate::fx::fx_max(crate::fx::fx_max(crate::fx::fx_max(vs[0].y, vs[1].y), vs[2].y), vs[3].y),
        z: crate::fx::fx_max(crate::fx::fx_max(crate::fx::fx_max(vs[0].z, vs[1].z), vs[2].z), vs[3].z),
    }
}

/// Trait to compute the orthonormal basis of a vector.
pub trait WBasis: Sized {
    /// The type of the array of orthonormal vectors.
    type Basis;

    /// Computes the vectors which, when combined with `self`, form an
    /// orthonormal basis.
    fn orthonormal_basis(self) -> Self::Basis;

    /// Computes a vector orthogonal to `self` with a unit length (if `self`
    /// has a unit length).
    fn orthonormal_vector(self) -> Self;
}

/// The sign factor of the branchless orthonormal-basis construction: one with
/// the sign of the vector's `z` component.
pub open spec fn onb_sign_s(v: Vec3) -> int {
    if v.z < 0 {
        -(FX_ONE as int)
    } else {
        FX_ONE as int
    }
}

/// The shared factor `-1 / (sign + z)` of the orthonormal-basis construction.
pub open spec fn onb_a_s(v: Vec3) -> int {
    fx_div_v(-(FX_ONE as int), fx_add_v(onb_sign_s(v), v.z as int))
}

/// The shared factor `x * y * a` of the orthonormal-basis construction.
pub open spec fn onb_b_s(v: Vec3) -> int {
    fx_mul_v(fx_mul_v(v.x as int, v.y as int), onb_a_s(v))
}

/// The second tangent of the orthonormal basis of a unit vector.
pub open spec fn onb_vector_s(v: Vec3) -> Vec3 {
    Vec3 {
        x: onb_b_s(v) as i64,
        y: fx_add_v(onb_sign_s(v), fx_mul_v(fx_mul_v(v.y as int, v.y as int), onb_a_s(v))) as i64,
        z: sat64(-(v.y as int)) as i64,
    }
}

/// The first tangent of the orthonormal basis of a unit vector.
pub open spec fn onb_tangent1_s(v: Vec3) -> Vec3 {
    Vec3 {
        x: fx_add_v(
            FX_ONE as int,
            fx_mul_v(onb_sign_s(v), fx_mul_v(fx_mul_v(v.x as int, v.x as int), onb_a_s(v))),
        ) as i64,
        y: fx_mul_v(onb_sign_s(v), onb_b_s(v)) as i64,
        z: fx_mul_v(sat64(-(onb_sign_s(v))) as i64 as int, v.x as int) as i64,
    }
}

impl WBasis for Vec3 {
    type Basis = [Vec3; 2];

    /// Branchless basis completion for a unit vector, after Pixar's
    /// orthonormal-basis construction.
    fn orthonormal_basis(self) -> (r: [Vec3; 2])
        ensures
            r[0] == onb_tangent1_s(self),
            r[1] == onb_vector_s(self),
    {
        let sign: i64 = if self.z < 0 {
            -FX_ONE
        } else {
            FX_ONE
        };
        let a = fx_div(-FX_ONE, fx_add(sign, self.z));
        let b = fx_mul(fx_mul(self.x, self.y), a);
        [
            Vec3 {
                x: fx_add(FX_ONE, fx_mul(sign, fx_mul(fx_mul(self.x, self.x), a))),
                y: fx_mul(sign, b),
                z: fx_mul(fx_neg(sign), self.x),
            },
            Vec3 {
                x: b,
                y: fx_add(sign, fx_mul(fx_mul(self.y, self.y), a)),
                z: fx_neg(self.y),
            },
        ]
    }

    fn orthonormal_vector(self) -> (r: Vec3)
        ensures
            r == onb_vector_s(self),
    {
        let sign: i64 = if self.z < 0 {
            -FX_ONE
        } else {
            FX_ONE
        };
        let a = fx_div(-FX_ONE, fx_add(sign, self.z));
        let b = fx_mul(fx_mul(self.x, self.y), a);
        Vec3 { x: b, y: fx_add(sign, fx_mul(fx_mul(self.y, self.y), a)), z: fx_neg(self.y) }
    }
}

} // verus!
