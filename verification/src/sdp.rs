//! Operations on symmetric positive-definite 3x3 matrices: world
//! inverse-inertia tensors and their square-root factorizations. The inverse
//! of a singular matrix is the zero matrix, so a degenerate inertia
//! contributes nothing to an effective mass.

use vstd::prelude::*;

use crate::fx::{
    fx_add, fx_add_v, fx_div, fx_div_v, fx_mul, fx_mul_v, fx_neg, fx_sub, fx_sub_v, sat64,
};
use crate::vect::{dot3, dot3_v, Mat3, SdpMat3, Vec3};

verus! {

/// The exact minor `m22*m33 - m23*m23` of a symmetric matrix.
pub open spec fn sdp_minor_m12_m23_s(m: SdpMat3) -> int {
    fx_sub_v(fx_mul_v(m.m22 as int, m.m33 as int), fx_mul_v(m.m23 as int, m.m23 as int))
}

/// The exact minor `m12*m33 - m13*m23` of a symmetric matrix.
pub open spec fn sdp_minor_m11_m23_s(m: SdpMat3) -> int {
    fx_sub_v(fx_mul_v(m.m12 as int, m.m33 as int), fx_mul_v(m.m13 as int, m.m23 as int))
}

/// The exact minor `m12*m23 - m13*m22` of a symmetric matrix.
pub open spec fn sdp_minor_m11_m22_s(m: SdpMat3) -> int {
    fx_sub_v(fx_mul_v(m.m12 as int, m.m23 as int), fx_mul_v(m.m13 as int, m.m22 as int))
}

/// The exact determinant of a symmetric matrix, expanded along its first row.
pub open spec fn sdp_determinant_s(m: SdpMat3) -> int {
    fx_add_v(
        fx_sub_v(
            fx_mul_v(m.m11 as int, sdp_minor_m12_m23_s(m)),
            fx_mul_v(m.m12 as int, sdp_minor_m11_m23_s(m)),
        ),
        fx_mul_v(m.m13 as int, sdp_minor_m11_m22_s(m)),
    )
}

/// The exact inverse of a symmetric matrix by cofactor expansion; the zero
/// matrix when the determinant is zero.
pub open spec fn sdp_inverse_s(m: SdpMat3) -> SdpMat3 {
    let det = sdp_determinant_s(m);
    if det == 0 {
        SdpMat3 { m11: 0i64, m12: 0i64, m13: 0i64, m22: 0i64, m23: 0i64, m33: 0i64 }
    } else {
        SdpMat3 {
            m11: fx_div_v(sdp_minor_m12_m23_s(m), det) as i64,
            m12: fx_div_v(sat64(-sdp_minor_m11_m23_s(m)), det) as i64,
            m13: fx_div_v(sdp_minor_m11_m22_s(m), det) as i64,
            m22: fx_div_v(
                fx_sub_v(fx_mul_v(m.m11 as int, m.m33 as int), fx_mul_v(m.m13 as int, m.m13 as int)),
                det,
            ) as i64,
            m23: fx_div_v(
                fx_sub_v(fx_mul_v(m.m13 as int, m.m12 as int), fx_mul_v(m.m23 as int, m.m11 as int)),
                det,
            ) as i64,
            m33: fx_div_v(
                fx_sub_v(fx_mul_v(m.m11 as int, m.m22 as int), fx_mul_v(m.m12 as int, m.m12 as int)),
                det,
            ) as i64,
        }
    }
}

/// The exact image of a vector under a symmetric matrix.
pub open spec fn sdp_transform_s(m: SdpMat3, v: Vec3) -> Vec3 {
    Vec3 {
        x: dot3_v(m.m11 as int, m.m12 as int, m.m13 as int, v.x as int, v.y as int, v.z as int) as i64,
        y: dot3_v(m.m12 as int, m.m22 as int, m.m23 as int, v.x as int, v.y as int, v.z as int) as i64,
        z: dot3_v(m.m13 as int, m.m23 as int, m.m33 as int, v.x as int, v.y as int, v.z as int) as i64,
    }
}

/// The exact square `m * m` of a symmetric matrix, which is symmetric again.
pub open spec fn sdp_squared_s(m: SdpMat3) -> SdpMat3 {
    SdpMat3 {
        m11: dot3_v(m.m11 as int, m.m12 as int, m.m13 as int, m.m11 as int, m.m12 as int, m.m13 as int) as i64,
        m12: dot3_v(m.m11 as int, m.m12 as int, m.m13 as int, m.m12 as int, m.m22 as int, m.m23 as int) as i64,
        m13: dot3_v(m.m11 as int, m.m12 as int, m.m13 as int, m.m13 as int, m.m23 as int, m.m33 as int) as i64,
        m22: dot3_v(m.m12 as int, m.m22 as int, m.m23 as int, m.m12 as int, m.m22 as int, m.m23 as int) as i64,
        m23: dot3_v(m.m12 as int, m.m22 as int, m.m23 as int, m.m13 as int, m.m23 as int, m.m33 as int) as i64,
        m33: dot3_v(m.m13 as int, m.m23 as int, m.m33 as int, m.m13 as int, m.m23 as int, m.m33 as int) as i64,
    }
}

/// The symmetric matrix written out as a full square matrix.
pub open spec fn sdp_into_matrix_s(m: SdpMat3) -> Mat3 {
    Mat3 {
        m11: m.m11,
        m12: m.m12,
        m13: m.m13,
        m21: m.m12,
        m22: m.m22,
        m23: m.m23,
        m31: m.m13,
        m32: m.m23,
        m33: m.m33,
    }
}

impl SdpMat3 {
    /// The zero matrix.
    pub fn zero() -> (r: SdpMat3)
        ensures
            r == (SdpMat3 { m11: 0i64, m12: 0i64, m13: 0i64, m22: 0i64, m23: 0i64, m33: 0i64 }),
    {
        SdpMat3 { m11: 0, m12: 0, m13: 0, m22: 0, m23: 0, m33: 0 }
    }

    /// The matrix with `elt` on the diagonal and zero elsewhere.
    pub fn from_diagonal_element(elt: i64) -> (r: SdpMat3)
        ensures
            r == (SdpMat3 { m11: elt, m12: 0i64, m13: 0i64, m22: elt, m23: 0i64, m33: elt }),
    {
        SdpMat3 { m11: elt, m12: 0, m13: 0, m22: elt, m23: 0, m33: elt }
    }

    /// Inverse by cofactor expansion; the zero matrix when this matrix is
    /// singular, so that a degenerate inertia contributes nothing.
    pub fn inverse(&self) -> (r: SdpMat3)
        ensures
            r == sdp_inverse_s(*self),
    {
        let minor_m12_m23 = fx_sub(fx_mul(self.m22, self.m33), fx_mul(self.m23, self.m23));
        let minor_m11_m23 = fx_sub(fx_mul(self.m12, self.m33), fx_mul(self.m13, self.m23));
        let minor_m11_m22 = fx_sub(fx_mul(self.m12, self.m23), fx_mul(self.m13, self.m22));

        let determinant = fx_add(
            fx_sub(fx_mul(self.m11, minor_m12_m23), fx_mul(self.m12, minor_m11_m23)),
            fx_mul(self.m13, minor_m11_m22),
        );

        if determinant == 0 {
            SdpMat3::zero()
        } else {
            SdpMat3 {
                m11: fx_div(minor_m12_m23, determinant),
                m12: fx_div(fx_neg(minor_m11_m23), determinant),
                m13: fx_div(minor_m11_m22, determinant),
                m22: fx_div(
                    fx_sub(fx_mul(self.m11, self.m33), fx_mul(self.m13, self.m13)),
                    determinant,
                ),
                m23: fx_div(
                    fx_sub(fx_mul(self.m13, self.m12), fx_mul(self.m23, self.m11)),
                    determinant,
                ),
                m33: fx_div(
                    fx_sub(fx_mul(self.m11, self.m22), fx_mul(self.m12, self.m12)),
                    determinant,
                ),
            }
        }
    }

    /// The square `m * m`, symmetric again.
    pub fn squared(&self) -> (r: SdpMat3)
        ensures
            r == sdp_squared_s(*self),
    {
        SdpMat3 {
            m11: dot3(self.m11, self.m12, self.m13, self.m11, self.m12, self.m13),
            m12: dot3(self.m11, self.m12, self.m13, self.m12, self.m22, self.m23),
            m13: dot3(self.m11, self.m12, self.m13, self.m13, self.m23, self.m33),
            m22: dot3(self.m12, self.m22, self.m23, self.m12, self.m22, self.m23),
            m23: dot3(self.m12, self.m22, self.m23, self.m13, self.m23, self.m33),
            m33: dot3(self.m13, self.m23, self.m33, self.m13, self.m23, self.m33),
        }
    }

    /// The image of a vector under this matrix.
    pub fn transform_vector(&self, v: Vec3) -> (r: Vec3)
        ensures
            r == sdp_transform_s(*self, v),
    {
        Vec3 {
            x: dot3(self.m11, self.m12, self.m13, v.x, v.y, v.z),
            y: dot3(self.m12, self.m22, self.m23, v.x, v.y, v.z),
            z: dot3(self.m13, self.m23, self.m33, v.x, v.y, v.z),
        }
    }

    /// The image of a linear-velocity vector; identical to `transform_vector`
    /// for a 3-dimensional world.
    pub fn transform_lin_vector(&self, v: Vec3) -> (r: Vec3)
        ensures
            r == sdp_transform_s(*self, v),
    {
        self.transform_vector(v)
    }

    /// This matrix written out as a full square matrix.
    pub fn into_matrix(self) -> (r: Mat3)
        ensures
            r == sdp_into_matrix_s(self),
    {
        Mat3 {
            m11: self.m11,
            m12: self.m12,
            m13: self.m13,
            m21: self.m12,
            m22: self.m22,
            m23: self.m23,
            m31: self.m13,
            m32: self.m23,
            m33: self.m33,
        }
    }

    /// The product of this symmetric matrix with a full square matrix.
    pub fn transform_matrix(&self, m: &Mat3) -> (r: Mat3)
        ensures
            r == crate::vect::m3_mul_s(sdp_into_matrix_s(*self), *m),
    {
        self.into_matrix().mul(*m)
    }
}

} // verus!
