//! Fixed-point 4x4 matrices (row-major `mRC` entries, acting on column
//! vectors). Every operation is pinned down exactly by a spec function built
//! from the saturating scalar arithmetic of `fixed`.

use vstd::prelude::*;
use crate::fixed::{
    FX_ONE, fx_add, fx_add_s, fx_clamp, fx_clamp_s, fx_mul, fx_mul_s, fx_mul_wide, fx_scale_down,
    fx_scale_down_s, fx_sub, fx_sub_s, fx_wf,
};
use crate::vec::{Vec3Fx, QuatFx, vec3_wf};

verus! {

/// A 4x4 fixed-point matrix. `mRC` is the entry at row `R`, column `C`;
/// a translation sits in the last column.
#[derive(Clone, Copy, PartialEq, Eq, Structural, Debug)]
pub struct Mat4Fx {
    pub m00: i64, pub m01: i64, pub m02: i64, pub m03: i64,
    pub m10: i64, pub m11: i64, pub m12: i64, pub m13: i64,
    pub m20: i64, pub m21: i64, pub m22: i64, pub m23: i64,
    pub m30: i64, pub m31: i64, pub m32: i64, pub m33: i64,
}

pub open spec fn mat_wf(m: Mat4Fx) -> bool {
    &&& fx_wf(m.m00) && fx_wf(m.m01) && fx_wf(m.m02) && fx_wf(m.m03)
    &&& fx_wf(m.m10) && fx_wf(m.m11) && fx_wf(m.m12) && fx_wf(m.m13)
    &&& fx_wf(m.m20) && fx_wf(m.m21) && fx_wf(m.m22) && fx_wf(m.m23)
    &&& fx_wf(m.m30) && fx_wf(m.m31) && fx_wf(m.m32) && fx_wf(m.m33)
}

/// Fixed-point four-term dot product: the exact sum of products, rescaled
/// and saturated.
pub open spec fn dot4_s(a0: int, b0: int, a1: int, b1: int, a2: int, b2: int, a3: int, b3: int) -> int {
    fx_clamp_s(fx_scale_down_s(a0 * b0 + a1 * b1 + a2 * b2 + a3 * b3))
}

pub open spec fn mat_identity_s() -> Mat4Fx {
    (Mat4Fx {
        m00: FX_ONE, m01: 0i64, m02: 0i64, m03: 0i64,
        m10: 0i64, m11: FX_ONE, m12: 0i64, m13: 0i64,
        m20: 0i64, m21: 0i64, m22: FX_ONE, m23: 0i64,
        m30: 0i64, m31: 0i64, m32: 0i64, m33: FX_ONE,
    })
}

pub open spec fn mat_from_translation_s(v: Vec3Fx) -> Mat4Fx {
    (Mat4Fx {
        m00: FX_ONE, m01: 0i64, m02: 0i64, m03: v.x,
        m10: 0i64, m11: FX_ONE, m12: 0i64, m13: v.y,
        m20: 0i64, m21: 0i64, m22: FX_ONE, m23: v.z,
        m30: 0i64, m31: 0i64, m32: 0i64, m33: FX_ONE,
    })
}

pub open spec fn mat_from_scale_s(v: Vec3Fx) -> Mat4Fx {
    (Mat4Fx {
        m00: v.x, m01: 0i64, m02: 0i64, m03: 0i64,
        m10: 0i64, m11: v.y, m12: 0i64, m13: 0i64,
        m20: 0i64, m21: 0i64, m22: v.z, m23: 0i64,
        m30: 0i64, m31: 0i64, m32: 0i64, m33: FX_ONE,
    })
}

/// The rotation matrix of a quaternion, by the standard polynomial formula,
/// evaluated in saturating fixed point.
pub open spec fn mat_from_quat_s(q: QuatFx) -> Mat4Fx {
    let xx = fx_mul_s(q.x as int, q.x as int);
    let yy = fx_mul_s(q.y as int, q.y as int);
    let zz = fx_mul_s(q.z as int, q.z as int);
    let xy = fx_mul_s(q.x as int, q.y as int);
    let xz = fx_mul_s(q.x as int, q.z as int);
    let yz = fx_mul_s(q.y as int, q.z as int);
    let wx = fx_mul_s(q.w as int, q.x as int);
    let wy = fx_mul_s(q.w as int, q.y as int);
    let wz = fx_mul_s(q.w as int, q.z as int);
    (Mat4Fx {
        m00: fx_sub_s(FX_ONE as int, fx_add_s(fx_add_s(yy, yy), fx_add_s(zz, zz))) as i64,
        m01: fx_sub_s(fx_add_s(xy, xy), fx_add_s(wz, wz)) as i64,
        m02: fx_add_s(fx_add_s(xz, xz), fx_add_s(wy, wy)) as i64,
        m03: 0i64,
        m10: fx_add_s(fx_add_s(xy, xy), fx_add_s(wz, wz)) as i64,
        m11: fx_sub_s(FX_ONE as int, fx_add_s(fx_add_s(xx, xx), fx_add_s(zz, zz))) as i64,
        m12: fx_sub_s(fx_add_s(yz, yz), fx_add_s(wx, wx)) as i64,
        m13: 0i64,
        m20: fx_sub_s(fx_add_s(xz, xz), fx_add_s(wy, wy)) as i64,
        m21: fx_add_s(fx_add_s(yz, yz), fx_add_s(wx, wx)) as i64,
        m22: fx_sub_s(FX_ONE as int, fx_add_s(fx_add_s(xx, xx), fx_add_s(yy, yy))) as i64,
        m23: 0i64,
        m30: 0i64, m31: 0i64, m32: 0i64, m33: FX_ONE,
    })
}

/// Matrix product `a * b`, entry by entry.
pub open spec fn mat_mul_s(a: Mat4Fx, b: Mat4Fx) -> Mat4Fx {
    (Mat4Fx {
        m00: dot4_s(a.m00 as int, b.m00 as int, a.m01 as int, b.m10 as int, a.m02 as int, b.m20 as int, a.m03 as int, b.m30 as int) as i64,
        m01: dot4_s(a.m00 as int, b.m01 as int, a.m01 as int, b.m11 as int, a.m02 as int, b.m21 as int, a.m03 as int, b.m31 as int) as i64,
        m02: dot4_s(a.m00 as int, b.m02 as int, a.m01 as int, b.m12 as int, a.m02 as int, b.m22 as int, a.m03 as int, b.m32 as int) as i64,
        m03: dot4_s(a.m00 as int, b.m03 as int, a.m01 as int, b.m13 as int, a.m02 as int, b.m23 as int, a.m03 as int, b.m33 as int) as i64,
        m10: dot4_s(a.m10 as int, b.m00 as int, a.m11 as int, b.m10 as int, a.m12 as int, b.m20 as int, a.m13 as int, b.m30 as int) as i64,
        m11: dot4_s(a.m10 as int, b.m01 as int, a.m11 as int, b.m11 as int, a.m12 as int, b.m21 as int, a.m13 as int, b.m31 as int) as i64,
        m12: dot4_s(a.m10 as int, b.m02 as int, a.m11 as int, b.m12 as int, a.m12 as int, b.m22 as int, a.m13 as int, b.m32 as int) as i64,
        m13: dot4_s(a.m10 as int, b.m03 as int, a.m11 as int, b.m13 as int, a.m12 as int, b.m23 as int, a.m13 as int, b.m33 as int) as i64,
        m20: dot4_s(a.m20 as int, b.m00 as int, a.m21 as int, b.m10 as int, a.m22 as int, b.m20 as int, a.m23 as int, b.m30 as int) as i64,
        m21: dot4_s(a.m20 as int, b.m01 as int, a.m21 as int, b.m11 as int, a.m22 as int, b.m21 as int, a.m23 as int, b.m31 as int) as i64,
        m22: dot4_s(a.m20 as int, b.m02 as int, a.m21 as int, b.m12 as int, a.m22 as int, b.m22 as int, a.m23 as int, b.m32 as int) as i64,
        m23: dot4_s(a.m20 as int, b.m03 as int, a.m21 as int, b.m13 as int, a.m22 as int, b.m23 as int, a.m23 as int, b.m33 as int) as i64,
        m30: dot4_s(a.m30 as int, b.m00 as int, a.m31 as int, b.m10 as int, a.m32 as int, b.m20 as int, a.m33 as int, b.m30 as int) as i64,
        m31: dot4_s(a.m30 as int, b.m01 as int, a.m31 as int, b.m11 as int, a.m32 as int, b.m21 as int, a.m33 as int, b.m31 as int) as i64,
        m32: dot4_s(a.m30 as int, b.m02 as int, a.m31 as int, b.m12 as int, a.m32 as int, b.m22 as int, a.m33 as int, b.m32 as int) as i64,
        m33: dot4_s(a.m30 as int, b.m03 as int, a.m31 as int, b.m13 as int, a.m32 as int, b.m23 as int, a.m33 as int, b.m33 as int) as i64,
    })
}

/// The image of a point under the matrix (homogeneous coordinate one).
pub open spec fn mat_transform_point_s(m: Mat4Fx, v: Vec3Fx) -> Vec3Fx {
    (Vec3Fx {
        x: dot4_s(m.m00 as int, v.x as int, m.m01 as int, v.y as int, m.m02 as int, v.z as int, m.m03 as int, FX_ONE as int) as i64,
        y: dot4_s(m.m10 as int, v.x as int, m.m11 as int, v.y as int, m.m12 as int, v.z as int, m.m13 as int, FX_ONE as int) as i64,
        z: dot4_s(m.m20 as int, v.x as int, m.m21 as int, v.y as int, m.m22 as int, v.z as int, m.m23 as int, FX_ONE as int) as i64,
    })
}

/// The rotation/scale part of column `c` of `m` (`c` in 0..3).
pub open spec fn mat_col3_s(m: Mat4Fx, c: int) -> Vec3Fx {
    if c == 0 {
        (Vec3Fx { x: m.m00, y: m.m10, z: m.m20 })
    } else if c == 1 {
        (Vec3Fx { x: m.m01, y: m.m11, z: m.m21 })
    } else {
        (Vec3Fx { x: m.m02, y: m.m12, z: m.m22 })
    }
}

/// The squared length of the rotation/scale part of column `c` of `m`
/// (`c` in 0..3), as a fixed-point scalar.
pub open spec fn mat_col_len2_s(m: Mat4Fx, c: int) -> int {
    if c == 0 {
        fx_add_s(fx_add_s(fx_mul_s(m.m00 as int, m.m00 as int), fx_mul_s(m.m10 as int, m.m10 as int)), fx_mul_s(m.m20 as int, m.m20 as int))
    } else if c == 1 {
        fx_add_s(fx_add_s(fx_mul_s(m.m01 as int, m.m01 as int), fx_mul_s(m.m11 as int, m.m11 as int)), fx_mul_s(m.m21 as int, m.m21 as int))
    } else {
        fx_add_s(fx_add_s(fx_mul_s(m.m02 as int, m.m02 as int), fx_mul_s(m.m12 as int, m.m12 as int)), fx_mul_s(m.m22 as int, m.m22 as int))
    }
}

/// Fixed-point four-term dot product.
pub fn fx_dot4(a0: i64, b0: i64, a1: i64, b1: i64, a2: i64, b2: i64, a3: i64, b3: i64) -> (r: i64)
    requires
        fx_wf(a0) && fx_wf(a1) && fx_wf(a2) && fx_wf(a3),
        fx_wf(b0) && fx_wf(b1) && fx_wf(b2) && fx_wf(b3),
    ensures
        r as int == dot4_s(a0 as int, b0 as int, a1 as int, b1 as int, a2 as int, b2 as int, a3 as int, b3 as int),
        fx_wf(r),
{
    let p = fx_mul_wide(a0, b0) + fx_mul_wide(a1, b1) + fx_mul_wide(a2, b2) + fx_mul_wide(a3, b3);
    let s = fx_scale_down(p);
    fx_clamp(s)
}

impl Mat4Fx {
    /// The identity matrix.
    pub fn identity() -> (r: Mat4Fx)
        ensures
            r == mat_identity_s(),
            mat_wf(r),
    {
        Mat4Fx {
            m00: FX_ONE, m01: 0, m02: 0, m03: 0,
            m10: 0, m11: FX_ONE, m12: 0, m13: 0,
            m20: 0, m21: 0, m22: FX_ONE, m23: 0,
            m30: 0, m31: 0, m32: 0, m33: FX_ONE,
        }
    }

    /// A pure translation.
    pub fn from_translation(v: Vec3Fx) -> (r: Mat4Fx)
        ensures
            r == mat_from_translation_s(v),
            vec3_wf(v) ==> mat_wf(r),
    {
        Mat4Fx {
            m00: FX_ONE, m01: 0, m02: 0, m03: v.x,
            m10: 0, m11: FX_ONE, m12: 0, m13: v.y,
            m20: 0, m21: 0, m22: FX_ONE, m23: v.z,
            m30: 0, m31: 0, m32: 0, m33: FX_ONE,
        }
    }

    /// A pure axis-aligned scale.
    pub fn from_scale(v: Vec3Fx) -> (r: Mat4Fx)
        ensures
            r == mat_from_scale_s(v),
            vec3_wf(v) ==> mat_wf(r),
    {
        Mat4Fx {
            m00: v.x, m01: 0, m02: 0, m03: 0,
            m10: 0, m11: v.y, m12: 0, m13: 0,
            m20: 0, m21: 0, m22: v.z, m23: 0,
            m30: 0, m31: 0, m32: 0, m33: FX_ONE,
        }
    }

    /// The rotation matrix of a quaternion.
    pub fn from_quat(q: QuatFx) -> (r: Mat4Fx)
        ensures
            r == mat_from_quat_s(q),
            mat_wf(r),
    {
        let xx = fx_mul(q.x, q.x);
        let yy = fx_mul(q.y, q.y);
        let zz = fx_mul(q.z, q.z);
        let xy = fx_mul(q.x, q.y);
        let xz = fx_mul(q.x, q.z);
        let yz = fx_mul(q.y, q.z);
        let wx = fx_mul(q.w, q.x);
        let wy = fx_mul(q.w, q.y);
        let wz = fx_mul(q.w, q.z);
        Mat4Fx {
            m00: fx_sub(FX_ONE, fx_add(fx_add(yy, yy), fx_add(zz, zz))),
            m01: fx_sub(fx_add(xy, xy), fx_add(wz, wz)),
            m02: fx_add(fx_add(xz, xz), fx_add(wy, wy)),
            m03: 0,
            m10: fx_add(fx_add(xy, xy), fx_add(wz, wz)),
            m11: fx_sub(FX_ONE, fx_add(fx_add(xx, xx), fx_add(zz, zz))),
            m12: fx_sub(fx_add(yz, yz), fx_add(wx, wx)),
            m13: 0,
            m20: fx_sub(fx_add(xz, xz), fx_add(wy, wy)),
            m21: fx_add(fx_add(yz, yz), fx_add(wx, wx)),
            m22: fx_sub(FX_ONE, fx_add(fx_add(xx, xx), fx_add(yy, yy))),
            m23: 0,
            m30: 0, m31: 0, m32: 0, m33: FX_ONE,
        }
    }

    /// Matrix product `self * b`.
    pub fn mul(&self, b: &Mat4Fx) -> (r: Mat4Fx)
        requires
            mat_wf(*self),
            mat_wf(*b),
        ensures
            r == mat_mul_s(*self, *b),
            mat_wf(r),
    {
        Mat4Fx {
            m00: fx_dot4(self.m00, b.m00, self.m01, b.m10, self.m02, b.m20, self.m03, b.m30),
            m01: fx_dot4(self.m00, b.m01, self.m01, b.m11, self.m02, b.m21, self.m03, b.m31),
            m02: fx_dot4(self.m00, b.m02, self.m01, b.m12, self.m02, b.m22, self.m03, b.m32),
            m03: fx_dot4(self.m00, b.m03, self.m01, b.m13, self.m02, b.m23, self.m03, b.m33),
            m10: fx_dot4(self.m10, b.m00, self.m11, b.m10, self.m12, b.m20, self.m13, b.m30),
            m11: fx_dot4(self.m10, b.m01, self.m11, b.m11, self.m12, b.m21, self.m13, b.m31),
            m12: fx_dot4(self.m10, b.m02, self.m11, b.m12, self.m12, b.m22, self.m13, b.m32),
            m13: fx_dot4(self.m10, b.m03, self.m11, b.m13, self.m12, b.m23, self.m13, b.m33),
            m20: fx_dot4(self.m20, b.m00, self.m21, b.m10, self.m22, b.m20, self.m23, b.m30),
            m21: fx_dot4(self.m20, b.m01, self.m21, b.m11, self.m22, b.m21, self.m23, b.m31),
            m22: fx_dot4(self.m20, b.m02, self.m21, b.m12, self.m22, b.m22, self.m23, b.m32),
            m23: fx_dot4(self.m20, b.m03, self.m21, b.m13, self.m22, b.m23, self.m23, b.m33),
            m30: fx_dot4(self.m30, b.m00, self.m31, b.m10, self.m32, b.m20, self.m33, b.m30),
            m31: fx_dot4(self.m30, b.m01, self.m31, b.m11, self.m32, b.m21, self.m33, b.m31),
            m32: fx_dot4(self.m30, b.m02, self.m31, b.m12, self.m32, b.m22, self.m33, b.m32),
            m33: fx_dot4(self.m30, b.m03, self.m31, b.m13, self.m32, b.m23, self.m33, b.m33),
        }
    }

    /// The image of a point under this matrix.
    pub fn transform_point(&self, v: Vec3Fx) -> (r: Vec3Fx)
        requires
            mat_wf(*self),
            vec3_wf(v),
        ensures
            r == mat_transform_point_s(*self, v),
            vec3_wf(r),
    {
        Vec3Fx {
            x: fx_dot4(self.m00, v.x, self.m01, v.y, self.m02, v.z, self.m03, FX_ONE),
            y: fx_dot4(self.m10, v.x, self.m11, v.y, self.m12, v.z, self.m13, FX_ONE),
            z: fx_dot4(self.m20, v.x, self.m21, v.y, self.m22, v.z, self.m23, FX_ONE),
        }
    }

    /// The rotation/scale part of a column (0 to 2) as a vector.
    pub fn col3(&self, c: usize) -> (r: Vec3Fx)
        requires
            mat_wf(*self),
            c < 3,
        ensures
            r == mat_col3_s(*self, c as int),
            vec3_wf(r),
    {
        if c == 0 {
            Vec3Fx { x: self.m00, y: self.m10, z: self.m20 }
        } else if c == 1 {
            Vec3Fx { x: self.m01, y: self.m11, z: self.m21 }
        } else {
            Vec3Fx { x: self.m02, y: self.m12, z: self.m22 }
        }
    }

    /// The squared length of the rotation/scale part of a column (0 to 2).
    pub fn col_len2(&self, c: usize) -> (r: i64)
        requires
            mat_wf(*self),
            c < 3,
        ensures
            r as int == mat_col_len2_s(*self, c as int),
            fx_wf(r),
    {
        if c == 0 {
            fx_add(fx_add(fx_mul(self.m00, self.m00), fx_mul(self.m10, self.m10)), fx_mul(self.m20, self.m20))
        } else if c == 1 {
            fx_add(fx_add(fx_mul(self.m01, self.m01), fx_mul(self.m11, self.m11)), fx_mul(self.m21, self.m21))
        } else {
            fx_add(fx_add(fx_mul(self.m02, self.m02), fx_mul(self.m12, self.m12)), fx_mul(self.m22, self.m22))
        }
    }
}

/// Multiplying a well-formed matrix by the identity on the left returns it
/// unchanged: each entry is an exact product by `FX_ONE`, whose rescale is
/// exact.
pub proof fn lemma_mul_identity_left(m: Mat4Fx)
    requires
        mat_wf(m),
    ensures
        mat_mul_s(mat_identity_s(), m) == m,
{
    lemma_scale_identity(m.m00 as int);
    lemma_scale_identity(m.m01 as int);
    lemma_scale_identity(m.m02 as int);
    lemma_scale_identity(m.m03 as int);
    lemma_scale_identity(m.m10 as int);
    lemma_scale_identity(m.m11 as int);
    lemma_scale_identity(m.m12 as int);
    lemma_scale_identity(m.m13 as int);
    lemma_scale_identity(m.m20 as int);
    lemma_scale_identity(m.m21 as int);
    lemma_scale_identity(m.m22 as int);
    lemma_scale_identity(m.m23 as int);
    lemma_scale_identity(m.m30 as int);
    lemma_scale_identity(m.m31 as int);
    lemma_scale_identity(m.m32 as int);
    lemma_scale_identity(m.m33 as int);
}

/// Scaling a value by `FX_ONE` and rescaling gives it back.
pub proof fn lemma_scale_identity(x: int)
    requires
        -(crate::fixed::FX_MAX as int) <= x <= crate::fixed::FX_MAX as int,
    ensures
        fx_clamp_s(fx_scale_down_s((FX_ONE as int) * x)) == x,
        fx_clamp_s(fx_scale_down_s(x * (FX_ONE as int))) == x,
{
    vstd::arithmetic::div_mod::lemma_div_multiples_vanish(x, FX_ONE as int);
    assert(x * (FX_ONE as int) == (FX_ONE as int) * x);
}

} // verus!
