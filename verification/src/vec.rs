//! Fixed-point vectors and quaternions.

use vstd::prelude::*;
use crate::fixed::{
    FX_ONE, fx_add, fx_add_s, fx_clamp, fx_lerp, fx_lerp_s, fx_mul, fx_mul_s, fx_mul_wide,
    fx_scale_down, fx_scale_down_s, fx_clamp_s, fx_sub, fx_sub_s, fx_wf,
};

verus! {

/// A two-component fixed-point vector (screen positions, texture coordinates).
#[derive(Clone, Copy, PartialEq, Eq, Structural, Debug)]
pub struct Vec2Fx {
    pub x: i64,
    pub y: i64,
}

/// A three-component fixed-point vector.
#[derive(Clone, Copy, PartialEq, Eq, Structural, Debug)]
pub struct Vec3Fx {
    pub x: i64,
    pub y: i64,
    pub z: i64,
}

/// A four-component fixed-point vector (colors).
#[derive(Clone, Copy, PartialEq, Eq, Structural, Debug)]
pub struct Vec4Fx {
    pub x: i64,
    pub y: i64,
    pub z: i64,
    pub w: i64,
}

/// A fixed-point quaternion.
#[derive(Clone, Copy, PartialEq, Eq, Structural, Debug)]
pub struct QuatFx {
    pub x: i64,
    pub y: i64,
    pub z: i64,
    pub w: i64,
}

pub open spec fn vec2_wf(v: Vec2Fx) -> bool {
    fx_wf(v.x) && fx_wf(v.y)
}

pub open spec fn vec3_wf(v: Vec3Fx) -> bool {
    fx_wf(v.x) && fx_wf(v.y) && fx_wf(v.z)
}

pub open spec fn vec4_wf(v: Vec4Fx) -> bool {
    fx_wf(v.x) && fx_wf(v.y) && fx_wf(v.z) && fx_wf(v.w)
}

pub open spec fn quat_wf(q: QuatFx) -> bool {
    fx_wf(q.x) && fx_wf(q.y) && fx_wf(q.z) && fx_wf(q.w)
}

pub open spec fn vec3_add_s(a: Vec3Fx, b: Vec3Fx) -> Vec3Fx {
    (Vec3Fx {
        x: fx_add_s(a.x as int, b.x as int) as i64,
        y: fx_add_s(a.y as int, b.y as int) as i64,
        z: fx_add_s(a.z as int, b.z as int) as i64,
    })
}

pub open spec fn vec3_sub_s(a: Vec3Fx, b: Vec3Fx) -> Vec3Fx {
    (Vec3Fx {
        x: fx_sub_s(a.x as int, b.x as int) as i64,
        y: fx_sub_s(a.y as int, b.y as int) as i64,
        z: fx_sub_s(a.z as int, b.z as int) as i64,
    })
}

pub open spec fn vec3_scale_s(a: Vec3Fx, k: int) -> Vec3Fx {
    (Vec3Fx {
        x: fx_mul_s(a.x as int, k) as i64,
        y: fx_mul_s(a.y as int, k) as i64,
        z: fx_mul_s(a.z as int, k) as i64,
    })
}

/// Fixed-point dot product: the exact integer dot product, rescaled and
/// saturated.
pub open spec fn vec3_dot_s(a: Vec3Fx, b: Vec3Fx) -> int {
    fx_clamp_s(fx_scale_down_s(
        a.x as int * b.x as int + a.y as int * b.y as int + a.z as int * b.z as int,
    ))
}

pub open spec fn vec3_cross_s(a: Vec3Fx, b: Vec3Fx) -> Vec3Fx {
    (Vec3Fx {
        x: fx_clamp_s(fx_scale_down_s(a.y as int * b.z as int - a.z as int * b.y as int)) as i64,
        y: fx_clamp_s(fx_scale_down_s(a.z as int * b.x as int - a.x as int * b.z as int)) as i64,
        z: fx_clamp_s(fx_scale_down_s(a.x as int * b.y as int - a.y as int * b.x as int)) as i64,
    })
}

/// Component-wise saturating fixed-point product.
pub open spec fn vec3_mul_s(a: Vec3Fx, b: Vec3Fx) -> Vec3Fx {
    (Vec3Fx {
        x: fx_mul_s(a.x as int, b.x as int) as i64,
        y: fx_mul_s(a.y as int, b.y as int) as i64,
        z: fx_mul_s(a.z as int, b.z as int) as i64,
    })
}

pub open spec fn quat_add_s(a: QuatFx, b: QuatFx) -> QuatFx {
    (QuatFx {
        x: fx_add_s(a.x as int, b.x as int) as i64,
        y: fx_add_s(a.y as int, b.y as int) as i64,
        z: fx_add_s(a.z as int, b.z as int) as i64,
        w: fx_add_s(a.w as int, b.w as int) as i64,
    })
}

pub open spec fn vec3_neg_s(a: Vec3Fx) -> Vec3Fx {
    (Vec3Fx {
        x: fx_sub_s(0, a.x as int) as i64,
        y: fx_sub_s(0, a.y as int) as i64,
        z: fx_sub_s(0, a.z as int) as i64,
    })
}

pub open spec fn vec3_lerp_s(a: Vec3Fx, b: Vec3Fx, f: int) -> Vec3Fx {
    (Vec3Fx {
        x: fx_lerp_s(a.x as int, b.x as int, f) as i64,
        y: fx_lerp_s(a.y as int, b.y as int, f) as i64,
        z: fx_lerp_s(a.z as int, b.z as int, f) as i64,
    })
}

pub open spec fn quat_lerp_s(a: QuatFx, b: QuatFx, f: int) -> QuatFx {
    (QuatFx {
        x: fx_lerp_s(a.x as int, b.x as int, f) as i64,
        y: fx_lerp_s(a.y as int, b.y as int, f) as i64,
        z: fx_lerp_s(a.z as int, b.z as int, f) as i64,
        w: fx_lerp_s(a.w as int, b.w as int, f) as i64,
    })
}

impl Vec3Fx {
    pub fn new(x: i64, y: i64, z: i64) -> (r: Vec3Fx)
        ensures
            r == (Vec3Fx { x, y, z }),
    {
        Vec3Fx { x, y, z }
    }

    /// The zero vector.
    pub fn zero() -> (r: Vec3Fx)
        ensures
            r == (Vec3Fx { x: 0i64, y: 0i64, z: 0i64 }),
    {
        Vec3Fx { x: 0, y: 0, z: 0 }
    }

    /// The all-ones vector (one world unit on each axis).
    pub fn one() -> (r: Vec3Fx)
        ensures
            r == (Vec3Fx { x: FX_ONE, y: FX_ONE, z: FX_ONE }),
    {
        Vec3Fx { x: FX_ONE, y: FX_ONE, z: FX_ONE }
    }

    /// Saturating component-wise sum.
    pub fn add(self, b: Vec3Fx) -> (r: Vec3Fx)
        ensures
            r == vec3_add_s(self, b),
            vec3_wf(r),
    {
        Vec3Fx { x: fx_add(self.x, b.x), y: fx_add(self.y, b.y), z: fx_add(self.z, b.z) }
    }

    /// Saturating component-wise difference.
    pub fn sub(self, b: Vec3Fx) -> (r: Vec3Fx)
        ensures
            r == vec3_sub_s(self, b),
            vec3_wf(r),
    {
        Vec3Fx { x: fx_sub(self.x, b.x), y: fx_sub(self.y, b.y), z: fx_sub(self.z, b.z) }
    }

    /// Saturating multiplication of each component by a scalar.
    pub fn scale(self, k: i64) -> (r: Vec3Fx)
        ensures
            r == vec3_scale_s(self, k as int),
            vec3_wf(r),
    {
        Vec3Fx { x: fx_mul(self.x, k), y: fx_mul(self.y, k), z: fx_mul(self.z, k) }
    }

    /// Component-wise saturating fixed-point product.
    pub fn mul(self, b: Vec3Fx) -> (r: Vec3Fx)
        ensures
            r == vec3_mul_s(self, b),
            vec3_wf(r),
    {
        Vec3Fx { x: fx_mul(self.x, b.x), y: fx_mul(self.y, b.y), z: fx_mul(self.z, b.z) }
    }

    /// Component-wise negation.
    pub fn neg(self) -> (r: Vec3Fx)
        ensures
            r == vec3_neg_s(self),
            vec3_wf(r),
    {
        Vec3Fx { x: fx_sub(0, self.x), y: fx_sub(0, self.y), z: fx_sub(0, self.z) }
    }

    /// Fixed-point dot product.
    pub fn dot(self, b: Vec3Fx) -> (r: i64)
        requires
            vec3_wf(self),
            vec3_wf(b),
        ensures
            r as int == vec3_dot_s(self, b),
            fx_wf(r),
    {
        let p = fx_mul_wide(self.x, b.x) + fx_mul_wide(self.y, b.y) + fx_mul_wide(self.z, b.z);
        let s = fx_scale_down(p);
        fx_clamp(s)
    }

    /// Fixed-point cross product.
    pub fn cross(self, b: Vec3Fx) -> (r: Vec3Fx)
        requires
            vec3_wf(self),
            vec3_wf(b),
        ensures
            r == vec3_cross_s(self, b),
            vec3_wf(r),
    {
        let x = fx_clamp(fx_scale_down(fx_mul_wide(self.y, b.z) - fx_mul_wide(self.z, b.y)));
        let y = fx_clamp(fx_scale_down(fx_mul_wide(self.z, b.x) - fx_mul_wide(self.x, b.z)));
        let z = fx_clamp(fx_scale_down(fx_mul_wide(self.x, b.y) - fx_mul_wide(self.y, b.x)));
        Vec3Fx { x, y, z }
    }

    /// Component-wise linear interpolation towards `b` by factor `f`.
    pub fn lerp(self, b: Vec3Fx, f: i64) -> (r: Vec3Fx)
        ensures
            r == vec3_lerp_s(self, b, f as int),
            vec3_wf(r),
    {
        Vec3Fx { x: fx_lerp(self.x, b.x, f), y: fx_lerp(self.y, b.y, f), z: fx_lerp(self.z, b.z, f) }
    }
}

impl QuatFx {
    pub fn new(x: i64, y: i64, z: i64, w: i64) -> (r: QuatFx)
        ensures
            r == (QuatFx { x, y, z, w }),
    {
        QuatFx { x, y, z, w }
    }

    /// The identity rotation.
    pub fn identity() -> (r: QuatFx)
        ensures
            r == (QuatFx { x: 0i64, y: 0i64, z: 0i64, w: FX_ONE }),
    {
        QuatFx { x: 0, y: 0, z: 0, w: FX_ONE }
    }

    /// Component-wise saturating sum.
    pub fn add(self, b: QuatFx) -> (r: QuatFx)
        ensures
            r == quat_add_s(self, b),
            quat_wf(r),
    {
        QuatFx {
            x: fx_add(self.x, b.x),
            y: fx_add(self.y, b.y),
            z: fx_add(self.z, b.z),
            w: fx_add(self.w, b.w),
        }
    }

    /// Component-wise linear interpolation towards `b` by factor `f`.
    ///
    /// Rotation channels interpolate each quaternion component linearly; the
    /// endpoints are met exactly, which is what the contracts downstream rely
    /// on.
    pub fn lerp(self, b: QuatFx, f: i64) -> (r: QuatFx)
        ensures
            r == quat_lerp_s(self, b, f as int),
            quat_wf(r),
    {
        QuatFx {
            x: fx_lerp(self.x, b.x, f),
            y: fx_lerp(self.y, b.y, f),
            z: fx_lerp(self.z, b.z, f),
            w: fx_lerp(self.w, b.w, f),
        }
    }
}

impl Vec2Fx {
    pub fn new(x: i64, y: i64) -> (r: Vec2Fx)
        ensures
            r == (Vec2Fx { x, y }),
    {
        Vec2Fx { x, y }
    }
}

impl Vec4Fx {
    pub fn new(x: i64, y: i64, z: i64, w: i64) -> (r: Vec4Fx)
        ensures
            r == (Vec4Fx { x, y, z, w }),
    {
        Vec4Fx { x, y, z, w }
    }

    /// The all-ones vector (opaque white as a color).
    pub fn one() -> (r: Vec4Fx)
        ensures
            r == (Vec4Fx { x: FX_ONE, y: FX_ONE, z: FX_ONE, w: FX_ONE }),
    {
        Vec4Fx { x: FX_ONE, y: FX_ONE, z: FX_ONE, w: FX_ONE }
    }
}

} // verus!
