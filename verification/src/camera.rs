//! The camera: position, orthonormal basis, Euler angles, and the view and
//! projection matrices.
//!
//! Trigonometry does not exist in fixed point, so the parts of the camera
//! that need it are split off: this module owns the exact arithmetic (angle
//! accumulation, view matrix from a given basis, projection from given
//! coefficients), while the caller recomputes the basis vectors from the
//! angles and hands them back through `set_orientation`.

use vstd::prelude::*;
use crate::fixed::{FX_ONE, fx_wf, fx_sub_s, div_floor_wide, fx_clamp, fx_clamp_s};
use crate::vec::{Vec2Fx, Vec3Fx, vec3_wf, vec3_add_s, vec3_scale_s, vec3_cross_s, vec3_dot_s,
    vec3_neg_s};
use crate::mat4::{Mat4Fx, mat_wf};

verus! {

/// The projection family a camera uses.
pub enum ProjectionType {
    Perspective,
    Orthographic,
}

/// A camera with an explicit orthonormal basis.
#[derive(Clone, Copy, PartialEq, Eq, Structural, Debug)]
pub struct Camera {
    pub proj: Mat4Fx,
    pub view: Mat4Fx,
    pub pos: Vec3Fx,
    pub right: Vec3Fx,
    pub front: Vec3Fx,
    pub up: Vec3Fx,
    pub pitch: i64,
    pub yaw: i64,
    pub speed: i64,
    pub dt: i64,
    pub first_mouse: bool,
    pub last_x: i64,
    pub last_y: i64,
}

pub open spec fn camera_wf(c: Camera) -> bool {
    &&& mat_wf(c.proj)
    &&& mat_wf(c.view)
    &&& vec3_wf(c.pos)
    &&& vec3_wf(c.right)
    &&& vec3_wf(c.front)
    &&& vec3_wf(c.up)
    &&& fx_wf(c.pitch)
    &&& fx_wf(c.yaw)
}

/// The right-handed look-at view matrix for an eye position and a basis that
/// is already orthonormal: rows are the side, up and negated front vectors,
/// with translations that bring the eye to the origin.
pub open spec fn look_at_s(eye: Vec3Fx, front: Vec3Fx, up: Vec3Fx) -> Mat4Fx {
    let s = vec3_cross_s(front, up);
    let u = vec3_cross_s(s, front);
    let nf = vec3_neg_s(front);
    (Mat4Fx {
        m00: s.x, m01: s.y, m02: s.z, m03: fx_sub_s(0, vec3_dot_s(s, eye)) as i64,
        m10: u.x, m11: u.y, m12: u.z, m13: fx_sub_s(0, vec3_dot_s(u, eye)) as i64,
        m20: nf.x, m21: nf.y, m22: nf.z, m23: vec3_dot_s(front, eye) as i64,
        m30: 0i64, m31: 0i64, m32: 0i64, m33: FX_ONE,
    })
}

/// Compute the right-handed look-at view matrix for a camera basis.
pub fn look_at(eye: Vec3Fx, front: Vec3Fx, up: Vec3Fx) -> (r: Mat4Fx)
    requires
        vec3_wf(eye),
        vec3_wf(front),
        vec3_wf(up),
    ensures
        r == look_at_s(eye, front, up),
        mat_wf(r),
{
    let s = front.cross(up);
    let u = s.cross(front);
    let nf = front.neg();
    let tx = crate::fixed::fx_sub(0, s.dot(eye));
    let ty = crate::fixed::fx_sub(0, u.dot(eye));
    let tz = front.dot(eye);
    Mat4Fx {
        m00: s.x, m01: s.y, m02: s.z, m03: tx,
        m10: u.x, m11: u.y, m12: u.z, m13: ty,
        m20: nf.x, m21: nf.y, m22: nf.z, m23: tz,
        m30: 0, m31: 0, m32: 0, m33: FX_ONE,
    }
}

impl Camera {
    /// A camera three units behind the origin, looking down the negative z
    /// axis. At yaw -90 degrees and pitch 0 the basis vectors are exact unit
    /// axes (right-handed: right is the positive x axis), so no trigonometry
    /// is needed to establish them.
    pub fn new() -> (r: Camera)
        ensures
            camera_wf(r),
            r.pos == (Vec3Fx { x: 0i64, y: 0i64, z: (3 * FX_ONE) as i64 }),
            r.front == (Vec3Fx { x: 0i64, y: 0i64, z: (-FX_ONE) as i64 }),
            r.right == (Vec3Fx { x: FX_ONE, y: 0i64, z: 0i64 }),
            r.up == (Vec3Fx { x: 0i64, y: FX_ONE, z: 0i64 }),
            r.view == look_at_s(r.pos, r.front, r.up),
            r.pitch == 0,
            r.yaw == -90 * FX_ONE,
    {
        let pos = Vec3Fx::new(0, 0, 3 * FX_ONE);
        let front = Vec3Fx::new(0, 0, -FX_ONE);
        let up_axis = Vec3Fx::new(0, FX_ONE, 0);
        let right = front.cross(up_axis);
        let up = right.cross(front);
        let view = look_at(pos, front, up);
        Camera {
            proj: Mat4Fx::identity(),
            view,
            pos,
            right,
            front,
            up,
            pitch: 0,
            yaw: -90 * FX_ONE,
            speed: FX_ONE,
            dt: 0,
            first_mouse: true,
            last_x: 400 * FX_ONE,
            last_y: 400 * FX_ONE,
        }
    }

    /// Move the camera to `y` and rebuild the view matrix from the current
    /// basis.
    pub fn update(&mut self, y: Vec3Fx)
        requires
            camera_wf(*old(self)),
            vec3_wf(y),
        ensures
            camera_wf(*final(self)),
            *final(self) == (Camera {
                pos: y,
                view: look_at_s(y, old(self).front, old(self).up),
                ..*old(self)
            }),
    {
        self.pos = y;
        self.view = look_at(self.pos, self.front, self.up);
    }

    /// Displace the camera along a direction by `amount` and rebuild the
    /// view matrix; the caller supplies the (unit) direction.
    pub fn advance(&mut self, direction: Vec3Fx, amount: i64)
        requires
            camera_wf(*old(self)),
            vec3_wf(direction),
        ensures
            camera_wf(*final(self)),
            *final(self) == (Camera {
                pos: vec3_add_s(old(self).pos, vec3_scale_s(direction, amount as int)),
                view: look_at_s(
                    vec3_add_s(old(self).pos, vec3_scale_s(direction, amount as int)),
                    old(self).front,
                    old(self).up,
                ),
                ..*old(self)
            }),
    {
        let pos = self.pos.add(direction.scale(amount));
        self.pos = pos;
        self.view = look_at(self.pos, self.front, self.up);
    }

    /// Accumulate a mouse movement into the yaw and pitch angles, at a tenth
    /// of a degree of angle per unit of cursor travel. The caller recomputes
    /// the basis vectors from the angles afterwards (that takes
    /// trigonometry) and hands them back through `set_orientation`.
    pub fn mouse_callback(&mut self, pos: Vec2Fx, cursor_disabled: bool)
        requires
            camera_wf(*old(self)),
            fx_wf(pos.x),
            fx_wf(pos.y),
        ensures
            camera_wf(*final(self)),
            final(self).pos == old(self).pos && final(self).front == old(self).front,
            !cursor_disabled || (old(self).first_mouse && cursor_disabled) ==> final(self).yaw
                == old(self).yaw && final(self).pitch == old(self).pitch,
            cursor_disabled && !old(self).first_mouse ==> {
                &&& final(self).yaw == fx_clamp_s(
                    old(self).yaw + (pos.x - old(self).last_x) as int / 10,
                )
                &&& final(self).pitch == fx_clamp_s(
                    old(self).pitch + (pos.y - old(self).last_y) as int / 10,
                )
            },
            final(self).last_x == pos.x && final(self).last_y == pos.y,
    {
        let xpos = pos.x;
        let ypos = pos.y;
        if !cursor_disabled {
            self.first_mouse = true;
        }
        if self.first_mouse {
            self.last_x = xpos;
            self.last_y = ypos;
            self.first_mouse = false;
            return ;
        }
        let xoffs = div_floor_wide((xpos as i128) - (self.last_x as i128), 10);
        let yoffs = div_floor_wide((ypos as i128) - (self.last_y as i128), 10);
        self.last_x = xpos;
        self.last_y = ypos;
        self.yaw = fx_clamp((self.yaw as i128) + xoffs);
        self.pitch = fx_clamp((self.pitch as i128) + yoffs);
    }

    /// Install a basis recomputed from the angles (by the caller, outside
    /// this crate) and rebuild the view matrix.
    pub fn set_orientation(&mut self, front: Vec3Fx, right: Vec3Fx, up: Vec3Fx)
        requires
            camera_wf(*old(self)),
            vec3_wf(front),
            vec3_wf(right),
            vec3_wf(up),
        ensures
            camera_wf(*final(self)),
            *final(self) == (Camera {
                front,
                right,
                up,
                view: look_at_s(old(self).pos, front, up),
                ..*old(self)
            }),
    {
        self.front = front;
        self.right = right;
        self.up = up;
        self.view = look_at(self.pos, self.front, self.up);
    }

    /// Select the projection matrix. The perspective coefficients are the
    /// fixed-point renderings of a 70-degree vertical field of view at
    /// aspect one between 0.1 and 10000; the orthographic ones map the
    /// [-1, 1] x [-1, 1] x [-100, 100] box.
    pub fn set_projection(&mut self, projection_type: ProjectionType)
        requires
            camera_wf(*old(self)),
        ensures
            camera_wf(*final(self)),
            final(self).view == old(self).view && final(self).pos == old(self).pos,
            final(self).front == old(self).front && final(self).right == old(self).right
                && final(self).up == old(self).up,
            match projection_type {
                ProjectionType::Perspective => final(self).proj == (Mat4Fx {
                    m00: 1462i64, m01: 0i64, m02: 0i64, m03: 0i64,
                    m10: 0i64, m11: 1462i64, m12: 0i64, m13: 0i64,
                    m20: 0i64, m21: 0i64, m22: (-FX_ONE) as i64, m23: -205i64,
                    m30: 0i64, m31: 0i64, m32: (-FX_ONE) as i64, m33: 0i64,
                }),
                ProjectionType::Orthographic => final(self).proj == (Mat4Fx {
                    m00: FX_ONE, m01: 0i64, m02: 0i64, m03: 0i64,
                    m10: 0i64, m11: FX_ONE, m12: 0i64, m13: 0i64,
                    m20: 0i64, m21: 0i64, m22: -10i64, m23: 0i64,
                    m30: 0i64, m31: 0i64, m32: 0i64, m33: FX_ONE,
                }),
            },
    {
        match projection_type {
            ProjectionType::Perspective => {
                self.proj = Mat4Fx {
                    m00: 1462, m01: 0, m02: 0, m03: 0,
                    m10: 0, m11: 1462, m12: 0, m13: 0,
                    m20: 0, m21: 0, m22: -FX_ONE, m23: -205,
                    m30: 0, m31: 0, m32: -FX_ONE, m33: 0,
                };
            },
            ProjectionType::Orthographic => {
                self.proj = Mat4Fx {
                    m00: FX_ONE, m01: 0, m02: 0, m03: 0,
                    m10: 0, m11: FX_ONE, m12: 0, m13: 0,
                    m20: 0, m21: 0, m22: -10, m23: 0,
                    m30: 0, m31: 0, m32: 0, m33: FX_ONE,
                };
            },
        }
    }
}

} // verus!
