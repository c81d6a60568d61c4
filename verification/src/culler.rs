//! View-frustum culling: six half-space planes sampled from the camera, and
//! conservative visibility tests for spheres and axis-aligned boxes.
//!
//! A plane stores an outward normal (not necessarily unit length) and its
//! signed offset `d = dot(normal, point_on_plane)`. A sphere passes a plane
//! when its center lies in front of it or within its radius; to avoid square
//! roots the radius comparison is squared on both sides, which is equivalent
//! because both sides are non-negative. The test is conservative: a volume
//! may be classified visible while the mesh is outside the frustum, never
//! the other way around.
//!
//! The culler tests each registered mesh's own bounding sphere — the largest
//! vertex distance about the mesh's local origin, carried exactly once
//! through the mesh's model matrix — recomputed every tick.

use vstd::prelude::*;
use crate::fixed::{
    FX_ONE, fx_add, fx_add_s, fx_mul, fx_mul_s, fx_mul_wide, fx_sub, fx_sub_s, fx_wf,
};
use crate::vec::{Vec3Fx, vec3_wf, vec3_add_s, vec3_sub_s, vec3_scale_s, vec3_cross_s, vec3_dot_s, vec3_neg_s};
use crate::mat4::{
    Mat4Fx, mat_wf, mat_transform_point_s, mat_col_len2_s, mat_col3_s, mat_mul_s,
    mat_from_translation_s, mat_from_quat_s, mat_from_scale_s,
};
use crate::camera::Camera;

verus! {

/// A half-space boundary: an outward normal and the offset
/// `d = dot(normal, point_on_plane)`.
#[derive(Clone, Copy, PartialEq, Eq, Structural, Debug)]
pub struct Plane {
    pub normal: Vec3Fx,
    pub d: i64,
}

pub open spec fn plane_wf(p: Plane) -> bool {
    vec3_wf(p.normal) && fx_wf(p.d)
}

/// The signed distance of a point from the plane, scaled by the normal's
/// length.
pub open spec fn plane_dist_s(p: Plane, point: Vec3Fx) -> int {
    fx_sub_s(vec3_dot_s(p.normal, point), p.d as int)
}

/// A plane through `point` with the given normal.
pub open spec fn plane_through_s(normal: Vec3Fx, point: Vec3Fx) -> Plane {
    (Plane { normal, d: vec3_dot_s(normal, point) as i64 })
}

impl Plane {
    /// The signed distance of `point` from this plane, scaled by the
    /// normal's length.
    pub fn get_signed_distance_to_plane(&self, point: Vec3Fx) -> (r: i64)
        requires
            plane_wf(*self),
            vec3_wf(point),
        ensures
            r as int == plane_dist_s(*self, point),
            fx_wf(r),
    {
        fx_sub(self.normal.dot(point), self.d)
    }

    /// The plane through `point` with the given normal.
    pub fn through(normal: Vec3Fx, point: Vec3Fx) -> (r: Plane)
        requires
            vec3_wf(normal),
            vec3_wf(point),
        ensures
            r == plane_through_s(normal, point),
            plane_wf(r),
    {
        Plane { normal, d: normal.dot(point) }
    }
}

/// The six planes of a view frustum, outward normals pointing into the
/// visible region's side.
#[derive(Clone, Copy, PartialEq, Eq, Structural, Debug)]
pub struct Frustum {
    pub top_face: Plane,
    pub bottom_face: Plane,
    pub right_face: Plane,
    pub left_face: Plane,
    pub far_face: Plane,
    pub near_face: Plane,
}

pub open spec fn frustum_wf(f: Frustum) -> bool {
    plane_wf(f.top_face) && plane_wf(f.bottom_face) && plane_wf(f.right_face) && plane_wf(
        f.left_face,
    ) && plane_wf(f.far_face) && plane_wf(f.near_face)
}

/// The frustum of a camera pose: near and far planes along the view
/// direction, and four side planes through the camera position whose normals
/// are cross products of the basis with the far-plane half extents.
/// `tan_half_fov` is the tangent of half the vertical field of view,
/// supplied by the caller (computing it takes trigonometry).
pub open spec fn frustum_from_camera_s(
    cam: Camera,
    aspect: i64,
    tan_half_fov: i64,
    z_near: i64,
    z_far: i64,
) -> Frustum {
    let half_v = fx_mul_s(z_far as int, tan_half_fov as int) as i64;
    let half_h = fx_mul_s(half_v as int, aspect as int) as i64;
    let fmf = vec3_scale_s(cam.front, z_far as int);
    (Frustum {
        near_face: plane_through_s(cam.front, vec3_add_s(cam.pos, vec3_scale_s(cam.front, z_near as int))),
        far_face: plane_through_s(vec3_neg_s(cam.front), vec3_add_s(cam.pos, fmf)),
        right_face: plane_through_s(
            vec3_cross_s(vec3_sub_s(fmf, vec3_scale_s(cam.right, half_h as int)), cam.up),
            cam.pos,
        ),
        left_face: plane_through_s(
            vec3_cross_s(cam.up, vec3_add_s(fmf, vec3_scale_s(cam.right, half_h as int))),
            cam.pos,
        ),
        top_face: plane_through_s(
            vec3_cross_s(cam.right, vec3_sub_s(fmf, vec3_scale_s(cam.up, half_v as int))),
            cam.pos,
        ),
        bottom_face: plane_through_s(
            vec3_cross_s(vec3_add_s(fmf, vec3_scale_s(cam.up, half_v as int)), cam.right),
            cam.pos,
        ),
    })
}

impl Frustum {
    /// Sample the frustum of the camera's current pose. `tan_half_fov` is
    /// the tangent of half the vertical field of view in fixed point (the
    /// caller computes it; a 90-degree field of view gives exactly one).
    pub fn sample_from_camera(
        cam: &Camera,
        aspect: i64,
        tan_half_fov: i64,
        z_near: i64,
        z_far: i64,
    ) -> (r: Frustum)
        requires
            crate::camera::camera_wf(*cam),
        ensures
            r == frustum_from_camera_s(*cam, aspect, tan_half_fov, z_near, z_far),
            frustum_wf(r),
    {
        let half_v_side = fx_mul(z_far, tan_half_fov);
        let half_h_side = fx_mul(half_v_side, aspect);
        let front_mult_far = cam.front.scale(z_far);
        Frustum {
            near_face: Plane::through(cam.front, cam.pos.add(cam.front.scale(z_near))),
            far_face: Plane::through(cam.front.neg(), cam.pos.add(front_mult_far)),
            right_face: Plane::through(
                front_mult_far.sub(cam.right.scale(half_h_side)).cross(cam.up),
                cam.pos,
            ),
            left_face: Plane::through(
                cam.up.cross(front_mult_far.add(cam.right.scale(half_h_side))),
                cam.pos,
            ),
            top_face: Plane::through(
                cam.right.cross(front_mult_far.sub(cam.up.scale(half_v_side))),
                cam.pos,
            ),
            bottom_face: Plane::through(
                front_mult_far.add(cam.up.scale(half_v_side)).cross(cam.right),
                cam.pos,
            ),
        }
    }
}

/// A bounding sphere.
#[derive(Clone, Copy, PartialEq, Eq, Structural, Debug)]
pub struct Sphere {
    pub center: Vec3Fx,
    pub radius: i64,
}

/// A bounding box given by its center and half extents.
#[derive(Clone, Copy, PartialEq, Eq, Structural, Debug)]
pub struct AABB {
    pub center: Vec3Fx,
    pub extents: Vec3Fx,
}

/// Whether a sphere of squared radius `rr` around `c` is on or in front of
/// the plane: the signed distance is non-negative, or its square is within
/// `rr` times the squared normal length (both sides carry the same scale).
pub open spec fn sphere_front_s(p: Plane, c: Vec3Fx, rr: int) -> bool {
    let dist = plane_dist_s(p, c);
    let nn = vec3_dot_s(p.normal, p.normal);
    dist >= 0 || dist * dist <= rr * nn
}

/// The largest squared column length of a model matrix's rotation/scale
/// part: the square of its largest scale component.
pub open spec fn mat_max_scale2_s(model: Mat4Fx) -> int {
    let sx = mat_col_len2_s(model, 0);
    let sy = mat_col_len2_s(model, 1);
    let sz = mat_col_len2_s(model, 2);
    if sx >= sy && sx >= sz {
        sx
    } else if sy >= sz {
        sy
    } else {
        sz
    }
}

/// The squared world radius of a sphere under a model matrix: the squared
/// local radius scaled by the largest squared column length of the matrix
/// (the convention chosen here: the world radius follows the model's largest
/// scale component).
pub open spec fn sphere_world_rr_s(s: Sphere, model: Mat4Fx) -> int {
    fx_mul_s(fx_mul_s(s.radius as int, s.radius as int), mat_max_scale2_s(model))
}

/// Whether a sphere given by its local center and *squared* radius is
/// visible against a frustum under a model matrix: the transformed center
/// must be on or in front of all six planes, within the scale-adjusted
/// radius. Carrying the square lets a radius derived from vertex data (a
/// largest squared distance) be tested without a square root.
pub open spec fn sphere_visible_r2_s(center: Vec3Fx, r2: int, f: Frustum, model: Mat4Fx) -> bool {
    let c = mat_transform_point_s(model, center);
    let rr = fx_mul_s(r2, mat_max_scale2_s(model));
    sphere_front_s(f.left_face, c, rr) && sphere_front_s(f.right_face, c, rr) && sphere_front_s(
        f.far_face,
        c,
        rr,
    ) && sphere_front_s(f.near_face, c, rr) && sphere_front_s(f.top_face, c, rr) && sphere_front_s(
        f.bottom_face,
        c,
        rr,
    )
}

/// Whether a sphere is visible against a frustum under a model matrix: its
/// transformed center must be on or in front of all six planes, within the
/// scaled radius.
pub open spec fn sphere_visible_s(s: Sphere, f: Frustum, model: Mat4Fx) -> bool {
    let c = mat_transform_point_s(model, s.center);
    let rr = sphere_world_rr_s(s, model);
    sphere_front_s(f.left_face, c, rr) && sphere_front_s(f.right_face, c, rr) && sphere_front_s(
        f.far_face,
        c,
        rr,
    ) && sphere_front_s(f.near_face, c, rr) && sphere_front_s(f.top_face, c, rr) && sphere_front_s(
        f.bottom_face,
        c,
        rr,
    )
}

/// The squared-radius sphere test agrees with `Sphere`'s own visibility
/// test whenever the squared radius is the square of the sphere's radius, so
/// the sign-convention and conservativeness laws below carry over to the
/// culler's form of the test.
pub proof fn lemma_sphere_visible_r2_agrees(s: Sphere, f: Frustum, model: Mat4Fx)
    ensures
        sphere_visible_s(s, f, model) == sphere_visible_r2_s(
            s.center,
            fx_mul_s(s.radius as int, s.radius as int),
            f,
            model,
        ),
{
}

/// Whether a box with half extents `ext` around `c` is on or in front of the
/// plane: the signed distance is at least the negated sum of the extents'
/// projections onto the normal.
pub open spec fn aabb_front_s(p: Plane, c: Vec3Fx, ext: Vec3Fx) -> bool {
    let r = fx_add_s(
        fx_add_s(
            fx_mul_s(ext.x as int, abs_s(p.normal.x as int)),
            fx_mul_s(ext.y as int, abs_s(p.normal.y as int)),
        ),
        fx_mul_s(ext.z as int, abs_s(p.normal.z as int)),
    );
    fx_sub_s(0, r) <= plane_dist_s(p, c)
}

pub open spec fn abs_s(x: int) -> int {
    if x >= 0 {
        x
    } else {
        -x
    }
}

/// The world-space half extents of a box under a model matrix: the absolute
/// projections of the model's scaled axes summed per world axis.
pub open spec fn aabb_world_ext_s(b: AABB, model: Mat4Fx) -> Vec3Fx {
    let rx = vec3_scale_s(mat_col3_s(model, 0), b.extents.x as int);
    let uy = vec3_scale_s(mat_col3_s(model, 1), b.extents.y as int);
    let fz = vec3_scale_s(mat_col3_s(model, 2), b.extents.z as int);
    (Vec3Fx {
        x: fx_add_s(fx_add_s(abs_s(rx.x as int), abs_s(uy.x as int)), abs_s(fz.x as int)) as i64,
        y: fx_add_s(fx_add_s(abs_s(rx.y as int), abs_s(uy.y as int)), abs_s(fz.y as int)) as i64,
        z: fx_add_s(fx_add_s(abs_s(rx.z as int), abs_s(uy.z as int)), abs_s(fz.z as int)) as i64,
    })
}

/// Whether a box is visible against a frustum under a model matrix.
pub open spec fn aabb_visible_s(b: AABB, f: Frustum, model: Mat4Fx) -> bool {
    let c = mat_transform_point_s(model, b.center);
    let ext = aabb_world_ext_s(b, model);
    aabb_front_s(f.left_face, c, ext) && aabb_front_s(f.right_face, c, ext) && aabb_front_s(
        f.top_face,
        c,
        ext,
    ) && aabb_front_s(f.bottom_face, c, ext) && aabb_front_s(f.near_face, c, ext) && aabb_front_s(
        f.far_face,
        c,
        ext,
    )
}

impl Sphere {
    /// Whether this sphere (by its own radius) is on or in front of the
    /// plane.
    pub fn is_on_or_forward_plane(&self, plane: &Plane) -> (r: bool)
        requires
            plane_wf(*plane),
            vec3_wf(self.center),
            fx_wf(self.radius),
        ensures
            r == sphere_front_s(*plane, self.center, fx_mul_s(self.radius as int, self.radius as int)),
    {
        let rr = fx_mul(self.radius, self.radius);
        sphere_front_sq(plane, self.center, rr)
    }

    /// Whether this sphere is visible against the frustum under the model
    /// matrix.
    pub fn is_on_frustrum(&self, frustum: &Frustum, model: Mat4Fx) -> (r: bool)
        requires
            frustum_wf(*frustum),
            mat_wf(model),
            vec3_wf(self.center),
            fx_wf(self.radius),
        ensures
            r == sphere_visible_s(*self, *frustum, model),
    {
        let sx = model.col_len2(0);
        let sy = model.col_len2(1);
        let sz = model.col_len2(2);
        let max_scale2 = if sx >= sy && sx >= sz {
            sx
        } else if sy >= sz {
            sy
        } else {
            sz
        };
        let global_center = model.transform_point(self.center);
        let rr = fx_mul(fx_mul(self.radius, self.radius), max_scale2);
        sphere_front_sq(&frustum.left_face, global_center, rr) && sphere_front_sq(
            &frustum.right_face,
            global_center,
            rr,
        ) && sphere_front_sq(&frustum.far_face, global_center, rr) && sphere_front_sq(
            &frustum.near_face,
            global_center,
            rr,
        ) && sphere_front_sq(&frustum.top_face, global_center, rr) && sphere_front_sq(
            &frustum.bottom_face,
            global_center,
            rr,
        )
    }
}

/// The sphere test over a local center and a squared radius: the form the
/// culler uses, with the radius taken straight from vertex data.
fn sphere_visible_r2(frustum: &Frustum, model: Mat4Fx, center: Vec3Fx, r2: i64) -> (r: bool)
    requires
        frustum_wf(*frustum),
        mat_wf(model),
        vec3_wf(center),
        fx_wf(r2),
    ensures
        r == sphere_visible_r2_s(center, r2 as int, *frustum, model),
{
    let sx = model.col_len2(0);
    let sy = model.col_len2(1);
    let sz = model.col_len2(2);
    let max_scale2 = if sx >= sy && sx >= sz {
        sx
    } else if sy >= sz {
        sy
    } else {
        sz
    };
    let global_center = model.transform_point(center);
    let rr = fx_mul(r2, max_scale2);
    sphere_front_sq(&frustum.left_face, global_center, rr) && sphere_front_sq(
        &frustum.right_face,
        global_center,
        rr,
    ) && sphere_front_sq(&frustum.far_face, global_center, rr) && sphere_front_sq(
        &frustum.near_face,
        global_center,
        rr,
    ) && sphere_front_sq(&frustum.top_face, global_center, rr) && sphere_front_sq(
        &frustum.bottom_face,
        global_center,
        rr,
    )
}

/// The squared-radius plane test shared by the sphere paths.
fn sphere_front_sq(plane: &Plane, c: Vec3Fx, rr: i64) -> (r: bool)
    requires
        plane_wf(*plane),
        vec3_wf(c),
        fx_wf(rr),
    ensures
        r == sphere_front_s(*plane, c, rr as int),
{
    let dist = plane.get_signed_distance_to_plane(c);
    if dist >= 0 {
        true
    } else {
        let nn = plane.normal.dot(plane.normal);
        fx_mul_wide(dist, dist) <= fx_mul_wide(rr, nn)
    }
}

impl AABB {
    /// A box spanning `min` to `max`: the center is their midpoint and the
    /// extents reach from the center to `max`.
    pub fn new(min: Vec3Fx, max: Vec3Fx) -> (r: AABB)
        requires
            vec3_wf(min),
            vec3_wf(max),
        ensures
            r.center == vec3_scale_s(vec3_add_s(max, min), 512),
            r.extents == crate::vec::vec3_sub_s(max, vec3_scale_s(vec3_add_s(max, min), 512)),
            vec3_wf(r.center),
            vec3_wf(r.extents),
    {
        let center = max.add(min).scale(512);
        AABB { center, extents: max.sub(center) }
    }

    /// Whether this box (by its own extents) is on or in front of the plane.
    pub fn is_on_or_forward_plane(&self, plane: &Plane) -> (r: bool)
        requires
            plane_wf(*plane),
            vec3_wf(self.center),
            vec3_wf(self.extents),
        ensures
            r == aabb_front_s(*plane, self.center, self.extents),
    {
        aabb_front(plane, self.center, self.extents)
    }

    /// Whether this box is visible against the frustum under the model
    /// matrix.
    pub fn is_on_frustrum(&self, frustum: &Frustum, model: Mat4Fx) -> (r: bool)
        requires
            frustum_wf(*frustum),
            mat_wf(model),
            vec3_wf(self.center),
            vec3_wf(self.extents),
        ensures
            r == aabb_visible_s(*self, *frustum, model),
    {
        let global_center = model.transform_point(self.center);
        let right = model.col3(0).scale(self.extents.x);
        let up = model.col3(1).scale(self.extents.y);
        let forward = model.col3(2).scale(self.extents.z);
        let ext = Vec3Fx {
            x: fx_add(fx_add(abs_fx(right.x), abs_fx(up.x)), abs_fx(forward.x)),
            y: fx_add(fx_add(abs_fx(right.y), abs_fx(up.y)), abs_fx(forward.y)),
            z: fx_add(fx_add(abs_fx(right.z), abs_fx(up.z)), abs_fx(forward.z)),
        };
        aabb_front(&frustum.left_face, global_center, ext) && aabb_front(
            &frustum.right_face,
            global_center,
            ext,
        ) && aabb_front(&frustum.top_face, global_center, ext) && aabb_front(
            &frustum.bottom_face,
            global_center,
            ext,
        ) && aabb_front(&frustum.near_face, global_center, ext) && aabb_front(
            &frustum.far_face,
            global_center,
            ext,
        )
    }
}

/// The extents-projection plane test shared by the box paths.
fn aabb_front(plane: &Plane, c: Vec3Fx, ext: Vec3Fx) -> (r: bool)
    requires
        plane_wf(*plane),
        vec3_wf(c),
        vec3_wf(ext),
    ensures
        r == aabb_front_s(*plane, c, ext),
{
    let proj = fx_add(
        fx_add(
            fx_mul(ext.x, abs_fx(plane.normal.x)),
            fx_mul(ext.y, abs_fx(plane.normal.y)),
        ),
        fx_mul(ext.z, abs_fx(plane.normal.z)),
    );
    let dist = plane.get_signed_distance_to_plane(c);
    fx_sub(0, proj) <= dist
}

/// The absolute value of a well-formed scalar.
fn abs_fx(x: i64) -> (r: i64)
    requires
        fx_wf(x),
    ensures
        r as int == abs_s(x as int),
        fx_wf(r),
{
    if x >= 0 {
        x
    } else {
        -x
    }
}

/// The two bounding-volume shapes, as a closed tagged union.
#[derive(Clone, Copy, PartialEq, Eq, Structural, Debug)]
pub enum Volume {
    Sphere(Sphere),
    Aabb(AABB),
}

pub open spec fn volume_wf(v: Volume) -> bool {
    match v {
        Volume::Sphere(s) => vec3_wf(s.center) && fx_wf(s.radius),
        Volume::Aabb(b) => vec3_wf(b.center) && vec3_wf(b.extents),
    }
}

/// Whether a volume is visible against a frustum under a model matrix.
pub open spec fn volume_visible_s(v: Volume, f: Frustum, model: Mat4Fx) -> bool {
    match v {
        Volume::Sphere(s) => sphere_visible_s(s, f, model),
        Volume::Aabb(b) => aabb_visible_s(b, f, model),
    }
}

impl Volume {
    /// Whether this volume is visible against the frustum under the model
    /// matrix.
    pub fn is_on_frustrum(&self, frustum: &Frustum, model: Mat4Fx) -> (r: bool)
        requires
            frustum_wf(*frustum),
            mat_wf(model),
            volume_wf(*self),
        ensures
            r == volume_visible_s(*self, *frustum, model),
    {
        match self {
            Volume::Sphere(s) => s.is_on_frustrum(frustum, model),
            Volume::Aabb(b) => b.is_on_frustrum(frustum, model),
        }
    }
}

/// A culled mesh: the same mesh with its hidden flag set to the negation of
/// the sphere visibility test. The volume under test is the mesh's own
/// bounding sphere: centered on its local origin with the largest squared
/// vertex distance as squared radius, carried once through the model matrix
/// built from the mesh's transform.
pub open spec fn cull_mesh_s(m: crate::mesh::Mesh, fr: Frustum) -> crate::mesh::Mesh {
    let model = mat_mul_s(
        mat_mul_s(mat_from_translation_s(m.position), mat_from_quat_s(m.rotation)),
        mat_from_scale_s(m.scale),
    );
    let r2 = crate::mesh::max_radius2_s(m.vertices@, m.vertices@.len() as int);
    let origin = (Vec3Fx { x: 0i64, y: 0i64, z: 0i64 });
    (crate::mesh::Mesh { hidden: !sphere_visible_r2_s(origin, r2, fr, model), ..m })
}

/// The mesh table after the culler has visited the first `n` registered
/// handles.
pub open spec fn cull_after(
    handles: Seq<crate::mesh::MeshHandle>,
    m0: Map<usize, crate::mesh::Mesh>,
    fr: Frustum,
    n: int,
) -> Map<usize, crate::mesh::Mesh>
    decreases n,
{
    if n <= 0 {
        m0
    } else {
        let prev = cull_after(handles, m0, fr, n - 1);
        let h = handles[n - 1];
        if prev.contains_key(h.id) {
            prev.insert(h.id, cull_mesh_s(prev[h.id], fr))
        } else {
            prev
        }
    }
}

/// The frustum the culler samples each tick: aspect one, a 90-degree field
/// of view (whose half tangent is exactly one), near plane at 0.1 world
/// units and far plane at 100.
pub open spec fn culler_frustum_s(cam: crate::camera::Camera) -> Frustum {
    frustum_from_camera_s(cam, FX_ONE, FX_ONE, 102i64, (100 * FX_ONE) as i64)
}

/// The frustum culler: it owns the list of mesh handles whose visibility it
/// drives.
pub struct Culler {
    pub mesh_handles: Vec<crate::mesh::MeshHandle>,
}

impl Culler {
    /// A culler with no registered meshes.
    pub fn new(renderer: &crate::renderer::Renderer) -> (r: Culler)
        ensures
            r.mesh_handles@.len() == 0,
    {
        Culler { mesh_handles: Vec::new() }
    }

    /// Register a mesh for culling.
    pub fn add_mesh(&mut self, handle: crate::mesh::MeshHandle)
        ensures
            final(self).mesh_handles@ == old(self).mesh_handles@.push(handle),
    {
        self.mesh_handles.push(handle);
    }

    /// Sample the camera's frustum and set every registered mesh's hidden
    /// flag to the negation of its visibility test: each mesh's own bounding
    /// sphere (largest vertex distance about its local origin, recomputed
    /// every tick) carried through its current model matrix. Every registered
    /// handle must be live in the renderer's mesh table (a stale handle is a
    /// caller error).
    pub fn update(&mut self, renderer: &mut crate::renderer::Renderer)
        requires
            crate::renderer::renderer_wf(*old(renderer)),
            forall|j: int|
                0 <= j < old(self).mesh_handles@.len() ==> old(renderer).meshes@.contains_key(
                    (#[trigger] old(self).mesh_handles@[j]).id,
                ) && crate::mesh::mesh_wf(old(renderer).meshes@[old(self).mesh_handles@[j].id])
                    && crate::mesh::mesh_vertices_wf(
                    old(renderer).meshes@[old(self).mesh_handles@[j].id],
                ),
        ensures
            crate::renderer::renderer_wf(*final(renderer)),
            *final(self) == *old(self),
            final(renderer).lights == old(renderer).lights,
            final(renderer).textures == old(renderer).textures,
            final(renderer).models == old(renderer).models,
            final(renderer).skeletal_meshes == old(renderer).skeletal_meshes,
            final(renderer).camera == old(renderer).camera,
            final(renderer).meshes@ == cull_after(
                old(self).mesh_handles@,
                old(renderer).meshes@,
                culler_frustum_s(old(renderer).camera),
                old(self).mesh_handles@.len() as int,
            ),
    {
        let frustum = Frustum::sample_from_camera(
            &renderer.camera,
            FX_ONE,
            FX_ONE,
            102,
            100 * FX_ONE,
        );
        let ghost fr = culler_frustum_s(old(renderer).camera);
        let n = self.mesh_handles.len();
        let mut i: usize = 0;
        while i < n
            invariant
                n == self.mesh_handles@.len(),
                0 <= i <= n,
                frustum == fr,
                fr == culler_frustum_s(old(renderer).camera),
                frustum_wf(frustum),
                crate::renderer::renderer_wf(*renderer),
                forall|j: int|
                    0 <= j < n ==> old(renderer).meshes@.contains_key(
                        (#[trigger] self.mesh_handles@[j]).id,
                    ) && crate::mesh::mesh_wf(old(renderer).meshes@[self.mesh_handles@[j].id])
                        && crate::mesh::mesh_vertices_wf(
                        old(renderer).meshes@[self.mesh_handles@[j].id],
                    ),
                renderer.lights == old(renderer).lights,
                renderer.textures == old(renderer).textures,
                renderer.models == old(renderer).models,
                renderer.skeletal_meshes == old(renderer).skeletal_meshes,
                renderer.camera == old(renderer).camera,
                renderer.meshes@ == cull_after(self.mesh_handles@, old(renderer).meshes@, fr, i as int),
                forall|j: int|
                    0 <= j < n ==> renderer.meshes@.contains_key(
                        (#[trigger] self.mesh_handles@[j]).id,
                    ) && crate::mesh::mesh_wf(renderer.meshes@[self.mesh_handles@[j].id])
                        && crate::mesh::mesh_vertices_wf(
                        renderer.meshes@[self.mesh_handles@[j].id],
                    ),
            decreases n - i,
        {
            let handle = self.mesh_handles[i];
            let (position, rotation, scale, radius2) = match renderer.meshes.get(handle.id) {
                Some(m) => (m.position, m.rotation, m.scale, m.bounding_radius2()),
                None => (Vec3Fx::zero(), crate::vec::QuatFx::identity(), Vec3Fx::one(), 0i64),
            };
            let model_matrix = Mat4Fx::from_translation(position).mul(
                &Mat4Fx::from_quat(rotation),
            ).mul(&Mat4Fx::from_scale(scale));
            let visible = sphere_visible_r2(&frustum, model_matrix, Vec3Fx::zero(), radius2);
            match renderer.meshes.get_mut(handle.id) {
                Some(m) => {
                    if visible {
                        m.hidden = false;
                    } else {
                        m.hidden = true;
                    }
                },
                None => {},
            }
            i = i + 1;
        }
    }
}


/// The range inside which the frustum law proofs keep every fixed-point
/// intermediate exact (no saturation on the axis-aligned paths).
pub open spec fn fx_modest(x: int) -> bool {
    -0x80_0000_0000 <= x <= 0x80_0000_0000
}

/// The identity matrix moves no point.
pub proof fn lemma_identity_point(c: Vec3Fx)
    requires
        vec3_wf(c),
    ensures
        mat_transform_point_s(crate::mat4::mat_identity_s(), c) == c,
{
    crate::mat4::lemma_scale_identity(c.x as int);
    crate::mat4::lemma_scale_identity(c.y as int);
    crate::mat4::lemma_scale_identity(c.z as int);
    vstd::arithmetic::div_mod::lemma_div_basics_1(FX_ONE as int);
}

/// A dot product with the negative-z unit axis reads off the negated z
/// component, exactly.
proof fn lemma_axis_dot_negz(v: Vec3Fx)
    requires
        vec3_wf(v),
    ensures
        vec3_dot_s((Vec3Fx { x: 0i64, y: 0i64, z: (-FX_ONE) as i64 }), v) == -(v.z as int),
        vec3_dot_s((Vec3Fx { x: 0i64, y: 0i64, z: FX_ONE }), v) == v.z as int,
{
    vstd::arithmetic::div_mod::lemma_div_multiples_vanish(-(v.z as int), FX_ONE as int);
    vstd::arithmetic::div_mod::lemma_div_multiples_vanish(v.z as int, FX_ONE as int);
    assert((-FX_ONE as int) * (v.z as int) == (FX_ONE as int) * (-(v.z as int)));
    assert((FX_ONE as int) * (v.z as int) == (FX_ONE as int) * (v.z as int));
}

/// A plane through the camera position whose normal does not lean towards
/// positive z keeps every point at or below the camera's z in front of it.
proof fn lemma_side_plane_front(n: Vec3Fx, pos: Vec3Fx, c: Vec3Fx, k: int)
    requires
        vec3_wf(n),
        vec3_wf(pos),
        vec3_wf(c),
        n.z <= 0,
        k >= 0,
        c.x == pos.x,
        c.y == pos.y,
        c.z as int == pos.z as int - k,
    ensures
        plane_dist_s(plane_through_s(n, pos), c) >= 0,
{
    let raw_pos = n.x as int * pos.x as int + n.y as int * pos.y as int + n.z as int * pos.z as int;
    let raw_c = n.x as int * c.x as int + n.y as int * c.y as int + n.z as int * c.z as int;
    assert(raw_c == raw_pos - n.z as int * k) by (nonlinear_arith)
        requires
            c.x == pos.x,
            c.y == pos.y,
            c.z as int == pos.z as int - k,
            raw_pos == n.x as int * pos.x as int + n.y as int * pos.y as int + n.z as int
                * pos.z as int,
            raw_c == n.x as int * c.x as int + n.y as int * c.y as int + n.z as int * c.z as int,
    ;
    assert(n.z as int * k <= 0) by (nonlinear_arith)
        requires
            n.z <= 0,
            k >= 0,
    ;
    vstd::arithmetic::div_mod::lemma_div_is_ordered(raw_pos, raw_c, FX_ONE as int);
}

/// Frustum plane sign convention: with the camera's canonical axis basis, a
/// point directly in front of the camera at a depth between the near and far
/// planes passes all six plane tests, and a point behind the camera fails
/// the near-plane test (and is therefore invisible).
pub proof fn lemma_frustum_sign_convention(
    cam: Camera,
    aspect: i64,
    tan_half_fov: i64,
    z_near: i64,
    z_far: i64,
    k: i64,
    behind: i64,
)
    requires
        cam.front == (Vec3Fx { x: 0i64, y: 0i64, z: (-FX_ONE) as i64 }),
        cam.right == (Vec3Fx { x: FX_ONE, y: 0i64, z: 0i64 }),
        cam.up == (Vec3Fx { x: 0i64, y: FX_ONE, z: 0i64 }),
        fx_modest(cam.pos.x as int) && fx_modest(cam.pos.y as int) && fx_modest(cam.pos.z as int),
        0 < z_near <= k <= z_far,
        fx_modest(z_far as int),
        0 <= aspect <= 4 * FX_ONE,
        0 <= tan_half_fov <= 4 * FX_ONE,
        0 < behind,
        fx_modest(behind as int),
    ensures
        sphere_visible_s(
            (Sphere {
                center: (Vec3Fx { x: cam.pos.x, y: cam.pos.y, z: (cam.pos.z - k) as i64 }),
                radius: 0i64,
            }),
            frustum_from_camera_s(cam, aspect, tan_half_fov, z_near, z_far),
            crate::mat4::mat_identity_s(),
        ),
        !sphere_visible_s(
            (Sphere {
                center: (Vec3Fx { x: cam.pos.x, y: cam.pos.y, z: (cam.pos.z + behind) as i64 }),
                radius: 0i64,
            }),
            frustum_from_camera_s(cam, aspect, tan_half_fov, z_near, z_far),
            crate::mat4::mat_identity_s(),
        ),
        !sphere_front_s(
            frustum_from_camera_s(cam, aspect, tan_half_fov, z_near, z_far).near_face,
            (Vec3Fx { x: cam.pos.x, y: cam.pos.y, z: (cam.pos.z + behind) as i64 }),
            0,
        ),
{
    let one = FX_ONE as int;
    let fr = frustum_from_camera_s(cam, aspect, tan_half_fov, z_near, z_far);
    let c = Vec3Fx { x: cam.pos.x, y: cam.pos.y, z: (cam.pos.z - k) as i64 };
    let cb = Vec3Fx { x: cam.pos.x, y: cam.pos.y, z: (cam.pos.z + behind) as i64 };
    lemma_identity_point(c);
    lemma_identity_point(cb);

    // The half extents at the far plane are non-negative and small.
    let hv = fx_mul_s(z_far as int, tan_half_fov as int);
    let hh = fx_mul_s(hv, aspect as int);
    assert(0 <= z_far as int * tan_half_fov as int <= 0x80_0000_0000 * 4096) by (nonlinear_arith)
        requires
            0 <= z_far as int <= 0x80_0000_0000,
            0 <= tan_half_fov as int <= 4096,
    ;
    vstd::arithmetic::div_mod::lemma_div_is_ordered(0, z_far as int * tan_half_fov as int, one);
    vstd::arithmetic::div_mod::lemma_div_is_ordered(
        z_far as int * tan_half_fov as int,
        (0x80_0000_0000 * 4096) as int,
        one,
    );
    vstd::arithmetic::div_mod::lemma_div_basics_1(one);
    assert(0 <= hv <= 0x8_0000_0000_0000);
    assert(0 <= hv * aspect as int <= 0x8_0000_0000_0000 * 4096) by (nonlinear_arith)
        requires
            0 <= hv <= 0x8_0000_0000_0000,
            0 <= aspect as int <= 4096,
    ;
    vstd::arithmetic::div_mod::lemma_div_is_ordered(0, hv * aspect as int, one);
    vstd::arithmetic::div_mod::lemma_div_is_ordered(
        hv * aspect as int,
        (0x8_0000_0000_0000 * 4096) as int,
        one,
    );
    assert(0 <= hh <= 0x2_0000_0000_0000_0000);

    // The far-plane offset of the view direction is exact.
    vstd::arithmetic::div_mod::lemma_div_multiples_vanish(-(z_far as int), one);
    assert((-1024) * (z_far as int) == 1024 * (-(z_far as int))) by (nonlinear_arith);
    let fmf = vec3_scale_s(cam.front, z_far as int);
    assert(fmf == (Vec3Fx { x: 0i64, y: 0i64, z: (-(z_far as int)) as i64 })) by {
        vstd::arithmetic::div_mod::lemma_div_basics_1(one);
    }

    // Scaled basis vectors are exact.
    vstd::arithmetic::div_mod::lemma_div_multiples_vanish(hh, one);
    vstd::arithmetic::div_mod::lemma_div_multiples_vanish(hv, one);
    assert(1024 * hh == hh * 1024);
    assert(1024 * hv == hv * 1024);
    let rs = vec3_scale_s(cam.right, hh);
    let us = vec3_scale_s(cam.up, hv);
    assert(rs == (Vec3Fx { x: hh as i64, y: 0i64, z: 0i64 })) by {
        vstd::arithmetic::div_mod::lemma_div_basics_1(one);
    }
    assert(us == (Vec3Fx { x: 0i64, y: hv as i64, z: 0i64 })) by {
        vstd::arithmetic::div_mod::lemma_div_basics_1(one);
    }

    // The four side-plane normals, written out; each has a non-positive z
    // component.
    let a_right = vec3_sub_s(fmf, rs);
    assert(a_right == (Vec3Fx { x: (-hh) as i64, y: 0i64, z: (-(z_far as int)) as i64 }));
    let n_right = vec3_cross_s(a_right, cam.up);
    assert(n_right == (Vec3Fx { x: z_far, y: 0i64, z: (-hh) as i64 })) by {
        vstd::arithmetic::div_mod::lemma_div_multiples_vanish(z_far as int, one);
        vstd::arithmetic::div_mod::lemma_div_multiples_vanish(-hh, one);
        vstd::arithmetic::div_mod::lemma_div_basics_1(one);
        assert(0 - (-(z_far as int)) * 1024 == 1024 * (z_far as int)) by (nonlinear_arith);
        assert((-hh) * 1024 - 0 == 1024 * (-hh)) by (nonlinear_arith);
    }
    let a_left = vec3_add_s(fmf, rs);
    assert(a_left == (Vec3Fx { x: hh as i64, y: 0i64, z: (-(z_far as int)) as i64 }));
    let n_left = vec3_cross_s(cam.up, a_left);
    assert(n_left == (Vec3Fx { x: (-(z_far as int)) as i64, y: 0i64, z: (-hh) as i64 })) by {
        vstd::arithmetic::div_mod::lemma_div_multiples_vanish(-(z_far as int), one);
        vstd::arithmetic::div_mod::lemma_div_multiples_vanish(-hh, one);
        vstd::arithmetic::div_mod::lemma_div_basics_1(one);
        assert(1024 * (-(z_far as int)) - 0 == 1024 * (-(z_far as int)));
        assert(0 - 1024 * (hh as int) == 1024 * (-hh));
    }
    let a_top = vec3_sub_s(fmf, us);
    assert(a_top == (Vec3Fx { x: 0i64, y: (-hv) as i64, z: (-(z_far as int)) as i64 }));
    let n_top = vec3_cross_s(cam.right, a_top);
    assert(n_top == (Vec3Fx { x: 0i64, y: z_far, z: (-hv) as i64 })) by {
        vstd::arithmetic::div_mod::lemma_div_multiples_vanish(z_far as int, one);
        vstd::arithmetic::div_mod::lemma_div_multiples_vanish(-hv, one);
        vstd::arithmetic::div_mod::lemma_div_basics_1(one);
        assert(0 - 1024 * (-(z_far as int)) == 1024 * (z_far as int));
        assert(1024 * (-hv) - 0 == 1024 * (-hv));
    }
    let a_bot = vec3_add_s(fmf, us);
    assert(a_bot == (Vec3Fx { x: 0i64, y: hv as i64, z: (-(z_far as int)) as i64 }));
    let n_bot = vec3_cross_s(a_bot, cam.right);
    assert(n_bot == (Vec3Fx { x: 0i64, y: (-(z_far as int)) as i64, z: (-hv) as i64 })) by {
        vstd::arithmetic::div_mod::lemma_div_multiples_vanish(-(z_far as int), one);
        vstd::arithmetic::div_mod::lemma_div_multiples_vanish(-hv, one);
        vstd::arithmetic::div_mod::lemma_div_basics_1(one);
        assert((-(z_far as int)) * 1024 - 0 == 1024 * (-(z_far as int))) by (nonlinear_arith);
        assert(0 - (hv as int) * 1024 == 1024 * (-hv)) by (nonlinear_arith);
    }

    // Side planes: the in-front point never leaves their front side.
    lemma_side_plane_front(n_right, cam.pos, c, k as int);
    lemma_side_plane_front(n_left, cam.pos, c, k as int);
    lemma_side_plane_front(n_top, cam.pos, c, k as int);
    lemma_side_plane_front(n_bot, cam.pos, c, k as int);

    // Near and far planes are exact axis planes.
    lemma_axis_dot_negz(c);
    lemma_axis_dot_negz(cb);
    lemma_axis_dot_negz(cam.pos);
    let q_near = vec3_add_s(cam.pos, vec3_scale_s(cam.front, z_near as int));
    assert(vec3_scale_s(cam.front, z_near as int) == (Vec3Fx {
        x: 0i64,
        y: 0i64,
        z: (-(z_near as int)) as i64,
    })) by {
        vstd::arithmetic::div_mod::lemma_div_multiples_vanish(-(z_near as int), one);
        assert((-1024) * (z_near as int) == 1024 * (-(z_near as int))) by (nonlinear_arith);
        vstd::arithmetic::div_mod::lemma_div_basics_1(one);
    }
    lemma_axis_dot_negz(q_near);
    let q_far = vec3_add_s(cam.pos, fmf);
    lemma_axis_dot_negz(q_far);
    let n_far = vec3_neg_s(cam.front);
    assert(n_far == (Vec3Fx { x: 0i64, y: 0i64, z: FX_ONE }));

    // The squared radius of a zero-radius sphere is zero.
    vstd::arithmetic::div_mod::lemma_div_basics_1(one);
    assert(sphere_world_rr_s(
        (Sphere { center: c, radius: 0i64 }),
        crate::mat4::mat_identity_s(),
    ) == 0);
    assert(sphere_world_rr_s(
        (Sphere { center: cb, radius: 0i64 }),
        crate::mat4::mat_identity_s(),
    ) == 0);

    // In front: every plane test passes with its distance non-negative.
    assert(plane_dist_s(fr.near_face, c) == k - z_near);
    assert(plane_dist_s(fr.far_face, c) == z_far - k);
    assert(sphere_visible_s(
        (Sphere { center: c, radius: 0i64 }),
        fr,
        crate::mat4::mat_identity_s(),
    ));

    // Behind: the near-plane distance is strictly negative, so with a zero
    // radius the near test fails.
    assert(plane_dist_s(fr.near_face, cb) == -(behind as int) - z_near);
    let db = plane_dist_s(fr.near_face, cb);
    assert(db * db > 0) by (nonlinear_arith)
        requires
            db < 0,
    ;
    assert(0 * vec3_dot_s(fr.near_face.normal, fr.near_face.normal) == 0);
    assert(!sphere_front_s(fr.near_face, cb, 0));
}

/// Sphere-test conservativeness: a sphere centered on the camera position
/// whose radius clears every plane distance (the near distance plus one
/// world unit of fixed-point margin; the side planes pass through the
/// camera, and the far plane lies in front of it) is always classified
/// visible.
pub proof fn lemma_sphere_test_conservative(
    cam: Camera,
    aspect: i64,
    tan_half_fov: i64,
    z_near: i64,
    z_far: i64,
    radius: i64,
)
    requires
        cam.front == (Vec3Fx { x: 0i64, y: 0i64, z: (-FX_ONE) as i64 }),
        cam.right == (Vec3Fx { x: FX_ONE, y: 0i64, z: 0i64 }),
        cam.up == (Vec3Fx { x: 0i64, y: FX_ONE, z: 0i64 }),
        fx_modest(cam.pos.x as int) && fx_modest(cam.pos.y as int) && fx_modest(cam.pos.z as int),
        0 < z_near <= z_far,
        fx_modest(z_far as int),
        0 <= aspect <= 4 * FX_ONE,
        0 <= tan_half_fov <= 4 * FX_ONE,
        z_near + FX_ONE <= radius,
        radius <= 0x8_0000_0000,
    ensures
        sphere_visible_s(
            (Sphere { center: cam.pos, radius }),
            frustum_from_camera_s(cam, aspect, tan_half_fov, z_near, z_far),
            crate::mat4::mat_identity_s(),
        ),
{
    let one = FX_ONE as int;
    let fr = frustum_from_camera_s(cam, aspect, tan_half_fov, z_near, z_far);
    lemma_identity_point(cam.pos);

    // The four side planes pass through the camera position: their distances
    // are exactly zero.
    assert(plane_dist_s(fr.right_face, cam.pos) == 0);
    assert(plane_dist_s(fr.left_face, cam.pos) == 0);
    assert(plane_dist_s(fr.top_face, cam.pos) == 0);
    assert(plane_dist_s(fr.bottom_face, cam.pos) == 0);

    // Near and far planes are exact axis planes.
    lemma_axis_dot_negz(cam.pos);
    let q_near = vec3_add_s(cam.pos, vec3_scale_s(cam.front, z_near as int));
    assert(vec3_scale_s(cam.front, z_near as int) == (Vec3Fx {
        x: 0i64,
        y: 0i64,
        z: (-(z_near as int)) as i64,
    })) by {
        vstd::arithmetic::div_mod::lemma_div_multiples_vanish(-(z_near as int), one);
        assert((-1024) * (z_near as int) == 1024 * (-(z_near as int))) by (nonlinear_arith);
        vstd::arithmetic::div_mod::lemma_div_basics_1(one);
    }
    lemma_axis_dot_negz(q_near);
    vstd::arithmetic::div_mod::lemma_div_multiples_vanish(-(z_far as int), one);
    assert((-1024) * (z_far as int) == 1024 * (-(z_far as int))) by (nonlinear_arith);
    vstd::arithmetic::div_mod::lemma_div_basics_1(one);
    let fmf = vec3_scale_s(cam.front, z_far as int);
    assert(fmf == (Vec3Fx { x: 0i64, y: 0i64, z: (-(z_far as int)) as i64 }));
    let q_far = vec3_add_s(cam.pos, fmf);
    lemma_axis_dot_negz(q_far);
    let n_far = vec3_neg_s(cam.front);
    assert(n_far == (Vec3Fx { x: 0i64, y: 0i64, z: FX_ONE }));
    assert(plane_dist_s(fr.far_face, cam.pos) == z_far);
    assert(plane_dist_s(fr.near_face, cam.pos) == -(z_near as int));

    // The squared world radius under the identity model matrix.
    crate::mat4::lemma_scale_identity(one);
    let q = fx_mul_s(radius as int, radius as int);
    assert(0 <= radius as int * radius as int <= 0x8_0000_0000 * 0x8_0000_0000) by (nonlinear_arith)
        requires
            0 <= radius as int <= 0x8_0000_0000,
    ;
    vstd::arithmetic::div_mod::lemma_div_is_ordered(0, radius as int * radius as int, one);
    vstd::arithmetic::div_mod::lemma_div_is_ordered(
        radius as int * radius as int,
        (0x8_0000_0000 * 0x8_0000_0000) as int,
        one,
    );
    assert(0 <= q <= 0x10_0000_0000_0000_0000);
    crate::mat4::lemma_scale_identity(q);
    assert(sphere_world_rr_s((Sphere { center: cam.pos, radius }), crate::mat4::mat_identity_s())
        == q);
    let nn = vec3_dot_s(cam.front, cam.front);
    assert(nn == one) by {
        vstd::arithmetic::div_mod::lemma_div_multiples_vanish(one, one);
        assert((-1024) * (-1024) == 1024 * 1024);
    }

    // The near distance squared stays within the squared radius bound.
    vstd::arithmetic::div_mod::lemma_fundamental_div_mod(radius as int * radius as int, one);
    assert(q * 1024 > radius as int * radius as int - 1024) by (nonlinear_arith)
        requires
            radius as int * radius as int == 1024 * q + (radius as int * radius as int) % 1024,
            0 <= (radius as int * radius as int) % 1024 < 1024,
    ;
    assert(radius as int * radius as int >= (z_near as int + 1024) * (z_near as int + 1024))
        by (nonlinear_arith)
        requires
            0 <= z_near as int + 1024 <= radius as int,
    ;
    assert((z_near as int + 1024) * (z_near as int + 1024) == z_near as int * z_near as int + 2048
        * z_near as int + 1024 * 1024) by (nonlinear_arith);
    assert(q * 1024 >= z_near as int * z_near as int) by (nonlinear_arith)
        requires
            q * 1024 > radius as int * radius as int - 1024,
            radius as int * radius as int >= z_near as int * z_near as int + 2048 * z_near as int
                + 1024 * 1024,
            z_near as int >= 1,
    ;
    let dn = plane_dist_s(fr.near_face, cam.pos);
    assert(dn == -(z_near as int));
    assert(dn * dn == z_near as int * z_near as int) by (nonlinear_arith)
        requires
            dn == -(z_near as int),
    ;
    assert(sphere_front_s(fr.near_face, cam.pos, q));
    assert(sphere_visible_s(
        (Sphere { center: cam.pos, radius }),
        fr,
        crate::mat4::mat_identity_s(),
    ));
}

} // verus!
