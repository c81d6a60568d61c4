//! Skinned meshes: vertices carry up to `MAX_BONE_INFLUENCE` bone indices
//! and weights alongside the usual attributes.

use vstd::prelude::*;
use crate::fixed::FX_ONE;
use crate::vec::{
    Vec2Fx, Vec3Fx, QuatFx, vec2_wf, vec3_wf, quat_wf, vec3_add_s, vec3_mul_s, quat_add_s,
};
use crate::renderer::{Renderer, renderer_wf};

verus! {

/// How many bones may influence a single vertex.
pub const MAX_BONE_INFLUENCE: usize = 4;

/// One skinned vertex: position, normal, texture coordinates, and the ids
/// and weights of the bones that drive it.
#[derive(Copy, Clone, PartialEq, Debug)]
pub struct SkeletalVertex {
    pub position: Vec3Fx,
    pub normal: Vec3Fx,
    pub tex_coords: Vec2Fx,
    pub bone_ids: [i32; 4],
    pub weights: [i64; 4],
}

pub open spec fn skeletal_vertex_wf(v: SkeletalVertex) -> bool {
    vec3_wf(v.position) && vec3_wf(v.normal) && vec2_wf(v.tex_coords)
}

impl Default for SkeletalVertex {
    /// The resting vertex: zero attributes, no bones (`-1` ids) and zero
    /// weights.
    fn default() -> (r: Self)
        ensures
            r.position == (Vec3Fx { x: 0i64, y: 0i64, z: 0i64 }),
            r.normal == (Vec3Fx { x: 0i64, y: 0i64, z: 0i64 }),
            r.tex_coords == (Vec2Fx { x: 0i64, y: 0i64 }),
            r.bone_ids@ == seq![-1i32, -1i32, -1i32, -1i32],
            r.weights@ == seq![0i64, 0i64, 0i64, 0i64],
    {
        let r = SkeletalVertex {
            position: Vec3Fx::zero(),
            normal: Vec3Fx::zero(),
            tex_coords: Vec2Fx::new(0, 0),
            bone_ids: [-1, -1, -1, -1],
            weights: [0, 0, 0, 0],
        };
        proof {
            assert(r.bone_ids@ =~= seq![-1i32, -1i32, -1i32, -1i32]);
            assert(r.weights@ =~= seq![0i64, 0i64, 0i64, 0i64]);
        }
        r
    }
}

/// A handle naming a skinned mesh in the renderer's table.
#[derive(PartialEq, Eq, Structural, Hash, Debug, Copy, Clone)]
pub struct SkeletalMeshHandle {
    pub id: usize,
}

/// A skinned mesh: geometry with bone bindings, GPU object names, a
/// transform, a color, and the setup flag the renderer drives.
#[derive(Clone, Debug)]
pub struct SkeletalMesh {
    pub vertices: Vec<SkeletalVertex>,
    pub indices: Vec<u32>,
    pub vao: u32,
    pub texture: u32,
    pub ebo: u32,
    pub vbo: u32,
    pub position: Vec3Fx,
    pub rotation: QuatFx,
    pub scale: Vec3Fx,
    pub color: Vec3Fx,
    pub hidden: bool,
    pub has_been_set_up: bool,
}

pub open spec fn skeletal_mesh_wf(m: SkeletalMesh) -> bool {
    &&& vec3_wf(m.position)
    &&& quat_wf(m.rotation)
    &&& vec3_wf(m.scale)
    &&& vec3_wf(m.color)
}

impl SkeletalMesh {
    /// A skinned mesh over the given buffers, at the origin with identity
    /// rotation, unit scale and white color, not yet set up.
    pub fn new(vertices: &Vec<SkeletalVertex>, indices: &Vec<u32>) -> (r: SkeletalMesh)
        ensures
            r.vertices@ == vertices@,
            r.indices@ == indices@,
            r.vao == 0 && r.vbo == 0 && r.ebo == 0 && r.texture == 0,
            r.position == (Vec3Fx { x: 0i64, y: 0i64, z: 0i64 }),
            r.rotation == (QuatFx { x: 0i64, y: 0i64, z: 0i64, w: FX_ONE }),
            r.scale == (Vec3Fx { x: FX_ONE, y: FX_ONE, z: FX_ONE }),
            r.color == (Vec3Fx { x: FX_ONE, y: FX_ONE, z: FX_ONE }),
            r.hidden == false,
            r.has_been_set_up == false,
            skeletal_mesh_wf(r),
    {
        SkeletalMesh {
            vertices: vertices.clone(),
            indices: indices.clone(),
            vao: 0,
            vbo: 0,
            ebo: 0,
            position: Vec3Fx::zero(),
            rotation: QuatFx::identity(),
            scale: Vec3Fx::one(),
            texture: 0,
            color: Vec3Fx::one(),
            hidden: false,
            has_been_set_up: false,
        }
    }

    /// Point the mesh at a texture already registered in the renderer.
    pub fn set_texture(&mut self, texture_handle: crate::texture::TextureHandle, renderer: &Renderer)
        requires
            crate::table::table_wf(renderer.textures),
            renderer.textures@.contains_key(texture_handle.id),
        ensures
            *final(self) == (SkeletalMesh {
                texture: renderer.textures@[texture_handle.id],
                ..*old(self)
            }),
    {
        match renderer.textures.get(texture_handle.id) {
            Some(t) => {
                self.texture = *t;
            },
            None => {},
        }
    }

    pub fn set_color(&mut self, color: Vec3Fx)
        ensures
            *final(self) == (SkeletalMesh { color, ..*old(self) }),
    {
        self.color = color;
    }

    pub fn set_position(&mut self, position: Vec3Fx)
        ensures
            *final(self) == (SkeletalMesh { position, ..*old(self) }),
    {
        self.position = position;
    }

    /// Translate the mesh by `position` (saturating).
    pub fn add_position(&mut self, position: Vec3Fx)
        ensures
            *final(self) == (SkeletalMesh {
                position: vec3_add_s(old(self).position, position),
                ..*old(self)
            }),
            vec3_wf(final(self).position),
    {
        self.position = self.position.add(position);
    }

    pub fn set_scale(&mut self, scale: Vec3Fx)
        ensures
            *final(self) == (SkeletalMesh { scale, ..*old(self) }),
    {
        self.scale = scale;
    }

    /// Multiply the scale component-wise by `scale`.
    pub fn scale(&mut self, scale: Vec3Fx)
        ensures
            *final(self) == (SkeletalMesh {
                scale: vec3_mul_s(old(self).scale, scale),
                ..*old(self)
            }),
            vec3_wf(final(self).scale),
    {
        self.scale = self.scale.mul(scale);
    }

    pub fn set_rotation(&mut self, rotation: QuatFx)
        ensures
            *final(self) == (SkeletalMesh { rotation, ..*old(self) }),
    {
        self.rotation = rotation;
    }

    /// Add `rotation` to the rotation component-wise.
    pub fn rotate(&mut self, rotation: QuatFx)
        ensures
            *final(self) == (SkeletalMesh {
                rotation: quat_add_s(old(self).rotation, rotation),
                ..*old(self)
            }),
            quat_wf(final(self).rotation),
    {
        self.rotation = self.rotation.add(rotation);
    }
}

/// Zip per-vertex attribute arrays and skinning data (the loader's output:
/// up to `MAX_BONE_INFLUENCE` bone id and weight pairs per vertex) into
/// skinned vertices.
pub fn assemble_skeletal_vertices(
    positions: &Vec<Vec3Fx>,
    normals: &Vec<Vec3Fx>,
    tex_coords: &Vec<Vec2Fx>,
    bone_ids: &Vec<[i32; 4]>,
    weights: &Vec<[i64; 4]>,
) -> (r: Vec<SkeletalVertex>)
    requires
        normals@.len() >= positions@.len(),
        tex_coords@.len() >= positions@.len(),
        bone_ids@.len() >= positions@.len(),
        weights@.len() >= positions@.len(),
    ensures
        r@.len() == positions@.len(),
        forall|i: int|
            0 <= i < r@.len() ==> #[trigger] r@[i] == (SkeletalVertex {
                position: positions@[i],
                normal: normals@[i],
                tex_coords: tex_coords@[i],
                bone_ids: bone_ids@[i],
                weights: weights@[i],
            }),
{
    let mut vertices: Vec<SkeletalVertex> = Vec::new();
    let mut i: usize = 0;
    while i < positions.len()
        invariant
            normals@.len() >= positions@.len(),
            tex_coords@.len() >= positions@.len(),
            bone_ids@.len() >= positions@.len(),
            weights@.len() >= positions@.len(),
            0 <= i <= positions@.len(),
            vertices@.len() == i,
            forall|j: int|
                0 <= j < i ==> #[trigger] vertices@[j] == (SkeletalVertex {
                    position: positions@[j],
                    normal: normals@[j],
                    tex_coords: tex_coords@[j],
                    bone_ids: bone_ids@[j],
                    weights: weights@[j],
                }),
        decreases positions@.len() - i,
    {
        vertices.push(
            SkeletalVertex {
                position: positions[i],
                normal: normals[i],
                tex_coords: tex_coords[i],
                bone_ids: bone_ids[i],
                weights: weights[i],
            },
        );
        i = i + 1;
    }
    vertices
}

impl Renderer {
    /// Build a skinned mesh over the given buffers and register it. The
    /// handle id is the size of the plain-mesh table (as this engine has
    /// it); if that id is already taken in the skinned table nothing is
    /// stored.
    pub fn add_skeletal_mesh_from_vertices_and_indices(
        &mut self,
        vertices: Vec<SkeletalVertex>,
        indices: Vec<u32>,
    ) -> (r: Option<SkeletalMeshHandle>)
        requires
            renderer_wf(*old(self)),
        ensures
            renderer_wf(*final(self)),
            ({
                let id = old(self).meshes.entries@.len() as usize;
                match r {
                    Some(h) => {
                        &&& h.id == id
                        &&& !old(self).skeletal_meshes@.contains_key(id)
                        &&& *final(self) == (Renderer {
                            skeletal_meshes: final(self).skeletal_meshes,
                            ..*old(self)
                        })
                        &&& final(self).skeletal_meshes@.contains_key(id)
                        &&& final(self).skeletal_meshes@[id].vertices@ == vertices@
                        &&& final(self).skeletal_meshes@[id].indices@ == indices@
                        &&& final(self).skeletal_meshes@ == old(self).skeletal_meshes@.insert(
                            id,
                            final(self).skeletal_meshes@[id],
                        )
                    },
                    None => old(self).skeletal_meshes@.contains_key(id) && *final(self) == *old(
                        self,
                    ),
                }
            }),
    {
        let handle = SkeletalMeshHandle { id: self.meshes.len() };
        if self.skeletal_meshes.contains_key(handle.id) {
            return None;
        }
        let mesh = SkeletalMesh::new(&vertices, &indices);
        self.skeletal_meshes.insert(handle.id, mesh);
        Some(handle)
    }

    /// Register a skinned mesh under a fresh handle. The handle id is the
    /// current table size; if that id is already taken nothing is stored.
    pub fn add_skeletal_mesh(&mut self, mesh: SkeletalMesh) -> (r: Option<SkeletalMeshHandle>)
        requires
            renderer_wf(*old(self)),
        ensures
            renderer_wf(*final(self)),
            ({
                let id = old(self).skeletal_meshes.entries@.len() as usize;
                match r {
                    Some(h) => {
                        &&& h.id == id
                        &&& !old(self).skeletal_meshes@.contains_key(id)
                        &&& *final(self) == (Renderer {
                            skeletal_meshes: final(self).skeletal_meshes,
                            ..*old(self)
                        })
                        &&& final(self).skeletal_meshes@ == old(self).skeletal_meshes@.insert(
                            id,
                            mesh,
                        )
                    },
                    None => old(self).skeletal_meshes@.contains_key(id) && *final(self) == *old(
                        self,
                    ),
                }
            }),
    {
        let handle = SkeletalMeshHandle { id: self.skeletal_meshes.len() };
        if self.skeletal_meshes.contains_key(handle.id) {
            return None;
        }
        self.skeletal_meshes.insert(handle.id, mesh);
        Some(handle)
    }

    /// The skinned mesh behind a handle, if any.
    pub fn get_skeletal_mesh(&self, handle: SkeletalMeshHandle) -> (r: Option<&SkeletalMesh>)
        requires
            renderer_wf(*self),
        ensures
            match r {
                Some(m) => self.skeletal_meshes@.contains_key(handle.id) && *m
                    == self.skeletal_meshes@[handle.id],
                None => !self.skeletal_meshes@.contains_key(handle.id),
            },
    {
        self.skeletal_meshes.get(handle.id)
    }

    /// A mutable borrow of the skinned mesh behind a handle, if any.
    pub fn get_skeletal_mesh_mut(&mut self, handle: SkeletalMeshHandle) -> (r: Option<
        &mut SkeletalMesh,
    >)
        requires
            renderer_wf(*old(self)),
        ensures
            final(self).meshes == old(self).meshes && final(self).lights == old(self).lights
                && final(self).textures == old(self).textures && final(self).models == old(
                self,
            ).models && final(self).camera == old(self).camera,
            crate::table::table_wf(final(self).skeletal_meshes),
            match r {
                Some(m) => {
                    &&& old(self).skeletal_meshes@.contains_key(handle.id)
                    &&& *m == old(self).skeletal_meshes@[handle.id]
                    &&& final(self).skeletal_meshes@ == old(self).skeletal_meshes@.insert(
                        handle.id,
                        *final(m),
                    )
                },
                None => !old(self).skeletal_meshes@.contains_key(handle.id) && *final(self) == *old(
                    self,
                ),
            },
    {
        self.skeletal_meshes.get_mut(handle.id)
    }

    /// Drop a skinned mesh from the table; absent handles are ignored.
    pub fn destroy_skeletal_mesh(&mut self, handle: SkeletalMeshHandle)
        requires
            renderer_wf(*old(self)),
        ensures
            renderer_wf(*final(self)),
            *final(self) == (Renderer {
                skeletal_meshes: final(self).skeletal_meshes,
                ..*old(self)
            }),
            final(self).skeletal_meshes@ == old(self).skeletal_meshes@.remove(handle.id),
    {
        let removed = self.skeletal_meshes.remove(handle.id);
        if removed.is_some() {
        } else {
        }
    }
}

} // verus!
