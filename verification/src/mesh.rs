//! Triangle meshes: vertex data, a transform, a color, and the visibility
//! flag the culler drives. GPU buffer objects are owned by the embedding;
//! this type only carries their integer names.

use vstd::prelude::*;
use crate::fixed::FX_ONE;
use crate::vec::{
    Vec2Fx, Vec3Fx, Vec4Fx, QuatFx, vec2_wf, vec3_wf, vec4_wf, quat_wf, vec3_add_s, vec3_mul_s,
    quat_add_s,
};

verus! {

/// One mesh vertex.
#[derive(Clone, Copy, PartialEq, Eq, Structural, Debug)]
pub struct Vertex {
    pub position: Vec3Fx,
    pub color: Vec4Fx,
    pub tex_coords: Vec2Fx,
    pub normal: Vec3Fx,
}

pub open spec fn vertex_wf(v: Vertex) -> bool {
    vec3_wf(v.position) && vec4_wf(v.color) && vec2_wf(v.tex_coords) && vec3_wf(v.normal)
}

impl Vertex {
    pub fn new(position: Vec3Fx, color: Vec4Fx, tex_coords: Vec2Fx, normal: Vec3Fx) -> (r: Vertex)
        ensures
            r == (Vertex { position, color, tex_coords, normal }),
    {
        Vertex { position, color, tex_coords, normal }
    }
}

/// A handle naming a mesh in the renderer's mesh table.
#[derive(PartialEq, Eq, Structural, Hash, Debug, Copy, Clone)]
pub struct MeshHandle {
    pub id: usize,
}

/// Bare vertex and index buffers.
pub struct MeshData {
    pub vertices: Vec<Vertex>,
    pub indices: Vec<u32>,
}

/// A mesh: geometry, GPU object names, a transform, a color, and the flags
/// the renderer and culler drive.
#[derive(Clone, Debug)]
pub struct Mesh {
    pub vertices: Vec<Vertex>,
    pub indices: Vec<u32>,
    pub vao: u32,
    pub texture: u32,
    pub ebo: u32,
    pub vbo: u32,
    pub position: Vec3Fx,
    pub rotation: QuatFx,
    pub scale: Vec3Fx,
    pub color: Vec3Fx,
    pub hidden: bool,
    pub has_been_set_up: bool,
}

/// The largest squared vertex distance among the first `n` vertices.
pub open spec fn max_radius2_s(vs: Seq<Vertex>, n: int) -> int
    decreases n,
{
    if n <= 0 {
        0
    } else {
        let prev = max_radius2_s(vs, n - 1);
        let d = crate::vec::vec3_dot_s(vs[n - 1].position, vs[n - 1].position);
        if d > prev {
            d
        } else {
            prev
        }
    }
}

/// Every vertex position is in the representable range.
pub open spec fn mesh_vertices_wf(m: Mesh) -> bool {
    forall|i: int|
        0 <= i < m.vertices@.len() ==> crate::vec::vec3_wf((#[trigger] m.vertices@[i]).position)
}

pub open spec fn mesh_wf(m: Mesh) -> bool {
    &&& vec3_wf(m.position)
    &&& quat_wf(m.rotation)
    &&& vec3_wf(m.scale)
    &&& vec3_wf(m.color)
}

impl Mesh {
    /// A mesh over the given buffers, at the origin with identity rotation,
    /// unit scale and white color, visible and not yet set up.
    pub fn new(vertices: &Vec<Vertex>, indices: &Vec<u32>) -> (r: Mesh)
        ensures
            r.vertices@ == vertices@,
            r.indices@ == indices@,
            r.vao == 0 && r.vbo == 0 && r.ebo == 0 && r.texture == 0,
            r.position == (Vec3Fx { x: 0i64, y: 0i64, z: 0i64 }),
            r.rotation == (QuatFx { x: 0i64, y: 0i64, z: 0i64, w: FX_ONE }),
            r.scale == (Vec3Fx { x: FX_ONE, y: FX_ONE, z: FX_ONE }),
            r.color == (Vec3Fx { x: FX_ONE, y: FX_ONE, z: FX_ONE }),
            r.hidden == false,
            r.has_been_set_up == false,
            mesh_wf(r),
    {
        Mesh {
            vertices: vertices.clone(),
            indices: indices.clone(),
            vao: 0,
            vbo: 0,
            ebo: 0,
            position: Vec3Fx::zero(),
            rotation: QuatFx::identity(),
            scale: Vec3Fx::one(),
            texture: 0,
            color: Vec3Fx::one(),
            hidden: false,
            has_been_set_up: false,
        }
    }

    /// Point the mesh at a texture already registered in the renderer.
    pub fn set_texture(&mut self, texture_handle: crate::texture::TextureHandle, renderer: &crate::renderer::Renderer)
        requires
            crate::table::table_wf(renderer.textures),
            renderer.textures@.contains_key(texture_handle.id),
        ensures
            *final(self) == (Mesh { texture: renderer.textures@[texture_handle.id], ..*old(self) }),
    {
        match renderer.textures.get(texture_handle.id) {
            Some(t) => {
                self.texture = *t;
            },
            None => {},
        }
    }

    pub fn set_color(&mut self, color: Vec3Fx)
        ensures
            *final(self) == (Mesh { color, ..*old(self) }),
    {
        self.color = color;
    }

    pub fn set_position(&mut self, position: Vec3Fx)
        ensures
            *final(self) == (Mesh { position, ..*old(self) }),
    {
        self.position = position;
    }

    /// Translate the mesh by `position` (saturating).
    pub fn add_position(&mut self, position: Vec3Fx)
        ensures
            *final(self) == (Mesh {
                position: vec3_add_s(old(self).position, position),
                ..*old(self)
            }),
            vec3_wf(final(self).position),
    {
        self.position = self.position.add(position);
    }

    pub fn set_scale(&mut self, scale: Vec3Fx)
        ensures
            *final(self) == (Mesh { scale, ..*old(self) }),
    {
        self.scale = scale;
    }

    /// Multiply the scale component-wise by `scale`.
    pub fn scale(&mut self, scale: Vec3Fx)
        ensures
            *final(self) == (Mesh { scale: vec3_mul_s(old(self).scale, scale), ..*old(self) }),
            vec3_wf(final(self).scale),
    {
        self.scale = self.scale.mul(scale);
    }

    pub fn set_rotation(&mut self, rotation: QuatFx)
        ensures
            *final(self) == (Mesh { rotation, ..*old(self) }),
    {
        self.rotation = rotation;
    }

    /// Add `rotation` to the rotation component-wise (the composition this
    /// engine uses for incremental spins).
    pub fn rotate(&mut self, rotation: QuatFx)
        ensures
            *final(self) == (Mesh {
                rotation: quat_add_s(old(self).rotation, rotation),
                ..*old(self)
            }),
            quat_wf(final(self).rotation),
    {
        self.rotation = self.rotation.add(rotation);
    }

    /// The squared radius of the mesh's bounding sphere about its local
    /// origin: the largest squared vertex distance (zero for an empty mesh).
    /// Carrying the square avoids a square root; the culling tests compare
    /// squared radii anyway.
    pub fn bounding_radius2(&self) -> (r: i64)
        requires
            mesh_vertices_wf(*self),
        ensures
            r as int == max_radius2_s(self.vertices@, self.vertices@.len() as int),
            crate::fixed::fx_wf(r),
            r >= 0,
    {
        let mut biggest: i64 = 0;
        let mut i: usize = 0;
        while i < self.vertices.len()
            invariant
                mesh_vertices_wf(*self),
                0 <= i <= self.vertices@.len(),
                biggest as int == max_radius2_s(self.vertices@, i as int),
                crate::fixed::fx_wf(biggest),
                biggest >= 0,
            decreases self.vertices@.len() - i,
        {
            let size = self.vertices[i].position.dot(self.vertices[i].position);
            if size > biggest {
                biggest = size;
            }
            i = i + 1;
        }
        biggest
    }

    /// Replace the vertex and index buffers.
    pub fn update_data(&mut self, vertices: Vec<Vertex>, indices: Vec<u32>)
        ensures
            *final(self) == (Mesh { vertices, indices, ..*old(self) }),
    {
        self.vertices = vertices;
        self.indices = indices;
    }
}

impl crate::renderer::Renderer {
    /// Build a mesh over the given buffers and register it. The handle id is
    /// the current table size; if that id is already taken (possible after
    /// removals) nothing is stored.
    pub fn add_mesh_from_vertices_and_indices(
        &mut self,
        vertices: Vec<Vertex>,
        indices: Vec<u32>,
    ) -> (r: Option<MeshHandle>)
        requires
            crate::renderer::renderer_wf(*old(self)),
        ensures
            crate::renderer::renderer_wf(*final(self)),
            ({
                let id = old(self).meshes.entries@.len() as usize;
                match r {
                    Some(h) => {
                        &&& h.id == id
                        &&& !old(self).meshes@.contains_key(id)
                        &&& *final(self) == (crate::renderer::Renderer {
                            meshes: final(self).meshes,
                            ..*old(self)
                        })
                        &&& final(self).meshes@.contains_key(id)
                        &&& final(self).meshes@[id].vertices@ == vertices@
                        &&& final(self).meshes@[id].indices@ == indices@
                        &&& final(self).meshes@ == old(self).meshes@.insert(
                            id,
                            final(self).meshes@[id],
                        )
                    },
                    None => old(self).meshes@.contains_key(id) && *final(self) == *old(self),
                }
            }),
    {
        let handle = MeshHandle { id: self.meshes.len() };
        if self.meshes.contains_key(handle.id) {
            return None;
        }
        let mesh = Mesh::new(&vertices, &indices);
        self.meshes.insert(handle.id, mesh);
        Some(handle)
    }

    /// Register a mesh under a fresh handle. The handle id is the current
    /// table size; if that id is already taken nothing is stored.
    pub fn add_mesh(&mut self, mesh: Mesh) -> (r: Option<MeshHandle>)
        requires
            crate::renderer::renderer_wf(*old(self)),
        ensures
            crate::renderer::renderer_wf(*final(self)),
            ({
                let id = old(self).meshes.entries@.len() as usize;
                match r {
                    Some(h) => {
                        &&& h.id == id
                        &&& !old(self).meshes@.contains_key(id)
                        &&& *final(self) == (crate::renderer::Renderer {
                            meshes: final(self).meshes,
                            ..*old(self)
                        })
                        &&& final(self).meshes@ == old(self).meshes@.insert(id, mesh)
                    },
                    None => old(self).meshes@.contains_key(id) && *final(self) == *old(self),
                }
            }),
    {
        let handle = MeshHandle { id: self.meshes.len() };
        if self.meshes.contains_key(handle.id) {
            return None;
        }
        self.meshes.insert(handle.id, mesh);
        Some(handle)
    }

    /// The mesh behind a handle, if any.
    pub fn get_mesh(&self, handle: MeshHandle) -> (r: Option<&Mesh>)
        requires
            crate::renderer::renderer_wf(*self),
        ensures
            match r {
                Some(m) => self.meshes@.contains_key(handle.id) && *m == self.meshes@[handle.id],
                None => !self.meshes@.contains_key(handle.id),
            },
    {
        self.meshes.get(handle.id)
    }

    /// A mutable borrow of the mesh behind a handle, if any.
    pub fn get_mesh_mut(&mut self, handle: MeshHandle) -> (r: Option<&mut Mesh>)
        requires
            crate::renderer::renderer_wf(*old(self)),
        ensures
            final(self).lights == old(self).lights && final(self).textures == old(self).textures
                && final(self).models == old(self).models && final(self).skeletal_meshes == old(
                self,
            ).skeletal_meshes && final(self).camera == old(self).camera,
            crate::table::table_wf(final(self).meshes),
            match r {
                Some(m) => {
                    &&& old(self).meshes@.contains_key(handle.id)
                    &&& *m == old(self).meshes@[handle.id]
                    &&& final(self).meshes@ == old(self).meshes@.insert(handle.id, *final(m))
                },
                None => !old(self).meshes@.contains_key(handle.id) && *final(self) == *old(self),
            },
    {
        self.meshes.get_mut(handle.id)
    }

    /// Drop a mesh from the table; absent handles are ignored.
    pub fn destroy_mesh(&mut self, handle: MeshHandle)
        requires
            crate::renderer::renderer_wf(*old(self)),
        ensures
            crate::renderer::renderer_wf(*final(self)),
            *final(self) == (crate::renderer::Renderer { meshes: final(self).meshes, ..*old(self) }),
            final(self).meshes@ == old(self).meshes@.remove(handle.id),
    {
        let removed = self.meshes.remove(handle.id);
        if removed.is_some() {
        } else {
        }
    }
}

} // verus!
