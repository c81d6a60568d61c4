//! Models: lists of meshes assembled from triangulated geometry arrays. The
//! embedding parses model files and hands the raw coordinate arrays here;
//! this module owns the vertex assembly rules (attribute fallbacks, default
//! colors, face-index reversal).

use vstd::prelude::*;
use crate::fixed::FX_ONE;
use crate::vec::{Vec2Fx, Vec3Fx, Vec4Fx};
use crate::mesh::{Mesh, Vertex};
use crate::texture::Texture;
use crate::renderer::{Renderer, renderer_wf};

verus! {

/// A handle naming a model in the renderer's model table.
#[derive(PartialEq, Eq, Structural, Hash, Debug, Copy, Clone)]
pub struct ModelHandle {
    pub id: usize,
}

/// A model: its meshes and the GPU texture names it loaded.
#[derive(Clone, Debug)]
pub struct Model {
    pub meshes: Vec<Mesh>,
    pub loaded_textures: Vec<u32>,
    pub bone_counter: i32,
}

/// The normal of vertex `i`: the coordinates at `i` when the normal array
/// still covers them, else the last normal that did (zero before any).
pub open spec fn obj_normal_s(n: Seq<i64>, i: int) -> Vec3Fx
    decreases i,
{
    if i < 0 {
        (Vec3Fx { x: 0i64, y: 0i64, z: 0i64 })
    } else if n.len() >= (i + 1) * 3 {
        (Vec3Fx { x: n[i * 3], y: n[i * 3 + 1], z: n[i * 3 + 2] })
    } else if i == 0 {
        (Vec3Fx { x: 0i64, y: 0i64, z: 0i64 })
    } else {
        obj_normal_s(n, i - 1)
    }
}

/// The texture coordinates of vertex `i`: the pair at `i` when the *normal*
/// array still covers two entries per vertex (as this engine has it), else
/// the last pair taken (zero before any).
pub open spec fn obj_tex_s(n: Seq<i64>, t: Seq<i64>, i: int) -> Vec2Fx
    decreases i,
{
    if i < 0 {
        (Vec2Fx { x: 0i64, y: 0i64 })
    } else if n.len() >= (i + 1) * 2 && t.len() >= (i + 1) * 2 {
        (Vec2Fx { x: t[i * 2], y: t[i * 2 + 1] })
    } else if i == 0 {
        (Vec2Fx { x: 0i64, y: 0i64 })
    } else {
        obj_tex_s(n, t, i - 1)
    }
}

/// The color of vertex `i`: the triple at `i` with full alpha when the color
/// array covers it, else opaque white.
pub open spec fn obj_color_s(c: Seq<i64>, i: int) -> Vec4Fx {
    if c.len() >= (i + 1) * 3 {
        (Vec4Fx { x: c[i * 3], y: c[i * 3 + 1], z: c[i * 3 + 2], w: FX_ONE })
    } else {
        (Vec4Fx { x: FX_ONE, y: FX_ONE, z: FX_ONE, w: FX_ONE })
    }
}

/// The assembled vertex `i` of a model mesh.
pub open spec fn obj_vertex_s(p: Seq<i64>, n: Seq<i64>, t: Seq<i64>, c: Seq<i64>, i: int) -> Vertex {
    (Vertex {
        position: (Vec3Fx { x: p[i * 3], y: p[i * 3 + 1], z: p[i * 3 + 2] }),
        color: obj_color_s(c, i),
        tex_coords: obj_tex_s(n, t, i),
        normal: obj_normal_s(n, i),
    })
}

/// The index buffer with every aligned group of six entries reversed (the
/// winding-order fix the engine applies to loaded faces); a shorter tail
/// group is reversed too.
pub open spec fn reverse_faces_s(idx: Seq<u32>) -> Seq<u32> {
    Seq::new(
        idx.len(),
        |i: int|
            {
                let g = i / 6;
                let base = g * 6;
                let len = if idx.len() - base < 6 {
                    idx.len() - base
                } else {
                    6
                };
                idx[base + (len - 1 - (i - base))]
            },
    )
}

impl Model {
    /// A model with nothing in it.
    pub fn empty() -> (r: Model)
        ensures
            r.meshes@.len() == 0,
            r.loaded_textures@.len() == 0,
            r.bone_counter == 0,
    {
        Model { meshes: Vec::new(), loaded_textures: Vec::new(), bone_counter: 0 }
    }

    /// Wrap a texture path for later loading; a texture that is already a
    /// loaded GPU name is recorded. (The embedding decodes image files.)
    pub fn load_texture<'t>(&mut self, path: &'t str) -> (r: Texture<'t>)
        ensures
            r == Texture::Path(path),
            *final(self) == *old(self),
    {
        let texture = Texture::Path(path);
        if let Texture::Loaded(id) = texture {
            self.loaded_textures.push(id);
        }
        texture
    }

    /// Assemble one mesh from triangulated geometry arrays (positions three
    /// per vertex; normals, texture coordinates and colors optional with the
    /// fallback rules above), reverse the face indices, and append it.
    pub fn load_mesh_arrays(
        &mut self,
        positions: &Vec<i64>,
        normals: &Vec<i64>,
        texcoords: &Vec<i64>,
        colors: &Vec<i64>,
        indices: &Vec<u32>,
    )
        requires
            positions@.len() % 3 == 0,
        ensures
            final(self).loaded_textures == old(self).loaded_textures,
            final(self).bone_counter == old(self).bone_counter,
            final(self).meshes@.len() == old(self).meshes@.len() + 1,
            forall|j: int|
                0 <= j < old(self).meshes@.len() ==> final(self).meshes@[j] == old(self).meshes@[j],
            ({
                let m = final(self).meshes@.last();
                &&& m.vertices@.len() == positions@.len() / 3
                &&& forall|i: int|
                    0 <= i < m.vertices@.len() ==> #[trigger] m.vertices@[i] == obj_vertex_s(
                        positions@,
                        normals@,
                        texcoords@,
                        colors@,
                        i,
                    )
                &&& m.indices@ == reverse_faces_s(indices@)
            }),
    {
        let num_vertices = positions.len() / 3;
        let mut vertices: Vec<Vertex> = Vec::new();
        let mut i: usize = 0;
        let mut last_normal = Vec3Fx::zero();
        let mut last_tex_coord = Vec2Fx::new(0, 0);
        while i < num_vertices
            invariant
                positions@.len() % 3 == 0,
                positions@.len() <= usize::MAX,
                num_vertices == positions@.len() / 3,
                0 <= i <= num_vertices,
                vertices@.len() == i,
                forall|j: int|
                    0 <= j < i ==> #[trigger] vertices@[j] == obj_vertex_s(
                        positions@,
                        normals@,
                        texcoords@,
                        colors@,
                        j,
                    ),
                last_normal == obj_normal_s(normals@, i - 1),
                last_tex_coord == obj_tex_s(normals@, texcoords@, i - 1),
            decreases num_vertices - i,
        {
            proof {
                vstd::arithmetic::div_mod::lemma_fundamental_div_mod(positions@.len() as int, 3);
                assert(positions@.len() == 3 * (positions@.len() as int / 3));
                assert(i < positions@.len() as int / 3);
                assert(3 * i <= 3 * (positions@.len() as int / 3) - 3) by (nonlinear_arith)
                    requires
                        i < positions@.len() as int / 3,
                ;
                assert(i * 3 + 2 < positions@.len());
            }
            let pos = Vec3Fx::new(positions[i * 3], positions[i * 3 + 1], positions[i * 3 + 2]);
            let tex_coords = if normals.len() >= (i + 1) * 2 && texcoords.len() >= (i + 1) * 2 {
                last_tex_coord = Vec2Fx::new(texcoords[i * 2], texcoords[i * 2 + 1]);
                Vec2Fx::new(texcoords[i * 2], texcoords[i * 2 + 1])
            } else {
                last_tex_coord
            };
            let normal = if normals.len() >= (i + 1) * 3 {
                last_normal = Vec3Fx::new(normals[i * 3], normals[i * 3 + 1], normals[i * 3 + 2]);
                Vec3Fx::new(normals[i * 3], normals[i * 3 + 1], normals[i * 3 + 2])
            } else {
                last_normal
            };
            let color = if colors.len() >= (i + 1) * 3 {
                Vec4Fx::new(colors[i * 3], colors[i * 3 + 1], colors[i * 3 + 2], FX_ONE)
            } else {
                Vec4Fx::one()
            };
            vertices.push(Vertex::new(pos, color, tex_coords, normal));
            i = i + 1;
        }
        let reversed = reverse_faces(indices);
        let final_mesh = Mesh::new(&vertices, &reversed);
        self.meshes.push(final_mesh);
    }
}

/// Reverse every aligned group of six indices (a shorter tail group too).
fn reverse_faces(indices: &Vec<u32>) -> (r: Vec<u32>)
    ensures
        r@ == reverse_faces_s(indices@),
{
    let n = indices.len();
    let mut r: Vec<u32> = Vec::new();
    let mut base: usize = 0;
    while base < n
        invariant
            n == indices@.len(),
            0 <= base <= n,
            base % 6 == 0 || base == n,
            r@.len() == base,
            forall|j: int| 0 <= j < base ==> r@[j] == reverse_faces_s(indices@)[j],
        decreases n - base,
    {
        let len = if n - base < 6 {
            n - base
        } else {
            6
        };
        let mut k: usize = 0;
        while k < len
            invariant
                n == indices@.len(),
                0 <= base < n,
                base % 6 == 0,
                len == (if n - base < 6 {
                    (n - base) as int
                } else {
                    6int
                }),
                base + len <= n,
                0 <= k <= len,
                r@.len() == base + k,
                forall|j: int| 0 <= j < base ==> r@[j] == reverse_faces_s(indices@)[j],
                forall|j: int|
                    base <= j < base + k ==> r@[j] == indices@[base + (len - 1 - (j - base))],
            decreases len - k,
        {
            r.push(indices[base + (len - 1 - k)]);
            k = k + 1;
        }
        proof {
            assert forall|j: int| base <= j < base + len implies r@[j] == reverse_faces_s(
                indices@,
            )[j] by {
                assert(j / 6 == base as int / 6) by {
                    vstd::arithmetic::div_mod::lemma_fundamental_div_mod(base as int, 6);
                    vstd::arithmetic::div_mod::lemma_fundamental_div_mod_converse_div(
                        j,
                        6,
                        base as int / 6,
                        j - base,
                    );
                }
                assert((base as int / 6) * 6 == base) by {
                    vstd::arithmetic::div_mod::lemma_fundamental_div_mod(base as int, 6);
                }
            }
        }
        base = base + len;
    }
    r
}

impl Renderer {
    /// Register a model under a fresh handle. The handle id is the current
    /// table size; if that id is already taken nothing is stored.
    pub fn add_model(&mut self, model: Model) -> (r: Option<ModelHandle>)
        requires
            renderer_wf(*old(self)),
        ensures
            renderer_wf(*final(self)),
            ({
                let id = old(self).models.entries@.len() as usize;
                match r {
                    Some(h) => {
                        &&& h.id == id
                        &&& !old(self).models@.contains_key(id)
                        &&& *final(self) == (Renderer { models: final(self).models, ..*old(self) })
                        &&& final(self).models@ == old(self).models@.insert(id, model)
                    },
                    None => old(self).models@.contains_key(id) && *final(self) == *old(self),
                }
            }),
    {
        let handle = ModelHandle { id: self.models.len() };
        if self.models.contains_key(handle.id) {
            return None;
        }
        self.models.insert(handle.id, model);
        Some(handle)
    }

    /// Drop a model from the table; absent handles are ignored.
    pub fn destroy_model(&mut self, handle: ModelHandle)
        requires
            renderer_wf(*old(self)),
        ensures
            renderer_wf(*final(self)),
            *final(self) == (Renderer { models: final(self).models, ..*old(self) }),
            final(self).models@ == old(self).models@.remove(handle.id),
    {
        self.models.remove(handle.id);
    }
}

} // verus!
