//! A ribbon trail: a ring buffer of recent positions rendered as a triangle
//! strip whose vertices wobble by a caller-supplied jitter (randomness comes
//! from the embedding).

use vstd::prelude::*;
use crate::fixed::FX_ONE;
use crate::vec::{Vec2Fx, Vec3Fx, Vec4Fx, vec3_add_s, vec3_sub_s, vec3_scale_s};
use crate::mesh::{Mesh, MeshHandle, Vertex};
use crate::renderer::{Renderer, renderer_wf};

verus! {

/// The strip triangulation of a trail with `res` ring slots: segment `g`
/// spans vertices `2g` to `2g + 3`.
pub open spec fn trail_indices_s(res: int) -> Seq<u32> {
    Seq::new(
        (6 * (res - 2)) as nat,
        |j: int|
            {
                let g = j / 6;
                let base = 2 * g;
                let slot = j % 6;
                if slot == 0 {
                    base as u32
                } else if slot == 1 {
                    (base + 1) as u32
                } else if slot == 2 {
                    (base + 2) as u32
                } else if slot == 3 {
                    (base + 1) as u32
                } else if slot == 4 {
                    (base + 3) as u32
                } else {
                    (base + 2) as u32
                }
            },
    )
}

/// The wobble a jitter sample adds to a trail vertex: the sample mapped from
/// `[0, 1]` to `[-1, 1]` and scaled by the trail thickness.
pub open spec fn trail_jolt_s(jitter: Vec3Fx, thickness: i64) -> Vec3Fx {
    vec3_scale_s(
        vec3_sub_s(
            vec3_scale_s(jitter, 2 * FX_ONE),
            (Vec3Fx { x: FX_ONE, y: FX_ONE, z: FX_ONE }),
        ),
        thickness as int,
    )
}

/// A trail: the mesh it drives, the ring of recent positions, and the strip
/// buffers.
pub struct Trail {
    pub handle: MeshHandle,
    pub positions: Vec<Vec3Fx>,
    pub indices: Vec<u32>,
    pub vertices: Vec<Vertex>,
    pub resolution: u32,
    pub thickness: i64,
    pub position: Vec3Fx,
}

impl Trail {
    /// Build a trail of `resolution` ring slots and register its strip mesh
    /// with the renderer. The fresh mesh id (the mesh table's size) must be
    /// free.
    pub fn new(renderer: &mut Renderer, resolution: u32) -> (r: Trail)
        requires
            renderer_wf(*old(renderer)),
            2 <= resolution <= 0x10000,
            !old(renderer).meshes@.contains_key(old(renderer).meshes.entries@.len() as usize),
        ensures
            renderer_wf(*final(renderer)),
            r.handle.id == old(renderer).meshes.entries@.len() as usize,
            final(renderer).meshes@.contains_key(r.handle.id),
            final(renderer).meshes@ == old(renderer).meshes@.insert(
                r.handle.id,
                final(renderer).meshes@[r.handle.id],
            ),
            final(renderer).meshes@[r.handle.id].vertices@ == r.vertices@,
            final(renderer).meshes@[r.handle.id].indices@ == r.indices@,
            final(renderer).lights == old(renderer).lights,
            final(renderer).textures == old(renderer).textures,
            final(renderer).models == old(renderer).models,
            final(renderer).skeletal_meshes == old(renderer).skeletal_meshes,
            final(renderer).camera == old(renderer).camera,
            r.positions@.len() == 0,
            r.resolution == resolution,
            r.thickness == FX_ONE,
            r.position == (Vec3Fx { x: 0i64, y: 0i64, z: 0i64 }),
            r.vertices@.len() == 2 * (resolution - 1),
            forall|i: int|
                0 <= i < r.vertices@.len() ==> #[trigger] r.vertices@[i] == (Vertex {
                    position: (Vec3Fx { x: 0i64, y: 0i64, z: 0i64 }),
                    color: (Vec4Fx { x: FX_ONE, y: FX_ONE, z: FX_ONE, w: FX_ONE }),
                    tex_coords: (Vec2Fx { x: FX_ONE, y: FX_ONE }),
                    normal: (Vec3Fx { x: FX_ONE, y: FX_ONE, z: FX_ONE }),
                }),
            r.indices@ == trail_indices_s(resolution as int),
    {
        let num_vertices = (resolution - 1) * 2;
        let mut vertices: Vec<Vertex> = Vec::new();
        let mut i: u32 = 0;
        while i < num_vertices
            invariant
                num_vertices == 2 * (resolution - 1),
                resolution <= 0x10000,
                0 <= i <= num_vertices,
                vertices@.len() == i,
                forall|j: int|
                    0 <= j < vertices@.len() ==> #[trigger] vertices@[j] == (Vertex {
                        position: (Vec3Fx { x: 0i64, y: 0i64, z: 0i64 }),
                        color: (Vec4Fx { x: FX_ONE, y: FX_ONE, z: FX_ONE, w: FX_ONE }),
                        tex_coords: (Vec2Fx { x: FX_ONE, y: FX_ONE }),
                        normal: (Vec3Fx { x: FX_ONE, y: FX_ONE, z: FX_ONE }),
                    }),
            decreases num_vertices - i,
        {
            vertices.push(
                Vertex::new(
                    Vec3Fx::new(0, 0, 0),
                    Vec4Fx::one(),
                    Vec2Fx::new(FX_ONE, FX_ONE),
                    Vec3Fx::one(),
                ),
            );
            i = i + 1;
        }
        let mut indices: Vec<u32> = Vec::new();
        let mut g: u32 = 0;
        while g < resolution - 2
            invariant
                2 <= resolution <= 0x10000,
                0 <= g <= resolution - 2,
                indices@.len() == 6 * g,
                forall|j: int|
                    0 <= j < indices@.len() ==> indices@[j] == trail_indices_s(resolution as int)[j],
            decreases resolution - 2 - g,
        {
            let base = g * 2;
            let ghost len0 = indices@.len() as int;
            proof {
                let slots = seq![0int, 1int, 2int, 3int, 4int, 5int];
                assert forall|si: int| 0 <= si < 6 implies ((len0 + #[trigger] slots[si]) / 6 == g
                    as int && (len0 + slots[si]) % 6 == slots[si]) by {
                    vstd::arithmetic::div_mod::lemma_fundamental_div_mod_converse_div(
                        len0 + slots[si],
                        6,
                        g as int,
                        slots[si],
                    );
                    vstd::arithmetic::div_mod::lemma_fundamental_div_mod_converse_mod(
                        len0 + slots[si],
                        6,
                        g as int,
                        slots[si],
                    );
                }
                assert(slots[0] == 0 && slots[1] == 1 && slots[2] == 2 && slots[3] == 3 && slots[4]
                    == 4 && slots[5] == 5);
            }
            indices.push(base);
            indices.push(base + 1);
            indices.push(base + 2);
            indices.push(base + 1);
            indices.push(base + 3);
            indices.push(base + 2);
            proof {
                assert forall|j: int| 0 <= j < indices@.len() implies indices@[j]
                    == trail_indices_s(resolution as int)[j] by {
                    if j < len0 {
                    } else if j == len0 {
                    } else if j == len0 + 1 {
                    } else if j == len0 + 2 {
                    } else if j == len0 + 3 {
                    } else if j == len0 + 4 {
                    } else {
                        assert(j == len0 + 5);
                    }
                }
            }
            g = g + 1;
        }
        let mesh = renderer.add_mesh(Mesh::new(&vertices, &indices));
        let handle = match mesh {
            Some(h) => h,
            None => MeshHandle { id: 0 },
        };
        Trail {
            handle,
            positions: Vec::new(),
            indices,
            vertices,
            resolution,
            thickness: FX_ONE,
            position: Vec3Fx::zero(),
        }
    }

    /// Push the current position into the ring (dropping the oldest sample
    /// past `resolution`), wobble every strip vertex by its jitter sample
    /// around its ring position (trailing vertices reuse the newest sample),
    /// and upload the strip to the mesh.
    pub fn update(&mut self, renderer: &mut Renderer, jitter: &Vec<Vec3Fx>)
        requires
            renderer_wf(*old(renderer)),
            old(renderer).meshes@.contains_key(old(self).handle.id),
            jitter@.len() >= old(self).vertices@.len(),
            old(self).resolution >= 1,
        ensures
            renderer_wf(*final(renderer)),
            ({
                let pushed = old(self).positions@.push(old(self).position);
                let ring = if pushed.len() > old(self).resolution {
                    pushed.subrange(1, pushed.len() as int)
                } else {
                    pushed
                };
                &&& final(self).positions@ == ring
                &&& final(self).vertices@.len() == old(self).vertices@.len()
                &&& forall|i: int|
                    0 <= i < final(self).vertices@.len() ==> #[trigger] final(self).vertices@[i]
                        == (Vertex {
                        position: vec3_add_s(
                            if i < ring.len() {
                                ring[i]
                            } else {
                                ring.last()
                            },
                            trail_jolt_s(jitter@[i], old(self).thickness),
                        ),
                        ..old(self).vertices@[i]
                    })
                &&& final(self).indices == old(self).indices
                &&& final(self).handle == old(self).handle
                &&& final(self).resolution == old(self).resolution
                &&& final(self).thickness == old(self).thickness
                &&& final(self).position == old(self).position
                &&& final(renderer).meshes@.contains_key(old(self).handle.id)
                &&& final(renderer).meshes@ == old(renderer).meshes@.insert(
                    old(self).handle.id,
                    final(renderer).meshes@[old(self).handle.id],
                )
                &&& final(renderer).meshes@[old(self).handle.id].vertices@
                    == final(self).vertices@
                &&& final(renderer).meshes@[old(self).handle.id].indices@ == final(self).indices@
                &&& final(renderer).meshes@[old(self).handle.id] == (Mesh {
                    vertices: final(renderer).meshes@[old(self).handle.id].vertices,
                    indices: final(renderer).meshes@[old(self).handle.id].indices,
                    ..old(renderer).meshes@[old(self).handle.id]
                })
                &&& final(renderer).lights == old(renderer).lights
                &&& final(renderer).textures == old(renderer).textures
                &&& final(renderer).models == old(renderer).models
                &&& final(renderer).skeletal_meshes == old(renderer).skeletal_meshes
                &&& final(renderer).camera == old(renderer).camera
            }),
    {
        self.positions.push(self.position);
        if self.positions.len() > self.resolution as usize {
            self.positions.remove(0);
        }
        let ghost ring = self.positions@;
        let n = self.positions.len();
        let total = self.vertices.len();
        let mut i: usize = 0;
        while i < n && i < total
            invariant
                n == ring.len(),
                self.positions@ == ring,
                total == self.vertices@.len(),
                jitter@.len() >= total,
                0 <= i <= total,
                i <= n,
                self.handle == old(self).handle,
                self.indices == old(self).indices,
                self.resolution == old(self).resolution,
                self.thickness == old(self).thickness,
                self.position == old(self).position,
                self.vertices@.len() == old(self).vertices@.len(),
                forall|j: int|
                    i <= j < total ==> #[trigger] self.vertices@[j] == old(self).vertices@[j],
                forall|j: int|
                    0 <= j < i ==> #[trigger] self.vertices@[j] == (Vertex {
                        position: vec3_add_s(
                            ring[j],
                            trail_jolt_s(jitter@[j], old(self).thickness),
                        ),
                        ..old(self).vertices@[j]
                    }),
            decreases total - i,
        {
            let jolt = jitter[i].scale(2 * FX_ONE).sub(Vec3Fx::one()).scale(self.thickness);
            let p = self.positions[i].add(jolt);
            let v = &mut self.vertices[i];
            v.position = p;
            i = i + 1;
        }
        let mut k: usize = i;
        while k < total
            invariant
                n == ring.len(),
                n >= 1,
                self.positions@ == ring,
                total == self.vertices@.len(),
                jitter@.len() >= total,
                i <= k <= total,
                i == if n <= total {
                    n as int
                } else {
                    total as int
                },
                self.handle == old(self).handle,
                self.indices == old(self).indices,
                self.resolution == old(self).resolution,
                self.thickness == old(self).thickness,
                self.position == old(self).position,
                self.vertices@.len() == old(self).vertices@.len(),
                forall|j: int|
                    k <= j < total ==> #[trigger] self.vertices@[j] == old(self).vertices@[j],
                forall|j: int|
                    0 <= j < i ==> #[trigger] self.vertices@[j] == (Vertex {
                        position: vec3_add_s(
                            ring[j],
                            trail_jolt_s(jitter@[j], old(self).thickness),
                        ),
                        ..old(self).vertices@[j]
                    }),
                forall|j: int|
                    i <= j < k ==> #[trigger] self.vertices@[j] == (Vertex {
                        position: vec3_add_s(
                            ring.last(),
                            trail_jolt_s(jitter@[j], old(self).thickness),
                        ),
                        ..old(self).vertices@[j]
                    }),
            decreases total - k,
        {
            let jolt = jitter[k].scale(2 * FX_ONE).sub(Vec3Fx::one()).scale(self.thickness);
            let last = self.positions[n - 1];
            let p = last.add(jolt);
            let v = &mut self.vertices[k];
            v.position = p;
            k = k + 1;
        }
        let new_vertices = self.vertices.clone();
        let new_indices = self.indices.clone();
        match renderer.meshes.get_mut(self.handle.id) {
            Some(m) => {
                m.update_data(new_vertices, new_indices);
            },
            None => {},
        }
    }
}

} // verus!
