//! The renderer's resource state: handle tables for meshes, lights,
//! textures, models and skinned meshes, plus the camera. Draw calls and GPU
//! buffer creation happen in the embedding; `update` flags which meshes the
//! embedding still has to set up.

use vstd::prelude::*;
use crate::table::{Table, table_wf};
use crate::mesh::Mesh;
use crate::light::Light;
use crate::model::Model;
use crate::skeletal_mesh::SkeletalMesh;
use crate::camera::{Camera, camera_wf};

verus! {

/// The renderer's resource tables and camera.
pub struct Renderer {
    pub meshes: Table<Mesh>,
    pub lights: Table<Light>,
    pub textures: Table<u32>,
    pub models: Table<Model>,
    pub skeletal_meshes: Table<SkeletalMesh>,
    pub camera: Camera,
}

pub open spec fn renderer_wf(r: Renderer) -> bool {
    &&& table_wf(r.meshes)
    &&& table_wf(r.lights)
    &&& table_wf(r.textures)
    &&& table_wf(r.models)
    &&& table_wf(r.skeletal_meshes)
    &&& camera_wf(r.camera)
}

impl Renderer {
    /// An empty renderer with the default camera.
    pub fn new() -> (r: Renderer)
        ensures
            renderer_wf(r),
            r.meshes@ == Map::<usize, Mesh>::empty(),
            r.lights@ == Map::<usize, Light>::empty(),
            r.textures@ == Map::<usize, u32>::empty(),
            r.models@ == Map::<usize, Model>::empty(),
            r.skeletal_meshes@ == Map::<usize, SkeletalMesh>::empty(),
            r.camera.pos == (crate::vec::Vec3Fx { x: 0i64, y: 0i64, z: (3 * crate::fixed::FX_ONE) as i64 }),
            r.camera.front == (crate::vec::Vec3Fx { x: 0i64, y: 0i64, z: (-crate::fixed::FX_ONE) as i64 }),
            r.camera.up == (crate::vec::Vec3Fx { x: 0i64, y: crate::fixed::FX_ONE, z: 0i64 }),
            r.camera.right == (crate::vec::Vec3Fx { x: crate::fixed::FX_ONE, y: 0i64, z: 0i64 }),
    {
        let camera = Camera::new();
        Renderer {
            camera,
            meshes: Table::new(),
            lights: Table::new(),
            textures: Table::new(),
            models: Table::new(),
            skeletal_meshes: Table::new(),
        }
    }

    /// Mark every mesh and skinned mesh as set up. Creating the GPU buffers
    /// for the meshes that were not yet set up is the embedding's step; this
    /// pass records that it has been requested for all of them.
    pub fn update(&mut self)
        requires
            renderer_wf(*old(self)),
        ensures
            renderer_wf(*final(self)),
            final(self).lights == old(self).lights && final(self).textures == old(self).textures
                && final(self).models == old(self).models && final(self).camera == old(self).camera,
            final(self).meshes.entries@.len() == old(self).meshes.entries@.len(),
            forall|j: int|
                0 <= j < old(self).meshes.entries@.len()
                    ==> #[trigger] final(self).meshes.entries@[j] == (
                    old(self).meshes.entries@[j].0,
                    (Mesh { has_been_set_up: true, ..old(self).meshes.entries@[j].1 }),
                ),
            final(self).skeletal_meshes.entries@.len() == old(self).skeletal_meshes.entries@.len(),
            forall|j: int|
                0 <= j < old(self).skeletal_meshes.entries@.len()
                    ==> #[trigger] final(self).skeletal_meshes.entries@[j] == (
                    old(self).skeletal_meshes.entries@[j].0,
                    (SkeletalMesh { has_been_set_up: true, ..old(self).skeletal_meshes.entries@[j].1 }),
                ),
    {
        let n = self.meshes.entries.len();
        let mut i: usize = 0;
        while i < n
            invariant
                n == self.meshes.entries@.len(),
                n == old(self).meshes.entries@.len(),
                0 <= i <= n,
                self.lights == old(self).lights,
                self.textures == old(self).textures,
                self.models == old(self).models,
                self.camera == old(self).camera,
                self.skeletal_meshes == old(self).skeletal_meshes,
                forall|j: int|
                    0 <= j < i ==> #[trigger] self.meshes.entries@[j] == (
                    old(self).meshes.entries@[j].0,
                    Mesh { has_been_set_up: true, ..old(self).meshes.entries@[j].1 },
                    ),
                forall|j: int|
                    i <= j < n ==> #[trigger] self.meshes.entries@[j] == old(
                        self,
                    ).meshes.entries@[j],
            decreases n - i,
        {
            let e = &mut self.meshes.entries[i];
            if !e.1.has_been_set_up {
                e.1.has_been_set_up = true;
            }
            i = i + 1;
        }
        let m = self.skeletal_meshes.entries.len();
        let mut k: usize = 0;
        while k < m
            invariant
                m == self.skeletal_meshes.entries@.len(),
                m == old(self).skeletal_meshes.entries@.len(),
                0 <= k <= m,
                self.lights == old(self).lights,
                self.textures == old(self).textures,
                self.models == old(self).models,
                self.camera == old(self).camera,
                self.meshes.entries@.len() == old(self).meshes.entries@.len(),
                forall|j: int|
                    0 <= j < old(self).meshes.entries@.len() ==> #[trigger] self.meshes.entries@[j]
                        == (
                    old(self).meshes.entries@[j].0,
                    Mesh { has_been_set_up: true, ..old(self).meshes.entries@[j].1 },
                    ),
                forall|j: int|
                    0 <= j < k ==> #[trigger] self.skeletal_meshes.entries@[j] == (
                    old(self).skeletal_meshes.entries@[j].0,
                    SkeletalMesh {
                        has_been_set_up: true,
                        ..old(self).skeletal_meshes.entries@[j].1
                    },
                    ),
                forall|j: int|
                    k <= j < m ==> #[trigger] self.skeletal_meshes.entries@[j] == old(
                        self,
                    ).skeletal_meshes.entries@[j],
            decreases m - k,
        {
            let e = &mut self.skeletal_meshes.entries[k];
            if !e.1.has_been_set_up {
                e.1.has_been_set_up = true;
            }
            k = k + 1;
        }
    }
}

} // verus!
