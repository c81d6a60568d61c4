//! Point lights and the renderer's light table. Uploading light uniforms to
//! a shader happens in the embedding.

use vstd::prelude::*;
use crate::vec::{Vec3Fx, vec3_wf};
use crate::renderer::{Renderer, renderer_wf};

verus! {

/// A point light.
#[derive(Copy, Clone, PartialEq, Eq, Structural, Debug)]
pub struct Light {
    pub position: Vec3Fx,
    pub color: Vec3Fx,
}

pub open spec fn light_wf(l: Light) -> bool {
    vec3_wf(l.position) && vec3_wf(l.color)
}

/// A handle naming a light in the renderer's light table.
#[derive(PartialEq, Eq, Structural, Hash, Debug, Copy, Clone)]
pub struct LightHandle {
    pub id: usize,
}

impl Renderer {
    /// Register a light under a fresh handle. The handle id is the current
    /// table size; if that id is already taken (possible after removals)
    /// nothing is stored.
    pub fn add_light(&mut self, light: Light) -> (r: Option<LightHandle>)
        requires
            renderer_wf(*old(self)),
        ensures
            renderer_wf(*final(self)),
            ({
                let id = old(self).lights.entries@.len() as usize;
                match r {
                    Some(h) => {
                        &&& h.id == id
                        &&& !old(self).lights@.contains_key(id)
                        &&& *final(self) == (Renderer { lights: final(self).lights, ..*old(self) })
                        &&& final(self).lights@ == old(self).lights@.insert(id, light)
                    },
                    None => old(self).lights@.contains_key(id) && *final(self) == *old(self),
                }
            }),
    {
        let handle = LightHandle { id: self.lights.len() };
        if self.lights.contains_key(handle.id) {
            return None;
        }
        self.lights.insert(handle.id, light);
        Some(handle)
    }

    /// Drop a light from the table; absent handles are ignored.
    pub fn destroy_light(&mut self, handle: LightHandle)
        requires
            renderer_wf(*old(self)),
        ensures
            renderer_wf(*final(self)),
            *final(self) == (Renderer { lights: final(self).lights, ..*old(self) }),
            final(self).lights@ == old(self).lights@.remove(handle.id),
    {
        let removed = self.lights.remove(handle.id);
        if removed.is_some() {
        } else {
        }
    }
}

} // verus!
