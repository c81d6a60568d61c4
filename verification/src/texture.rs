//! Texture handles and the renderer's texture table. Decoding image files
//! and creating GPU textures happen in the embedding; the table stores the
//! resulting GPU texture names.

use vstd::prelude::*;
use crate::renderer::{Renderer, renderer_wf};

verus! {

/// A handle naming a texture in the renderer's texture table.
#[derive(PartialEq, Eq, Structural, Hash, Debug, Copy, Clone)]
pub struct TextureHandle {
    pub id: usize,
}

/// A texture reference: still a file path, already a loaded GPU texture
/// name, or absent.
#[derive(PartialEq, Debug, Clone)]
pub enum Texture<'a> {
    Path(&'a str),
    Loaded(u32),
    NoTexture,
}

impl Renderer {
    /// Register a loaded GPU texture name under a fresh handle. The handle
    /// id is the current table size; if that id is already taken (possible
    /// after removals) nothing is stored. The caller loads the image and
    /// creates the texture beforehand.
    pub fn add_texture(&mut self, texture_id: u32) -> (r: Option<TextureHandle>)
        requires
            renderer_wf(*old(self)),
        ensures
            renderer_wf(*final(self)),
            ({
                let id = old(self).textures.entries@.len() as usize;
                match r {
                    Some(h) => {
                        &&& h.id == id
                        &&& !old(self).textures@.contains_key(id)
                        &&& *final(self) == (Renderer {
                            textures: final(self).textures,
                            ..*old(self)
                        })
                        &&& final(self).textures@ == old(self).textures@.insert(id, texture_id)
                    },
                    None => old(self).textures@.contains_key(id) && *final(self) == *old(self),
                }
            }),
    {
        let handle = TextureHandle { id: self.textures.len() };
        if self.textures.contains_key(handle.id) {
            return None;
        }
        self.textures.insert(handle.id, texture_id);
        Some(handle)
    }

    /// Drop a texture from the table; absent handles are ignored.
    pub fn destroy_texture(&mut self, handle: TextureHandle)
        requires
            renderer_wf(*old(self)),
        ensures
            renderer_wf(*final(self)),
            *final(self) == (Renderer { textures: final(self).textures, ..*old(self) }),
            final(self).textures@ == old(self).textures@.remove(handle.id),
    {
        let removed = self.textures.remove(handle.id);
        if removed.is_some() {
        } else {
        }
    }
}

} // verus!
