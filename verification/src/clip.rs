//! Animation clips: the skeleton hierarchy, the bone-name table, and the
//! clip data (duration, tick rate, per-bone tracks).
//!
//! The hierarchy is stored as an arena in depth-first order: each node names
//! its parent by index, and a parent always precedes its children. Clip
//! construction validates everything the animator later relies on and
//! rejects malformed data outright.

use vstd::prelude::*;
use crate::fixed::FX_MAX;
use crate::mat4::{Mat4Fx, mat_wf};
use crate::animation::{AnimationBone, bone_wf};

verus! {

/// One node of the skeleton hierarchy: its name, its local bind transform,
/// and the arena index of its parent (`None` for the root). A parent index
/// is always smaller than the node's own index.
#[derive(Clone, Debug)]
pub struct NodeData {
    pub name: String,
    pub transformation: Mat4Fx,
    pub parent: Option<usize>,
}

/// A bone's binding: its name, its dense index into the final matrix array,
/// and its inverse-bind (offset) matrix.
#[derive(Clone, Debug)]
pub struct BoneInfo {
    pub name: String,
    pub id: usize,
    pub offset: Mat4Fx,
}

/// An animation clip: duration and tick rate, the skeleton arena, one track
/// per animated bone, and the bone-name table.
#[derive(Clone, Debug)]
pub struct Animation {
    pub duration: i64,
    pub ticks_per_second: i64,
    pub bones: Vec<AnimationBone>,
    pub nodes: Vec<NodeData>,
    pub bone_map: Vec<BoneInfo>,
}

pub open spec fn nodes_wf(nodes: Seq<NodeData>) -> bool {
    forall|i: int| #![trigger nodes[i]]
        0 <= i < nodes.len() ==> mat_wf(nodes[i].transformation) && (match nodes[i].parent {
            Some(p) => p < i,
            None => true,
        })
}

pub open spec fn bone_map_wf(infos: Seq<BoneInfo>) -> bool {
    &&& forall|i: int| #![trigger infos[i]] 0 <= i < infos.len() ==> mat_wf(infos[i].offset)
    &&& forall|i: int, j: int| #![trigger infos[i], infos[j]]
        0 <= i < j < infos.len() ==> infos[i].name@ != infos[j].name@
}

pub open spec fn bones_wf(bones: Seq<AnimationBone>) -> bool {
    forall|i: int| #![trigger bones[i]] 0 <= i < bones.len() ==> bone_wf(bones[i])
}

pub open spec fn animation_wf(a: Animation) -> bool {
    &&& 0 < a.duration <= FX_MAX
    &&& 0 < a.ticks_per_second <= FX_MAX
    &&& bones_wf(a.bones@)
    &&& nodes_wf(a.nodes@)
    &&& bone_map_wf(a.bone_map@)
}

/// The first track at or after position `i` whose bone name is `name`.
pub open spec fn find_bone_from(bones: Seq<AnimationBone>, name: Seq<char>, i: int) -> Option<int>
    decreases bones.len() - i,
{
    if i < 0 || i >= bones.len() {
        None
    } else if bones[i].name@ == name {
        Some(i)
    } else {
        find_bone_from(bones, name, i + 1)
    }
}

/// The first track whose bone name is `name`.
pub open spec fn find_bone_s(bones: Seq<AnimationBone>, name: Seq<char>) -> Option<int> {
    find_bone_from(bones, name, 0)
}

/// The first table entry at or after position `i` whose bone name is `name`.
pub open spec fn find_info_from(infos: Seq<BoneInfo>, name: Seq<char>, i: int) -> Option<int>
    decreases infos.len() - i,
{
    if i < 0 || i >= infos.len() {
        None
    } else if infos[i].name@ == name {
        Some(i)
    } else {
        find_info_from(infos, name, i + 1)
    }
}

/// The table entry of the bone named `name`.
pub open spec fn find_info_s(infos: Seq<BoneInfo>, name: Seq<char>) -> Option<int> {
    find_info_from(infos, name, 0)
}

/// A successful track search returns an in-range index whose name matches.
pub proof fn lemma_find_bone_found(bones: Seq<AnimationBone>, name: Seq<char>, j: int, i: int)
    requires
        find_bone_from(bones, name, j) == Some(i),
    ensures
        j <= i < bones.len(),
        bones[i].name@ == name,
    decreases bones.len() - j,
{
    if 0 <= j < bones.len() && bones[j].name@ != name {
        lemma_find_bone_found(bones, name, j + 1, i);
    }
}

/// A successful table search returns an in-range index whose name matches.
pub proof fn lemma_find_info_found(infos: Seq<BoneInfo>, name: Seq<char>, j: int, i: int)
    requires
        find_info_from(infos, name, j) == Some(i),
    ensures
        j <= i < infos.len(),
        infos[i].name@ == name,
    decreases infos.len() - j,
{
    if 0 <= j < infos.len() && infos[j].name@ != name {
        lemma_find_info_found(infos, name, j + 1, i);
    }
}

impl Animation {
    /// Assemble a clip, rejecting malformed data: a non-positive or
    /// out-of-range duration or tick rate, an invalid track, a hierarchy
    /// whose parent indices do not precede their nodes, an offset matrix out
    /// of range, or two table entries sharing a bone name.
    pub fn new(
        duration: i64,
        ticks_per_second: i64,
        nodes: Vec<NodeData>,
        bones: Vec<AnimationBone>,
        bone_map: Vec<BoneInfo>,
    ) -> (r: Option<Animation>)
        ensures
            match r {
                Some(a) => {
                    &&& animation_wf(a)
                    &&& a.duration == duration
                    &&& a.ticks_per_second == ticks_per_second
                    &&& a.nodes@ == nodes@
                    &&& a.bones@ == bones@
                    &&& a.bone_map@ == bone_map@
                },
                None => !(0 < duration <= FX_MAX && 0 < ticks_per_second <= FX_MAX && bones_wf(
                    bones@,
                ) && nodes_wf(nodes@) && bone_map_wf(bone_map@)),
            },
    {
        if duration <= 0 || duration > FX_MAX || ticks_per_second <= 0 || ticks_per_second
            > FX_MAX {
            return None;
        }
        if !nodes_valid(&nodes) || !bones_valid(&bones) || !bone_map_valid(&bone_map) {
            return None;
        }
        Some(Animation { duration, ticks_per_second, bones, nodes, bone_map })
    }

    /// The index of the track animating the bone of that name, if any.
    pub fn find_bone(&self, name: &String) -> (r: Option<usize>)
        ensures
            match r {
                Some(i) => Some(i as int) == find_bone_s(self.bones@, name@),
                None => find_bone_s(self.bones@, name@) is None,
            },
    {
        let n = self.bones.len();
        let mut i: usize = 0;
        while i < n
            invariant
                n == self.bones@.len(),
                0 <= i <= n,
                find_bone_from(self.bones@, name@, 0) == find_bone_from(self.bones@, name@, i as int),
            decreases n - i,
        {
            if self.bones[i].name.eq(name) {
                return Some(i);
            }
            i = i + 1;
        }
        None
    }

    /// The table entry of the bone of that name, if any.
    pub fn find_bone_info(&self, name: &String) -> (r: Option<usize>)
        ensures
            match r {
                Some(i) => Some(i as int) == find_info_s(self.bone_map@, name@),
                None => find_info_s(self.bone_map@, name@) is None,
            },
    {
        let n = self.bone_map.len();
        let mut i: usize = 0;
        while i < n
            invariant
                n == self.bone_map@.len(),
                0 <= i <= n,
                find_info_from(self.bone_map@, name@, 0) == find_info_from(
                    self.bone_map@,
                    name@,
                    i as int,
                ),
            decreases n - i,
        {
            if self.bone_map[i].name.eq(name) {
                return Some(i);
            }
            i = i + 1;
        }
        None
    }
}

/// Check the hierarchy arena: every parent precedes its node and every bind
/// transform is in range.
fn nodes_valid(nodes: &Vec<NodeData>) -> (r: bool)
    ensures
        r == nodes_wf(nodes@),
{
    let mut i: usize = 0;
    while i < nodes.len()
        invariant
            0 <= i <= nodes@.len(),
            forall|j: int| #![trigger nodes@[j]]
                0 <= j < i ==> mat_wf(nodes@[j].transformation) && (match nodes@[j].parent {
                    Some(p) => p < j,
                    None => true,
                }),
        decreases nodes@.len() - i,
    {
        if !mat_in_range(&nodes[i].transformation) {
            return false;
        }
        match nodes[i].parent {
            Some(p) => {
                if p >= i {
                    return false;
                }
            },
            None => {},
        }
        i = i + 1;
    }
    true
}

/// Check every track of the clip.
fn bones_valid(bones: &Vec<AnimationBone>) -> (r: bool)
    ensures
        r == bones_wf(bones@),
{
    let mut i: usize = 0;
    while i < bones.len()
        invariant
            0 <= i <= bones@.len(),
            forall|j: int| #![trigger bones@[j]] 0 <= j < i ==> bone_wf(bones@[j]),
        decreases bones@.len() - i,
    {
        if !bone_valid(&bones[i]) {
            return false;
        }
        i = i + 1;
    }
    true
}

/// Check one track: channel validity and the cached length fields.
fn bone_valid(b: &AnimationBone) -> (r: bool)
    ensures
        r == bone_wf(*b),
{
    let pos_ok = crate::animation::positions_valid(&b.positions);
    let rot_ok = crate::animation::rotations_valid(&b.rotations);
    let sca_ok = crate::animation::scalings_valid(&b.scalings);
    pos_ok && rot_ok && sca_ok && b.num_positions == b.positions.len() && b.num_rotations
        == b.rotations.len() && b.num_scalings == b.scalings.len() && mat_in_range(
        &b.local_transform,
    )
}

/// Check the bone-name table: offsets in range, names pairwise distinct.
fn bone_map_valid(infos: &Vec<BoneInfo>) -> (r: bool)
    ensures
        r == bone_map_wf(infos@),
{
    let n = infos.len();
    let mut i: usize = 0;
    while i < n
        invariant
            n == infos@.len(),
            0 <= i <= n,
            forall|j: int| #![trigger infos@[j]] 0 <= j < i ==> mat_wf(infos@[j].offset),
            forall|j: int, k: int| #![trigger infos@[j], infos@[k]]
                0 <= j < k < infos@.len() && j < i ==> infos@[j].name@ != infos@[k].name@,
        decreases n - i,
    {
        if !mat_in_range(&infos[i].offset) {
            return false;
        }
        let mut k: usize = i + 1;
        while k < n
            invariant
                n == infos@.len(),
                0 <= i < n,
                i < k <= n,
                forall|k2: int| #![trigger infos@[k2]]
                    i < k2 < k ==> infos@[i as int].name@ != infos@[k2].name@,
            decreases n - k,
        {
            if infos[i].name.eq(&infos[k].name) {
                return false;
            }
            k = k + 1;
        }
        i = i + 1;
    }
    true
}

/// Check that all sixteen entries of a matrix are in range.
fn mat_in_range(m: &Mat4Fx) -> (r: bool)
    ensures
        r == mat_wf(*m),
{
    m.m00 >= -FX_MAX && m.m00 <= FX_MAX && m.m01 >= -FX_MAX && m.m01 <= FX_MAX && m.m02 >= -FX_MAX
        && m.m02 <= FX_MAX && m.m03 >= -FX_MAX && m.m03 <= FX_MAX && m.m10 >= -FX_MAX && m.m10
        <= FX_MAX && m.m11 >= -FX_MAX && m.m11 <= FX_MAX && m.m12 >= -FX_MAX && m.m12 <= FX_MAX
        && m.m13 >= -FX_MAX && m.m13 <= FX_MAX && m.m20 >= -FX_MAX && m.m20 <= FX_MAX && m.m21
        >= -FX_MAX && m.m21 <= FX_MAX && m.m22 >= -FX_MAX && m.m22 <= FX_MAX && m.m23 >= -FX_MAX
        && m.m23 <= FX_MAX && m.m30 >= -FX_MAX && m.m30 <= FX_MAX && m.m31 >= -FX_MAX && m.m31
        <= FX_MAX && m.m32 >= -FX_MAX && m.m32 <= FX_MAX && m.m33 >= -FX_MAX && m.m33 <= FX_MAX
}

} // verus!
