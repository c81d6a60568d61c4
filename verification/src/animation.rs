//! Keyframe tracks: per-bone position/rotation/scale key sequences and their
//! interpolation into a local transform.
//!
//! A track is valid only when every channel has at least one key and the
//! timestamps of each channel strictly increase; construction rejects
//! anything else. Interpolation samples each channel independently (linear
//! for every component; rotation keys interpolate per quaternion component,
//! meeting both endpoints exactly) and recombines the channels as
//! translation * rotation * scale.

use vstd::prelude::*;
use crate::fixed::{FX_MAX, FX_ONE, fx_ratio_s, fx_wf};
use crate::vec::{Vec3Fx, QuatFx, vec3_wf, quat_wf, vec3_lerp_s, quat_lerp_s};
use crate::mat4::{
    Mat4Fx, mat_wf, mat_from_translation_s, mat_from_quat_s, mat_from_scale_s, mat_mul_s,
};

verus! {

/// A position key: a value and the tick it is reached at.
#[derive(Clone, Copy, PartialEq, Eq, Structural, Debug)]
pub struct KeyPosition {
    pub position: Vec3Fx,
    pub timestamp: i64,
}

/// A rotation key.
#[derive(Clone, Copy, PartialEq, Eq, Structural, Debug)]
pub struct KeyRotation {
    pub rotation: QuatFx,
    pub timestamp: i64,
}

/// A scale key.
#[derive(Clone, Copy, PartialEq, Eq, Structural, Debug)]
pub struct KeyScale {
    pub scale: Vec3Fx,
    pub timestamp: i64,
}

pub open spec fn pos_keys_wf(keys: Seq<KeyPosition>) -> bool {
    &&& keys.len() >= 1
    &&& forall|i: int| #![trigger keys[i]]
        0 <= i < keys.len() ==> vec3_wf(keys[i].position) && fx_wf(keys[i].timestamp)
    &&& forall|i: int| #![trigger keys[i]]
        0 <= i && i + 1 < keys.len() ==> keys[i].timestamp < keys[i + 1].timestamp
}

pub open spec fn rot_keys_wf(keys: Seq<KeyRotation>) -> bool {
    &&& keys.len() >= 1
    &&& forall|i: int| #![trigger keys[i]]
        0 <= i < keys.len() ==> quat_wf(keys[i].rotation) && fx_wf(keys[i].timestamp)
    &&& forall|i: int| #![trigger keys[i]]
        0 <= i && i + 1 < keys.len() ==> keys[i].timestamp < keys[i + 1].timestamp
}

pub open spec fn scale_keys_wf(keys: Seq<KeyScale>) -> bool {
    &&& keys.len() >= 1
    &&& forall|i: int| #![trigger keys[i]]
        0 <= i < keys.len() ==> vec3_wf(keys[i].scale) && fx_wf(keys[i].timestamp)
    &&& forall|i: int| #![trigger keys[i]]
        0 <= i && i + 1 < keys.len() ==> keys[i].timestamp < keys[i + 1].timestamp
}

/// The key interval chosen by a linear forward scan from position `i`: the
/// first index `j >= i` such that `t < ts[j + 1]`, or 0 as the documented
/// fallback when the scan runs past the last interval.
pub open spec fn scan_index(ts: Seq<i64>, t: i64, i: int) -> int
    decreases ts.len() - i,
{
    if i + 1 >= ts.len() {
        0
    } else if t < ts[i + 1] {
        i
    } else {
        scan_index(ts, t, i + 1)
    }
}

/// The key interval a channel uses for query time `t`.
pub open spec fn key_index_s(ts: Seq<i64>, t: i64) -> int {
    scan_index(ts, t, 0)
}

pub open spec fn pos_timestamps(keys: Seq<KeyPosition>) -> Seq<i64> {
    Seq::new(keys.len(), |i: int| keys[i].timestamp)
}

pub open spec fn rot_timestamps(keys: Seq<KeyRotation>) -> Seq<i64> {
    Seq::new(keys.len(), |i: int| keys[i].timestamp)
}

pub open spec fn scale_timestamps(keys: Seq<KeyScale>) -> Seq<i64> {
    Seq::new(keys.len(), |i: int| keys[i].timestamp)
}

/// The sampled value of a position channel at time `t`.
pub open spec fn sample_position_s(keys: Seq<KeyPosition>, t: i64) -> Vec3Fx {
    if keys.len() == 1 {
        keys[0].position
    } else {
        let i = key_index_s(pos_timestamps(keys), t);
        let f = fx_ratio_s(
            t as int - keys[i].timestamp as int,
            keys[i + 1].timestamp as int - keys[i].timestamp as int,
        );
        vec3_lerp_s(keys[i].position, keys[i + 1].position, f)
    }
}

/// The sampled value of a rotation channel at time `t`.
pub open spec fn sample_rotation_s(keys: Seq<KeyRotation>, t: i64) -> QuatFx {
    if keys.len() == 1 {
        keys[0].rotation
    } else {
        let i = key_index_s(rot_timestamps(keys), t);
        let f = fx_ratio_s(
            t as int - keys[i].timestamp as int,
            keys[i + 1].timestamp as int - keys[i].timestamp as int,
        );
        quat_lerp_s(keys[i].rotation, keys[i + 1].rotation, f)
    }
}

/// The sampled value of a scale channel at time `t`.
pub open spec fn sample_scale_s(keys: Seq<KeyScale>, t: i64) -> Vec3Fx {
    if keys.len() == 1 {
        keys[0].scale
    } else {
        let i = key_index_s(scale_timestamps(keys), t);
        let f = fx_ratio_s(
            t as int - keys[i].timestamp as int,
            keys[i + 1].timestamp as int - keys[i].timestamp as int,
        );
        vec3_lerp_s(keys[i].scale, keys[i + 1].scale, f)
    }
}

/// The local transform a track produces at time `t`:
/// translation * rotation * scale, in that fixed order.
pub open spec fn bone_local_s(b: AnimationBone, t: i64) -> Mat4Fx {
    mat_mul_s(
        mat_mul_s(
            mat_from_translation_s(sample_position_s(b.positions@, t)),
            mat_from_quat_s(sample_rotation_s(b.rotations@, t)),
        ),
        mat_from_scale_s(sample_scale_s(b.scalings@, t)),
    )
}

/// A per-bone keyframe track, plus the last local transform it produced.
#[derive(Clone, Debug)]
pub struct AnimationBone {
    pub positions: Vec<KeyPosition>,
    pub rotations: Vec<KeyRotation>,
    pub scalings: Vec<KeyScale>,
    pub num_positions: usize,
    pub num_rotations: usize,
    pub num_scalings: usize,
    pub local_transform: Mat4Fx,
    pub id: i32,
    pub name: String,
}

pub open spec fn bone_wf(b: AnimationBone) -> bool {
    &&& pos_keys_wf(b.positions@)
    &&& rot_keys_wf(b.rotations@)
    &&& scale_keys_wf(b.scalings@)
    &&& b.num_positions == b.positions@.len()
    &&& b.num_rotations == b.rotations@.len()
    &&& b.num_scalings == b.scalings@.len()
    &&& mat_wf(b.local_transform)
}

impl AnimationBone {
    /// Build a track from its three key sequences, rejecting malformed data:
    /// a channel with no keys, a timestamp sequence that does not strictly
    /// increase, or a value outside the representable range.
    pub fn new(
        name: &str,
        id: i32,
        positions: Vec<KeyPosition>,
        rotations: Vec<KeyRotation>,
        scalings: Vec<KeyScale>,
    ) -> (r: Option<AnimationBone>)
        ensures
            match r {
                Some(b) => {
                    &&& pos_keys_wf(positions@) && rot_keys_wf(rotations@) && scale_keys_wf(scalings@)
                    &&& bone_wf(b)
                    &&& b.positions@ == positions@
                    &&& b.rotations@ == rotations@
                    &&& b.scalings@ == scalings@
                    &&& b.name@ == name@
                    &&& b.id == id
                    &&& b.local_transform == crate::mat4::mat_identity_s()
                },
                None => !(pos_keys_wf(positions@) && rot_keys_wf(rotations@) && scale_keys_wf(
                    scalings@,
                )),
            },
    {
        if !positions_valid(&positions) || !rotations_valid(&rotations) || !scalings_valid(
            &scalings,
        ) {
            return None;
        }
        let num_positions = positions.len();
        let num_rotations = rotations.len();
        let num_scalings = scalings.len();
        Some(
            AnimationBone {
                positions,
                rotations,
                scalings,
                num_positions,
                num_rotations,
                num_scalings,
                local_transform: Mat4Fx::identity(),
                id,
                name: name.to_owned(),
            },
        )
    }

    /// Recompute and cache the local transform for query time `t`.
    pub fn update(&mut self, animation_time: i64)
        requires
            bone_wf(*old(self)),
        ensures
            *final(self) == (AnimationBone {
                local_transform: bone_local_s(*old(self), animation_time),
                ..*old(self)
            }),
            bone_wf(*final(self)),
    {
        let translation = self.interpolate_position(animation_time);
        let rotation = self.interpolate_rotation(animation_time);
        let scale = self.interpolate_scale(animation_time);
        self.local_transform = translation.mul(&rotation).mul(&scale);
    }

    /// The interpolation factor of `t` inside the interval
    /// `[last_timestamp, next_timestamp]`.
    pub fn get_scale_factor(last_timestamp: i64, next_timestamp: i64, animation_time: i64) -> (r:
        i64)
        requires
            fx_wf(last_timestamp),
            fx_wf(next_timestamp),
            last_timestamp < next_timestamp,
        ensures
            r as int == fx_ratio_s(
                animation_time as int - last_timestamp as int,
                next_timestamp as int - last_timestamp as int,
            ),
            fx_wf(r),
    {
        let midway_length: i128 = (animation_time as i128) - (last_timestamp as i128);
        let frames_difference = next_timestamp - last_timestamp;
        proof {
            assert(midway_length * (FX_ONE as int) <= 0x4000_0000_0000_0000_0000_0000_0000_0000
                && midway_length * (FX_ONE as int) >= -0x4000_0000_0000_0000_0000_0000_0000_0000)
                by (nonlinear_arith)
                requires
                    -0x1_0000_0000_0000_0000 <= midway_length <= 0x1_0000_0000_0000_0000,
            ;
        }
        let q = crate::fixed::div_floor_wide(midway_length * (FX_ONE as i128), frames_difference);
        crate::fixed::fx_clamp(q)
    }

    /// The key interval the position channel uses at time `t`.
    pub fn get_position_index(&self, animation_time: i64) -> (r: usize)
        requires
            pos_keys_wf(self.positions@),
            self.num_positions == self.positions@.len(),
        ensures
            r as int == key_index_s(pos_timestamps(self.positions@), animation_time),
            r < self.positions@.len(),
            self.positions@.len() > 1 ==> r + 1 < self.positions@.len(),
    {
        let ghost ts = pos_timestamps(self.positions@);
        let n = self.num_positions;
        if n <= 1 {
            return 0;
        }
        let mut i: usize = 0;
        while i < n - 1
            invariant
                pos_keys_wf(self.positions@),
                self.num_positions == self.positions@.len(),
                n == self.positions@.len(),
                n > 1,
                0 <= i <= n - 1,
                ts == pos_timestamps(self.positions@),
                scan_index(ts, animation_time, 0) == scan_index(ts, animation_time, i as int),
            decreases n - i,
        {
            if animation_time < self.positions[i + 1].timestamp {
                return i;
            }
            i = i + 1;
        }
        0
    }

    /// The key interval the rotation channel uses at time `t`.
    pub fn get_rotation_index(&self, animation_time: i64) -> (r: usize)
        requires
            rot_keys_wf(self.rotations@),
            self.num_rotations == self.rotations@.len(),
        ensures
            r as int == key_index_s(rot_timestamps(self.rotations@), animation_time),
            r < self.rotations@.len(),
            self.rotations@.len() > 1 ==> r + 1 < self.rotations@.len(),
    {
        let ghost ts = rot_timestamps(self.rotations@);
        let n = self.num_rotations;
        if n <= 1 {
            return 0;
        }
        let mut i: usize = 0;
        while i < n - 1
            invariant
                rot_keys_wf(self.rotations@),
                self.num_rotations == self.rotations@.len(),
                n == self.rotations@.len(),
                n > 1,
                0 <= i <= n - 1,
                ts == rot_timestamps(self.rotations@),
                scan_index(ts, animation_time, 0) == scan_index(ts, animation_time, i as int),
            decreases n - i,
        {
            if animation_time < self.rotations[i + 1].timestamp {
                return i;
            }
            i = i + 1;
        }
        0
    }

    /// The key interval the scale channel uses at time `t`.
    pub fn get_scale_index(&self, animation_time: i64) -> (r: usize)
        requires
            scale_keys_wf(self.scalings@),
            self.num_scalings == self.scalings@.len(),
        ensures
            r as int == key_index_s(scale_timestamps(self.scalings@), animation_time),
            r < self.scalings@.len(),
            self.scalings@.len() > 1 ==> r + 1 < self.scalings@.len(),
    {
        let ghost ts = scale_timestamps(self.scalings@);
        let n = self.num_scalings;
        if n <= 1 {
            return 0;
        }
        let mut i: usize = 0;
        while i < n - 1
            invariant
                scale_keys_wf(self.scalings@),
                self.num_scalings == self.scalings@.len(),
                n == self.scalings@.len(),
                n > 1,
                0 <= i <= n - 1,
                ts == scale_timestamps(self.scalings@),
                scan_index(ts, animation_time, 0) == scan_index(ts, animation_time, i as int),
            decreases n - i,
        {
            if animation_time < self.scalings[i + 1].timestamp {
                return i;
            }
            i = i + 1;
        }
        0
    }

    /// The position channel sampled at `t`.
    pub fn sample_position(&self, animation_time: i64) -> (r: Vec3Fx)
        requires
            pos_keys_wf(self.positions@),
            self.num_positions == self.positions@.len(),
        ensures
            r == sample_position_s(self.positions@, animation_time),
            vec3_wf(r),
    {
        if self.num_positions == 1 {
            return self.positions[0].position;
        }
        let p0idx = self.get_position_index(animation_time);
        let p1idx = p0idx + 1;
        let scale_factor = Self::get_scale_factor(
            self.positions[p0idx].timestamp,
            self.positions[p1idx].timestamp,
            animation_time,
        );
        self.positions[p0idx].position.lerp(self.positions[p1idx].position, scale_factor)
    }

    /// The rotation channel sampled at `t`.
    pub fn sample_rotation(&self, animation_time: i64) -> (r: QuatFx)
        requires
            rot_keys_wf(self.rotations@),
            self.num_rotations == self.rotations@.len(),
        ensures
            r == sample_rotation_s(self.rotations@, animation_time),
            quat_wf(r),
    {
        if self.num_rotations == 1 {
            return self.rotations[0].rotation;
        }
        let p0idx = self.get_rotation_index(animation_time);
        let p1idx = p0idx + 1;
        let scale_factor = Self::get_scale_factor(
            self.rotations[p0idx].timestamp,
            self.rotations[p1idx].timestamp,
            animation_time,
        );
        self.rotations[p0idx].rotation.lerp(self.rotations[p1idx].rotation, scale_factor)
    }

    /// The scale channel sampled at `t`.
    pub fn sample_scale(&self, animation_time: i64) -> (r: Vec3Fx)
        requires
            scale_keys_wf(self.scalings@),
            self.num_scalings == self.scalings@.len(),
        ensures
            r == sample_scale_s(self.scalings@, animation_time),
            vec3_wf(r),
    {
        if self.num_scalings == 1 {
            return self.scalings[0].scale;
        }
        let p0idx = self.get_scale_index(animation_time);
        let p1idx = p0idx + 1;
        let scale_factor = Self::get_scale_factor(
            self.scalings[p0idx].timestamp,
            self.scalings[p1idx].timestamp,
            animation_time,
        );
        self.scalings[p0idx].scale.lerp(self.scalings[p1idx].scale, scale_factor)
    }

    /// The local transform at `t`, without touching the cache.
    pub fn local_at(&self, animation_time: i64) -> (m: Mat4Fx)
        requires
            bone_wf(*self),
        ensures
            m == bone_local_s(*self, animation_time),
            mat_wf(m),
    {
        let translation = self.interpolate_position(animation_time);
        let rotation = self.interpolate_rotation(animation_time);
        let scale = self.interpolate_scale(animation_time);
        translation.mul(&rotation).mul(&scale)
    }

    /// The translation matrix of the position channel sampled at `t`.
    pub fn interpolate_position(&self, animation_time: i64) -> (m: Mat4Fx)
        requires
            pos_keys_wf(self.positions@),
            self.num_positions == self.positions@.len(),
        ensures
            m == mat_from_translation_s(sample_position_s(self.positions@, animation_time)),
            mat_wf(m),
    {
        if self.num_positions == 1 {
            return Mat4Fx::from_translation(self.positions[0].position);
        }
        let p0idx = self.get_position_index(animation_time);
        let p1idx = p0idx + 1;
        let scale_factor = Self::get_scale_factor(
            self.positions[p0idx].timestamp,
            self.positions[p1idx].timestamp,
            animation_time,
        );
        let final_position = self.positions[p0idx].position.lerp(
            self.positions[p1idx].position,
            scale_factor,
        );
        Mat4Fx::from_translation(final_position)
    }

    /// The rotation matrix of the rotation channel sampled at `t`.
    pub fn interpolate_rotation(&self, animation_time: i64) -> (m: Mat4Fx)
        requires
            rot_keys_wf(self.rotations@),
            self.num_rotations == self.rotations@.len(),
        ensures
            m == mat_from_quat_s(sample_rotation_s(self.rotations@, animation_time)),
            mat_wf(m),
    {
        if self.num_rotations == 1 {
            return Mat4Fx::from_quat(self.rotations[0].rotation);
        }
        let p0idx = self.get_rotation_index(animation_time);
        let p1idx = p0idx + 1;
        let scale_factor = Self::get_scale_factor(
            self.rotations[p0idx].timestamp,
            self.rotations[p1idx].timestamp,
            animation_time,
        );
        let final_rotation = self.rotations[p0idx].rotation.lerp(
            self.rotations[p1idx].rotation,
            scale_factor,
        );
        Mat4Fx::from_quat(final_rotation)
    }

    /// The scale matrix of the scale channel sampled at `t`.
    pub fn interpolate_scale(&self, animation_time: i64) -> (m: Mat4Fx)
        requires
            scale_keys_wf(self.scalings@),
            self.num_scalings == self.scalings@.len(),
        ensures
            m == mat_from_scale_s(sample_scale_s(self.scalings@, animation_time)),
            mat_wf(m),
    {
        if self.num_scalings == 1 {
            return Mat4Fx::from_scale(self.scalings[0].scale);
        }
        let p0idx = self.get_scale_index(animation_time);
        let p1idx = p0idx + 1;
        let scale_factor = Self::get_scale_factor(
            self.scalings[p0idx].timestamp,
            self.scalings[p1idx].timestamp,
            animation_time,
        );
        let final_scale = self.scalings[p0idx].scale.lerp(
            self.scalings[p1idx].scale,
            scale_factor,
        );
        Mat4Fx::from_scale(final_scale)
    }
}

/// Check a position channel: at least one key, strictly increasing
/// timestamps, all values in range.
pub fn positions_valid(keys: &Vec<KeyPosition>) -> (r: bool)
    ensures
        r == pos_keys_wf(keys@),
{
    if keys.len() == 0 {
        return false;
    }
    let mut i: usize = 0;
    while i < keys.len()
        invariant
            keys@.len() >= 1,
            0 <= i <= keys@.len(),
            forall|j: int| #![trigger keys@[j]]
                0 <= j < i ==> vec3_wf(keys@[j].position) && fx_wf(keys@[j].timestamp),
            forall|j: int| #![trigger keys@[j]]
                0 <= j && j + 1 < keys@.len() && j + 1 <= i ==> keys@[j].timestamp < keys@[j
                    + 1].timestamp,
        decreases keys@.len() - i,
    {
        let k = keys[i];
        if k.position.x < -FX_MAX || k.position.x > FX_MAX || k.position.y < -FX_MAX || k.position.y
            > FX_MAX || k.position.z < -FX_MAX || k.position.z > FX_MAX || k.timestamp < -FX_MAX
            || k.timestamp > FX_MAX {
            return false;
        }
        if i + 1 < keys.len() {
            if keys[i].timestamp >= keys[i + 1].timestamp {
                return false;
            }
        }
        i = i + 1;
    }
    true
}

/// Check a rotation channel the same way.
pub fn rotations_valid(keys: &Vec<KeyRotation>) -> (r: bool)
    ensures
        r == rot_keys_wf(keys@),
{
    if keys.len() == 0 {
        return false;
    }
    let mut i: usize = 0;
    while i < keys.len()
        invariant
            keys@.len() >= 1,
            0 <= i <= keys@.len(),
            forall|j: int| #![trigger keys@[j]]
                0 <= j < i ==> quat_wf(keys@[j].rotation) && fx_wf(keys@[j].timestamp),
            forall|j: int| #![trigger keys@[j]]
                0 <= j && j + 1 < keys@.len() && j + 1 <= i ==> keys@[j].timestamp < keys@[j
                    + 1].timestamp,
        decreases keys@.len() - i,
    {
        let k = keys[i];
        if k.rotation.x < -FX_MAX || k.rotation.x > FX_MAX || k.rotation.y < -FX_MAX || k.rotation.y
            > FX_MAX || k.rotation.z < -FX_MAX || k.rotation.z > FX_MAX || k.rotation.w < -FX_MAX
            || k.rotation.w > FX_MAX || k.timestamp < -FX_MAX || k.timestamp > FX_MAX {
            return false;
        }
        if i + 1 < keys.len() {
            if keys[i].timestamp >= keys[i + 1].timestamp {
                return false;
            }
        }
        i = i + 1;
    }
    true
}

/// Check a scale channel the same way.
pub fn scalings_valid(keys: &Vec<KeyScale>) -> (r: bool)
    ensures
        r == scale_keys_wf(keys@),
{
    if keys.len() == 0 {
        return false;
    }
    let mut i: usize = 0;
    while i < keys.len()
        invariant
            keys@.len() >= 1,
            0 <= i <= keys@.len(),
            forall|j: int| #![trigger keys@[j]]
                0 <= j < i ==> vec3_wf(keys@[j].scale) && fx_wf(keys@[j].timestamp),
            forall|j: int| #![trigger keys@[j]]
                0 <= j && j + 1 < keys@.len() && j + 1 <= i ==> keys@[j].timestamp < keys@[j
                    + 1].timestamp,
        decreases keys@.len() - i,
    {
        let k = keys[i];
        if k.scale.x < -FX_MAX || k.scale.x > FX_MAX || k.scale.y < -FX_MAX || k.scale.y > FX_MAX
            || k.scale.z < -FX_MAX || k.scale.z > FX_MAX || k.timestamp < -FX_MAX || k.timestamp
            > FX_MAX {
            return false;
        }
        if i + 1 < keys.len() {
            if keys[i].timestamp >= keys[i + 1].timestamp {
                return false;
            }
        }
        i = i + 1;
    }
    true
}

/// Adjacent-key ordering of a timestamp sequence.
pub open spec fn ts_sorted(ts: Seq<i64>) -> bool {
    forall|i: int| #![trigger ts[i]] 0 <= i && i + 1 < ts.len() ==> ts[i] < ts[i + 1]
}

/// In an adjacently sorted sequence, earlier entries are no larger.
proof fn lemma_sorted_le(ts: Seq<i64>, a: int, b: int)
    requires
        ts_sorted(ts),
        0 <= a <= b < ts.len(),
    ensures
        ts[a] <= ts[b],
    decreases b - a,
{
    if a < b {
        lemma_sorted_le(ts, a + 1, b);
    }
}

/// The forward scan started at any `i` at or before an interior key `j`
/// lands on `j` when queried with `j`'s own timestamp.
proof fn lemma_scan_at_key(ts: Seq<i64>, j: int, i: int)
    requires
        ts_sorted(ts),
        0 <= i <= j,
        j + 1 < ts.len(),
    ensures
        scan_index(ts, ts[j], i) == j,
    decreases j - i,
{
    if i == j {
        assert(ts[j] < ts[j + 1]);
    } else {
        lemma_sorted_le(ts, i + 1, j);
        lemma_scan_at_key(ts, j, i + 1);
    }
}

/// Single-key channel invariance: a track whose channel holds exactly one
/// key samples that key's value for every query time; if every channel is a
/// single key, the whole local transform is independent of the query time.
pub proof fn lemma_single_key_channel_invariance(b: AnimationBone, t: i64, t2: i64)
    requires
        bone_wf(b),
    ensures
        b.positions@.len() == 1 ==> sample_position_s(b.positions@, t) == b.positions@[0].position,
        b.rotations@.len() == 1 ==> sample_rotation_s(b.rotations@, t) == b.rotations@[0].rotation,
        b.scalings@.len() == 1 ==> sample_scale_s(b.scalings@, t) == b.scalings@[0].scale,
        b.positions@.len() == 1 && b.rotations@.len() == 1 && b.scalings@.len() == 1
            ==> bone_local_s(b, t) == bone_local_s(b, t2),
{
}

/// Sampling a position channel exactly at an interior key's timestamp yields
/// that key's value: the interpolation factor degenerates to zero.
pub proof fn lemma_position_boundary(keys: Seq<KeyPosition>, j: int)
    requires
        pos_keys_wf(keys),
        0 <= j,
        j + 1 < keys.len(),
    ensures
        sample_position_s(keys, keys[j].timestamp) == keys[j].position,
{
    let ts = pos_timestamps(keys);
    assert(ts_sorted(ts));
    lemma_scan_at_key(ts, j, 0);
    let den = keys[j + 1].timestamp as int - keys[j].timestamp as int;
    vstd::arithmetic::div_mod::lemma_div_basics_1(den);
    crate::fixed::lemma_lerp_endpoints(keys[j].position.x as int, keys[j + 1].position.x as int);
    crate::fixed::lemma_lerp_endpoints(keys[j].position.y as int, keys[j + 1].position.y as int);
    crate::fixed::lemma_lerp_endpoints(keys[j].position.z as int, keys[j + 1].position.z as int);
}

/// Sampling a two-key position channel exactly at the second key's timestamp
/// yields the second key's value: the scan falls back to interval zero and
/// the factor degenerates to one.
pub proof fn lemma_position_two_key_end(keys: Seq<KeyPosition>)
    requires
        pos_keys_wf(keys),
        keys.len() == 2,
    ensures
        sample_position_s(keys, keys[1].timestamp) == keys[1].position,
{
    let ts = pos_timestamps(keys);
    let den = keys[1].timestamp as int - keys[0].timestamp as int;
    assert(scan_index(ts, keys[1].timestamp, 0) == scan_index(ts, keys[1].timestamp, 1));
    vstd::arithmetic::div_mod::lemma_div_multiples_vanish(FX_ONE as int, den);
    assert(den * (FX_ONE as int) == (FX_ONE as int) * den);
    crate::fixed::lemma_lerp_endpoints(keys[0].position.x as int, keys[1].position.x as int);
    crate::fixed::lemma_lerp_endpoints(keys[0].position.y as int, keys[1].position.y as int);
    crate::fixed::lemma_lerp_endpoints(keys[0].position.z as int, keys[1].position.z as int);
}

/// The rotation-channel analogue of `lemma_position_boundary`.
pub proof fn lemma_rotation_boundary(keys: Seq<KeyRotation>, j: int)
    requires
        rot_keys_wf(keys),
        0 <= j,
        j + 1 < keys.len(),
    ensures
        sample_rotation_s(keys, keys[j].timestamp) == keys[j].rotation,
{
    let ts = rot_timestamps(keys);
    assert(ts_sorted(ts));
    lemma_scan_at_key(ts, j, 0);
    let den = keys[j + 1].timestamp as int - keys[j].timestamp as int;
    vstd::arithmetic::div_mod::lemma_div_basics_1(den);
    crate::fixed::lemma_lerp_endpoints(keys[j].rotation.x as int, keys[j + 1].rotation.x as int);
    crate::fixed::lemma_lerp_endpoints(keys[j].rotation.y as int, keys[j + 1].rotation.y as int);
    crate::fixed::lemma_lerp_endpoints(keys[j].rotation.z as int, keys[j + 1].rotation.z as int);
    crate::fixed::lemma_lerp_endpoints(keys[j].rotation.w as int, keys[j + 1].rotation.w as int);
}

/// The rotation-channel analogue of `lemma_position_two_key_end`.
pub proof fn lemma_rotation_two_key_end(keys: Seq<KeyRotation>)
    requires
        rot_keys_wf(keys),
        keys.len() == 2,
    ensures
        sample_rotation_s(keys, keys[1].timestamp) == keys[1].rotation,
{
    let ts = rot_timestamps(keys);
    let den = keys[1].timestamp as int - keys[0].timestamp as int;
    assert(scan_index(ts, keys[1].timestamp, 0) == scan_index(ts, keys[1].timestamp, 1));
    vstd::arithmetic::div_mod::lemma_div_multiples_vanish(FX_ONE as int, den);
    assert(den * (FX_ONE as int) == (FX_ONE as int) * den);
    crate::fixed::lemma_lerp_endpoints(keys[0].rotation.x as int, keys[1].rotation.x as int);
    crate::fixed::lemma_lerp_endpoints(keys[0].rotation.y as int, keys[1].rotation.y as int);
    crate::fixed::lemma_lerp_endpoints(keys[0].rotation.z as int, keys[1].rotation.z as int);
    crate::fixed::lemma_lerp_endpoints(keys[0].rotation.w as int, keys[1].rotation.w as int);
}

/// The scale-channel analogue of `lemma_position_boundary`.
pub proof fn lemma_scale_boundary(keys: Seq<KeyScale>, j: int)
    requires
        scale_keys_wf(keys),
        0 <= j,
        j + 1 < keys.len(),
    ensures
        sample_scale_s(keys, keys[j].timestamp) == keys[j].scale,
{
    let ts = scale_timestamps(keys);
    assert(ts_sorted(ts));
    lemma_scan_at_key(ts, j, 0);
    let den = keys[j + 1].timestamp as int - keys[j].timestamp as int;
    vstd::arithmetic::div_mod::lemma_div_basics_1(den);
    crate::fixed::lemma_lerp_endpoints(keys[j].scale.x as int, keys[j + 1].scale.x as int);
    crate::fixed::lemma_lerp_endpoints(keys[j].scale.y as int, keys[j + 1].scale.y as int);
    crate::fixed::lemma_lerp_endpoints(keys[j].scale.z as int, keys[j + 1].scale.z as int);
}

/// The scale-channel analogue of `lemma_position_two_key_end`.
pub proof fn lemma_scale_two_key_end(keys: Seq<KeyScale>)
    requires
        scale_keys_wf(keys),
        keys.len() == 2,
    ensures
        sample_scale_s(keys, keys[1].timestamp) == keys[1].scale,
{
    let ts = scale_timestamps(keys);
    let den = keys[1].timestamp as int - keys[0].timestamp as int;
    assert(scan_index(ts, keys[1].timestamp, 0) == scan_index(ts, keys[1].timestamp, 1));
    vstd::arithmetic::div_mod::lemma_div_multiples_vanish(FX_ONE as int, den);
    assert(den * (FX_ONE as int) == (FX_ONE as int) * den);
    crate::fixed::lemma_lerp_endpoints(keys[0].scale.x as int, keys[1].scale.x as int);
    crate::fixed::lemma_lerp_endpoints(keys[0].scale.y as int, keys[1].scale.y as int);
    crate::fixed::lemma_lerp_endpoints(keys[0].scale.z as int, keys[1].scale.z as int);
}

} // verus!
