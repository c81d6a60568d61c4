//! The animator state machine: it plays one clip, optionally blends into a
//! target clip, and produces the final bone-matrix array each tick.
//!
//! The skeleton arena is in depth-first order (parents precede children), so
//! one forward pass over the nodes computes every global transform; for each
//! node bound in the bone table with an id below `MAX_BONES`, the pass writes
//! `global * inverse_bind_offset` into the output slot of that id. Blending
//! interpolates each channel (translation, rotation, scale) of the two clips'
//! sampled values and recomposes them, for the nodes both clips animate.

use vstd::prelude::*;
use crate::fixed::{
    FX_MAX, fx_add, fx_add_s, fx_min, fx_mul, fx_mul_s, fx_ratio, fx_ratio_s, fx_wf, fx_wrap,
    fx_wrap_s,
};
use crate::vec::{vec3_lerp_s, quat_lerp_s};
use crate::mat4::{Mat4Fx, mat_wf, mat_identity_s, mat_mul_s, mat_from_translation_s,
    mat_from_quat_s, mat_from_scale_s};
use crate::animation::{
    AnimationBone, sample_position_s, sample_rotation_s, sample_scale_s, bone_local_s,
};
use crate::clip::{Animation, animation_wf, find_bone_s, find_info_s};

verus! {

/// Capacity of the final bone-matrix array; bones with a larger id are
/// silently skipped.
pub const MAX_BONES: usize = 100;

/// The blended local transform of a node animated by both clips: each
/// channel is interpolated between the two clips' samples by factor `f`,
/// then recomposed as translation * rotation * scale.
pub open spec fn blend_local_s(ba: AnimationBone, bb: AnimationBone, t: i64, f: i64) -> Mat4Fx {
    mat_mul_s(
        mat_mul_s(
            mat_from_translation_s(
                vec3_lerp_s(
                    sample_position_s(ba.positions@, t),
                    sample_position_s(bb.positions@, t),
                    f as int,
                ),
            ),
            mat_from_quat_s(
                quat_lerp_s(
                    sample_rotation_s(ba.rotations@, t),
                    sample_rotation_s(bb.rotations@, t),
                    f as int,
                ),
            ),
        ),
        mat_from_scale_s(
            vec3_lerp_s(
                sample_scale_s(ba.scalings@, t),
                sample_scale_s(bb.scalings@, t),
                f as int,
            ),
        ),
    )
}

/// The local transform of node `i` when playing `anim` alone: the track's
/// sample if the node's name has a track, else the node's bind transform.
pub open spec fn node_local_playing_s(anim: Animation, i: int, t: i64) -> Mat4Fx {
    match find_bone_s(anim.bones@, anim.nodes@[i].name@) {
        Some(b) => bone_local_s(anim.bones@[b], t),
        None => anim.nodes@[i].transformation,
    }
}

/// The local transform of node `i` while blending from `cur` to `tgt`: the
/// blended sample when both clips animate the node, else the bind transform.
pub open spec fn node_local_blend_s(cur: Animation, tgt: Animation, i: int, t: i64, f: i64) -> Mat4Fx {
    match find_bone_s(cur.bones@, cur.nodes@[i].name@) {
        Some(bi) => match find_bone_s(tgt.bones@, cur.nodes@[i].name@) {
            Some(bj) => blend_local_s(cur.bones@[bi], tgt.bones@[bj], t, f),
            None => cur.nodes@[i].transformation,
        },
        None => cur.nodes@[i].transformation,
    }
}

/// The global transform of node `i` when playing: its parent's global
/// transform (the identity at a root) times its local transform.
pub open spec fn global_playing_s(anim: Animation, i: int, t: i64) -> Mat4Fx
    decreases i,
{
    if 0 <= i < anim.nodes@.len() {
        let local = node_local_playing_s(anim, i, t);
        match anim.nodes@[i].parent {
            Some(p) => if p < i {
                mat_mul_s(global_playing_s(anim, p as int, t), local)
            } else {
                local
            },
            None => mat_mul_s(mat_identity_s(), local),
        }
    } else {
        mat_identity_s()
    }
}

/// The global transform of node `i` while blending.
pub open spec fn global_blend_s(cur: Animation, tgt: Animation, i: int, t: i64, f: i64) -> Mat4Fx
    decreases i,
{
    if 0 <= i < cur.nodes@.len() {
        let local = node_local_blend_s(cur, tgt, i, t, f);
        match cur.nodes@[i].parent {
            Some(p) => if p < i {
                mat_mul_s(global_blend_s(cur, tgt, p as int, t, f), local)
            } else {
                local
            },
            None => mat_mul_s(mat_identity_s(), local),
        }
    } else {
        mat_identity_s()
    }
}

/// The final bone-matrix array after the playing pass has visited the first
/// `n` nodes, starting from `init`: each visited node bound in the bone
/// table with an id below `MAX_BONES` writes `global * offset` to its slot.
pub open spec fn finals_playing_after(anim: Animation, t: i64, init: Seq<Mat4Fx>, n: int) -> Seq<
    Mat4Fx,
>
    decreases n,
{
    if n <= 0 {
        init
    } else {
        let prev = finals_playing_after(anim, t, init, n - 1);
        let i = n - 1;
        if 0 <= i < anim.nodes@.len() {
            match find_info_s(anim.bone_map@, anim.nodes@[i].name@) {
                Some(k) => {
                    let id = anim.bone_map@[k].id;
                    if id < MAX_BONES {
                        prev.update(
                            id as int,
                            mat_mul_s(global_playing_s(anim, i, t), anim.bone_map@[k].offset),
                        )
                    } else {
                        prev
                    }
                },
                None => prev,
            }
        } else {
            prev
        }
    }
}

/// The final bone-matrix array after the blending pass has visited the first
/// `n` nodes.
pub open spec fn finals_blend_after(
    cur: Animation,
    tgt: Animation,
    t: i64,
    f: i64,
    init: Seq<Mat4Fx>,
    n: int,
) -> Seq<Mat4Fx>
    decreases n,
{
    if n <= 0 {
        init
    } else {
        let prev = finals_blend_after(cur, tgt, t, f, init, n - 1);
        let i = n - 1;
        if 0 <= i < cur.nodes@.len() {
            match find_info_s(cur.bone_map@, cur.nodes@[i].name@) {
                Some(k) => {
                    let id = cur.bone_map@[k].id;
                    if id < MAX_BONES {
                        prev.update(
                            id as int,
                            mat_mul_s(global_blend_s(cur, tgt, i, t, f), cur.bone_map@[k].offset),
                        )
                    } else {
                        prev
                    }
                },
                None => prev,
            }
        } else {
            prev
        }
    }
}

/// Playback wrap identity: advancing the clock of a playing animator by
/// exactly one clip duration returns it to the same tick. Together with
/// `update`'s contract (the clock always lands in `[0, duration)`) this is
/// the playback-wrap law.
pub proof fn lemma_playback_period(t: int, d: int)
    requires
        0 <= t < d,
        t + d <= FX_MAX,
    ensures
        fx_wrap_s(fx_add_s(t, d), d) == t,
{
    crate::fixed::lemma_wrap_period(t, d);
}

/// Bone-matrix determinism: the pose array is a pure function of the clip,
/// the query time and the prior array, so equal inputs give bit-for-bit
/// equal outputs; `update`'s contract pins its result to this function.
pub proof fn lemma_bone_matrix_determinism(
    anim1: Animation,
    t1: i64,
    init1: Seq<Mat4Fx>,
    anim2: Animation,
    t2: i64,
    init2: Seq<Mat4Fx>,
    n: int,
)
    requires
        anim1 == anim2,
        t1 == t2,
        init1 == init2,
    ensures
        finals_playing_after(anim1, t1, init1, n) == finals_playing_after(anim2, t2, init2, n),
{
}

/// The animator: the clip it plays, the playback clock, the optional blend
/// target with the blend clock, and the final bone-matrix array.
/// `blend_progress` counts the time elapsed since the transition started;
/// the transition completes exactly when it reaches `blend_duration`.
#[derive(Clone, Debug)]
pub struct Animator {
    pub final_bone_matrices: Vec<Mat4Fx>,
    pub current_animation: Animation,
    pub target_animation: Option<Animation>,
    pub current_time: i64,
    pub blend_duration: i64,
    pub blend_progress: i64,
}

pub open spec fn animator_wf(a: Animator) -> bool {
    &&& animation_wf(a.current_animation)
    &&& match a.target_animation {
        Some(t) => animation_wf(t) && 0 < a.blend_duration <= FX_MAX,
        None => true,
    }
    &&& a.final_bone_matrices@.len() == MAX_BONES
    &&& forall|i: int| #![trigger a.final_bone_matrices@[i]]
        0 <= i < a.final_bone_matrices@.len() ==> mat_wf(a.final_bone_matrices@[i])
    &&& 0 <= a.current_time < a.current_animation.duration
    &&& fx_wf(a.blend_progress)
    &&& fx_wf(a.blend_duration)
}

impl Animator {
    /// Bind a fresh animator to a clip: time zero, no transition, and the
    /// output array filled with identity matrices.
    pub fn new(animation: Animation) -> (r: Animator)
        requires
            animation_wf(animation),
        ensures
            animator_wf(r),
            r.current_animation == animation,
            r.target_animation is None,
            r.current_time == 0,
            r.blend_duration == 0,
            r.blend_progress == 0,
            r.final_bone_matrices@.len() == MAX_BONES,
            forall|i: int| #![trigger r.final_bone_matrices@[i]]
                0 <= i < MAX_BONES ==> r.final_bone_matrices@[i] == mat_identity_s(),
    {
        let mut final_bone_matrices: Vec<Mat4Fx> = Vec::new();
        let mut i: usize = 0;
        while i < MAX_BONES
            invariant
                final_bone_matrices@.len() == i,
                0 <= i <= MAX_BONES,
                forall|j: int| #![trigger final_bone_matrices@[j]]
                    0 <= j < i ==> final_bone_matrices@[j] == mat_identity_s(),
            decreases MAX_BONES - i,
        {
            final_bone_matrices.push(Mat4Fx::identity());
            i = i + 1;
        }
        Animator {
            current_time: 0,
            current_animation: animation,
            target_animation: None,
            final_bone_matrices,
            blend_duration: 0,
            blend_progress: 0,
        }
    }

    /// Begin a transition towards `target_animation` over `blend_duration`
    /// ticks. A non-positive or out-of-range duration is rejected and the
    /// animator is left unchanged.
    pub fn start_transition(&mut self, target_animation: Animation, blend_duration: i64) -> (ok:
        bool)
        requires
            animator_wf(*old(self)),
            animation_wf(target_animation),
        ensures
            animator_wf(*final(self)),
            ok == (0 < blend_duration <= FX_MAX),
            ok ==> *final(self) == (Animator {
                target_animation: Some(target_animation),
                blend_duration,
                blend_progress: 0i64,
                ..*old(self)
            }),
            !ok ==> *final(self) == *old(self),
    {
        if blend_duration <= 0 || blend_duration > FX_MAX {
            return false;
        }
        self.target_animation = Some(target_animation);
        self.blend_duration = blend_duration;
        self.blend_progress = 0;
        true
    }

    /// Advance playback by `dt`.
    ///
    /// The clock advances by `ticks_per_second * dt` and wraps into
    /// `[0, duration)` by floored modulo, so playback always loops. While a
    /// transition is pending the clock is further wrapped into the shorter
    /// of the two durations, the blend clock advances by `dt`, and either
    /// the transition completes (the target clip becomes current, exactly
    /// when the elapsed blend time reaches the blend duration, leaving the
    /// output array untouched) or the blended pose is written. Without a
    /// transition the playing pose of the current clip is written.
    pub fn update(&mut self, dt: i64)
        requires
            animator_wf(*old(self)),
            fx_wf(dt),
        ensures
            animator_wf(*final(self)),
            0 <= final(self).current_time < final(self).current_animation.duration,
            ({
                let moved = fx_add_s(
                    old(self).current_time as int,
                    fx_mul_s(old(self).current_animation.ticks_per_second as int, dt as int),
                );
                let t1 = fx_wrap_s(moved, old(self).current_animation.duration as int);
                match old(self).target_animation {
                    None => {
                        &&& final(self).current_time == t1
                        &&& final(self).current_animation == old(self).current_animation
                        &&& final(self).target_animation is None
                        &&& final(self).blend_duration == old(self).blend_duration
                        &&& final(self).blend_progress == old(self).blend_progress
                        &&& final(self).final_bone_matrices@ == finals_playing_after(
                            old(self).current_animation,
                            t1 as i64,
                            old(self).final_bone_matrices@,
                            old(self).current_animation.nodes@.len() as int,
                        )
                    },
                    Some(tgt) => {
                        let md = if old(self).current_animation.duration <= tgt.duration {
                            old(self).current_animation.duration as int
                        } else {
                            tgt.duration as int
                        };
                        let t2 = fx_wrap_s(t1, md);
                        let elapsed = fx_add_s(old(self).blend_progress as int, dt as int);
                        if elapsed >= old(self).blend_duration {
                            &&& final(self).current_time == t2
                            &&& final(self).current_animation == tgt
                            &&& final(self).target_animation is None
                            &&& final(self).blend_progress == 0
                            &&& final(self).blend_duration == old(self).blend_duration
                            &&& final(self).final_bone_matrices@ == old(self).final_bone_matrices@
                        } else {
                            &&& final(self).current_time == t2
                            &&& final(self).current_animation == old(self).current_animation
                            &&& final(self).target_animation == Some(tgt)
                            &&& final(self).blend_progress == elapsed
                            &&& final(self).blend_duration == old(self).blend_duration
                            &&& final(self).final_bone_matrices@ == finals_blend_after(
                                old(self).current_animation,
                                tgt,
                                t2 as i64,
                                fx_ratio_s(elapsed, old(self).blend_duration as int) as i64,
                                old(self).final_bone_matrices@,
                                old(self).current_animation.nodes@.len() as int,
                            )
                        }
                    },
                }
            }),
    {
        let step = fx_mul(self.current_animation.ticks_per_second, dt);
        let moved = fx_add(self.current_time, step);
        self.current_time = fx_wrap(moved, self.current_animation.duration);

        if self.target_animation.is_some() {
            let target_duration = match &self.target_animation {
                Some(t) => t.duration,
                None => 1,
            };
            let min_duration = fx_min(self.current_animation.duration, target_duration);
            self.current_time = fx_wrap(self.current_time, min_duration);
            let elapsed = fx_add(self.blend_progress, dt);
            if elapsed >= self.blend_duration {
                let taken = self.target_animation.take();
                match taken {
                    Some(t) => {
                        self.current_animation = t;
                    },
                    None => {},
                }
                self.blend_progress = 0;
            } else {
                self.blend_progress = elapsed;
                let f = fx_ratio(elapsed, self.blend_duration);
                let t2 = self.current_time;
                match &self.target_animation {
                    Some(tgt) => {
                        compute_pose_blending(
                            &self.current_animation,
                            tgt,
                            t2,
                            f,
                            &mut self.final_bone_matrices,
                        );
                    },
                    None => {},
                }
            }
        } else {
            let t1 = self.current_time;
            compute_pose_playing(&self.current_animation, t1, &mut self.final_bone_matrices);
        }
    }
}

/// One forward pass over the arena: compute every node's global transform
/// from the current clip alone and write the bound bone slots.
#[verifier::rlimit(60)]
fn compute_pose_playing(anim: &Animation, t: i64, finals: &mut Vec<Mat4Fx>)
    requires
        animation_wf(*anim),
        old(finals)@.len() == MAX_BONES,
        forall|i: int| #![trigger old(finals)@[i]]
            0 <= i < old(finals)@.len() ==> mat_wf(old(finals)@[i]),
    ensures
        final(finals)@ == finals_playing_after(*anim, t, old(finals)@, anim.nodes@.len() as int),
        final(finals)@.len() == MAX_BONES,
        forall|i: int| #![trigger final(finals)@[i]]
            0 <= i < final(finals)@.len() ==> mat_wf(final(finals)@[i]),
{
    let n = anim.nodes.len();
    let mut globals: Vec<Mat4Fx> = Vec::new();
    let mut i: usize = 0;
    while i < n
        invariant
            animation_wf(*anim),
            n == anim.nodes@.len(),
            0 <= i <= n,
            globals@.len() == i,
            forall|j: int| #![trigger globals@[j]]
                0 <= j < i ==> globals@[j] == global_playing_s(*anim, j, t) && mat_wf(globals@[j]),
            finals@.len() == MAX_BONES,
            forall|j: int| #![trigger finals@[j]] 0 <= j < finals@.len() ==> mat_wf(finals@[j]),
            finals@ == finals_playing_after(*anim, t, old(finals)@, i as int),
        decreases n - i,
    {
        let node = &anim.nodes[i];
        let found = anim.find_bone(&node.name);
        proof {
            match found {
                Some(bi) => {
                    crate::clip::lemma_find_bone_found(anim.bones@, node.name@, 0, bi as int);
                },
                None => {},
            }
        }
        let local: Mat4Fx = match found {
            Some(bi) => anim.bones[bi].local_at(t),
            None => node.transformation,
        };
        let parent_transform: Mat4Fx = match node.parent {
            Some(p) => globals[p],
            None => Mat4Fx::identity(),
        };
        let global_transform = parent_transform.mul(&local);
        proof {
            if node.parent is None {
                crate::mat4::lemma_mul_identity_left(local);
            }
        }
        assert(global_transform == global_playing_s(*anim, i as int, t));
        let info = anim.find_bone_info(&node.name);
        proof {
            match info {
                Some(k) => {
                    crate::clip::lemma_find_info_found(anim.bone_map@, node.name@, 0, k as int);
                },
                None => {},
            }
        }
        match info {
            Some(k) => {
                let id = anim.bone_map[k].id;
                if id < MAX_BONES {
                    let m = global_transform.mul(&anim.bone_map[k].offset);
                    finals.set(id, m);
                }
            },
            None => {},
        }
        globals.push(global_transform);
        i = i + 1;
    }
}

/// One forward pass over the arena while blending: globals come from the
/// blended locals, and writes go through the current clip's bone table.
#[verifier::rlimit(60)]
fn compute_pose_blending(cur: &Animation, tgt: &Animation, t: i64, f: i64, finals: &mut Vec<Mat4Fx>)
    requires
        animation_wf(*cur),
        animation_wf(*tgt),
        fx_wf(f),
        old(finals)@.len() == MAX_BONES,
        forall|i: int| #![trigger old(finals)@[i]]
            0 <= i < old(finals)@.len() ==> mat_wf(old(finals)@[i]),
    ensures
        final(finals)@ == finals_blend_after(*cur, *tgt, t, f, old(finals)@, cur.nodes@.len() as int),
        final(finals)@.len() == MAX_BONES,
        forall|i: int| #![trigger final(finals)@[i]]
            0 <= i < final(finals)@.len() ==> mat_wf(final(finals)@[i]),
{
    let n = cur.nodes.len();
    let mut globals: Vec<Mat4Fx> = Vec::new();
    let mut i: usize = 0;
    while i < n
        invariant
            animation_wf(*cur),
            animation_wf(*tgt),
            fx_wf(f),
            n == cur.nodes@.len(),
            0 <= i <= n,
            globals@.len() == i,
            forall|j: int| #![trigger globals@[j]]
                0 <= j < i ==> globals@[j] == global_blend_s(*cur, *tgt, j, t, f) && mat_wf(
                    globals@[j],
                ),
            finals@.len() == MAX_BONES,
            forall|j: int| #![trigger finals@[j]] 0 <= j < finals@.len() ==> mat_wf(finals@[j]),
            finals@ == finals_blend_after(*cur, *tgt, t, f, old(finals)@, i as int),
        decreases n - i,
    {
        let node = &cur.nodes[i];
        let found_cur = cur.find_bone(&node.name);
        let found_tgt = tgt.find_bone(&node.name);
        proof {
            match found_cur {
                Some(bi) => {
                    crate::clip::lemma_find_bone_found(cur.bones@, node.name@, 0, bi as int);
                },
                None => {},
            }
            match found_tgt {
                Some(bj) => {
                    crate::clip::lemma_find_bone_found(tgt.bones@, node.name@, 0, bj as int);
                },
                None => {},
            }
        }
        let local: Mat4Fx = match found_cur {
            Some(bi) => match found_tgt {
                Some(bj) => {
                    let pa = cur.bones[bi].sample_position(t);
                    let pb = tgt.bones[bj].sample_position(t);
                    let ra = cur.bones[bi].sample_rotation(t);
                    let rb = tgt.bones[bj].sample_rotation(t);
                    let sa = cur.bones[bi].sample_scale(t);
                    let sb = tgt.bones[bj].sample_scale(t);
                    let tm = Mat4Fx::from_translation(pa.lerp(pb, f));
                    let rm = Mat4Fx::from_quat(ra.lerp(rb, f));
                    let sm = Mat4Fx::from_scale(sa.lerp(sb, f));
                    tm.mul(&rm).mul(&sm)
                },
                None => node.transformation,
            },
            None => node.transformation,
        };
        let parent_transform: Mat4Fx = match node.parent {
            Some(p) => globals[p],
            None => Mat4Fx::identity(),
        };
        let global_transform = parent_transform.mul(&local);
        proof {
            if node.parent is None {
                crate::mat4::lemma_mul_identity_left(local);
            }
        }
        assert(global_transform == global_blend_s(*cur, *tgt, i as int, t, f));
        let info = cur.find_bone_info(&node.name);
        proof {
            match info {
                Some(k) => {
                    crate::clip::lemma_find_info_found(cur.bone_map@, node.name@, 0, k as int);
                },
                None => {},
            }
        }
        match info {
            Some(k) => {
                let id = cur.bone_map[k].id;
                if id < MAX_BONES {
                    let m = global_transform.mul(&cur.bone_map[k].offset);
                    finals.set(id, m);
                }
            },
            None => {},
        }
        globals.push(global_transform);
        i = i + 1;
    }
}

} // verus!
