use chaos_framework::{
    Animation, AnimationBone, Animator, BoneInfo, KeyPosition, KeyRotation, KeyScale, Mat4Fx,
    NodeData, QuatFx, Vec3Fx, FX_ONE, MAX_BONES,
};

fn pos_key(x: i64, y: i64, z: i64, t: i64) -> KeyPosition {
    KeyPosition { position: Vec3Fx { x, y, z }, timestamp: t }
}

fn rot_key_identity(t: i64) -> KeyRotation {
    KeyRotation { rotation: QuatFx { x: 0, y: 0, z: 0, w: FX_ONE }, timestamp: t }
}

fn scale_key_one(t: i64) -> KeyScale {
    KeyScale { scale: Vec3Fx { x: FX_ONE, y: FX_ONE, z: FX_ONE }, timestamp: t }
}

fn two_node_skeleton() -> Vec<NodeData> {
    vec![
        NodeData { name: "root".to_string(), transformation: Mat4Fx::identity(), parent: None },
        NodeData {
            name: "child".to_string(),
            transformation: Mat4Fx::identity(),
            parent: Some(0),
        },
    ]
}

/// A clip whose "child" bone slides from the origin to `(end_x, 0, 0)` over
/// ten ticks (or stands still when both keys are equal).
fn sliding_clip(start_x: i64, end_x: i64) -> Animation {
    let track = AnimationBone::new(
        "child",
        0,
        vec![pos_key(start_x, 0, 0, 0), pos_key(end_x, 0, 0, 10 * FX_ONE)],
        vec![rot_key_identity(0)],
        vec![scale_key_one(0)],
    )
    .expect("valid track");
    let infos = vec![BoneInfo { name: "child".to_string(), id: 0, offset: Mat4Fx::identity() }];
    Animation::new(10 * FX_ONE, FX_ONE, two_node_skeleton(), vec![track], infos)
        .expect("valid clip")
}

#[test]
fn end_to_end_scenario() {
    let clip = sliding_clip(0, FX_ONE);
    let mut animator = Animator::new(clip);
    animator.update(5 * FX_ONE);
    assert_eq!(animator.current_time, 5 * FX_ONE);
    let m = animator.final_bone_matrices[0];
    assert_eq!(m.m03, 512);
    assert_eq!(m.m13, 0);
    assert_eq!(m.m23, 0);
    assert_eq!(m.m00, FX_ONE);
}

#[test]
fn playback_always_wraps_into_the_clip() {
    let clip = sliding_clip(0, FX_ONE);
    let mut animator = Animator::new(clip);
    let steps: Vec<i64> = vec![3 * FX_ONE, 9 * FX_ONE, 25 * FX_ONE, -4 * FX_ONE, 7 * FX_ONE];
    for dt in steps {
        animator.update(dt);
        assert!(0 <= animator.current_time);
        assert!(animator.current_time < animator.current_animation.duration);
    }
}

#[test]
fn advancing_by_one_duration_returns_to_the_same_tick() {
    let clip = sliding_clip(0, FX_ONE);
    let mut animator = Animator::new(clip);
    animator.update(3 * FX_ONE);
    let before = animator.current_time;
    animator.update(10 * FX_ONE);
    assert_eq!(animator.current_time, before);
}

#[test]
fn blend_completes_exactly_at_the_blend_duration() {
    let a = sliding_clip(0, FX_ONE);
    let b = sliding_clip(FX_ONE, FX_ONE + 1);
    let mut animator = Animator::new(a);
    assert!(animator.start_transition(b, 2 * FX_ONE));
    animator.update(FX_ONE);
    assert!(animator.target_animation.is_some());
    assert_eq!(animator.blend_progress, FX_ONE);
    animator.update(FX_ONE);
    assert!(animator.target_animation.is_none());
    assert_eq!(animator.blend_progress, 0);
    assert_eq!(animator.current_animation.bones[0].positions[0].position.x, FX_ONE);
    animator.update(FX_ONE);
    assert!(animator.target_animation.is_none());
}

#[test]
fn non_positive_blend_duration_is_rejected() {
    let a = sliding_clip(0, FX_ONE);
    let b = sliding_clip(FX_ONE, FX_ONE + 1);
    let mut animator = Animator::new(a);
    assert!(!animator.start_transition(b, 0));
    assert!(animator.target_animation.is_none());
}

#[test]
fn blending_mixes_the_two_poses() {
    let a = sliding_clip(0, 1);
    let b = sliding_clip(FX_ONE, FX_ONE + 1);
    let mut animator = Animator::new(a);
    assert!(animator.start_transition(b, 2 * FX_ONE));
    animator.update(FX_ONE);
    let m = animator.final_bone_matrices[0];
    assert!(m.m03 > 0);
    assert!(m.m03 < FX_ONE + 1);
}

#[test]
fn bone_matrices_are_reproducible() {
    let mut a1 = Animator::new(sliding_clip(0, FX_ONE));
    let mut a2 = Animator::new(sliding_clip(0, FX_ONE));
    a1.update(3 * FX_ONE);
    a2.update(3 * FX_ONE);
    let mut i = 0;
    while i < MAX_BONES {
        assert_eq!(a1.final_bone_matrices[i], a2.final_bone_matrices[i]);
        i += 1;
    }
}

#[test]
fn untracked_nodes_keep_the_bind_pose() {
    let bind = Mat4Fx::from_translation(Vec3Fx { x: 7 * FX_ONE, y: 0, z: 0 });
    let nodes = vec![
        NodeData { name: "root".to_string(), transformation: bind, parent: None },
    ];
    let infos = vec![BoneInfo { name: "root".to_string(), id: 3, offset: Mat4Fx::identity() }];
    let track = AnimationBone::new(
        "unrelated",
        0,
        vec![pos_key(FX_ONE, 0, 0, 0)],
        vec![rot_key_identity(0)],
        vec![scale_key_one(0)],
    )
    .expect("valid track");
    let clip = Animation::new(10 * FX_ONE, FX_ONE, nodes, vec![track], infos)
        .expect("valid clip");
    let mut animator = Animator::new(clip);
    animator.update(FX_ONE);
    assert_eq!(animator.final_bone_matrices[3].m03, 7 * FX_ONE);
    assert_eq!(animator.final_bone_matrices[0], Mat4Fx::identity());
}

#[test]
fn clip_validation_rejects_bad_data() {
    assert!(Animation::new(0, FX_ONE, two_node_skeleton(), vec![], vec![]).is_none());
    assert!(Animation::new(10 * FX_ONE, 0, two_node_skeleton(), vec![], vec![]).is_none());
    let bad_nodes = vec![
        NodeData { name: "a".to_string(), transformation: Mat4Fx::identity(), parent: Some(0) },
    ];
    assert!(Animation::new(10 * FX_ONE, FX_ONE, bad_nodes, vec![], vec![]).is_none());
    let dup = vec![
        BoneInfo { name: "x".to_string(), id: 0, offset: Mat4Fx::identity() },
        BoneInfo { name: "x".to_string(), id: 1, offset: Mat4Fx::identity() },
    ];
    assert!(Animation::new(10 * FX_ONE, FX_ONE, two_node_skeleton(), vec![], dup).is_none());
    assert!(Animation::new(10 * FX_ONE, FX_ONE, two_node_skeleton(), vec![], vec![]).is_some());
}

#[test]
fn find_bone_returns_the_first_match() {
    let clip = sliding_clip(0, FX_ONE);
    assert_eq!(clip.find_bone(&"child".to_string()), Some(0));
    assert_eq!(clip.find_bone(&"nobody".to_string()), None);
    assert_eq!(clip.find_bone_info(&"child".to_string()), Some(0));
    assert_eq!(clip.find_bone_info(&"nobody".to_string()), None);
}
