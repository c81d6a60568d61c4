use chaos_framework::{
    AnimationBone, KeyPosition, KeyRotation, KeyScale, Vec3Fx, QuatFx, FX_ONE,
};

fn pos_key(x: i64, y: i64, z: i64, t: i64) -> KeyPosition {
    KeyPosition { position: Vec3Fx { x, y, z }, timestamp: t }
}

fn rot_key_identity(t: i64) -> KeyRotation {
    KeyRotation { rotation: QuatFx { x: 0, y: 0, z: 0, w: FX_ONE }, timestamp: t }
}

fn scale_key_one(t: i64) -> KeyScale {
    KeyScale { scale: Vec3Fx { x: FX_ONE, y: FX_ONE, z: FX_ONE }, timestamp: t }
}

fn simple_bone(positions: Vec<KeyPosition>) -> AnimationBone {
    AnimationBone::new("bone", 0, positions, vec![rot_key_identity(0)], vec![scale_key_one(0)])
        .expect("valid track")
}

#[test]
fn single_key_channel_is_constant() {
    let bone = simple_bone(vec![pos_key(FX_ONE, 2 * FX_ONE, 3 * FX_ONE, 0)]);
    let expected = Vec3Fx { x: FX_ONE, y: 2 * FX_ONE, z: 3 * FX_ONE };
    assert_eq!(bone.sample_position(0), expected);
    assert_eq!(bone.sample_position(7 * FX_ONE), expected);
    assert_eq!(bone.sample_position(-5 * FX_ONE), expected);
    let q = bone.sample_rotation(9 * FX_ONE);
    assert_eq!(q, QuatFx { x: 0, y: 0, z: 0, w: FX_ONE });
    let s = bone.sample_scale(123);
    assert_eq!(s, Vec3Fx { x: FX_ONE, y: FX_ONE, z: FX_ONE });
}

#[test]
fn two_key_channel_meets_both_endpoints() {
    let bone = simple_bone(vec![
        pos_key(0, 0, 0, 0),
        pos_key(FX_ONE, 0, 0, 10 * FX_ONE),
    ]);
    assert_eq!(bone.sample_position(0), Vec3Fx { x: 0, y: 0, z: 0 });
    assert_eq!(bone.sample_position(10 * FX_ONE), Vec3Fx { x: FX_ONE, y: 0, z: 0 });
}

#[test]
fn two_key_channel_midpoint() {
    let bone = simple_bone(vec![
        pos_key(0, 0, 0, 0),
        pos_key(FX_ONE, 0, 0, 10 * FX_ONE),
    ]);
    let mid = bone.sample_position(5 * FX_ONE);
    assert_eq!(mid, Vec3Fx { x: 512, y: 0, z: 0 });
}

#[test]
fn three_key_channel_is_continuous_at_interior_key() {
    let bone = simple_bone(vec![
        pos_key(0, 0, 0, 0),
        pos_key(FX_ONE, 0, 0, 10 * FX_ONE),
        pos_key(0, FX_ONE, 0, 20 * FX_ONE),
    ]);
    assert_eq!(bone.sample_position(10 * FX_ONE), Vec3Fx { x: FX_ONE, y: 0, z: 0 });
    assert_eq!(bone.sample_position(0), Vec3Fx { x: 0, y: 0, z: 0 });
}

#[test]
fn scale_factor_is_the_interval_fraction() {
    assert_eq!(AnimationBone::get_scale_factor(0, 10 * FX_ONE, 5 * FX_ONE), 512);
    assert_eq!(AnimationBone::get_scale_factor(0, 10 * FX_ONE, 0), 0);
    assert_eq!(AnimationBone::get_scale_factor(0, 10 * FX_ONE, 10 * FX_ONE), FX_ONE);
}

#[test]
fn empty_channel_is_rejected() {
    let r = AnimationBone::new("bad", 0, vec![], vec![rot_key_identity(0)], vec![scale_key_one(0)]);
    assert!(r.is_none());
}

#[test]
fn unsorted_timestamps_are_rejected() {
    let r = AnimationBone::new(
        "bad",
        0,
        vec![pos_key(0, 0, 0, 10 * FX_ONE), pos_key(FX_ONE, 0, 0, 5 * FX_ONE)],
        vec![rot_key_identity(0)],
        vec![scale_key_one(0)],
    );
    assert!(r.is_none());
}

#[test]
fn equal_timestamps_are_rejected() {
    let r = AnimationBone::new(
        "bad",
        0,
        vec![pos_key(0, 0, 0, 0), pos_key(FX_ONE, 0, 0, 0)],
        vec![rot_key_identity(0)],
        vec![scale_key_one(0)],
    );
    assert!(r.is_none());
}

#[test]
fn update_caches_the_local_transform() {
    let mut bone = simple_bone(vec![
        pos_key(0, 0, 0, 0),
        pos_key(FX_ONE, 0, 0, 10 * FX_ONE),
    ]);
    bone.update(5 * FX_ONE);
    assert_eq!(bone.local_transform.m03, 512);
    assert_eq!(bone.local_transform.m00, FX_ONE);
    assert_eq!(bone.local_transform.m13, 0);
    let direct = bone.local_at(5 * FX_ONE);
    assert_eq!(bone.local_transform, direct);
}
