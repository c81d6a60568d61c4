use chaos_framework::{Renderer, Trail, Vec3Fx, FX_ONE};

#[test]
fn trail_builds_a_strip() {
    let mut renderer = Renderer::new();
    let trail = Trail::new(&mut renderer, 4);
    assert_eq!(trail.vertices.len(), 6);
    assert_eq!(trail.indices, vec![0, 1, 2, 1, 3, 2, 2, 3, 4, 3, 5, 4]);
    assert!(renderer.get_mesh(trail.handle).is_some());
}

#[test]
fn trail_ring_keeps_the_newest_positions() {
    let mut renderer = Renderer::new();
    let mut trail = Trail::new(&mut renderer, 3);
    // A jitter sample of one half maps to zero wobble.
    let still = vec![Vec3Fx { x: 512, y: 512, z: 512 }; 4];
    trail.position = Vec3Fx { x: FX_ONE, y: 0, z: 0 };
    trail.update(&mut renderer, &still);
    trail.position = Vec3Fx { x: 2 * FX_ONE, y: 0, z: 0 };
    trail.update(&mut renderer, &still);
    trail.position = Vec3Fx { x: 3 * FX_ONE, y: 0, z: 0 };
    trail.update(&mut renderer, &still);
    trail.position = Vec3Fx { x: 4 * FX_ONE, y: 0, z: 0 };
    trail.update(&mut renderer, &still);
    assert_eq!(trail.positions.len(), 3);
    assert_eq!(trail.positions[0], Vec3Fx { x: 2 * FX_ONE, y: 0, z: 0 });
    assert_eq!(trail.positions[2], Vec3Fx { x: 4 * FX_ONE, y: 0, z: 0 });
    assert_eq!(trail.vertices[0].position, Vec3Fx { x: 2 * FX_ONE, y: 0, z: 0 });
    assert_eq!(trail.vertices[3].position, Vec3Fx { x: 4 * FX_ONE, y: 0, z: 0 });
    let mesh = renderer.get_mesh(trail.handle).expect("live");
    assert_eq!(mesh.vertices[0].position, Vec3Fx { x: 2 * FX_ONE, y: 0, z: 0 });
}

#[test]
fn trail_jitter_scales_with_thickness() {
    let mut renderer = Renderer::new();
    let mut trail = Trail::new(&mut renderer, 3);
    trail.thickness = 2 * FX_ONE;
    // A jitter sample of one maps to a wobble of one unit, times thickness.
    let push = vec![Vec3Fx { x: FX_ONE, y: 512, z: 512 }; 4];
    trail.position = Vec3Fx { x: 0, y: 0, z: 0 };
    trail.update(&mut renderer, &push);
    assert_eq!(trail.vertices[0].position, Vec3Fx { x: 2 * FX_ONE, y: 0, z: 0 });
}
