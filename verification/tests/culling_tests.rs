use chaos_framework::{
    Camera, Culler, Frustum, Mat4Fx, Mesh, Plane, Renderer, Sphere, Vec2Fx, Vec3Fx, Vec4Fx,
    Vertex, Volume, AABB, FX_ONE,
};

/// A vertex at `p`, for building meshes whose bounding sphere is known.
fn vertex_at(p: Vec3Fx) -> Vertex {
    Vertex {
        position: p,
        color: Vec4Fx::one(),
        tex_coords: Vec2Fx { x: 0, y: 0 },
        normal: Vec3Fx { x: 0, y: 0, z: FX_ONE },
    }
}

fn origin_camera() -> Camera {
    let mut cam = Camera::new();
    cam.update(Vec3Fx { x: 0, y: 0, z: 0 });
    cam
}

fn standard_frustum(cam: &Camera) -> Frustum {
    // Aspect one, 90-degree field of view (half tangent exactly one),
    // near 0.1, far 100 world units.
    Frustum::sample_from_camera(cam, FX_ONE, FX_ONE, 102, 100 * FX_ONE)
}

#[test]
fn point_in_front_passes_all_planes() {
    let cam = origin_camera();
    let fr = standard_frustum(&cam);
    let point = Sphere { center: Vec3Fx { x: 0, y: 0, z: -10 * FX_ONE }, radius: 0 };
    assert!(point.is_on_frustrum(&fr, Mat4Fx::identity()));
}

#[test]
fn point_behind_fails_the_near_plane() {
    let cam = origin_camera();
    let fr = standard_frustum(&cam);
    let point = Sphere { center: Vec3Fx { x: 0, y: 0, z: 10 * FX_ONE }, radius: 0 };
    assert!(!point.is_on_or_forward_plane(&fr.near_face));
    assert!(!point.is_on_frustrum(&fr, Mat4Fx::identity()));
}

#[test]
fn sphere_enclosing_the_camera_is_visible() {
    let cam = origin_camera();
    let fr = standard_frustum(&cam);
    let ball = Sphere { center: cam.pos, radius: 101 * FX_ONE };
    assert!(ball.is_on_frustrum(&fr, Mat4Fx::identity()));
}

#[test]
fn signed_distance_uses_the_plane_offset() {
    let normal = Vec3Fx { x: 0, y: 0, z: -FX_ONE };
    let plane = Plane::through(normal, Vec3Fx { x: 0, y: 0, z: -102 });
    assert_eq!(plane.d, 102);
    assert_eq!(plane.get_signed_distance_to_plane(Vec3Fx { x: 0, y: 0, z: -10 * FX_ONE }), 10138);
}

#[test]
fn aabb_in_front_is_visible_and_behind_is_not() {
    let cam = origin_camera();
    let fr = standard_frustum(&cam);
    let in_front = AABB {
        center: Vec3Fx { x: 0, y: 0, z: -10 * FX_ONE },
        extents: Vec3Fx { x: FX_ONE, y: FX_ONE, z: FX_ONE },
    };
    assert!(in_front.is_on_frustrum(&fr, Mat4Fx::identity()));
    let behind = AABB {
        center: Vec3Fx { x: 0, y: 0, z: 10 * FX_ONE },
        extents: Vec3Fx { x: FX_ONE, y: FX_ONE, z: FX_ONE },
    };
    assert!(!behind.is_on_frustrum(&fr, Mat4Fx::identity()));
}

#[test]
fn aabb_new_splits_min_and_max() {
    let b = AABB::new(
        Vec3Fx { x: -FX_ONE, y: -FX_ONE, z: -FX_ONE },
        Vec3Fx { x: 3 * FX_ONE, y: FX_ONE, z: FX_ONE },
    );
    assert_eq!(b.center, Vec3Fx { x: FX_ONE, y: 0, z: 0 });
    assert_eq!(b.extents, Vec3Fx { x: 2 * FX_ONE, y: FX_ONE, z: FX_ONE });
}

#[test]
fn volume_dispatches_to_both_shapes() {
    let cam = origin_camera();
    let fr = standard_frustum(&cam);
    let s = Volume::Sphere(Sphere { center: Vec3Fx { x: 0, y: 0, z: -10 * FX_ONE }, radius: 0 });
    assert!(s.is_on_frustrum(&fr, Mat4Fx::identity()));
    let b = Volume::Aabb(AABB {
        center: Vec3Fx { x: 0, y: 0, z: 10 * FX_ONE },
        extents: Vec3Fx { x: FX_ONE, y: FX_ONE, z: FX_ONE },
    });
    assert!(!b.is_on_frustrum(&fr, Mat4Fx::identity()));
}

#[test]
fn end_to_end_culling_scenario() {
    let mut renderer = Renderer::new();
    renderer.camera.update(Vec3Fx { x: 0, y: 0, z: 0 });
    // One vertex at unit distance gives each mesh a bounding sphere of
    // radius one about its local origin.
    let vertices: Vec<Vertex> = vec![vertex_at(Vec3Fx { x: FX_ONE, y: 0, z: 0 })];
    let indices: Vec<u32> = vec![];
    let visible_mesh = renderer
        .add_mesh_from_vertices_and_indices(vertices.clone(), indices.clone())
        .expect("fresh handle");
    let hidden_mesh = renderer
        .add_mesh_from_vertices_and_indices(vertices, indices)
        .expect("fresh handle");
    renderer
        .get_mesh_mut(visible_mesh)
        .expect("live handle")
        .set_position(Vec3Fx { x: 0, y: 0, z: -10 * FX_ONE });
    renderer
        .get_mesh_mut(hidden_mesh)
        .expect("live handle")
        .set_position(Vec3Fx { x: 0, y: 0, z: 10 * FX_ONE });

    let mut culler = Culler::new(&renderer);
    culler.add_mesh(visible_mesh);
    culler.add_mesh(hidden_mesh);
    culler.update(&mut renderer);

    assert!(!renderer.get_mesh(visible_mesh).expect("live").hidden);
    assert!(renderer.get_mesh(hidden_mesh).expect("live").hidden);
}

#[test]
fn culler_recomputes_each_tick() {
    let mut renderer = Renderer::new();
    renderer.camera.update(Vec3Fx { x: 0, y: 0, z: 0 });
    let handle = renderer
        .add_mesh(Mesh::new(&vec![], &vec![]))
        .expect("fresh handle");
    renderer
        .get_mesh_mut(handle)
        .expect("live")
        .set_position(Vec3Fx { x: 0, y: 0, z: 10 * FX_ONE });
    let mut culler = Culler::new(&renderer);
    culler.add_mesh(handle);
    culler.update(&mut renderer);
    assert!(renderer.get_mesh(handle).expect("live").hidden);
    renderer
        .get_mesh_mut(handle)
        .expect("live")
        .set_position(Vec3Fx { x: 0, y: 0, z: -10 * FX_ONE });
    culler.update(&mut renderer);
    assert!(!renderer.get_mesh(handle).expect("live").hidden);
}

#[test]
fn culler_tests_the_mesh_volume_not_a_doubled_center() {
    // A mesh deep inside the frustum whose geometry sits at its local
    // origin: the bounding sphere is tested at the mesh position itself (the
    // model matrix is applied to the volume exactly once), so the mesh stays
    // visible even past half the far distance.
    let mut renderer = Renderer::new();
    renderer.camera.update(Vec3Fx { x: 0, y: 0, z: 0 });
    let vertices = vec![vertex_at(Vec3Fx { x: 0, y: 0, z: 0 })];
    let handle = renderer
        .add_mesh_from_vertices_and_indices(vertices, vec![])
        .expect("fresh handle");
    renderer
        .get_mesh_mut(handle)
        .expect("live")
        .set_position(Vec3Fx { x: 0, y: 0, z: -60 * FX_ONE });
    let mut culler = Culler::new(&renderer);
    culler.add_mesh(handle);
    culler.update(&mut renderer);
    assert!(!renderer.get_mesh(handle).expect("live").hidden);
}

#[test]
fn culler_radius_comes_from_the_vertices() {
    // A mesh just past the far plane: invisible with a small bounding
    // sphere, visible once a far vertex grows the sphere across the plane.
    let mut renderer = Renderer::new();
    renderer.camera.update(Vec3Fx { x: 0, y: 0, z: 0 });
    let small = renderer
        .add_mesh_from_vertices_and_indices(vec![vertex_at(Vec3Fx { x: FX_ONE, y: 0, z: 0 })], vec![])
        .expect("fresh handle");
    let large = renderer
        .add_mesh_from_vertices_and_indices(
            vec![vertex_at(Vec3Fx { x: 10 * FX_ONE, y: 0, z: 0 })],
            vec![],
        )
        .expect("fresh handle");
    for h in [small, large] {
        renderer
            .get_mesh_mut(h)
            .expect("live")
            .set_position(Vec3Fx { x: 0, y: 0, z: -105 * FX_ONE });
    }
    let mut culler = Culler::new(&renderer);
    culler.add_mesh(small);
    culler.add_mesh(large);
    culler.update(&mut renderer);
    assert!(renderer.get_mesh(small).expect("live").hidden);
    assert!(!renderer.get_mesh(large).expect("live").hidden);
}
