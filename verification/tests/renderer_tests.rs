use chaos_framework::{
    Light, LightHandle, Mesh, Model, ModelHandle, Renderer, SkeletalMesh, SkeletalVertex,
    TextureHandle, Vec3Fx, Vertex, FX_ONE,
};

#[test]
fn light_handles_count_up_from_zero() {
    let mut renderer = Renderer::new();
    let white = Light {
        position: Vec3Fx { x: 0, y: 0, z: 0 },
        color: Vec3Fx { x: FX_ONE, y: FX_ONE, z: FX_ONE },
    };
    let a = renderer.add_light(white).expect("first light");
    let b = renderer.add_light(white).expect("second light");
    assert_eq!(a, LightHandle { id: 0 });
    assert_eq!(b, LightHandle { id: 1 });
    renderer.destroy_light(a);
    renderer.destroy_light(a);
}

#[test]
fn freed_handle_ids_collide_with_fresh_ones() {
    // The fresh id is the table's size, so after a removal the next insert
    // can collide with a live handle and is refused.
    let mut renderer = Renderer::new();
    let white = Light {
        position: Vec3Fx { x: 0, y: 0, z: 0 },
        color: Vec3Fx { x: FX_ONE, y: FX_ONE, z: FX_ONE },
    };
    let a = renderer.add_light(white).expect("first light");
    let _b = renderer.add_light(white).expect("second light");
    renderer.destroy_light(a);
    assert!(renderer.add_light(white).is_none());
}

#[test]
fn meshes_round_trip_through_the_table() {
    let mut renderer = Renderer::new();
    let vertices: Vec<Vertex> = vec![];
    let indices: Vec<u32> = vec![0, 1, 2];
    let h = renderer
        .add_mesh_from_vertices_and_indices(vertices, indices)
        .expect("fresh handle");
    assert_eq!(renderer.get_mesh(h).expect("live").indices, vec![0, 1, 2]);
    renderer.get_mesh_mut(h).expect("live").set_color(Vec3Fx { x: 1, y: 2, z: 3 });
    assert_eq!(renderer.get_mesh(h).expect("live").color, Vec3Fx { x: 1, y: 2, z: 3 });
    renderer.destroy_mesh(h);
    assert!(renderer.get_mesh(h).is_none());
}

#[test]
fn update_marks_every_mesh_as_set_up() {
    let mut renderer = Renderer::new();
    let h = renderer.add_mesh(Mesh::new(&vec![], &vec![])).expect("fresh handle");
    let s = renderer
        .add_skeletal_mesh(SkeletalMesh::new(&vec![], &vec![]))
        .expect("fresh handle");
    assert!(!renderer.get_mesh(h).expect("live").has_been_set_up);
    renderer.update();
    assert!(renderer.get_mesh(h).expect("live").has_been_set_up);
    assert!(renderer.get_skeletal_mesh(s).expect("live").has_been_set_up);
}

#[test]
fn textures_store_gpu_names() {
    let mut renderer = Renderer::new();
    let t = renderer.add_texture(42).expect("fresh handle");
    assert_eq!(t, TextureHandle { id: 0 });
    let mut mesh = Mesh::new(&vec![], &vec![]);
    mesh.set_texture(t, &renderer);
    assert_eq!(mesh.texture, 42);
    renderer.destroy_texture(t);
}

#[test]
fn models_register_and_unregister() {
    let mut renderer = Renderer::new();
    let m = renderer.add_model(Model::empty()).expect("fresh handle");
    assert_eq!(m, ModelHandle { id: 0 });
    renderer.destroy_model(m);
    let m2 = renderer.add_model(Model::empty()).expect("fresh handle");
    assert_eq!(m2, ModelHandle { id: 0 });
}

#[test]
fn skeletal_mesh_transforms_compose() {
    let mut mesh = SkeletalMesh::new(&vec![], &vec![]);
    mesh.set_position(Vec3Fx { x: FX_ONE, y: 0, z: 0 });
    mesh.add_position(Vec3Fx { x: FX_ONE, y: FX_ONE, z: 0 });
    assert_eq!(mesh.position, Vec3Fx { x: 2 * FX_ONE, y: FX_ONE, z: 0 });
    mesh.set_scale(Vec3Fx { x: 2 * FX_ONE, y: 2 * FX_ONE, z: 2 * FX_ONE });
    mesh.scale(Vec3Fx { x: 512, y: 512, z: 512 });
    assert_eq!(mesh.scale, Vec3Fx { x: FX_ONE, y: FX_ONE, z: FX_ONE });
}

#[test]
fn default_skeletal_vertex_has_no_bones() {
    let v = SkeletalVertex::default();
    assert_eq!(v.bone_ids, [-1, -1, -1, -1]);
    assert_eq!(v.weights, [0, 0, 0, 0]);
    assert_eq!(v.position, Vec3Fx { x: 0, y: 0, z: 0 });
}

#[test]
fn bounding_radius_is_the_largest_squared_vertex_distance() {
    let vertices = vec![
        Vertex {
            position: Vec3Fx { x: FX_ONE, y: 0, z: 0 },
            color: chaos_framework::Vec4Fx::one(),
            tex_coords: chaos_framework::Vec2Fx { x: 0, y: 0 },
            normal: Vec3Fx { x: 0, y: 0, z: FX_ONE },
        },
        Vertex {
            position: Vec3Fx { x: 3 * FX_ONE, y: 4 * FX_ONE, z: 0 },
            color: chaos_framework::Vec4Fx::one(),
            tex_coords: chaos_framework::Vec2Fx { x: 0, y: 0 },
            normal: Vec3Fx { x: 0, y: 0, z: FX_ONE },
        },
    ];
    let mesh = Mesh::new(&vertices, &vec![]);
    assert_eq!(mesh.bounding_radius2(), 25 * FX_ONE);
    let empty = Mesh::new(&vec![], &vec![]);
    assert_eq!(empty.bounding_radius2(), 0);
}
