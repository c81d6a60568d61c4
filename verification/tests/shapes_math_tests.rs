use chaos_framework::{
    distance, fx_wrap, lerp, Camera, Circle, Cuboid, Model, ProjectionType, Quad, Triangle,
    Vec2Fx, Vec3Fx, Vec4Fx, FX_ONE,
};
use chaos_framework::shapes::Sphere as SphereShape;
use chaos_framework::texture::Texture;
use chaos_framework::skeletal_mesh::assemble_skeletal_vertices;

#[test]
fn quad_mesh_is_two_triangles() {
    let quad = Quad::new(
        Vec3Fx { x: 2 * FX_ONE, y: 3 * FX_ONE, z: 0 },
        Vec4Fx { x: FX_ONE, y: FX_ONE, z: FX_ONE, w: FX_ONE },
    );
    let mesh = quad.mesh();
    assert_eq!(mesh.vertices.len(), 4);
    assert_eq!(mesh.vertices[3].position, Vec3Fx { x: 2 * FX_ONE, y: 3 * FX_ONE, z: 0 });
    assert_eq!(mesh.indices, vec![0, 2, 1, 2, 3, 1]);
}

#[test]
fn triangle_mesh_scales_the_unit_corners() {
    let tri = Triangle::new(2 * FX_ONE, Vec4Fx { x: FX_ONE, y: FX_ONE, z: FX_ONE, w: FX_ONE });
    let mesh = tri.mesh();
    assert_eq!(mesh.vertices.len(), 3);
    assert_eq!(mesh.vertices[0].position, Vec3Fx { x: 0, y: 2 * FX_ONE, z: 0 });
    assert_eq!(mesh.vertices[1].position, Vec3Fx { x: 2 * 887, y: -2 * 512, z: 0 });
    assert_eq!(mesh.indices, vec![0, 1, 2]);
}

#[test]
fn cuboid_mesh_has_six_faces() {
    let cube = Cuboid::new(
        Vec3Fx { x: 2 * FX_ONE, y: 2 * FX_ONE, z: 2 * FX_ONE },
        Vec4Fx { x: FX_ONE, y: FX_ONE, z: FX_ONE, w: FX_ONE },
    );
    let mesh = cube.mesh();
    assert_eq!(mesh.vertices.len(), 24);
    assert_eq!(mesh.indices.len(), 36);
    assert_eq!(mesh.vertices[0].position, Vec3Fx { x: -FX_ONE, y: -FX_ONE, z: FX_ONE });
    assert_eq!(mesh.vertices[6].position, Vec3Fx { x: FX_ONE, y: FX_ONE, z: -FX_ONE });
    assert_eq!(mesh.vertices[19].position, Vec3Fx { x: -FX_ONE, y: FX_ONE, z: FX_ONE });
    assert_eq!(mesh.vertices[0].normal, Vec3Fx { x: 0, y: 0, z: FX_ONE });
    assert_eq!(mesh.indices[0..6], [0, 3, 2, 2, 1, 0]);
}

#[test]
fn circle_iterations_round_up_to_four() {
    let c = Circle::new(2, FX_ONE, Vec4Fx { x: FX_ONE, y: FX_ONE, z: FX_ONE, w: FX_ONE });
    assert_eq!(c.iterations, 4);
    assert_eq!(c.indices(), vec![0, 1, 2, 0, 2, 3]);
}

#[test]
fn sphere_grid_indices_tile_the_rings() {
    let s = SphereShape::new(0, FX_ONE, Vec4Fx { x: FX_ONE, y: FX_ONE, z: FX_ONE, w: FX_ONE });
    assert_eq!(s.iterations, 4);
    let idx = s.indices();
    assert_eq!(idx.len(), 96);
    assert_eq!(idx[0..6], [0, 5, 1, 5, 6, 1]);
    assert_eq!(idx[6..12], [1, 6, 2, 6, 7, 2]);
}

#[test]
fn distance_matches_the_pythagorean_triple() {
    assert_eq!(distance(3 * FX_ONE, 4 * FX_ONE), 5 * FX_ONE);
    assert_eq!(distance(0, 0), 0);
}

#[test]
fn lerp_meets_both_endpoints() {
    assert_eq!(lerp(0, 10 * FX_ONE, 0), 0);
    assert_eq!(lerp(0, 10 * FX_ONE, FX_ONE), 10 * FX_ONE);
    assert_eq!(lerp(0, 10 * FX_ONE, 512), 5 * FX_ONE);
}

#[test]
fn wrap_handles_negative_time() {
    assert_eq!(fx_wrap(-FX_ONE, 10 * FX_ONE), 9 * FX_ONE);
    assert_eq!(fx_wrap(25 * FX_ONE, 10 * FX_ONE), 5 * FX_ONE);
    assert_eq!(fx_wrap(10 * FX_ONE, 10 * FX_ONE), 0);
}

#[test]
fn camera_angles_accumulate_mouse_travel() {
    let mut cam = Camera::new();
    let yaw0 = cam.yaw;
    cam.mouse_callback(Vec2Fx { x: 400 * FX_ONE, y: 400 * FX_ONE }, true);
    cam.mouse_callback(Vec2Fx { x: 400 * FX_ONE + 10 * FX_ONE, y: 400 * FX_ONE }, true);
    assert_eq!(cam.yaw, yaw0 + FX_ONE);
    assert_eq!(cam.pitch, 0);
}

#[test]
fn projection_selects_the_family() {
    let mut cam = Camera::new();
    cam.set_projection(ProjectionType::Perspective);
    assert_eq!(cam.proj.m32, -FX_ONE);
    assert_eq!(cam.proj.m33, 0);
    cam.set_projection(ProjectionType::Orthographic);
    assert_eq!(cam.proj.m00, FX_ONE);
    assert_eq!(cam.proj.m33, FX_ONE);
}

#[test]
fn obj_meshes_reverse_face_windings() {
    let mut model = Model::empty();
    let positions: Vec<i64> = vec![0, 0, 0, FX_ONE, 0, 0, 0, FX_ONE, 0];
    let normals: Vec<i64> = vec![];
    let texcoords: Vec<i64> = vec![];
    let colors: Vec<i64> = vec![];
    let indices: Vec<u32> = vec![0, 1, 2, 2, 1, 0, 5, 4];
    model.load_mesh_arrays(&positions, &normals, &texcoords, &colors, &indices);
    assert_eq!(model.meshes.len(), 1);
    let mesh = &model.meshes[0];
    assert_eq!(mesh.indices, vec![0, 1, 2, 2, 1, 0, 4, 5]);
    assert_eq!(mesh.vertices.len(), 3);
    assert_eq!(mesh.vertices[1].position, Vec3Fx { x: FX_ONE, y: 0, z: 0 });
    assert_eq!(mesh.vertices[2].normal, Vec3Fx { x: 0, y: 0, z: 0 });
    assert_eq!(mesh.vertices[2].color, Vec4Fx { x: FX_ONE, y: FX_ONE, z: FX_ONE, w: FX_ONE });
}

#[test]
fn load_texture_wraps_the_path() {
    let mut model = Model::empty();
    let t = model.load_texture("skin.png");
    assert_eq!(t, Texture::Path("skin.png"));
    assert!(model.loaded_textures.is_empty());
}

#[test]
fn skeletal_vertices_zip_the_loader_arrays() {
    let positions = vec![Vec3Fx { x: FX_ONE, y: 0, z: 0 }, Vec3Fx { x: 0, y: FX_ONE, z: 0 }];
    let normals = vec![Vec3Fx { x: 0, y: 0, z: FX_ONE }, Vec3Fx { x: 0, y: 0, z: FX_ONE }];
    let tex = vec![Vec2Fx { x: 0, y: 0 }, Vec2Fx { x: FX_ONE, y: FX_ONE }];
    let ids = vec![[0, -1, -1, -1], [1, 0, -1, -1]];
    let weights = vec![[FX_ONE, 0, 0, 0], [512, 512, 0, 0]];
    let vs = assemble_skeletal_vertices(&positions, &normals, &tex, &ids, &weights);
    assert_eq!(vs.len(), 2);
    assert_eq!(vs[1].bone_ids, [1, 0, -1, -1]);
    assert_eq!(vs[1].weights, [512, 512, 0, 0]);
    assert_eq!(vs[0].position, Vec3Fx { x: FX_ONE, y: 0, z: 0 });
}
