//! Primitive mesh generators. The quad, triangle and cuboid are exact in
//! fixed point; the circle and sphere builders own their index topology
//! here, while their vertex rings need trigonometry and are produced by the
//! embedding.

use vstd::prelude::*;
use crate::fixed::{FX_ONE, fx_mul, fx_mul_s, fx_wf};
use crate::vec::{Vec2Fx, Vec3Fx, Vec4Fx, vec3_wf, vec3_scale_s};
use crate::mesh::{Mesh, Vertex};

verus! {

/// A flat rectangle spanning `size` in x and y.
pub struct Quad {
    pub size: Vec3Fx,
    pub color: Vec4Fx,
}

impl Quad {
    pub fn new(size: Vec3Fx, color: Vec4Fx) -> (r: Quad)
        ensures
            r.size == size,
            r.color == color,
    {
        Quad { size, color }
    }

    /// The quad's mesh: four corners and two triangles.
    pub fn mesh(&self) -> (m: Mesh)
        ensures
            m.vertices@.len() == 4,
            m.vertices@[0] == (Vertex {
                position: (Vec3Fx { x: 0i64, y: 0i64, z: 0i64 }),
                color: self.color,
                tex_coords: (Vec2Fx { x: 0i64, y: 0i64 }),
                normal: (Vec3Fx { x: 0i64, y: 0i64, z: FX_ONE }),
            }),
            m.vertices@[1] == (Vertex {
                position: (Vec3Fx { x: 0i64, y: self.size.y, z: 0i64 }),
                color: self.color,
                tex_coords: (Vec2Fx { x: 0i64, y: FX_ONE }),
                normal: (Vec3Fx { x: 0i64, y: 0i64, z: FX_ONE }),
            }),
            m.vertices@[2] == (Vertex {
                position: (Vec3Fx { x: self.size.x, y: 0i64, z: 0i64 }),
                color: self.color,
                tex_coords: (Vec2Fx { x: FX_ONE, y: 0i64 }),
                normal: (Vec3Fx { x: 0i64, y: 0i64, z: FX_ONE }),
            }),
            m.vertices@[3] == (Vertex {
                position: (Vec3Fx { x: self.size.x, y: self.size.y, z: 0i64 }),
                color: self.color,
                tex_coords: (Vec2Fx { x: FX_ONE, y: FX_ONE }),
                normal: (Vec3Fx { x: 0i64, y: 0i64, z: FX_ONE }),
            }),
            m.indices@ == seq![0u32, 2u32, 1u32, 2u32, 3u32, 1u32],
    {
        let normal = Vec3Fx::new(0, 0, FX_ONE);
        let vertices: Vec<Vertex> = vec![
            Vertex::new(Vec3Fx::new(0, 0, 0), self.color, Vec2Fx::new(0, 0), normal),
            Vertex::new(Vec3Fx::new(0, self.size.y, 0), self.color, Vec2Fx::new(0, FX_ONE), normal),
            Vertex::new(Vec3Fx::new(self.size.x, 0, 0), self.color, Vec2Fx::new(FX_ONE, 0), normal),
            Vertex::new(
                Vec3Fx::new(self.size.x, self.size.y, 0),
                self.color,
                Vec2Fx::new(FX_ONE, FX_ONE),
                normal,
            ),
        ];
        let indices: Vec<u32> = vec![0, 2, 1, 2, 3, 1];
        proof {
            assert(indices@ =~= seq![0u32, 2u32, 1u32, 2u32, 3u32, 1u32]);
        }
        Mesh::new(&vertices, &indices)
    }
}

/// An equilateral triangle of circumradius `size` in the z = 0 plane. The
/// corner coordinates are the fixed-point renderings of the unit triangle
/// (0, 1), (0.866, -0.5), (-0.866, -0.5).
pub struct Triangle {
    pub size: i64,
    pub color: Vec4Fx,
}

impl Triangle {
    pub fn new(size: i64, color: Vec4Fx) -> (r: Triangle)
        ensures
            r.size == size,
            r.color == color,
    {
        Triangle { size, color }
    }

    /// The triangle's mesh.
    pub fn mesh(&self) -> (m: Mesh)
        requires
            fx_wf(self.size),
        ensures
            m.vertices@.len() == 3,
            m.vertices@[0] == (Vertex {
                position: vec3_scale_s((Vec3Fx { x: 0i64, y: FX_ONE, z: 0i64 }), self.size as int),
                color: self.color,
                tex_coords: (Vec2Fx { x: 512i64, y: FX_ONE }),
                normal: (Vec3Fx { x: 0i64, y: 0i64, z: FX_ONE }),
            }),
            m.vertices@[1] == (Vertex {
                position: vec3_scale_s((Vec3Fx { x: 887i64, y: -512i64, z: 0i64 }), self.size as int),
                color: self.color,
                tex_coords: (Vec2Fx { x: 0i64, y: 0i64 }),
                normal: (Vec3Fx { x: 0i64, y: 0i64, z: FX_ONE }),
            }),
            m.vertices@[2] == (Vertex {
                position: vec3_scale_s((Vec3Fx { x: -887i64, y: -512i64, z: 0i64 }), self.size as int),
                color: self.color,
                tex_coords: (Vec2Fx { x: FX_ONE, y: 0i64 }),
                normal: (Vec3Fx { x: 0i64, y: 0i64, z: FX_ONE }),
            }),
            m.indices@ == seq![0u32, 1u32, 2u32],
    {
        let normal = Vec3Fx::new(0, 0, FX_ONE);
        let v0 = Vec3Fx::new(0, FX_ONE, 0).scale(self.size);
        let v1 = Vec3Fx::new(887, -512, 0).scale(self.size);
        let v2 = Vec3Fx::new(-887, -512, 0).scale(self.size);
        let vertices: Vec<Vertex> = vec![
            Vertex::new(v0, self.color, Vec2Fx::new(512, FX_ONE), normal),
            Vertex::new(v1, self.color, Vec2Fx::new(0, 0), normal),
            Vertex::new(v2, self.color, Vec2Fx::new(FX_ONE, 0), normal),
        ];
        let indices: Vec<u32> = vec![0, 1, 2];
        proof {
            assert(indices@ =~= seq![0u32, 1u32, 2u32]);
        }
        Mesh::new(&vertices, &indices)
    }
}

/// An axis-aligned box of edge lengths `size`, centered on the origin.
pub struct Cuboid {
    pub size: Vec3Fx,
    pub color: Vec4Fx,
}

/// The corner position of cuboid vertex `j` (four vertices per face, six
/// faces) for half extents `(x, y, z)`.
pub open spec fn cuboid_position_s(x: i64, y: i64, z: i64, j: int) -> Vec3Fx {
    let sx: i64 = if j == 1 || j == 2 || j == 5 || j == 6 || j >= 12 && j <= 15 || j == 17 || j
        == 18 || j == 21 || j == 22 {
        x
    } else {
        (-x) as i64
    };
    let sy: i64 = if j == 2 || j == 3 || j == 6 || j == 7 || j == 10 || j == 11 || j == 14 || j
        == 15 || j >= 16 && j <= 19 {
        y
    } else {
        (-y) as i64
    };
    let sz: i64 = if j == 0 || j == 1 || j == 2 || j == 3 || j == 9 || j == 10 || j == 13 || j
        == 14 || j == 18 || j == 19 || j == 22 || j == 23 {
        z
    } else {
        (-z) as i64
    };
    (Vec3Fx { x: sx, y: sy, z: sz })
}

/// The face normal of cuboid vertex `j`.
pub open spec fn cuboid_normal_s(j: int) -> Vec3Fx {
    if j < 4 {
        (Vec3Fx { x: 0i64, y: 0i64, z: FX_ONE })
    } else if j < 8 {
        (Vec3Fx { x: 0i64, y: 0i64, z: (-FX_ONE) as i64 })
    } else if j < 12 {
        (Vec3Fx { x: (-FX_ONE) as i64, y: 0i64, z: 0i64 })
    } else if j < 16 {
        (Vec3Fx { x: FX_ONE, y: 0i64, z: 0i64 })
    } else if j < 20 {
        (Vec3Fx { x: 0i64, y: FX_ONE, z: 0i64 })
    } else {
        (Vec3Fx { x: 0i64, y: (-FX_ONE) as i64, z: 0i64 })
    }
}

/// The texture corner of cuboid vertex `j`: (0,0), (1,0), (1,1), (0,1)
/// around each face.
pub open spec fn cuboid_tex_s(j: int) -> Vec2Fx {
    let c = j % 4;
    if c == 0 {
        (Vec2Fx { x: 0i64, y: 0i64 })
    } else if c == 1 {
        (Vec2Fx { x: FX_ONE, y: 0i64 })
    } else if c == 2 {
        (Vec2Fx { x: FX_ONE, y: FX_ONE })
    } else {
        (Vec2Fx { x: 0i64, y: FX_ONE })
    }
}

impl Cuboid {
    pub fn new(size: Vec3Fx, color: Vec4Fx) -> (r: Cuboid)
        ensures
            r.size == size,
            r.color == color,
    {
        Cuboid { size, color }
    }

    /// The box's mesh: 24 vertices (four per face, with that face's normal)
    /// and 36 indices.
    #[verifier::rlimit(60)]
    pub fn mesh(&self) -> (m: Mesh)
        requires
            vec3_wf(self.size),
        ensures
            m.vertices@.len() == 24,
            forall|j: int|
                0 <= j < 24 ==> #[trigger] m.vertices@[j] == (Vertex {
                    position: cuboid_position_s(
                        fx_mul_s(self.size.x as int, 512) as i64,
                        fx_mul_s(self.size.y as int, 512) as i64,
                        fx_mul_s(self.size.z as int, 512) as i64,
                        j,
                    ),
                    color: self.color,
                    tex_coords: cuboid_tex_s(j),
                    normal: cuboid_normal_s(j),
                }),
            m.indices@ == seq![
                0u32, 3u32, 2u32, 2u32, 1u32, 0u32,
                4u32, 5u32, 6u32, 6u32, 7u32, 4u32,
                8u32, 11u32, 10u32, 10u32, 9u32, 8u32,
                12u32, 13u32, 14u32, 14u32, 15u32, 12u32,
                16u32, 17u32, 18u32, 18u32, 19u32, 16u32,
                20u32, 23u32, 22u32, 22u32, 21u32, 20u32,
            ],
    {
        let x = fx_mul(self.size.x, 512);
        let y = fx_mul(self.size.y, 512);
        let z = fx_mul(self.size.z, 512);
        let nx = -x;
        let ny = -y;
        let nz = -z;
        let n_front = Vec3Fx::new(0, 0, FX_ONE);
        let n_back = Vec3Fx::new(0, 0, -FX_ONE);
        let n_left = Vec3Fx::new(-FX_ONE, 0, 0);
        let n_right = Vec3Fx::new(FX_ONE, 0, 0);
        let n_top = Vec3Fx::new(0, FX_ONE, 0);
        let n_bottom = Vec3Fx::new(0, -FX_ONE, 0);
        let t00 = Vec2Fx::new(0, 0);
        let t10 = Vec2Fx::new(FX_ONE, 0);
        let t11 = Vec2Fx::new(FX_ONE, FX_ONE);
        let t01 = Vec2Fx::new(0, FX_ONE);
        let vertices: Vec<Vertex> = vec![
            Vertex::new(Vec3Fx::new(nx, ny, z), self.color, t00, n_front),
            Vertex::new(Vec3Fx::new(x, ny, z), self.color, t10, n_front),
            Vertex::new(Vec3Fx::new(x, y, z), self.color, t11, n_front),
            Vertex::new(Vec3Fx::new(nx, y, z), self.color, t01, n_front),
            Vertex::new(Vec3Fx::new(nx, ny, nz), self.color, t00, n_back),
            Vertex::new(Vec3Fx::new(x, ny, nz), self.color, t10, n_back),
            Vertex::new(Vec3Fx::new(x, y, nz), self.color, t11, n_back),
            Vertex::new(Vec3Fx::new(nx, y, nz), self.color, t01, n_back),
            Vertex::new(Vec3Fx::new(nx, ny, nz), self.color, t00, n_left),
            Vertex::new(Vec3Fx::new(nx, ny, z), self.color, t10, n_left),
            Vertex::new(Vec3Fx::new(nx, y, z), self.color, t11, n_left),
            Vertex::new(Vec3Fx::new(nx, y, nz), self.color, t01, n_left),
            Vertex::new(Vec3Fx::new(x, ny, nz), self.color, t00, n_right),
            Vertex::new(Vec3Fx::new(x, ny, z), self.color, t10, n_right),
            Vertex::new(Vec3Fx::new(x, y, z), self.color, t11, n_right),
            Vertex::new(Vec3Fx::new(x, y, nz), self.color, t01, n_right),
            Vertex::new(Vec3Fx::new(nx, y, nz), self.color, t00, n_top),
            Vertex::new(Vec3Fx::new(x, y, nz), self.color, t10, n_top),
            Vertex::new(Vec3Fx::new(x, y, z), self.color, t11, n_top),
            Vertex::new(Vec3Fx::new(nx, y, z), self.color, t01, n_top),
            Vertex::new(Vec3Fx::new(nx, ny, nz), self.color, t00, n_bottom),
            Vertex::new(Vec3Fx::new(x, ny, nz), self.color, t10, n_bottom),
            Vertex::new(Vec3Fx::new(x, ny, z), self.color, t11, n_bottom),
            Vertex::new(Vec3Fx::new(nx, ny, z), self.color, t01, n_bottom),
        ];
        proof {
            assert(vertices@[0] == (Vertex {
                position: cuboid_position_s(x, y, z, 0),
                color: self.color,
                tex_coords: cuboid_tex_s(0),
                normal: cuboid_normal_s(0),
            }));
            assert forall|j: int| 0 <= j < 24 implies vertices@[j] == (Vertex {
                position: cuboid_position_s(x, y, z, j),
                color: self.color,
                tex_coords: cuboid_tex_s(j),
                normal: cuboid_normal_s(j),
            }) by {
                if j == 0 { } else if j == 1 { } else if j == 2 { } else if j == 3 { } else if j == 4 { } else if j == 5 { } else if j == 6 { } else if j == 7 { } else if j == 8 { } else if j == 9 { } else if j == 10 { } else if j == 11 { } else if j == 12 { } else if j == 13 { } else if j == 14 { } else if j == 15 { } else if j == 16 { } else if j == 17 { } else if j == 18 { } else if j == 19 { } else if j == 20 { } else if j == 21 { } else if j == 22 { } else { }
            }
        }
        let indices: Vec<u32> = vec![
            0, 3, 2, 2, 1, 0,
            4, 5, 6, 6, 7, 4,
            8, 11, 10, 10, 9, 8,
            12, 13, 14, 14, 15, 12,
            16, 17, 18, 18, 19, 16,
            20, 23, 22, 22, 21, 20,
        ];
        proof {
            assert(indices@ =~= seq![
                0u32, 3u32, 2u32, 2u32, 1u32, 0u32,
                4u32, 5u32, 6u32, 6u32, 7u32, 4u32,
                8u32, 11u32, 10u32, 10u32, 9u32, 8u32,
                12u32, 13u32, 14u32, 14u32, 15u32, 12u32,
                16u32, 17u32, 18u32, 18u32, 19u32, 16u32,
                20u32, 23u32, 22u32, 22u32, 21u32, 20u32,
            ]);
        }
        Mesh::new(&vertices, &indices)
    }
}

/// A circle approximated by `iterations` rim vertices (at least four).
pub struct Circle {
    pub iterations: i32,
    pub radius: i64,
    pub color: Vec4Fx,
}

/// A sphere approximated by an `iterations` x `iterations` latitude and
/// longitude grid (at least four).
pub struct Sphere {
    pub iterations: i32,
    pub radius: i64,
    pub color: Vec4Fx,
}

/// The fan triangulation of a circle with `n` rim vertices: the triple `t`
/// is `(0, t + 1, (t + 1) % n + 1)`.
pub open spec fn circle_indices_s(n: int) -> Seq<u32> {
    Seq::new(
        (3 * (n - 2)) as nat,
        |j: int|
            {
                let t = j / 3;
                if j % 3 == 0 {
                    0u32
                } else if j % 3 == 1 {
                    (t + 1) as u32
                } else {
                    ((t + 1) % n + 1) as u32
                }
            },
    )
}

impl Circle {
    /// A circle; fewer than four rim vertices are rounded up to four.
    pub fn new(iterations: i32, radius: i64, color: Vec4Fx) -> (r: Circle)
        ensures
            r.iterations == if iterations <= 3 {
                4int
            } else {
                iterations as int
            },
            r.radius == radius,
            r.color == color,
    {
        let mut fixed_iterations = iterations;
        if iterations <= 3 {
            fixed_iterations = 4;
        }
        Circle { iterations: fixed_iterations, radius, color }
    }

    /// The circle's fan index buffer; the rim vertex positions take
    /// trigonometry and are produced by the embedding.
    pub fn indices(&self) -> (r: Vec<u32>)
        requires
            4 <= self.iterations <= 0x10000,
        ensures
            r@ == circle_indices_s(self.iterations as int),
    {
        let n = self.iterations;
        let mut r: Vec<u32> = Vec::new();
        let mut i: i32 = 1;
        while i <= n - 2
            invariant
                4 <= n <= 0x10000,
                1 <= i <= n - 1,
                r@.len() == 3 * (i - 1),
                forall|j: int|
                    0 <= j < r@.len() ==> r@[j] == circle_indices_s(n as int)[j],
            decreases n - i,
        {
            let ghost len0 = r@.len() as int;
            proof {
                vstd::arithmetic::div_mod::lemma_fundamental_div_mod_converse_div(
                    len0,
                    3,
                    i - 1,
                    0,
                );
                vstd::arithmetic::div_mod::lemma_fundamental_div_mod_converse_mod(len0, 3, i - 1, 0);
                vstd::arithmetic::div_mod::lemma_fundamental_div_mod_converse_div(
                    len0 + 1,
                    3,
                    i - 1,
                    1,
                );
                vstd::arithmetic::div_mod::lemma_fundamental_div_mod_converse_mod(
                    len0 + 1,
                    3,
                    i - 1,
                    1,
                );
                vstd::arithmetic::div_mod::lemma_fundamental_div_mod_converse_div(
                    len0 + 2,
                    3,
                    i - 1,
                    2,
                );
                vstd::arithmetic::div_mod::lemma_fundamental_div_mod_converse_mod(
                    len0 + 2,
                    3,
                    i - 1,
                    2,
                );
                vstd::arithmetic::div_mod::lemma_fundamental_div_mod_converse_mod(
                    i as int,
                    n as int,
                    0,
                    i as int,
                );
            }
            r.push(0);
            r.push(i as u32);
            r.push((i % n + 1) as u32);
            i = i + 1;
        }
        r
    }
}

/// The grid triangulation of a sphere with `n` latitude and longitude
/// steps: cell `(lat, lon)` spans ring vertices `first = lat * (n + 1) + lon`
/// and `second = first + n + 1`.
pub open spec fn sphere_indices_s(n: int) -> Seq<u32> {
    Seq::new(
        (6 * n * n) as nat,
        |j: int|
            {
                let cell = j / 6;
                let lat = cell / n;
                let lon = cell % n;
                let first = lat * (n + 1) + lon;
                let second = first + n + 1;
                let slot = j % 6;
                if slot == 0 {
                    first as u32
                } else if slot == 1 {
                    second as u32
                } else if slot == 2 {
                    (first + 1) as u32
                } else if slot == 3 {
                    second as u32
                } else if slot == 4 {
                    (second + 1) as u32
                } else {
                    (first + 1) as u32
                }
            },
    )
}

impl Sphere {
    /// A sphere; fewer than four grid steps are rounded up to four.
    pub fn new(iterations: i32, radius: i64, color: Vec4Fx) -> (r: Sphere)
        ensures
            r.iterations == if iterations <= 3 {
                4int
            } else {
                iterations as int
            },
            r.radius == radius,
            r.color == color,
    {
        let mut fixed_iterations = iterations;
        if iterations <= 3 {
            fixed_iterations = 4;
        }
        Sphere { iterations: fixed_iterations, radius, color }
    }

    /// The sphere's grid index buffer; the grid vertex positions take
    /// trigonometry and are produced by the embedding.
    pub fn indices(&self) -> (r: Vec<u32>)
        requires
            4 <= self.iterations <= 0x1000,
        ensures
            r@ == sphere_indices_s(self.iterations as int),
    {
        let n = self.iterations;
        let mut r: Vec<u32> = Vec::new();
        let mut lat: i32 = 0;
        while lat < n
            invariant
                4 <= n <= 0x1000,
                0 <= lat <= n,
                r@.len() == 6 * (lat as int) * (n as int),
                r@.len() <= 6 * (n as int) * (n as int),
                forall|j: int|
                    0 <= j < r@.len() ==> r@[j] == sphere_indices_s(n as int)[j],
            decreases n - lat,
        {
            proof {
                assert(6 * (lat as int) * (n as int) + 6 <= 6 * (n as int) * (n as int))
                    by (nonlinear_arith)
                    requires
                        0 <= lat as int <= n as int - 1,
                        4 <= n as int,
                ;
            }
            let mut lon: i32 = 0;
            while lon < n
                invariant
                    4 <= n <= 0x1000,
                    0 <= lat < n,
                    0 <= lon <= n,
                    r@.len() == 6 * (lat as int) * (n as int) + 6 * (lon as int),
                    r@.len() <= 6 * (n as int) * (n as int),
                    forall|j: int|
                        0 <= j < r@.len() ==> r@[j] == sphere_indices_s(n as int)[j],
                decreases n - lon,
            {
                proof {
                    assert(6 * (lat as int) * (n as int) + 6 * ((lon as int) + 1) + 6 <= 6 * (
                    n as int) * (n as int) + 6) by (nonlinear_arith)
                        requires
                            0 <= lat as int <= n as int - 1,
                            0 <= lon as int <= n as int - 1,
                            4 <= n as int,
                    ;
                    assert((lat as int) * (n as int + 1) <= 0x1000 * 0x1001) by (nonlinear_arith)
                        requires
                            0 <= lat as int <= 0x1000,
                            0 <= n as int + 1 <= 0x1001,
                    ;
                    assert(0 <= (lat as int) * (n as int + 1)) by (nonlinear_arith)
                        requires
                            0 <= lat as int,
                            0 <= n as int + 1,
                    ;
                }
                let first: i32 = lat * (n + 1) + lon;
                let second: i32 = first + n + 1;
                let ghost len0 = r@.len() as int;
                let ghost cell = (lat as int) * (n as int) + lon as int;
                proof {
                    assert(len0 == 6 * cell) by (nonlinear_arith)
                        requires
                            len0 == 6 * (lat as int) * (n as int) + 6 * (lon as int),
                            cell == (lat as int) * (n as int) + lon as int,
                    ;
                    let slots = seq![0int, 1int, 2int, 3int, 4int, 5int];
                    assert forall|si: int| 0 <= si < 6 implies ((len0 + #[trigger] slots[si]) / 6
                        == cell && (len0 + slots[si]) % 6 == slots[si]) by {
                        vstd::arithmetic::div_mod::lemma_fundamental_div_mod_converse_div(
                            len0 + slots[si],
                            6,
                            cell,
                            slots[si],
                        );
                        vstd::arithmetic::div_mod::lemma_fundamental_div_mod_converse_mod(
                            len0 + slots[si],
                            6,
                            cell,
                            slots[si],
                        );
                    }
                    assert(slots[0] == 0 && slots[1] == 1 && slots[2] == 2 && slots[3] == 3
                        && slots[4] == 4 && slots[5] == 5);
                    vstd::arithmetic::div_mod::lemma_fundamental_div_mod_converse_div(
                        cell,
                        n as int,
                        lat as int,
                        lon as int,
                    );
                    vstd::arithmetic::div_mod::lemma_fundamental_div_mod_converse_mod(
                        cell,
                        n as int,
                        lat as int,
                        lon as int,
                    );
                    assert(cell == (n as int) * (lat as int) + lon as int) by (nonlinear_arith)
                        requires
                            cell == (lat as int) * (n as int) + lon as int,
                    ;
                    assert(6 * ((lat as int) + 1) * (n as int) == 6 * (lat as int) * (n as int) + 6
                        * (n as int)) by (nonlinear_arith);
                }
                r.push(first as u32);
                r.push(second as u32);
                r.push((first + 1) as u32);
                r.push(second as u32);
                r.push((second + 1) as u32);
                r.push((first + 1) as u32);
                proof {
                    assert forall|j: int| 0 <= j < r@.len() implies r@[j] == sphere_indices_s(
                        n as int,
                    )[j] by {
                        if j < len0 {
                        } else if j == len0 {
                        } else if j == len0 + 1 {
                        } else if j == len0 + 2 {
                        } else if j == len0 + 3 {
                        } else if j == len0 + 4 {
                        } else {
                            assert(j == len0 + 5);
                        }
                    }
                }
                lon = lon + 1;
            }
            proof {
                assert(6 * ((lat as int) + 1) * (n as int) == 6 * (lat as int) * (n as int) + 6 * (
                n as int)) by (nonlinear_arith);
            }
            lat = lat + 1;
        }
        proof {
            assert(r@.len() == 6 * (n as int) * (n as int));
            assert(sphere_indices_s(n as int).len() == 6 * (n as int) * (n as int));
            assert(r@ =~= sphere_indices_s(n as int));
        }
        r
    }
}

} // verus!
