//! A small real-time 3D engine core: fixed-point linear algebra, skeletal
//! animation (keyframe tracks, clips, a blending animator), view-frustum
//! culling, and handle-based resource tables. GPU upload, windowing and model
//! file parsing live outside this crate; the library exchanges plain values
//! with them.

pub mod fixed;
pub mod vec;
pub mod mat4;
pub mod animation;
pub mod clip;
pub mod animator;
pub mod camera;
pub mod culler;
pub mod table;
pub mod mesh;
pub mod skeletal_mesh;
pub mod light;
pub mod texture;
pub mod model;
pub mod renderer;
pub mod shapes;
pub mod math;
pub mod trail;

pub use fixed::{FX_ONE, FX_MAX, fx_add, fx_sub, fx_mul, fx_ratio, fx_lerp, fx_wrap, fx_min};
pub use vec::{Vec2Fx, Vec3Fx, Vec4Fx, QuatFx};
pub use mat4::Mat4Fx;
pub use animation::{KeyPosition, KeyRotation, KeyScale, AnimationBone};
pub use clip::{NodeData, BoneInfo, Animation};
pub use animator::{Animator, MAX_BONES};
pub use camera::{Camera, ProjectionType};
pub use culler::{Plane, Frustum, Sphere, AABB, Volume, Culler};
pub use table::Table;
pub use mesh::{Vertex, Mesh, MeshData, MeshHandle};
pub use skeletal_mesh::{SkeletalVertex, SkeletalMesh, SkeletalMeshHandle, MAX_BONE_INFLUENCE};
pub use light::{Light, LightHandle};
pub use texture::{Texture, TextureHandle};
pub use model::{Model, ModelHandle};
pub use renderer::Renderer;
pub use shapes::{Quad, Triangle, Cuboid, Circle};
pub use math::{distance, lerp, isqrt};
pub use trail::Trail;
