//! A small ray tracer over saturating fixed-point arithmetic: vectors,
//! quaternions and homogeneous matrices; a transform-aware scene tree of
//! spheres, boxes, the infinite plane, triangle meshes and composites;
//! nearest-hit resolution; Lambert shading with hard shadows and a
//! procedural checkerboard; and a stripe-parallel sampling loop. Every
//! function is verified against a spec-level model of the same
//! arithmetic, and the laws module states what the solvers promise.

pub mod fixed;
pub mod laws;
pub mod mat3;
pub mod mat4;
pub mod material;
pub mod object;
pub mod quat;
pub mod ray;
pub mod render;
pub mod scene;
pub mod shade;
pub mod shape;
pub mod transform;
pub mod vec3;
pub mod vec4;

pub use fixed::Fx;
pub use mat3::Mat3;
pub use mat4::Mat4;
pub use material::{Color, Material};
pub use object::{Object, Polygon};
pub use quat::Quat;
pub use ray::{Intersection, Ray};
pub use render::RenderParams;
pub use scene::Env;
pub use shape::{Mesh, Shape};
pub use transform::Transform;
pub use vec3::Vec3;
pub use vec4::Vec4;
