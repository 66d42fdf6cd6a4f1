//! Storage, layout and sign handling for a small graphics kernel: scalars
//! carried by their bit patterns, vectors and column-major matrices built
//! from them, and fixed-size pixel and depth buffers.

pub mod buffer;
pub mod mat3;
pub mod mat4;
pub mod scalar;
pub mod vec2;
pub mod vec3;
pub mod vec4;
pub mod window;

pub use mat3::Mat3;
pub use mat4::Mat4;
pub use scalar::Binary32;
pub use vec2::Vec2;
pub use vec3::Vec3;
pub use vec4::Vec4;
