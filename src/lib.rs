//! Small fixed-size vectors and square matrices with integer arithmetic.
//!
//! Vectors and matrices are generic in their component type for building
//! and rearranging; arithmetic is on `i64`, with contracts stated over the
//! mathematical integers. Matrices are stored as row vectors: `m.x.y` is
//! row 0, column 1.

pub mod mat2;
pub mod mat3;
pub mod mat4;
pub mod scalar;
pub mod vec2;
pub mod vec3;
pub mod vec4;
pub mod vector;
