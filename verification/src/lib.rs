//! Fixed-size vectors and square matrices for geometry code, generic over
//! the component type, together with a few integer helpers.
//!
//! The vectors have two, three or four components; the matrices are 2x2, 3x3
//! or 4x4 and store their elements column by column. Every operation states
//! its result over the specifications that `vstd` gives to the operators of
//! the component type: see the module `scalar`. The laws that hold among the
//! operations are proved for the component types that form a commutative
//! ring: see the module `ring`.
pub mod common;
pub mod matrix2;
pub mod matrix3;
pub mod matrix4;
pub mod ring;
pub mod scalar;
pub mod vector2;
pub mod vector3;
pub mod vector4;

pub use common::is_power_of_two;
pub use common::next_power_of_two;
pub use common::sign;
pub use common::TransformPoint;
pub use matrix2::Matrix2;
pub use matrix3::Matrix3;
pub use matrix4::Matrix4;
pub use scalar::Scalar;
pub use vector2::Vector2;
pub use vector3::Vector3;
pub use vector4::Vector4;
