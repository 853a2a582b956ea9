use vstd::prelude::*;

pub mod laws;
pub mod matrix;
pub mod ops;
pub mod orthogonal;
pub mod product;
pub mod scalar;
pub mod transform_2x2;
pub mod transform_3x3;
pub mod transform_4x4;
pub mod vector;

pub use matrix::Matrix;
pub use product::matmul;
pub use vector::Vector;
pub use vector::dot;
