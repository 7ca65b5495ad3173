//! Camera core for a small retained-mode 3D renderer.
//!
//! The camera keeps a rigid-body transform (rotation and translation) together
//! with perspective-projection parameters, and derives the view and projection
//! matrices that a draw path uploads as shader uniforms. All scalar values are
//! carried as 16.16 fixed-point numbers ([`fixed::Fx`]), so every matrix entry
//! is an exactly specified integer computation.

pub mod camera;
pub mod fixed;
pub mod input;
pub mod matrix;
pub mod shader;
