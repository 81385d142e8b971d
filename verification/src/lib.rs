//! Geometric intersection and shading-frame computation for quadric shapes.
//!
//! Scalars are Q32.32 fixed-point numbers (`Fx`), so every arithmetic step
//! has an exact integer semantics that the verifier can reason about.
//! Intersection decisions are made with interval-valued scalars (`Ef`) whose
//! bounds provably bracket the exact rational result of each operation.

pub mod fixed;
pub mod efloat;
pub mod transcend;
pub mod vecmath;
pub mod transform;
pub mod shape;
pub mod interaction;
pub mod sphere;
pub mod paraboloid;
pub mod quadric;
pub mod spectrum;
pub mod light;
pub mod filter;
pub mod texture;
pub mod primitive;
pub mod mipmap;
