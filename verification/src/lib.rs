//! Luma: an interactive path-tracing renderer core.
//!
//! Radiance, geometry and camera state are carried in signed 16.16
//! fixed-point scalars (`fixed`), so every arithmetic step of the pipeline
//! has an exact integer meaning that the contracts in this crate state and
//! the verifier checks.

pub mod buffer;
pub mod camera;
pub mod geometry;
pub mod fixed;
pub mod matrix;
pub mod ray;
pub mod renderer;
pub mod shader;
pub mod trig;
pub mod vector;
