//! A verified core for a real-time N-body gravitational simulation with a
//! boids-style particle swarm layer and an orbiting camera.
//!
//! All simulation state is kept in saturating fixed-point arithmetic
//! (`i64` values carrying nine decimal places), so every update rule has an
//! exact mathematical specification. Rendering, windowing and input plumbing
//! are external collaborators: the library hands them plain records and takes
//! plain events back.

pub mod bodies;
pub mod camera;
pub mod fx;
pub mod particles;
pub mod rng;
pub mod sim;
pub mod solar_system;
pub mod types;
pub mod vec3;
