//! Core of a small real-time simulation/rendering engine: an entity world
//! advanced on a fixed timestep, lazily recomputed transform matrices, and
//! per-(mesh, material) instanced draw batches handed to a renderer.

pub mod batch;
pub mod camera;
pub mod car;
pub mod engine;
pub mod handoff;
pub mod input;
pub mod math;
pub mod transform;
pub mod world;
