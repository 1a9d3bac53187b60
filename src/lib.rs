//! CPU-side core of a single-queue, double-buffered real-time renderer:
//! resource ids and asset tables, descriptor-heap slots, the command
//! encoder and the commands of a frame, the fence protocol that paces
//! frames, the preparation pass that mirrors scene data into GPU buffers,
//! and the scene-graph rules of the importer.
//!
//! The GPU API itself is driven from outside: this crate decides what is
//! recorded, which slots and ids are taken and when to wait.

pub mod asset;
pub mod descriptor;
pub mod device;
pub mod encoder;
pub mod frame;
pub mod id;
pub mod prepare;
pub mod renderer;
pub mod sampler;
pub mod scene;
pub mod texture;
