//! Core of a minimal real-time 3D rendering engine, verified with Verus.
//!
//! The library models the per-frame discipline of the engine: a world
//! of entities with typed component stores and singleton resources,
//! updated by an ordered set of systems — a startup stage that runs
//! exactly once, an ingest stage (clock, event queue), an update stage
//! (frame counter, camera control), and a render stage that turns the
//! scene into an exact run of GPU commands.  All quantities are plain
//! integers in fixed-point micro-units, so every rule of the engine is
//! stated and proved here; the platform work (windowing, GPU
//! submission, asset file loading) lives outside and performs the
//! decisions this library computes.
//!
//! Module guide: `fx`, `vec3`, and `mat4` are the fixed-point scalar,
//! vector, and matrix arithmetic; `time`, `input`, and `events` the
//! clock, key translation, and double-buffered event queue; `camera`,
//! `transform`, and `model` the components; `gpu` the handles and
//! surface state; `world` the registry and entity stores; `systems`
//! the staged per-frame schedule; and `render` the per-frame command
//! trace.

use vstd::prelude::*;

pub mod fx;
pub mod vec3;
pub mod mat4;
pub mod time;
pub mod input;
pub mod events;
pub mod camera;
pub mod transform;
pub mod gpu;
pub mod model;
pub mod world;
pub mod render;
pub mod systems;

verus! {

pub use crate::fx::SCALE;

} // verus!
