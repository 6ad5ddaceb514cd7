//! Runtime core of a small real-time engine: a double-buffered input state
//! machine with edge-triggered queries, a type-keyed resource store with a
//! runtime-checked borrow discipline, and a scene registry driven by a
//! per-frame orchestrator. Windowing, GPU work and the entity/component
//! storage are collaborators supplied by the host application.

pub mod canvas;
pub mod engine;
pub mod graphic;
pub mod input;
pub mod keyboard;
pub mod resource_store;
pub mod scene;
pub mod scene_management;
