//! Short-lived ballistic particles ("piispis") for a browser arena: spawn
//! validation, per-tick integration with gravity, termination when a particle
//! falls through the arena floor, entity ids, and a per-frame system scheduler.
//!
//! Rendering, input and timers belong to the host; the library hands it plain
//! values (screen offsets, removal notices) and takes plain values back.
pub mod config;
pub mod entity;
pub mod geometry;
pub mod particle;
pub mod random;
pub mod world;
