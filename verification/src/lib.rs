//! A transient visual-overlay engine core: given a visual target (an
//! image-backed sprite, a region of a sprite atlas, or a colored mesh), it
//! temporarily composites a flicker color on top of it for a bounded duration,
//! then removes the overlay and restores the original appearance. A repeating
//! emitter can trigger such flickers on a configurable pulse schedule.
//!
//! The engine is host-agnostic: entities are plain `u64` identifiers, time is
//! measured in integer microseconds, and asset lookups go through an in-memory
//! [`resolve::AssetStore`]. A host (a game engine's entity store, renderer and
//! asset server) drives [`systems::update`] once per frame and turns the
//! resulting overlay descriptions into pixels.

pub mod color;
pub mod components;
pub mod config;
pub mod events;
pub mod flicker;
pub mod geometry;
pub mod resolve;
pub mod systems;
pub mod timer;
pub mod world;
