//! Frame-rendering core of a first-person game client: render-target and
//! pipeline bookkeeping, the per-frame pass sequence, and UI command batching.
//!
//! GPU objects themselves live with the caller; this crate decides what they
//! must look like, when they must be rebuilt and in which order passes run.
pub mod extent;
pub mod texture;
pub mod target;
pub mod graphics;
pub mod ui;
pub mod node;
pub mod frame;
pub mod uniform;
