//! A verified core for a time-driven storage-buffer scene.
//!
//! The library models a small rendering demo: a GPU-visible storage buffer
//! of five color records, a material that binds the buffer read-only at
//! slot zero for a shared shader, a 13 x 7 grid of cube instances that all
//! share that material, a fixed camera, and a per-frame updater that
//! wholly replaces the buffer's records with a time-driven sine pattern.
//! The host engine (scheduling, asset upload, rendering, floating-point
//! trigonometry) stays outside; the records here are exact descriptions
//! of the curves the renderer evaluates.

pub mod color;
pub mod material;
pub mod scene;
pub mod store;
