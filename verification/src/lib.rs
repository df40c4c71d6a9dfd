//! Core of a small real-time rendering frame orchestrator.
//!
//! The library owns the logical state of the renderer: the surface
//! configuration, the per-frame uniform blocks and their GPU-buffer images,
//! the procedurally generated instance grid, mesh and material assembly,
//! pipeline descriptions with their bind-group slot conventions, and the
//! deterministic command sequence recorded for each frame.  Everything the
//! device itself does (allocation, submission, presentation) happens outside,
//! driven by the plain data this crate produces; scalar shader values travel
//! through the library as opaque 32-bit patterns.

pub mod bindings;
pub mod bytes;
pub mod camera;
pub mod commands;
pub mod gpu;
pub mod instance;
pub mod light;
pub mod model;
pub mod movement;
pub mod pipeline;
pub mod surface;
pub mod swapchain;
pub mod texture;
pub mod triangle;
