//! Core decision logic for a single-surface, single-device triangle renderer.
//!
//! The library covers the parts of the rendering bring-up that are pure
//! computation: scoring and picking a physical device, resolving queue
//! families, negotiating the swapchain format / present mode / extent /
//! image count / sharing mode, the fixed render-pass and pipeline
//! configuration, the per-frame synchronization state machine, and the
//! teardown ordering. Every driver call (instance, device, swapchain,
//! queue submission) is performed by a thin unverified shell around this
//! crate, which hands the library plain values and executes the plans the
//! library returns.

pub mod context;
pub mod frame;
pub mod model;
pub mod pipeline;
pub mod selector;
pub mod swapchain;
pub mod teardown;
