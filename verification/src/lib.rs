//! Decision core of a small Vulkan-style rendering engine.
//!
//! The engine bootstraps a presentable surface and drives a double-buffered
//! render loop. Everything the engine *decides* lives here, verified: which
//! physical device and queue family to use, how the swapchain is configured,
//! what the fixed-function pipeline declares, what each command buffer
//! records, how the per-frame synchronization protocol cycles its slots, and
//! in which order resources are created and torn down. The unverified shell
//! around this crate performs the actual graphics API calls and feeds their
//! results back in as plain values.

use vstd::prelude::*;

pub mod commands;
pub mod device;
pub mod events;
pub mod instance;
pub mod lifecycle;
pub mod pipeline;
pub mod swapchain;
pub mod sync;
pub mod validation;

verus! {

/// Fatal startup errors: the engine has no retry or degraded mode, so the
/// caller is expected to abort with a descriptive message on any of these.
#[derive(Clone, Copy, PartialEq, Eq, Structural, Debug)]
pub enum EngineError {
    /// No physical device offers a queue family with both graphics support
    /// and presentation support to the target surface.
    NoSuitableDevice,
    /// The validation-layer environment toggle held a value other than the
    /// two recognized ones.
    InvalidValidationToggle,
}

} // verus!
