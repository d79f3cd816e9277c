//! Core of a small game engine: device startup decisions, swapchain
//! planning, per-frame scheduling, teardown ordering, a store of
//! asynchronously loaded resources, configuration validation and log
//! formatting. Everything here is pure decision logic on plain values;
//! the host binary performs the actual driver calls, window events and
//! file reads and feeds their results back in.

use vstd::prelude::*;

pub mod config;
pub mod logger;
pub mod rendering;
pub mod resources;
pub mod systems;
pub mod text;

verus! {

/// Whether the host loop should keep running; cleared when the window
/// asks to close.
pub struct Running(pub bool);

} // verus!
