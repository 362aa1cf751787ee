//! Covalent is the concurrent scene/event core of a small real-time
//! rendering engine. Applications attach reactive listeners to per-frame
//! events (tick, input, resize); the event core dispatches each event to
//! every listener in parallel, retries listeners whose locks are contended,
//! and evicts listeners whose required shared state has been destroyed.
//!
//! The heart of the library is the event-dispatch and weak-ownership
//! subsystem: [`events`] holds the generic event handler and the
//! listener-retry/eviction protocol, [`dispatch`] its mathematical model,
//! [`capability`] the declarative capability-locking mechanism that lets a
//! listener say which pieces of shared, lock-protected state it needs before
//! running, and [`cell`] the shared cells those capabilities point at.

use vstd::prelude::*;

pub mod capability;
pub mod cell;
pub mod dispatch;
mod display_hints;
pub mod events;
pub mod graphics;
pub mod input;
mod render_backend;
mod renderer;
pub mod scene;
mod stopwatch;

pub use display_hints::DisplayHints;
pub use render_backend::RenderBackend;
pub use renderer::Batch;
pub use renderer::Renderer;
pub use stopwatch::InterpolatedStopwatch;

verus! {

/// Constructs an engine context from the given backend, then executes the
/// application it defines. Create only a single context during the lifetime
/// of your application, and only on the main thread. The backend's main loop
/// does not return until the application quits.
pub fn execute<B: RenderBackend>(hints: DisplayHints, rb: B) {
    rb.main_loop(hints, Renderer);
}

} // verus!
