//! The interface a render backend implements to drive the engine.

use vstd::prelude::*;
use crate::display_hints::DisplayHints;
use crate::renderer::Renderer;

verus! {

/// A render backend: a distinct rendering engine usable with this library.
/// All backends support the same rendering API, so similar code can run on
/// multiple platforms with limited, or zero, edits.
///
/// When implementing a custom backend, implement this trait together with
/// [`Batch`](crate::renderer::Batch).
pub trait RenderBackend {
    /// Called exactly once. Should create a render context, then enter a
    /// loop that does not terminate until the application itself quits.
    /// Every iteration must render a single frame on the back buffer, then
    /// swap the back and front buffers.
    fn main_loop(self, dh: DisplayHints, r: Renderer);
}

} // verus!
