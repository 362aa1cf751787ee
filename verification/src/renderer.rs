//! The renderer: takes render calls and delegates them to the backend's
//! batch.

use vstd::prelude::*;

verus! {

/// Batched rendering: objects are rendered to a batch, which populates the
/// GPU with the objects; when `end` is called, the batch tells the GPU to
/// perform the render. Backends remain free to implement these calls with an
/// immediate-mode method instead.
pub trait Batch {
    /// Opens the batch for a frame's render calls.
    fn begin(&mut self);

    /// Closes the batch and submits the frame.
    fn end(&mut self);
}

/// The Renderer takes render calls and delegates them to the back end.
pub struct Renderer;

impl Renderer {
    /// Renders the scene using the given batch. The render backend should
    /// call this every frame.
    pub fn render<B: Batch>(&self, b: &mut B) {
        b.begin();
        b.end();
    }
}

} // verus!
