//! The scene-facing substrate of the event core.
//!
//! Scenes and nodes themselves are thin consumers that live with the
//! application: a scene owns its nodes strongly, a node owns its components
//! strongly, and back-references go through [`WeakCell`](crate::cell::WeakCell)
//! so that a lookup through them can fail rather than dangle. What the event
//! core defines here is the shape those consumers build on.

use vstd::prelude::*;

verus! {

/// Components listen for events to execute event-driven code. A component
/// subscribes by declaring its capabilities (see
/// [`capability`](crate::capability)) and registering a listener on one of
/// the scene's event handlers.
pub trait Component: Send + Sync {}

} // verus!
