//! A small entity-component store: a registry that numbers component types,
//! a scene that owns entities and their components, and mask-based queries.
//! Beside it stand a table of callbacks by event key, vectors of two and three
//! coordinates, and the arithmetic of a sound buffer played in a loop.

use vstd::prelude::*;

pub mod audio;
pub mod ecs;
pub mod event;
pub mod math;

verus! {

/// What can happen to the windows of the program as a whole.
#[derive(Clone, Copy, Debug, PartialEq, Eq, Hash)]
pub enum EventType {
    /// A window was created.
    WindowCreate,
    /// A window was closed.
    WindowClose,
}

/// What can happen to one window.
#[derive(Clone, Copy, Debug, PartialEq, Eq, Hash)]
pub enum WindowEventType {
    /// The window was drawn anew.
    Update,
}

} // verus!
