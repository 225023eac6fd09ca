//! Payload shapes of window events, kept for hosts that build against this
//! surface of the engine.

use vstd::prelude::*;

pub mod event_types;

verus! {

/// A struct containing details of a window's dimensions.
#[derive(Clone, Copy, Debug, PartialEq, Eq)]
pub struct WindowDimensionsContainer {
    /// Horizontal dimensions of the window.
    pub width: i32,
    /// Vertical dimensions of the window.
    pub height: i32,
}

} // verus!
