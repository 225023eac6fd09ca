//! Payload shapes of window events, named for hosts that use them.

use vstd::prelude::*;

verus! {

/// A struct containing details of a window's dimensions.
#[derive(Clone, Copy, Debug, PartialEq, Eq)]
pub struct WindowSizeContainer {
    /// Horizontal dimensions of the window.
    pub width: i32,
    /// Vertical dimensions of the window.
    pub height: i32,
}

} // verus!
