//! The errors that can happen during engine initialization.

use vstd::prelude::*;

use crate::native::NativeInitError;

verus! {

/// The errors that can happen while initializing the engine and opening its
/// window.
#[derive(Clone, Copy, Debug, PartialEq, Eq)]
pub enum InitError {
    /// The native windowing library failed to initialize, with the report
    /// that caused it.
    GlfwInitError(NativeInitError),
    /// The native layer could not create the window.
    WindowCreationFailed,
}

impl From<NativeInitError> for InitError {
    /// Wraps the native layer's initialization report.
    fn from(err: NativeInitError) -> (r: Self) {
        Self::GlfwInitError(err)
    }
}

impl vstd::std_specs::convert::FromSpecImpl<NativeInitError> for InitError {
    open spec fn obeys_from_spec() -> bool {
        true
    }

    open spec fn from_spec(err: NativeInitError) -> Self {
        Self::GlfwInitError(err)
    }
}

} // verus!
