//! Module related to the core of the game engine: the errors of engine
//! initialization, and the outcome initialization owes the caller for each
//! answer of the native layer.

use vstd::prelude::*;

pub mod errors;

use crate::native::NativeWindowReport;
use errors::InitError;

verus! {

/// The result engine initialization owes the caller, given what the native
/// layer answered when asked to initialize and open the window: success when
/// the window opened, and each failure surfaced as an immediate failure
/// result.
pub fn init_outcome(report: NativeWindowReport) -> (r: Result<(), InitError>)
    ensures
        report is Opened ==> r == Ok::<(), InitError>(()),
        report is OpenFailed ==> r == Err::<(), InitError>(InitError::WindowCreationFailed),
        report matches NativeWindowReport::InitFailed(e) ==> r == Err::<(), InitError>(
            InitError::GlfwInitError(e),
        ),
{
    match report {
        NativeWindowReport::Opened => Ok(()),
        NativeWindowReport::OpenFailed => Err(InitError::WindowCreationFailed),
        NativeWindowReport::InitFailed(e) => Err(InitError::GlfwInitError(e)),
    }
}

} // verus!
