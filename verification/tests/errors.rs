//! The error values of window creation and engine initialization.

use vertex_engine::engine_core::errors::InitError;
use vertex_engine::engine_core::init_outcome;
use vertex_engine::graphics::errors::WindowInitError;
use vertex_engine::native::NativeInitError;
use vertex_engine::native::NativeWindowReport;

#[test]
fn a_native_init_report_wraps_into_a_window_error() {
    let e = WindowInitError::from(NativeInitError::Internal);
    assert_eq!(e, WindowInitError::GlfwInitError(NativeInitError::Internal));
}

#[test]
fn a_native_init_report_wraps_into_an_engine_error() {
    let e = InitError::from(NativeInitError::AlreadyInitialized);
    assert_eq!(e, InitError::GlfwInitError(NativeInitError::AlreadyInitialized));
}

#[test]
fn the_two_failure_kinds_differ() {
    let wrapped = WindowInitError::from(NativeInitError::Internal);
    assert_ne!(wrapped, WindowInitError::WindowCreationFailed);
}

#[test]
fn initialization_succeeds_when_the_window_opened() {
    assert_eq!(init_outcome(NativeWindowReport::Opened), Ok(()));
}

#[test]
fn initialization_surfaces_a_failed_open() {
    assert_eq!(
        init_outcome(NativeWindowReport::OpenFailed),
        Err(InitError::WindowCreationFailed)
    );
}

#[test]
fn initialization_surfaces_a_native_init_failure() {
    assert_eq!(
        init_outcome(NativeWindowReport::InitFailed(NativeInitError::AlreadyInitialized)),
        Err(InitError::GlfwInitError(NativeInitError::AlreadyInitialized))
    );
}
