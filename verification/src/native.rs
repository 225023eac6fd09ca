//! The messages of the native windowing backend, held as plain values.
//!
//! The native library reports input and window changes as tagged messages.
//! This module states their shape with primitive payloads only: key codes,
//! scancodes, button numbers and modifier masks are the backend's own integer
//! codes, and the backend's 64-bit floating-point coordinates travel through
//! this layer untouched as their IEEE 754 bit patterns.

use vstd::prelude::*;

verus! {

/// The state change of a key or mouse button, as the native backend reports it.
#[derive(Clone, Copy, Debug, PartialEq, Eq)]
pub enum Action {
    /// The key or button was released.
    Release,
    /// The key or button was pressed.
    Press,
    /// The key is being held down and the backend repeats the press.
    Repeat,
}

/// One message from the native windowing backend.
///
/// Payloads are plain values: integer codes as the backend defines them, and
/// the bit patterns of the backend's 64-bit floating-point coordinates.
#[derive(Clone, Copy, Debug, PartialEq, Eq)]
pub enum NativeEvent {
    /// A key changed state. `key` is the backend's key code, `scancode` the
    /// platform scancode, `modifiers` the backend's modifier bit mask.
    Key { key: i32, scancode: i32, action: Action, modifiers: i32 },
    /// A character of text input.
    Char { codepoint: char },
    /// A mouse button changed state. `button` is the backend's button code.
    MouseButton { button: i32, action: Action, modifiers: i32 },
    /// The scroll wheel moved. The offsets are bit patterns of the backend's
    /// 64-bit floating-point values.
    Scroll { offset_x: u64, offset_y: u64 },
    /// The cursor moved. The coordinates are bit patterns of the backend's
    /// 64-bit floating-point values.
    CursorPos { pos_x: u64, pos_y: u64 },
    /// The window was resized to the given dimensions.
    Size { width: i32, height: i32 },
    /// The user asked the window to close.
    Close,
    /// The window gained (`true`) or lost (`false`) input focus.
    Focus { focused: bool },
    /// The cursor entered (`true`) or left (`false`) the window.
    CursorEnter { entered: bool },
    /// Any native message this layer does not translate.
    Unhandled,
}

/// Why the native windowing library failed to initialize.
#[derive(Clone, Copy, Debug, PartialEq, Eq)]
pub enum NativeInitError {
    /// The library was already initialized.
    AlreadyInitialized,
    /// An internal error occurred inside the library.
    Internal,
}

/// What the native layer reports when asked to open a window.
#[derive(Clone, Copy, Debug, PartialEq, Eq)]
pub enum NativeWindowReport {
    /// The library initialized and the window opened.
    Opened,
    /// The library initialized, but the window could not be created (for
    /// example, no monitor was found for a fullscreen window).
    OpenFailed,
    /// The library itself failed to initialize, with its report.
    InitFailed(NativeInitError),
}

} // verus!
