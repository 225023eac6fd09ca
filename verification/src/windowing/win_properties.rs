//! The properties a window is opened with, borrowing their title.

use vstd::prelude::*;

verus! {

/// The properties to open the window with.
pub struct WindowProperties<'title> {
    pub(crate) width: u32,
    pub(crate) height: u32,
    pub(crate) title: &'title str,
    pub(crate) win_mode: WinMode,
}

impl<'title> WindowProperties<'title> {
    /// The requested width, in screen coordinates.
    pub closed spec fn spec_width(&self) -> u32 {
        self.width
    }

    /// The requested height, in screen coordinates.
    pub closed spec fn spec_height(&self) -> u32 {
        self.height
    }

    /// The requested window title.
    pub closed spec fn spec_title(&self) -> Seq<char> {
        self.title@
    }

    /// The requested window mode.
    pub closed spec fn spec_win_mode(&self) -> WinMode {
        self.win_mode
    }

    /// Create a WindowProperties object, given the fields.
    pub fn new(width: u32, height: u32, title: &'title str, win_mode: WinMode) -> (r: Self)
        ensures
            r.spec_width() == width,
            r.spec_height() == height,
            r.spec_title() == title@,
            r.spec_win_mode() == win_mode,
    {
        Self { width, height, title, win_mode }
    }

    /// The requested width, in screen coordinates.
    #[verifier::when_used_as_spec(spec_width)]
    pub fn width(&self) -> (r: u32)
        ensures
            r == self.spec_width(),
    {
        self.width
    }

    /// The requested height, in screen coordinates.
    #[verifier::when_used_as_spec(spec_height)]
    pub fn height(&self) -> (r: u32)
        ensures
            r == self.spec_height(),
    {
        self.height
    }

    /// The requested window title.
    pub fn title(&self) -> (r: &'title str)
        ensures
            r@ == self.spec_title(),
    {
        self.title
    }

    /// The requested window mode.
    #[verifier::when_used_as_spec(spec_win_mode)]
    pub fn win_mode(&self) -> (r: WinMode)
        ensures
            r == self.spec_win_mode(),
    {
        self.win_mode
    }
}

/// The window mode to use for creating the window.
#[derive(Clone, Copy, Debug, PartialEq, Eq)]
pub enum WinMode {
    /// As a "windowed" window.
    Windowed,
    /// As a fullscreen window.
    Fullscreen,
}

} // verus!
