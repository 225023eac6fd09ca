//! The engine's window: its creation properties and the verified model of its
//! state.
//!
//! The model holds what the engine itself decides about a window: the
//! configuration it was opened with, whether a close was requested, and the
//! native messages received and not yet flushed. The unverified shell that
//! owns the real native window delivers each native message to the model with
//! [`Window::deliver`] and reads the translated engine events back with
//! [`Window::flush_events`].

use vstd::prelude::*;

use crate::graphics::errors::WindowInitError;
use crate::graphics::events::Event;
use crate::graphics::events::translate_events;
use crate::graphics::events::translated_events;
use crate::native::NativeEvent;
use crate::native::NativeWindowReport;
use vstd::string::StringExecFns;

verus! {

/// The window mode to use for creating the window.
#[derive(Clone, Copy, Debug, PartialEq, Eq)]
pub enum Mode {
    /// As a "windowed" window.
    Windowed,
    /// As a fullscreen window.
    Fullscreen,
}

/// The properties to open the window with.
pub struct Properties {
    width: u32,
    height: u32,
    title: String,
    win_mode: Mode,
}

impl Properties {
    /// The requested width, in screen coordinates.
    pub closed spec fn spec_width(&self) -> u32 {
        self.width
    }

    /// The requested height, in screen coordinates.
    pub closed spec fn spec_height(&self) -> u32 {
        self.height
    }

    /// The requested window title.
    pub closed spec fn spec_title(&self) -> Seq<char> {
        self.title@
    }

    /// The requested window mode.
    pub closed spec fn spec_win_mode(&self) -> Mode {
        self.win_mode
    }

    /// Create a `Properties` object, given the fields.
    pub fn new(width: u32, height: u32, title: &str, win_mode: Mode) -> (r: Self)
        ensures
            r.spec_width() == width,
            r.spec_height() == height,
            r.spec_title() == title@,
            r.spec_win_mode() == win_mode,
    {
        Self { width, height, title: String::from_str(title), win_mode }
    }

    /// The requested width, in screen coordinates.
    #[verifier::when_used_as_spec(spec_width)]
    pub fn width(&self) -> (r: u32)
        ensures
            r == self.spec_width(),
    {
        self.width
    }

    /// The requested height, in screen coordinates.
    #[verifier::when_used_as_spec(spec_height)]
    pub fn height(&self) -> (r: u32)
        ensures
            r == self.spec_height(),
    {
        self.height
    }

    /// The requested window title.
    pub fn title(&self) -> (r: &str)
        ensures
            r@ == self.spec_title(),
    {
        self.title.as_str()
    }

    /// The requested window mode.
    #[verifier::when_used_as_spec(spec_win_mode)]
    pub fn win_mode(&self) -> (r: Mode)
        ensures
            r == self.spec_win_mode(),
    {
        self.win_mode
    }
}

/// A window of the engine: its configuration, its close flag, and the native
/// messages received and not yet flushed.
pub struct Window {
    width: u32,
    height: u32,
    title: String,
    win_mode: Mode,
    close_requested: bool,
    pending: Vec<NativeEvent>,
}

impl Window {
    /// The width the window was opened with.
    pub closed spec fn spec_width(&self) -> u32 {
        self.width
    }

    /// The height the window was opened with.
    pub closed spec fn spec_height(&self) -> u32 {
        self.height
    }

    /// The title the window was opened with.
    pub closed spec fn spec_title(&self) -> Seq<char> {
        self.title@
    }

    /// The mode the window was opened with.
    pub closed spec fn spec_win_mode(&self) -> Mode {
        self.win_mode
    }

    /// Whether a close of the window was requested.
    pub closed spec fn close_requested(&self) -> bool {
        self.close_requested
    }

    /// The native messages received and not yet flushed, in arrival order.
    pub closed spec fn pending(&self) -> Seq<NativeEvent> {
        self.pending@
    }

    /// The configuration the window keeps: what it was opened with.
    pub open spec fn same_configuration(&self, other: &Self) -> bool {
        &&& self.spec_width() == other.spec_width()
        &&& self.spec_height() == other.spec_height()
        &&& self.spec_title() == other.spec_title()
        &&& self.spec_win_mode() == other.spec_win_mode()
    }

    /// Create a new window with the given properties.
    ///
    /// Opening the real native window is the shell's task; `report` is what
    /// the native layer answered. When the window opened, it starts with the
    /// given configuration, no close requested and no message pending; each
    /// failure is surfaced as an immediate failure result.
    ///
    /// # Errors
    /// Returns [`WindowInitError::GlfwInitError`], carrying the native
    /// report, if and only if the native library failed to initialize, and
    /// [`WindowInitError::WindowCreationFailed`] if and only if the library
    /// initialized but could not create the window.
    pub fn new(properties: &Properties, report: NativeWindowReport) -> (r: Result<
        Self,
        WindowInitError,
    >)
        ensures
            report is Opened ==> r is Ok && r->Ok_0.spec_width() == properties.spec_width()
                && r->Ok_0.spec_height() == properties.spec_height() && r->Ok_0.spec_title()
                == properties.spec_title() && r->Ok_0.spec_win_mode() == properties.spec_win_mode()
                && !r->Ok_0.close_requested() && r->Ok_0.pending() == Seq::<NativeEvent>::empty(),
            report is OpenFailed ==> r == Err::<Self, WindowInitError>(
                WindowInitError::WindowCreationFailed,
            ),
            report matches NativeWindowReport::InitFailed(e) ==> r == Err::<
                Self,
                WindowInitError,
            >(WindowInitError::GlfwInitError(e)),
    {
        match report {
            NativeWindowReport::Opened => Ok(
                Self {
                    width: properties.width,
                    height: properties.height,
                    title: properties.title.clone(),
                    win_mode: properties.win_mode,
                    close_requested: false,
                    pending: Vec::new(),
                },
            ),
            NativeWindowReport::OpenFailed => Err(WindowInitError::WindowCreationFailed),
            NativeWindowReport::InitFailed(e) => Err(WindowInitError::GlfwInitError(e)),
        }
    }

    /// The width the window was opened with.
    #[verifier::when_used_as_spec(spec_width)]
    pub fn width(&self) -> (r: u32)
        ensures
            r == self.spec_width(),
    {
        self.width
    }

    /// The height the window was opened with.
    #[verifier::when_used_as_spec(spec_height)]
    pub fn height(&self) -> (r: u32)
        ensures
            r == self.spec_height(),
    {
        self.height
    }

    /// The title the window was opened with.
    pub fn title(&self) -> (r: &str)
        ensures
            r@ == self.spec_title(),
    {
        self.title.as_str()
    }

    /// The mode the window was opened with.
    #[verifier::when_used_as_spec(spec_win_mode)]
    pub fn win_mode(&self) -> (r: Mode)
        ensures
            r == self.spec_win_mode(),
    {
        self.win_mode
    }

    /// Returns whether the user requested the window to close (for example
    /// clicking on the X button).
    pub fn should_close(&self) -> (r: bool)
        ensures
            r == self.close_requested(),
    {
        self.close_requested
    }

    /// Record one native message: it is appended to the pending messages, and
    /// a close message raises the close flag. Nothing else changes.
    pub fn deliver(&mut self, event: NativeEvent)
        ensures
            final(self).pending() == old(self).pending().push(event),
            final(self).close_requested() == (old(self).close_requested() || event is Close),
            final(self).same_configuration(old(self)),
    {
        if let NativeEvent::Close = event {
            self.close_requested = true;
        }
        self.pending.push(event);
    }

    /// Returns the translation of every pending native message, in arrival
    /// order, and leaves nothing pending. The rest of the state is kept.
    pub fn flush_events(&mut self) -> (events: Vec<Event>)
        ensures
            events@ == translated_events(old(self).pending()),
            final(self).pending() == Seq::<NativeEvent>::empty(),
            final(self).close_requested() == old(self).close_requested(),
            final(self).same_configuration(old(self)),
    {
        let events = translate_events(&self.pending);
        self.pending.clear();
        events
    }
}

} // verus!
