//! The events that the engine reports to an application, and the translation
//! of the native backend's messages into them.
//!
//! The translation is a linear table: every native message yields at most one
//! engine event. Press and release actions of keys and mouse buttons are
//! reported; repeat actions and untranslated native messages yield nothing.

use vstd::prelude::*;

use crate::native::Action;
use crate::native::NativeEvent;

verus! {

/// The details of a key press.
#[derive(Clone, Copy, Debug, PartialEq, Eq)]
pub struct KeyPressContainer {
    /// The backend's code for the key that was pressed.
    pub key: i32,
    /// The number of earlier repeats of this press known at translation time;
    /// the translation always reports a fresh press with a count of zero.
    pub count: u32,
}

/// The details of a scroll-wheel movement. The offsets are bit patterns of
/// the backend's 64-bit floating-point values.
#[derive(Clone, Copy, Debug, PartialEq, Eq)]
pub struct MouseScrollContainer {
    /// Increase in x offset, as a bit pattern.
    pub offset_x: u64,
    /// Increase in y offset, as a bit pattern.
    pub offset_y: u64,
}

/// The details of a cursor position, relative to the window. The coordinates
/// are bit patterns of the backend's 64-bit floating-point values.
#[derive(Clone, Copy, Debug, PartialEq, Eq)]
pub struct CursorPositionContainer {
    /// Horizontal position of the cursor, as a bit pattern.
    pub pos_x: u64,
    /// Vertical position of the cursor, as a bit pattern.
    pub pos_y: u64,
}

/// The details of a window's dimensions.
#[derive(Clone, Copy, Debug, PartialEq, Eq)]
pub struct WindowSizeContainer {
    /// Horizontal dimension of the window.
    pub width: i32,
    /// Vertical dimension of the window.
    pub height: i32,
}

/// The window and input events that the engine reports to an application.
#[derive(Clone, Copy, Debug, PartialEq, Eq)]
pub enum Event {
    /// A key was pressed.
    KeyPress(KeyPressContainer),
    /// A key was released; the payload is the backend's key code.
    KeyRelease(i32),
    /// A character of text was input.
    KeyCharInput(char),
    /// A mouse button was pressed; the payload is the backend's button code.
    MouseClick(i32),
    /// A mouse button was released; the payload is the backend's button code.
    MouseRelease(i32),
    /// The scroll wheel moved.
    MouseScroll(MouseScrollContainer),
    /// The cursor moved.
    MouseMove(CursorPositionContainer),
    /// The window was resized.
    WindowResize(WindowSizeContainer),
    /// The user asked the window to close.
    WindowClose,
    /// The window gained input focus.
    WindowGainedFocus,
    /// The window lost input focus.
    WindowLostFocus,
    /// The cursor left the window.
    WindowCursorLeft,
    /// The cursor entered the window.
    WindowCursorEntered,
}

/// The engine event that one native message translates to, if any.
///
/// Key and mouse-button messages translate on a press or release and are
/// dropped on a repeat; scancodes and modifier masks are not carried over.
/// A focus or cursor-enter message translates by its boolean; every other
/// payload is carried over unchanged. Untranslated native messages yield
/// `None`.
pub open spec fn translated_event(n: NativeEvent) -> Option<Event> {
    match n {
        NativeEvent::Key { key, scancode, action, modifiers } => match action {
            Action::Press => Some(Event::KeyPress(KeyPressContainer { key, count: 0 })),
            Action::Release => Some(Event::KeyRelease(key)),
            Action::Repeat => None,
        },
        NativeEvent::Char { codepoint } => Some(Event::KeyCharInput(codepoint)),
        NativeEvent::MouseButton { button, action, modifiers } => match action {
            Action::Press => Some(Event::MouseClick(button)),
            Action::Release => Some(Event::MouseRelease(button)),
            Action::Repeat => None,
        },
        NativeEvent::Scroll { offset_x, offset_y } => Some(
            Event::MouseScroll(MouseScrollContainer { offset_x, offset_y }),
        ),
        NativeEvent::CursorPos { pos_x, pos_y } => Some(
            Event::MouseMove(CursorPositionContainer { pos_x, pos_y }),
        ),
        NativeEvent::Size { width, height } => Some(
            Event::WindowResize(WindowSizeContainer { width, height }),
        ),
        NativeEvent::Close => Some(Event::WindowClose),
        NativeEvent::Focus { focused } => if focused {
            Some(Event::WindowGainedFocus)
        } else {
            Some(Event::WindowLostFocus)
        },
        NativeEvent::CursorEnter { entered } => if entered {
            Some(Event::WindowCursorEntered)
        } else {
            Some(Event::WindowCursorLeft)
        },
        NativeEvent::Unhandled => None,
    }
}

/// The engine events that a sequence of native messages translates to, in
/// arrival order: each message contributes its translation, if it has one.
pub open spec fn translated_events(s: Seq<NativeEvent>) -> Seq<Event>
    decreases s.len(),
{
    if s.len() == 0 {
        Seq::empty()
    } else {
        translated_events(s.drop_last()) + match translated_event(s.last()) {
            Some(e) => seq![e],
            None => Seq::empty(),
        }
    }
}

/// Translates one native message into the engine event it stands for, or
/// `None` where the table drops it.
pub fn translate_event(n: &NativeEvent) -> (r: Option<Event>)
    ensures
        r == translated_event(*n),
{
    match *n {
        NativeEvent::Key { key, scancode: _, action, modifiers: _ } => match action {
            Action::Press => Some(Event::KeyPress(KeyPressContainer { key, count: 0 })),
            Action::Release => Some(Event::KeyRelease(key)),
            Action::Repeat => None,
        },
        NativeEvent::Char { codepoint } => Some(Event::KeyCharInput(codepoint)),
        NativeEvent::MouseButton { button, action, modifiers: _ } => match action {
            Action::Press => Some(Event::MouseClick(button)),
            Action::Release => Some(Event::MouseRelease(button)),
            Action::Repeat => None,
        },
        NativeEvent::Scroll { offset_x, offset_y } => Some(
            Event::MouseScroll(MouseScrollContainer { offset_x, offset_y }),
        ),
        NativeEvent::CursorPos { pos_x, pos_y } => Some(
            Event::MouseMove(CursorPositionContainer { pos_x, pos_y }),
        ),
        NativeEvent::Size { width, height } => Some(
            Event::WindowResize(WindowSizeContainer { width, height }),
        ),
        NativeEvent::Close => Some(Event::WindowClose),
        NativeEvent::Focus { focused } => if focused {
            Some(Event::WindowGainedFocus)
        } else {
            Some(Event::WindowLostFocus)
        },
        NativeEvent::CursorEnter { entered } => if entered {
            Some(Event::WindowCursorEntered)
        } else {
            Some(Event::WindowCursorLeft)
        },
        NativeEvent::Unhandled => None,
    }
}

/// Appending one native message to a batch extends the batch's translation by
/// that message's own translation.
pub proof fn lemma_translated_events_push(s: Seq<NativeEvent>, n: NativeEvent)
    ensures
        translated_events(s.push(n)) == translated_events(s) + match translated_event(n) {
            Some(e) => seq![e],
            None => Seq::<Event>::empty(),
        },
{
    assert(s.push(n).drop_last() =~= s);
    assert(s.push(n).last() == n);
}

/// A poll cycle reports each native occurrence at most once: a batch of
/// native messages never translates to more engine events than it has
/// messages.
pub proof fn lemma_at_most_one_event_per_message(s: Seq<NativeEvent>)
    ensures
        translated_events(s).len() <= s.len(),
    decreases s.len(),
{
    if s.len() > 0 {
        lemma_at_most_one_event_per_message(s.drop_last());
    }
}

/// Translates a batch of native messages in arrival order.
pub fn translate_events(natives: &Vec<NativeEvent>) -> (events: Vec<Event>)
    ensures
        events@ == translated_events(natives@),
{
    let mut events: Vec<Event> = Vec::new();
    let mut i: usize = 0;
    while i < natives.len()
        invariant
            i <= natives.len(),
            events@ == translated_events(natives@.subrange(0, i as int)),
        decreases natives.len() - i,
    {
        proof {
            assert(natives@.subrange(0, (i + 1) as int) =~= natives@.subrange(0, i as int).push(
                natives@[i as int],
            ));
            lemma_translated_events_push(natives@.subrange(0, i as int), natives@[i as int]);
        }
        match translate_event(&natives[i]) {
            Some(e) => events.push(e),
            None => {},
        }
        i = i + 1;
    }
    proof {
        assert(natives@.subrange(0, natives@.len() as int) =~= natives@);
    }
    events
}

} // verus!
