//! The translation of native backend messages into engine events, one case
//! per table entry.

use vertex_engine::graphics::events::CursorPositionContainer;
use vertex_engine::graphics::events::Event;
use vertex_engine::graphics::events::KeyPressContainer;
use vertex_engine::graphics::events::MouseScrollContainer;
use vertex_engine::graphics::events::WindowSizeContainer;
use vertex_engine::graphics::events::translate_event;
use vertex_engine::graphics::events::translate_events;
use vertex_engine::native::Action;
use vertex_engine::native::NativeEvent;

#[test]
fn key_press_translates() {
    let r = translate_event(&NativeEvent::Key {
        key: 65,
        scancode: 38,
        action: Action::Press,
        modifiers: 0,
    });
    assert_eq!(r, Some(Event::KeyPress(KeyPressContainer { key: 65, count: 0 })));
}

#[test]
fn key_release_translates() {
    let r = translate_event(&NativeEvent::Key {
        key: 256,
        scancode: 9,
        action: Action::Release,
        modifiers: 1,
    });
    assert_eq!(r, Some(Event::KeyRelease(256)));
}

#[test]
fn key_repeat_is_dropped() {
    let r = translate_event(&NativeEvent::Key {
        key: 65,
        scancode: 38,
        action: Action::Repeat,
        modifiers: 0,
    });
    assert_eq!(r, None);
}

#[test]
fn char_input_translates() {
    let r = translate_event(&NativeEvent::Char { codepoint: 'q' });
    assert_eq!(r, Some(Event::KeyCharInput('q')));
}

#[test]
fn mouse_press_translates() {
    let r = translate_event(&NativeEvent::MouseButton {
        button: 0,
        action: Action::Press,
        modifiers: 0,
    });
    assert_eq!(r, Some(Event::MouseClick(0)));
}

#[test]
fn mouse_release_translates() {
    let r = translate_event(&NativeEvent::MouseButton {
        button: 1,
        action: Action::Release,
        modifiers: 2,
    });
    assert_eq!(r, Some(Event::MouseRelease(1)));
}

#[test]
fn mouse_repeat_is_dropped() {
    let r = translate_event(&NativeEvent::MouseButton {
        button: 0,
        action: Action::Repeat,
        modifiers: 0,
    });
    assert_eq!(r, None);
}

#[test]
fn scroll_translates_with_bits_kept() {
    let x = 0.5f64.to_bits();
    let y = (-1.25f64).to_bits();
    let r = translate_event(&NativeEvent::Scroll { offset_x: x, offset_y: y });
    assert_eq!(
        r,
        Some(Event::MouseScroll(MouseScrollContainer { offset_x: x, offset_y: y }))
    );
    match r {
        Some(Event::MouseScroll(c)) => {
            assert_eq!(f64::from_bits(c.offset_x), 0.5);
            assert_eq!(f64::from_bits(c.offset_y), -1.25);
        }
        _ => panic!("scroll message lost"),
    }
}

#[test]
fn cursor_move_translates_with_bits_kept() {
    let x = 311.75f64.to_bits();
    let y = 12.0f64.to_bits();
    let r = translate_event(&NativeEvent::CursorPos { pos_x: x, pos_y: y });
    assert_eq!(
        r,
        Some(Event::MouseMove(CursorPositionContainer { pos_x: x, pos_y: y }))
    );
}

#[test]
fn resize_translates() {
    let r = translate_event(&NativeEvent::Size { width: 800, height: 600 });
    assert_eq!(
        r,
        Some(Event::WindowResize(WindowSizeContainer { width: 800, height: 600 }))
    );
}

#[test]
fn close_translates() {
    let r = translate_event(&NativeEvent::Close);
    assert_eq!(r, Some(Event::WindowClose));
}

#[test]
fn focus_translates_by_state() {
    let gained = translate_event(&NativeEvent::Focus { focused: true });
    assert_eq!(gained, Some(Event::WindowGainedFocus));
    let lost = translate_event(&NativeEvent::Focus { focused: false });
    assert_eq!(lost, Some(Event::WindowLostFocus));
}

#[test]
fn cursor_enter_translates_by_state() {
    let entered = translate_event(&NativeEvent::CursorEnter { entered: true });
    assert_eq!(entered, Some(Event::WindowCursorEntered));
    let left = translate_event(&NativeEvent::CursorEnter { entered: false });
    assert_eq!(left, Some(Event::WindowCursorLeft));
}

#[test]
fn unhandled_is_dropped() {
    let r = translate_event(&NativeEvent::Unhandled);
    assert_eq!(r, None);
}

#[test]
fn batch_keeps_arrival_order_and_drops_silent_messages() {
    let natives = vec![
        NativeEvent::Key { key: 87, scancode: 25, action: Action::Press, modifiers: 0 },
        NativeEvent::Key { key: 87, scancode: 25, action: Action::Repeat, modifiers: 0 },
        NativeEvent::Unhandled,
        NativeEvent::Size { width: 640, height: 480 },
        NativeEvent::Key { key: 87, scancode: 25, action: Action::Release, modifiers: 0 },
        NativeEvent::Close,
    ];
    let events = translate_events(&natives);
    assert!(events.len() <= natives.len());
    assert_eq!(
        events,
        vec![
            Event::KeyPress(KeyPressContainer { key: 87, count: 0 }),
            Event::WindowResize(WindowSizeContainer { width: 640, height: 480 }),
            Event::KeyRelease(87),
            Event::WindowClose,
        ]
    );
}

#[test]
fn empty_batch_translates_to_nothing() {
    let events = translate_events(&Vec::new());
    assert!(events.is_empty());
}
