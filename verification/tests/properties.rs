//! The window property values across the engine's surfaces.

use vertex_engine::graphics::window::Mode;
use vertex_engine::graphics::window::Properties;
use vertex_engine::window::WinMode;
use vertex_engine::window::WindowProperties;
use vertex_engine::windowing;

#[test]
fn graphics_properties_keep_their_fields() {
    let properties = Properties::new(1024, 720, "title here", Mode::Windowed);
    assert_eq!(properties.width(), 1024);
    assert_eq!(properties.height(), 720);
    assert_eq!(properties.title(), "title here");
    assert_eq!(properties.win_mode(), Mode::Windowed);
}

#[test]
fn owned_title_properties_keep_their_fields() {
    let properties = WindowProperties::new(1024, 728, "SandBox", WinMode::Windowed);
    assert_eq!(properties.width(), 1024);
    assert_eq!(properties.height(), 728);
    assert_eq!(properties.title(), "SandBox");
    assert_eq!(properties.win_mode(), WinMode::Windowed);
    let fullscreen = WindowProperties::new(1600, 1024, "SandBox", WinMode::Fullscreen);
    assert_eq!(fullscreen.win_mode(), WinMode::Fullscreen);
}

#[test]
fn borrowed_title_properties_keep_their_fields() {
    let title = String::from("title here");
    let properties = windowing::WindowProperties::new(
        1600,
        1024,
        &title,
        windowing::WinMode::Fullscreen,
    );
    assert_eq!(properties.width(), 1600);
    assert_eq!(properties.height(), 1024);
    assert_eq!(properties.title(), "title here");
    assert_eq!(properties.win_mode(), windowing::WinMode::Fullscreen);
}
