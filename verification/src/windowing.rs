//! The window configuration values handed to engine initialization.

pub mod win_properties;

pub use win_properties::WinMode;
pub use win_properties::WindowProperties;
