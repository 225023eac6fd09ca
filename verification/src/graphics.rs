//! The engine's window and event layer: the window model, the engine's event
//! variants, the translation of native messages into them, and the errors of
//! window creation.

pub mod errors;
pub mod events;
pub mod window;
