//! The errors that can happen while the engine initializes.

pub mod init_error;

pub use init_error::InitError;
