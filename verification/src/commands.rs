//! The operations that the front-end invokes.

pub mod file_commands;
pub mod settings_commands;
