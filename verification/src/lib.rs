//! Scripting utilities modelled on a small shell: a logical working
//! directory, an environment stack, and a builder for subprocess commands.

pub mod cmd;
pub mod error;
pub mod files;
pub mod path;
pub mod shell;
pub mod text;
