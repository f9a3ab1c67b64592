pub mod archive;
pub mod command;
pub mod config;
pub mod effect;
pub mod emulator;
pub mod laws;
pub mod listing;
pub mod log;
pub mod path;
pub mod text;

pub use crate::command::Command;
pub use crate::config::Config;
pub use crate::emulator::{Reply, ShellEmulator};
pub use crate::log::{LogEntry, Session};
pub use crate::path::parent;
