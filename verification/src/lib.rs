//! Decision logic of an SSH server that serves git repositories.
pub mod command;
pub mod handler;
pub mod log;
pub mod pattern;
pub mod protocol;
pub mod settings;
pub mod ssh_handler;
pub mod text;
