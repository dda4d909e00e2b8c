//! Turns a task written in plain words into one shell command, with the
//! rules for reading a model's answer, for the selection menu, and for the
//! interactive session that follows.

pub mod api;
pub mod cli;
pub mod command_executor;
pub mod json;
pub mod parser;
pub mod settings;
pub mod suggestion;
pub mod text;
pub mod ui;
pub mod updater;
