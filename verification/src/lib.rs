//! Library core of a terminal serial-port debugging assistant.
pub mod text;
pub mod config;
pub mod command;
pub mod export;
pub mod protocol;
pub mod serial;
pub mod linebuf;
pub mod app;
pub mod ui;
