//! The decisions of a voice dictation daemon for Linux: which backend, which
//! provider, which window and which paste shortcut, stated as contracts and
//! proved. The surrounding program performs the actions and reports back.

pub mod calendar;
pub mod cli;
pub mod clipboard;
pub mod command;
pub mod config;
pub mod configure;
pub mod daemon;
pub mod environment;
pub mod fallback;
pub mod focus;
pub mod inject;
pub mod json;
pub mod paste;
pub mod providers;
pub mod ranking;
pub mod recording;
pub mod stats;
pub mod text;
pub mod toml_file;
pub mod x11;
