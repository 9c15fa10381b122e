//! Push-to-talk voice capture: the decisions behind a hold-to-record hotkey,
//! the audio that is buffered while it is held, and what happens to a
//! transcription once the key is released.

pub mod audio;
pub mod cli;
pub mod commands;
pub mod config;
pub mod download;
pub mod engine;
pub mod events;
pub mod history;
pub mod hotkey;
pub mod hotkeys;
pub mod keycodes;
pub mod lifecycle;
pub mod listener;
pub mod listing;
pub mod models;
pub mod paths;
pub mod permissions;
pub mod pipeline;
pub mod prune;
pub mod recording;
pub mod records;
pub mod state;
pub mod text;
pub mod tray;
pub mod watchdog;
