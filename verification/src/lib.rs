//! A rapid serial visual presentation reader: pacing, focus point and the
//! frame description that a terminal front end draws.

pub mod border;
pub mod cli;
pub mod color;
pub mod config;
pub mod effects;
pub mod events;
pub mod frame;
pub mod overlay;
pub mod progress;
pub mod session;
pub mod state;
pub mod tui;
pub mod ui;
pub mod words;
