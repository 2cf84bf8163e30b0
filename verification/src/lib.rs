//! Host-side logic of a frontend that drives a dynamically loaded emulator
//! core one frame at a time.
//!
//! - `pixel`: raw video buffers become 32-bit pixels.
//! - `session`: the record that the core's callbacks read and write.
//! - `environment`: the channel on which a core questions and configures
//!   its host.
//! - `loader`: the steps that bind a core, in order.
//! - `run_loop`: the states of a session and the phases of a frame.
//! - `savestate`: where states are stored and how a restore is judged.
//! - `audio`: the single slot between stepping and playback.
//! - `config`, `input`: named settings and the keys they bind.
//! - `path`, `text`: the parts of a path, characters and strings.

pub mod audio;
pub mod config;
pub mod environment;
pub mod input;
pub mod loader;
pub mod path;
pub mod pixel;
pub mod run_loop;
pub mod savestate;
pub mod session;
pub mod text;
