//! Command-driven controller for local audio playback.
//!
//! The crate holds the decisions of a small interactive music player: the
//! catalog of tracks found at startup, the interpreter that turns a line of
//! text into a command, and the playback session that the commands drive.
//! Nothing in here touches a sound device, a file or a clock. The caller
//! reads the line, hands it over, carries out the engine requests that come
//! back and reports how they went.

pub mod catalog;
pub mod command;
pub mod engine;
pub mod gain;
pub mod laws;
pub mod player;
pub mod session;
pub mod text;
