//! Races: the cars that take part, the frames in which they are shown, and those
//! who watch.

pub mod bot_logs;
pub mod commands;
pub mod frame_hub;
pub mod runtime_store;
pub mod spectator;
pub mod stream_settings;
pub mod world;
