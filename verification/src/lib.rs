//! Game server logic.

pub mod achievement;
pub mod asset;
pub mod builds;
pub mod config;
pub mod connect;
pub mod engine;
pub mod float_bits;
pub mod ghost_mode;
pub mod id_map;
pub mod ids;
pub mod local_race;
pub mod local_sandbox;
pub mod log_redaction;
pub mod mappers;
pub mod menu;
pub mod mode;
pub mod participant;
pub mod race;
pub mod race_config;
pub mod race_table;
pub mod sandbox_config;
pub mod server;
pub mod sorting;
pub mod status;
pub mod telemetry;
pub mod text;
pub mod text_map;
pub mod time_of_day;
pub mod timestamp;
