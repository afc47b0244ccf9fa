//! Drivers: how they join, the stream that they hold, and the official race.

pub mod bots;
pub mod cleanup;
pub mod exit_monitor;
pub mod join;
pub mod joining;
pub mod launch;
pub mod launcher;
pub mod logs;
pub mod official;
pub mod registry;
pub mod results;
pub mod roster;
pub mod stream;
