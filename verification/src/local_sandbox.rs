//! Sandboxes of a local backend: their settings, and how they are started and stopped.

pub mod admin;
pub mod records;
pub mod runtime;
