//! Uploads of participants: how they are staged, to whom they belong, and how they are
//! handed to the builder.

pub mod client;
pub mod endpoint;
pub mod staging;
pub mod submission;
pub mod team_resolver;
