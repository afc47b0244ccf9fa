//! Configurations of official races: how they look on the wire and in storage, and
//! how they are administered.

pub mod admin;
pub mod partial_admin;
pub mod records;
