//! Configurations of sandboxes: how they look on the wire and in storage, and how
//! they are administered.

pub mod admin;
pub mod records;
