//! The menu: what is running, which races come next, and what of it is remembered.

pub mod cache;
pub mod feed;
