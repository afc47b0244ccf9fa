//! The servers: what browsers are told, which origins may call, how requests are
//! logged, and in which order the server stops.

pub mod frontend;
pub mod requests;
pub mod shutdown;
