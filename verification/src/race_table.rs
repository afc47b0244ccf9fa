//! Race tables: who takes part in a session, in which order, and how far behind.

pub mod official;
pub mod rows;
pub mod target;
pub mod trajectory;
