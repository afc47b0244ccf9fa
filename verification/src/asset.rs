//! Map assets: where the files of a map are found, which maps are listed, and how a
//! file is sent in chunks.

pub mod catalog;
pub mod chunks;
pub mod files;
