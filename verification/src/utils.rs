//! Helpers shared by the store, the parsers and the commands.

pub mod archive;
pub mod pair_set;
pub mod readers;
pub mod text;
pub mod text_map;
