//! Blocks: the header.

pub mod header;
