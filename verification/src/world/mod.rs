//! The world as the server keeps it: blocks and biomes in bit-packed
//! containers, sixteen-block sections stacked into columns.

pub mod chunk;
pub mod palette;
pub mod world;
