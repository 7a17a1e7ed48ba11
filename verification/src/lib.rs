//! A server-side engine for the Minecraft: Java Edition protocol: the wire
//! codec, the packets of each stage, frame reassembly and the connection state
//! machine, with their behaviour stated in contracts and proved.

pub mod common;
pub mod protocol;
pub mod server;
pub mod versions;
pub mod world;
