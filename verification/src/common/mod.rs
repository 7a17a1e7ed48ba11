pub mod buffer;
pub mod config;
pub mod connection;
