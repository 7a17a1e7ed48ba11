//! The part of the server that every protocol version shares: the handling
//! of the handshake, the choice of a version's handlers, and the step that
//! drives a connection through its stages.

pub mod connection_handler;
pub mod handlers;
pub mod network;
