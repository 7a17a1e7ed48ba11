pub use crate::protocol::packet::handshake::Handshake;
