pub mod configuration;
pub mod handshake;
pub mod login;
pub mod status;
