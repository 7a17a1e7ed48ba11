pub mod configuration;
pub mod login;
pub mod status;
