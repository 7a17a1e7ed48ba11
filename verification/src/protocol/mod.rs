pub mod error;
pub mod packet;
pub mod text;
