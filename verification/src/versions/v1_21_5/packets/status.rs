//! The status packets of 1.21.5: those of 1.20.6.

pub use crate::versions::v1_20_6::packets::status::{
    Description, PingRequest, Player, Players, PongResponse, Status, StatusRequest,
    StatusResponse, Version,
};
