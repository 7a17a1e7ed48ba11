//! The status packets of 1.20.6, and the status document that the response
//! carries as JSON.

pub use crate::protocol::packet::status::{
    Description, PingRequest, Player, Players, PongResponse, StatusRequest, StatusResponse,
    Version,
};

use vstd::prelude::*;

verus! {

/// What a server says of itself when asked for its status.
#[derive(Debug)]
pub struct Status {
    pub version: Version,
    pub players: Players,
    pub description: Description,
    pub favicon: Option<String>,
}

} // verus!
