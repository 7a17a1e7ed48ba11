//! The handlers of the stages. The handshake is the same for every version;
//! each of the others is passed on to the handlers of the version that the
//! handshake has settled.

pub mod configuration;
pub mod handshake;
pub mod login;
pub mod status;

use crate::common::connection::{Connection, Step};
use crate::protocol::error::Failure;
use crate::versions::supported;
use vstd::prelude::*;

verus! {

/// The step that a stage's handlers take for a connection: that of its
/// version, if the server speaks it, and a refusal if not.
pub open spec fn dispatched(conn: Connection, step: Step) -> Step {
    if supported(conn.protocol_version) {
        step
    } else {
        conn.stays(Err(Failure::UnsupportedVersion(conn.protocol_version)))
    }
}

} // verus!
