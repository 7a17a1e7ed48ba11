use crate::common::connection::{stepped, Action, Connection};
use crate::protocol::error::{Error, Result};
use crate::server::handlers::dispatched;
use crate::versions::v1_21_5;
use crate::versions::v1_21_5::handlers::status::status_step;
use crate::versions::VersionManager;
use vstd::prelude::*;

verus! {

/// The step of the status stage, by the handlers of the connection's
/// version.
pub fn handle_status(conn: &mut Connection, closed: bool, status_json: &str) -> (r: Result<Action>)
    ensures
        stepped(
            *old(conn),
            *final(conn),
            r,
            dispatched(*old(conn), status_step(*old(conn), closed, status_json@)),
        ),
{
    proof {
        assert(conn.pending().skip(0) =~= conn.pending());
    }
    let version = match VersionManager::get_version(conn.protocol_version) {
        Ok(version) => version,
        Err(e) => {
            return Err(Error::from(e));
        },
    };
    match version.protocol_version() {
        770 => v1_21_5::handlers::status::handle_status(conn, closed, status_json),
        _ => Err(Error::UnsupportedVersion(conn.protocol_version)),
    }
}

} // verus!
