use crate::common::connection::{stepped, Action, Connection};
use crate::protocol::error::{Error, Result};
use crate::server::handlers::dispatched;
use crate::versions::v1_21_5;
use crate::versions::v1_21_5::handlers::login::login_step;
use crate::versions::VersionManager;
use vstd::prelude::*;

verus! {

/// The step of the login stage, by the handlers of the connection's
/// version.
pub fn handle_login(conn: &mut Connection, closed: bool) -> (r: Result<Action>)
    ensures
        stepped(*old(conn), *final(conn), r, dispatched(*old(conn), login_step(*old(conn), closed))),
{
    proof {
        assert(conn.pending().skip(0) =~= conn.pending());
    }
    let version = match VersionManager::get_version(conn.protocol_version) {
        Ok(version) => version,
        Err(e) => {
            return Err(Error::from(e));
        },
    };
    match version.protocol_version() {
        770 => v1_21_5::handlers::login::handle_login(conn, closed),
        _ => Err(Error::UnsupportedVersion(conn.protocol_version)),
    }
}

} // verus!
