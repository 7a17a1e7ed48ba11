use crate::common::connection::{stepped, Action, Connection};
use crate::protocol::error::{Error, Result};
use crate::server::handlers::dispatched;
use crate::versions::v1_21_5;
use crate::versions::v1_21_5::handlers::configuration::{configuration_step, LoadedRegistries};
use crate::versions::VersionManager;
use vstd::prelude::*;

verus! {

/// The step of the configuration stage, by the handlers of the connection's
/// version.
pub fn handle_configuration(
    conn: &mut Connection,
    closed: bool,
    loaded: Option<LoadedRegistries>,
) -> (r: Result<Action>)
    ensures
        stepped(
            *old(conn),
            *final(conn),
            r,
            dispatched(
                *old(conn),
                configuration_step(
                    *old(conn),
                    closed,
                    match loaded {
                        Some(documents) => Some(documents.deep_view()),
                        None => None,
                    },
                ),
            ),
        ),
{
    proof {
        assert(conn.pending().skip(0) =~= conn.pending());
    }
    let version = match VersionManager::get_version(conn.protocol_version) {
        Ok(version) => version,
        Err(e) => {
            return Err(Error::from(e));
        },
    };
    match version.protocol_version() {
        770 => v1_21_5::handlers::configuration::handle_configuration(conn, closed, loaded),
        _ => Err(Error::UnsupportedVersion(conn.protocol_version)),
    }
}

} // verus!
