use crate::common::connection::{stepped, Action, ActionView, Connection, ConnectionState, Step};
use crate::protocol::error::Result;
use crate::protocol::packet::raw_data::varint_decoded_len;
use crate::server::handlers;
use crate::server::handlers::dispatched;
use crate::server::handlers::handshake::handshake_step;
use crate::versions::v1_21_5::handlers::configuration::{
    configuration_step, Loaded, LoadedRegistries,
};
use crate::versions::v1_21_5::handlers::login::login_step;
use crate::versions::v1_21_5::handlers::status::status_step;
use vstd::prelude::*;

verus! {

/// One step of a connection: that of the stage it is in. The play stage has
/// nothing to do and closes the connection.
pub open spec fn connection_step(
    conn: Connection,
    closed: bool,
    status_json: Seq<char>,
    loaded: Option<Loaded>,
) -> Step {
    match conn.state {
        ConnectionState::Handshaking => handshake_step(conn, closed),
        ConnectionState::Status => dispatched(conn, status_step(conn, closed, status_json)),
        ConnectionState::Login => dispatched(conn, login_step(conn, closed)),
        ConnectionState::Configuration => dispatched(
            conn,
            configuration_step(conn, closed, loaded),
        ),
        ConnectionState::Play => conn.stays(Ok(ActionView::Close)),
    }
}

/// Whether a step has moved a connection on: it has taken bytes from the
/// buffer, or has left the connection in another stage or phase.
pub open spec fn moved_on(conn: Connection, step: Step) -> bool {
    step.consumed > 0 || step.state != conn.state || step.phase != conn.phase
}

/// A step that asks for nothing from outside moves the connection on: one
/// that says to go on or to write has taken a packet or has advanced the
/// stage or its phase. So a connection cannot go round in circles without
/// waiting for its peer.
pub proof fn step_makes_progress(
    conn: Connection,
    closed: bool,
    status_json: Seq<char>,
    loaded: Option<Loaded>,
)
    ensures
        ({
            let step = connection_step(conn, closed, status_json, loaded);
            step.outcome matches Ok(action) && (action is Continue || action is Write)
                ==> moved_on(conn, step)
        }),
{
    reveal(configuration_step);
    varint_decoded_len(conn.pending());
}

/// Takes one step of a connection and says what the owner of the transport
/// is to do before the next. `closed` says whether the peer has closed the
/// transport, `status_json` is the server's status as JSON text, and
/// `loaded` holds the registries where the step before has asked for them.
pub fn handle_connection(
    conn: &mut Connection,
    closed: bool,
    status_json: &str,
    loaded: Option<LoadedRegistries>,
) -> (r: Result<Action>)
    ensures
        stepped(
            *old(conn),
            *final(conn),
            r,
            connection_step(
                *old(conn),
                closed,
                status_json@,
                match loaded {
                    Some(documents) => Some(documents.deep_view()),
                    None => None,
                },
            ),
        ),
{
    proof {
        assert(conn.pending().skip(0) =~= conn.pending());
    }
    match conn.state {
        ConnectionState::Handshaking => handlers::handshake::handle_handshake(conn, closed),
        ConnectionState::Status => handlers::status::handle_status(conn, closed, status_json),
        ConnectionState::Login => handlers::login::handle_login(conn, closed),
        ConnectionState::Configuration => handlers::configuration::handle_configuration(
            conn,
            closed,
            loaded,
        ),
        ConnectionState::Play => Ok(Action::Close),
    }
}

} // verus!
