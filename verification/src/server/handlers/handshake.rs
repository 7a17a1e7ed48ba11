use crate::common::connection::{
    awaited, peeked, stepped, Action, ActionView, Awaited, Connection, ConnectionState, Phase, Poll, Step,
};
use crate::protocol::error::{Error, Failure, Result};
use crate::protocol::packet::handshake::Handshake;
use crate::protocol::packet::Packet;
use crate::protocol::text::{decimal, decimal_string};
use crate::versions::{supported, VersionManager};
use vstd::prelude::*;
use vstd::string::StringExecFns;

verus! {

/// The stage that a handshake leads to: status for 1, login for 2. A version
/// that the server does not speak is refused before the stage is looked at,
/// and so is any other stage.
pub open spec fn handshake_decision(protocol_version: i32, next_state: i32) -> std::result::Result<
    ConnectionState,
    Failure,
> {
    if !supported(protocol_version) {
        Err(Failure::UnsupportedVersion(protocol_version))
    } else if next_state == 1 {
        Ok(ConnectionState::Status)
    } else if next_state == 2 {
        Ok(ConnectionState::Login)
    } else {
        Err(Failure::Protocol("Invalid next state: "@ + decimal(next_state as int)))
    }
}

/// The step of a connection that awaits its handshake. The version that the
/// client declares is recorded whatever comes of it.
pub open spec fn handshake_step(conn: Connection, closed: bool) -> Step {
    match awaited::<Handshake>(conn.pending(), closed, conn.max_frame_length) {
        Awaited::Failed(e) => conn.stays(Err(e)),
        Awaited::Wait => conn.stays(Ok(ActionView::Read)),
        Awaited::Ended => conn.stays(Err(Failure::Protocol("Handshake packet not received"@))),
        Awaited::Got(handshake, n) => match handshake_decision(handshake.0, handshake.1.1.1) {
            Ok(next) => Step {
                outcome: Ok(ActionView::Continue),
                state: next,
                phase: Phase::Entered,
                protocol_version: handshake.0,
                consumed: n,
            },
            Err(e) => Step {
                outcome: Err(e),
                state: conn.state,
                phase: conn.phase,
                protocol_version: handshake.0,
                consumed: n,
            },
        },
    }
}

/// Stage and version gating of the handshake's decision: it leads on only
/// for a version that the server speaks and a next stage of 1 or 2, to
/// status or to login, and an unregistered version is refused as such
/// whatever stage is asked for.
pub proof fn handshake_gates(protocol_version: i32, next_state: i32)
    ensures
        handshake_decision(protocol_version, next_state) is Ok <==> supported(protocol_version) && (
        next_state == 1 || next_state == 2),
        handshake_decision(protocol_version, next_state) matches Ok(next) ==> next == (
        if next_state == 1 {
            ConnectionState::Status
        } else {
            ConnectionState::Login
        }),
        !supported(protocol_version) ==> handshake_decision(protocol_version, next_state) == Err::<
            ConnectionState,
            Failure,
        >(Failure::UnsupportedVersion(protocol_version)),
{
}

/// Gating of the handshaking stage: a connection leaves it only by a frame
/// that reads as a handshake, and then only for status or login. A frame
/// that carries another packet, a frame that does not read as a handshake,
/// a handshake for another stage and a handshake of an unregistered version
/// all end in an error and leave the connection in the stage it was in.
pub proof fn handshaking_is_gated(conn: Connection, closed: bool)
    ensures
        ({
            let step = handshake_step(conn, closed);
            let read = awaited::<Handshake>(conn.pending(), closed, conn.max_frame_length);
            &&& (peeked(conn.pending(), closed, conn.max_frame_length) matches Ok(Some(id)) && id
                != Handshake::id()) ==> step.outcome is Err && step.outcome->Err_0
                is InvalidPacketId
            &&& read is Failed ==> step.outcome is Err
            &&& step.outcome is Err ==> step.state == conn.state
            &&& step.state != conn.state ==> read is Got && (step.state == ConnectionState::Status
                || step.state == ConnectionState::Login)
            &&& read matches Awaited::Got(handshake, _) ==> {
                &&& !supported(handshake.0) ==> step.outcome == Err::<ActionView, Failure>(
                    Failure::UnsupportedVersion(handshake.0),
                )
                &&& handshake.1.1.1 != 1 && handshake.1.1.1 != 2 ==> step.outcome is Err
            }
        }),
{
}

pub fn handle_handshake(conn: &mut Connection, closed: bool) -> (r: Result<Action>)
    ensures
        stepped(*old(conn), *final(conn), r, handshake_step(*old(conn), closed)),
{
    proof {
        assert(conn.pending().skip(0) =~= conn.pending());
    }
    let handshake = match conn.read_packet::<Handshake>(closed)? {
        Poll::Pending => {
            return Ok(Action::Read);
        },
        Poll::Ready(None) => {
            return Err(Error::protocol("Handshake packet not received"));
        },
        Poll::Ready(Some(handshake)) => handshake,
    };
    conn.protocol_version = handshake.protocol_version;
    if let Err(e) = VersionManager::get_version(handshake.protocol_version) {
        return Err(Error::from(e));
    }
    match handshake.next_state {
        1 => {
            conn.state = ConnectionState::Status;
            conn.phase = Phase::Entered;
            Ok(Action::Continue)
        },
        2 => {
            conn.state = ConnectionState::Login;
            conn.phase = Phase::Entered;
            Ok(Action::Continue)
        },
        other => {
            let mut text = String::from_str("Invalid next state: ");
            text.append(decimal_string(other).as_str());
            Err(Error::Protocol(text))
        },
    }
}

} // verus!
