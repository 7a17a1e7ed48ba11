use crate::common::connection::{
    awaited, frame_of, one_frame, stepped, Action, ActionView, Awaited, Connection,
    ConnectionState, Phase, Poll, Step,
};
use crate::protocol::error::{Error, Failure, Result};
use crate::protocol::packet::types::Uuid;
use crate::versions::v1_21_5::packets::login::{LoginAcknowledged, LoginStart, LoginSuccess};
use vstd::prelude::*;
use vstd::string::StringExecFns;
use vstd::utf8::encode_utf8;

verus! {

/// The bytes of the namespace that RFC 4122 gives to domain names.
pub open spec fn namespace_dns_bytes() -> Seq<u8> {
    seq![
        0x6bu8,
        0xa7u8,
        0xb8u8,
        0x10u8,
        0x9du8,
        0xadu8,
        0x11u8,
        0xd1u8,
        0x80u8,
        0xb4u8,
        0x00u8,
        0xc0u8,
        0x4fu8,
        0xd4u8,
        0x30u8,
        0xc8u8,
    ]
}

/// The namespace under which offline identifiers are made: that of domain
/// names.
pub fn namespace_dns() -> (r: [u8; 16])
    ensures
        r@ == namespace_dns_bytes(),
{
    let bytes: [u8; 16] = [
        0x6b,
        0xa7,
        0xb8,
        0x10,
        0x9d,
        0xad,
        0x11,
        0xd1,
        0x80,
        0xb4,
        0x00,
        0xc0,
        0x4f,
        0xd4,
        0x30,
        0xc8,
    ];
    proof {
        assert(bytes@ =~= namespace_dns_bytes());
    }
    bytes
}

/// The name-based identifier of version 3 for a name in a namespace, as the
/// `uuid` crate computes it.
pub uninterp spec fn uuid_v3(namespace: Seq<u8>, name: Seq<u8>) -> Seq<u8>;

/// `uuid::Uuid::new_v3`: the version-3 identifier of `name` in `namespace`,
/// as its sixteen bytes.
#[verifier::external_body]
fn new_v3(namespace: [u8; 16], name: &[u8]) -> (r: [u8; 16])
    ensures
        r@ == uuid_v3(namespace@, name@),
{
    uuid::Uuid::new_v3(&uuid::Uuid::from_bytes(namespace), name).into_bytes()
}

/// The identifier of a player who was not authenticated: the version-3
/// identifier, in the namespace of domain names, of "OfflinePlayer:" and the
/// player's name.
pub open spec fn offline_identifier(name: Seq<char>) -> Seq<u8> {
    uuid_v3(namespace_dns_bytes(), encode_utf8("OfflinePlayer:"@ + name))
}

pub fn offline_uuid(name: &str) -> (r: Uuid)
    ensures
        r@ == offline_identifier(name@),
{
    let mut text = String::from_str("OfflinePlayer:");
    text.append(name);
    Uuid::from_bytes(new_v3(namespace_dns(), text.as_str().as_bytes()))
}

/// The same name gives the same identifier, whenever and wherever it is
/// asked for.
pub proof fn offline_identifier_deterministic(first: Seq<char>, second: Seq<char>)
    requires
        first == second,
    ensures
        offline_identifier(first) == offline_identifier(second),
{
}

/// The step of a connection in the login stage. The player who starts a
/// login is admitted under the offline identifier of the name, without
/// properties; the stage ends when the client acknowledges that.
pub open spec fn login_step(conn: Connection, closed: bool) -> Step {
    match conn.phase {
        Phase::Entered => match awaited::<LoginStart>(conn.pending(), closed, conn.max_frame_length) {
            Awaited::Failed(e) => conn.stays(Err(e)),
            Awaited::Wait => conn.stays(Ok(ActionView::Read)),
            Awaited::Ended => conn.stays(Err(Failure::Protocol("LoginStart packet not received"@))),
            Awaited::Got(start, n) => match frame_of::<LoginSuccess>(
                (offline_identifier(start.0), (start.0, Seq::empty())),
            ) {
                Err(e) => conn.takes(n, Err(e)),
                Ok(frame) => Step {
                    outcome: Ok(ActionView::Write(seq![frame])),
                    state: conn.state,
                    phase: Phase::Answered,
                    protocol_version: conn.protocol_version,
                    consumed: n,
                },
            },
        },
        _ => match awaited::<LoginAcknowledged>(conn.pending(), closed, conn.max_frame_length) {
            Awaited::Failed(e) => conn.stays(Err(e)),
            Awaited::Wait => conn.stays(Ok(ActionView::Read)),
            Awaited::Ended => conn.stays(
                Err(Failure::Protocol("LoginAcknowledged packet not received"@)),
            ),
            Awaited::Got(_, n) => Step {
                outcome: Ok(ActionView::Continue),
                state: ConnectionState::Configuration,
                phase: Phase::Entered,
                protocol_version: conn.protocol_version,
                consumed: n,
            },
        },
    }
}

pub fn handle_login(conn: &mut Connection, closed: bool) -> (r: Result<Action>)
    ensures
        stepped(*old(conn), *final(conn), r, login_step(*old(conn), closed)),
{
    proof {
        assert(conn.pending().skip(0) =~= conn.pending());
    }
    match conn.phase {
        Phase::Entered => {
            match conn.read_packet::<LoginStart>(closed)? {
                Poll::Pending => Ok(Action::Read),
                Poll::Ready(None) => Err(Error::protocol("LoginStart packet not received")),
                Poll::Ready(Some(start)) => {
                    let success = LoginSuccess {
                        uuid: offline_uuid(start.name.as_str()),
                        username: start.name,
                        properties: Vec::new(),
                    };
                    proof {
                        assert(success.properties.deep_view() =~= Seq::empty());
                    }
                    let frame = conn.write_packet(&success)?;
                    conn.phase = Phase::Answered;
                    Ok(Action::Write(one_frame(frame)))
                },
            }
        },
        _ => {
            match conn.read_packet::<LoginAcknowledged>(closed)? {
                Poll::Pending => Ok(Action::Read),
                Poll::Ready(None) => Err(Error::protocol("LoginAcknowledged packet not received")),
                Poll::Ready(Some(_)) => {
                    conn.state = ConnectionState::Configuration;
                    conn.phase = Phase::Entered;
                    Ok(Action::Continue)
                },
            }
        },
    }
}

} // verus!
