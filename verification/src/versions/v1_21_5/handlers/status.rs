use crate::common::connection::{
    awaited, frame_of, one_frame, stepped, Action, ActionView, Awaited, Connection, Phase, Poll,
    Step,
};
use crate::protocol::error::{Error, Failure, Result};
use crate::protocol::packet::raw_data::varint_groups;
use crate::versions::v1_21_5::packets::status::{
    Description, PingRequest, Players, PongResponse, Status, StatusRequest, StatusResponse,
    Version,
};
use vstd::prelude::*;
use vstd::string::StringExecFns;

verus! {

/// What a server of this version says of itself: its version, room for
/// `max_players` players of whom none is shown, the message of the day, and
/// no icon.
pub fn status_document(max_players: i32, motd: String) -> (r: Status)
    ensures
        r.version.name@ == "1.21.5"@,
        r.version.protocol == 770,
        r.players.max == max_players,
        r.players.online == 0,
        r.players.sample@.len() == 0,
        r.description.text == motd,
        r.favicon.is_none(),
{
    Status {
        version: Version { name: String::from_str("1.21.5"), protocol: 770 },
        players: Players { max: max_players, online: 0, sample: Vec::new() },
        description: Description { text: motd },
        favicon: None,
    }
}

/// The step of a connection in the status stage, where `json` is the
/// server's status as JSON text. The request is answered with the status,
/// a ping that follows with a pong that carries the same number; a peer that
/// leaves without a ping has done nothing wrong.
pub open spec fn status_step(conn: Connection, closed: bool, json: Seq<char>) -> Step {
    match conn.phase {
        Phase::Entered => match awaited::<StatusRequest>(conn.pending(), closed, conn.max_frame_length) {
            Awaited::Failed(e) => conn.stays(Err(e)),
            Awaited::Wait => conn.stays(Ok(ActionView::Read)),
            Awaited::Ended => conn.stays(
                Err(Failure::Protocol("StatusRequest packet not received"@)),
            ),
            Awaited::Got(_, n) => match frame_of::<StatusResponse>(json) {
                Err(e) => conn.takes(n, Err(e)),
                Ok(frame) => Step {
                    outcome: Ok(ActionView::Write(seq![frame])),
                    state: conn.state,
                    phase: Phase::Answered,
                    protocol_version: conn.protocol_version,
                    consumed: n,
                },
            },
        },
        Phase::Answered => match awaited::<PingRequest>(conn.pending(), closed, conn.max_frame_length) {
            Awaited::Failed(e) => conn.stays(Err(e)),
            Awaited::Wait => conn.stays(Ok(ActionView::Read)),
            Awaited::Ended => conn.stays(Ok(ActionView::Close)),
            Awaited::Got(number, n) => match frame_of::<PongResponse>(number) {
                Err(e) => conn.takes(n, Err(e)),
                Ok(frame) => Step {
                    outcome: Ok(ActionView::Write(seq![frame])),
                    state: conn.state,
                    phase: Phase::Finishing,
                    protocol_version: conn.protocol_version,
                    consumed: n,
                },
            },
        },
        Phase::Finishing => conn.stays(Ok(ActionView::Close)),
    }
}

/// A pong can always be made: it is nine bytes long.
pub proof fn pong_is_made(number: i64)
    ensures
        frame_of::<PongResponse>(number) matches Ok(frame) && frame.len() == 10,
{
    reveal_with_fuel(varint_groups, 2);
}

pub fn handle_status(conn: &mut Connection, closed: bool, status_json: &str) -> (r: Result<Action>)
    ensures
        stepped(*old(conn), *final(conn), r, status_step(*old(conn), closed, status_json@)),
{
    proof {
        assert(conn.pending().skip(0) =~= conn.pending());
    }
    match conn.phase {
        Phase::Entered => {
            match conn.read_packet::<StatusRequest>(closed)? {
                Poll::Pending => Ok(Action::Read),
                Poll::Ready(None) => Err(Error::protocol("StatusRequest packet not received")),
                Poll::Ready(Some(_)) => {
                    let response = StatusResponse { response: status_json.to_owned() };
                    let frame = conn.write_packet(&response)?;
                    conn.phase = Phase::Answered;
                    Ok(Action::Write(one_frame(frame)))
                },
            }
        },
        Phase::Answered => {
            match conn.read_packet::<PingRequest>(closed)? {
                Poll::Pending => Ok(Action::Read),
                Poll::Ready(None) => Ok(Action::Close),
                Poll::Ready(Some(ping)) => {
                    let pong = PongResponse { payload: ping.payload };
                    let frame = conn.write_packet(&pong)?;
                    conn.phase = Phase::Finishing;
                    Ok(Action::Write(one_frame(frame)))
                },
            }
        },
        Phase::Finishing => Ok(Action::Close),
    }
}

} // verus!
