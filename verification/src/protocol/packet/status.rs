use crate::protocol::error::Result;
use crate::protocol::packet::data::PacketData;
use crate::protocol::packet::raw_data::{varint_encoded, write_varint, Parsed};
use crate::protocol::packet::{Decodable, Encodable, Packet};
use vstd::prelude::*;

verus! {

/// The client asks for the server's status. It has no fields.
#[derive(Debug)]
pub struct StatusRequest;

impl DeepView for StatusRequest {
    type V = ();

    open spec fn deep_view(&self) -> () {
        ()
    }
}

impl Packet for StatusRequest {
    open spec fn id() -> i32 {
        0x00
    }

    open spec fn decoded(fields: Seq<u8>) -> Parsed<()> {
        <()>::decoded(fields)
    }

    open spec fn encoded(value: ()) -> Seq<u8> {
        <()>::encoded(value)
    }

    open spec fn portable(value: ()) -> bool {
        <()>::portable(value, Seq::empty())
    }

    proof fn round_trip(value: ()) {
        let bytes = <()>::encoded(value);
        <()>::round_trip(value, Seq::empty());
        assert(bytes + Seq::<u8>::empty() =~= bytes);
    }

    fn packet_id() -> (r: i32) {
        0x00
    }
}

impl Decodable for StatusRequest {
    fn read(buffer: &mut &[u8]) -> (r: Result<Self>) {
        <()>::read(buffer)?;
        Ok(StatusRequest)
    }
}

/// The server's status, as a JSON text.
#[derive(Debug)]
pub struct StatusResponse {
    pub response: String,
}

impl DeepView for StatusResponse {
    type V = Seq<char>;

    open spec fn deep_view(&self) -> Seq<char> {
        self.response@
    }
}

impl Packet for StatusResponse {
    open spec fn id() -> i32 {
        0x00
    }

    open spec fn decoded(fields: Seq<u8>) -> Parsed<Seq<char>> {
        String::decoded(fields)
    }

    open spec fn encoded(value: Seq<char>) -> Seq<u8> {
        String::encoded(value)
    }

    open spec fn portable(value: Seq<char>) -> bool {
        String::portable(value, Seq::empty())
    }

    proof fn round_trip(value: Seq<char>) {
        let bytes = String::encoded(value);
        String::round_trip(value, Seq::empty());
        assert(bytes + Seq::<u8>::empty() =~= bytes);
    }

    fn packet_id() -> (r: i32) {
        0x00
    }
}

impl Encodable for StatusResponse {
    fn write(&self, buffer: &mut Vec<u8>) -> (r: Result<()>) {
        write_varint(buffer, Self::packet_id())?;
        self.response.write(buffer)?;
        proof {
            assert(buffer@ =~= old(buffer)@ + (varint_encoded(Self::id()) + Self::encoded(
                self.deep_view(),
            )));
        }
        Ok(())
    }
}

/// The client's ping, with a number of its choosing.
#[derive(Debug)]
pub struct PingRequest {
    pub payload: i64,
}

impl DeepView for PingRequest {
    type V = i64;

    open spec fn deep_view(&self) -> i64 {
        self.payload
    }
}

impl Packet for PingRequest {
    open spec fn id() -> i32 {
        0x01
    }

    open spec fn decoded(fields: Seq<u8>) -> Parsed<i64> {
        i64::decoded(fields)
    }

    open spec fn encoded(value: i64) -> Seq<u8> {
        i64::encoded(value)
    }

    open spec fn portable(value: i64) -> bool {
        i64::portable(value, Seq::empty())
    }

    proof fn round_trip(value: i64) {
        let bytes = i64::encoded(value);
        i64::round_trip(value, Seq::empty());
        assert(bytes + Seq::<u8>::empty() =~= bytes);
    }

    fn packet_id() -> (r: i32) {
        0x01
    }
}

impl Decodable for PingRequest {
    fn read(buffer: &mut &[u8]) -> (r: Result<Self>) {
        let payload = i64::read(buffer)?;
        Ok(PingRequest { payload })
    }
}

/// The answer to a ping: the client's number, sent back.
#[derive(Debug)]
pub struct PongResponse {
    pub payload: i64,
}

impl DeepView for PongResponse {
    type V = i64;

    open spec fn deep_view(&self) -> i64 {
        self.payload
    }
}

impl Packet for PongResponse {
    open spec fn id() -> i32 {
        0x01
    }

    open spec fn decoded(fields: Seq<u8>) -> Parsed<i64> {
        i64::decoded(fields)
    }

    open spec fn encoded(value: i64) -> Seq<u8> {
        i64::encoded(value)
    }

    open spec fn portable(value: i64) -> bool {
        i64::portable(value, Seq::empty())
    }

    proof fn round_trip(value: i64) {
        let bytes = i64::encoded(value);
        i64::round_trip(value, Seq::empty());
        assert(bytes + Seq::<u8>::empty() =~= bytes);
    }

    fn packet_id() -> (r: i32) {
        0x01
    }
}

impl Encodable for PongResponse {
    fn write(&self, buffer: &mut Vec<u8>) -> (r: Result<()>) {
        write_varint(buffer, Self::packet_id())?;
        self.payload.write(buffer)?;
        proof {
            assert(buffer@ =~= old(buffer)@ + (varint_encoded(Self::id()) + Self::encoded(
                self.deep_view(),
            )));
        }
        Ok(())
    }
}

/// The game version that a status names.
#[derive(Debug)]
pub struct Version {
    pub name: String,
    pub protocol: i32,
}

/// The player counts of a status.
#[derive(Debug)]
pub struct Players {
    pub max: i32,
    pub online: i32,
    pub sample: Vec<Player>,
}

/// A player named in the sample of a status.
#[derive(Debug)]
pub struct Player {
    pub name: String,
    pub id: String,
}

/// The message of the day of a status.
#[derive(Debug)]
pub struct Description {
    pub text: String,
}

} // verus!
