use crate::protocol::error::Result;
use crate::protocol::packet::data::PacketData;
use crate::protocol::packet::raw_data::{varint_encoded, write_varint, Parsed};
use crate::protocol::packet::{Decodable, Encodable, Packet};
use vstd::prelude::*;

verus! {

/// The first packet of every connection: the protocol version that the
/// client speaks, the address it dialled, and the stage it asks for.
#[derive(Debug)]
pub struct Handshake {
    pub protocol_version: i32,
    pub server_address: String,
    pub server_port: u16,
    pub next_state: i32,
}

/// The fields of a handshake, in wire order.
pub type HandshakeFields = (i32, (String, (u16, i32)));

impl DeepView for Handshake {
    type V = (i32, (Seq<char>, (u16, i32)));

    open spec fn deep_view(&self) -> Self::V {
        (self.protocol_version, (self.server_address@, (self.server_port, self.next_state)))
    }
}

impl Packet for Handshake {
    open spec fn id() -> i32 {
        0x00
    }

    open spec fn decoded(fields: Seq<u8>) -> Parsed<Self::V> {
        HandshakeFields::decoded(fields)
    }

    open spec fn encoded(value: Self::V) -> Seq<u8> {
        HandshakeFields::encoded(value)
    }

    open spec fn portable(value: Self::V) -> bool {
        HandshakeFields::portable(value, Seq::empty())
    }

    proof fn round_trip(value: Self::V) {
        let bytes = HandshakeFields::encoded(value);
        HandshakeFields::round_trip(value, Seq::empty());
        assert(bytes + Seq::<u8>::empty() =~= bytes);
    }

    fn packet_id() -> (r: i32) {
        0x00
    }
}

impl Decodable for Handshake {
    fn read(buffer: &mut &[u8]) -> (r: Result<Self>) {
        let (protocol_version, (server_address, (server_port, next_state))) =
            HandshakeFields::read(buffer)?;
        Ok(Handshake { protocol_version, server_address, server_port, next_state })
    }
}

impl Encodable for Handshake {
    fn write(&self, buffer: &mut Vec<u8>) -> (r: Result<()>) {
        write_varint(buffer, Self::packet_id())?;
        self.protocol_version.write(buffer)?;
        self.server_address.write(buffer)?;
        self.server_port.write(buffer)?;
        self.next_state.write(buffer)?;
        proof {
            assert(buffer@ =~= old(buffer)@ + (varint_encoded(Self::id()) + Self::encoded(
                self.deep_view(),
            )));
        }
        Ok(())
    }
}

} // verus!
