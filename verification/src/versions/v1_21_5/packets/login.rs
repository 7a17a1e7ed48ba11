//! The login packets of 1.21.5. They are those of 1.20.6, but for the
//! server's answer, which has lost a field.

pub use crate::versions::v1_20_6::packets::login::{
    read_properties, write_properties, LoginAcknowledged, LoginStart, Property,
};

use crate::protocol::error::Result;
use crate::protocol::packet::data::PacketData;
use crate::protocol::packet::raw_data::{varint_encoded, write_varint, Parsed};
use crate::protocol::packet::types::Uuid;
use crate::protocol::packet::{Encodable, Packet};
use vstd::prelude::*;

verus! {

/// The server admits the player under an identifier.
#[derive(Debug)]
pub struct LoginSuccess {
    pub uuid: Uuid,
    pub username: String,
    pub properties: Vec<Property>,
}

impl DeepView for LoginSuccess {
    type V = (Seq<u8>, (Seq<char>, Seq<(Seq<char>, (Seq<char>, Option<Seq<char>>))>));

    open spec fn deep_view(&self) -> Self::V {
        (self.uuid@, (self.username@, self.properties.deep_view()))
    }
}

impl Packet for LoginSuccess {
    open spec fn id() -> i32 {
        0x02
    }

    open spec fn decoded(fields: Seq<u8>) -> Parsed<Self::V> {
        <(Uuid, (String, Vec<Property>))>::decoded(fields)
    }

    open spec fn encoded(value: Self::V) -> Seq<u8> {
        <(Uuid, (String, Vec<Property>))>::encoded(value)
    }

    open spec fn portable(value: Self::V) -> bool {
        <(Uuid, (String, Vec<Property>))>::portable(value, Seq::empty())
    }

    proof fn round_trip(value: Self::V) {
        let bytes = <(Uuid, (String, Vec<Property>))>::encoded(value);
        <(Uuid, (String, Vec<Property>))>::round_trip(value, Seq::empty());
        assert(bytes + Seq::<u8>::empty() =~= bytes);
    }

    fn packet_id() -> (r: i32) {
        0x02
    }
}

impl Encodable for LoginSuccess {
    fn write(&self, buffer: &mut Vec<u8>) -> (r: Result<()>) {
        write_varint(buffer, Self::packet_id())?;
        self.uuid.write(buffer)?;
        self.username.write(buffer)?;
        self.properties.write(buffer)?;
        proof {
            assert(buffer@ =~= old(buffer)@ + (varint_encoded(Self::id()) + Self::encoded(
                self.deep_view(),
            )));
        }
        Ok(())
    }
}

} // verus!
