use crate::protocol::error::{Error, Result};
use crate::protocol::packet::data::PacketData;
use crate::protocol::packet::raw_data::{varint_encoded, write_varint, Parsed};
use crate::protocol::packet::types::Uuid;
use crate::protocol::packet::{Decodable, Encodable, Packet};
use vstd::prelude::*;

verus! {

/// The client names the player that wants to log in.
#[derive(Debug)]
pub struct LoginStart {
    pub name: String,
    pub uuid: Uuid,
}

impl DeepView for LoginStart {
    type V = (Seq<char>, Seq<u8>);

    open spec fn deep_view(&self) -> Self::V {
        (self.name@, self.uuid@)
    }
}

impl Packet for LoginStart {
    open spec fn id() -> i32 {
        0x00
    }

    open spec fn decoded(fields: Seq<u8>) -> Parsed<Self::V> {
        <(String, Uuid)>::decoded(fields)
    }

    open spec fn encoded(value: Self::V) -> Seq<u8> {
        <(String, Uuid)>::encoded(value)
    }

    open spec fn portable(value: Self::V) -> bool {
        <(String, Uuid)>::portable(value, Seq::empty())
    }

    proof fn round_trip(value: Self::V) {
        let bytes = <(String, Uuid)>::encoded(value);
        <(String, Uuid)>::round_trip(value, Seq::empty());
        assert(bytes + Seq::<u8>::empty() =~= bytes);
    }

    fn packet_id() -> (r: i32) {
        0x00
    }
}

impl Decodable for LoginStart {
    fn read(buffer: &mut &[u8]) -> (r: Result<Self>) {
        let (name, uuid) = <(String, Uuid)>::read(buffer)?;
        Ok(LoginStart { name, uuid })
    }
}

/// A property of a player's profile, signed or not.
#[derive(Debug)]
pub struct Property {
    pub name: String,
    pub value: String,
    pub signature: Option<String>,
}

impl DeepView for Property {
    type V = (Seq<char>, (Seq<char>, Option<Seq<char>>));

    open spec fn deep_view(&self) -> Self::V {
        (self.name@, (self.value@, self.signature.deep_view()))
    }
}

impl PacketData for Property {
    open spec fn decoded(s: Seq<u8>) -> Parsed<Self::V> {
        <(String, (String, Option<String>))>::decoded(s)
    }

    open spec fn encoded(value: Self::V) -> Seq<u8> {
        <(String, (String, Option<String>))>::encoded(value)
    }

    open spec fn portable(value: Self::V, rest: Seq<u8>) -> bool {
        <(String, (String, Option<String>))>::portable(value, rest)
    }

    proof fn decoded_len(s: Seq<u8>) {
        <(String, (String, Option<String>))>::decoded_len(s);
    }

    proof fn round_trip(value: Self::V, rest: Seq<u8>) {
        <(String, (String, Option<String>))>::round_trip(value, rest);
    }

    fn read(buffer: &mut &[u8]) -> (r: Result<Self>) {
        let (name, (value, signature)) = <(String, (String, Option<String>))>::read(buffer)?;
        Ok(Property { name, value, signature })
    }

    fn write(&self, buffer: &mut Vec<u8>) -> (r: Result<()>) {
        self.name.write(buffer)?;
        self.value.write(buffer)?;
        self.signature.write(buffer)?;
        proof {
            assert(buffer@ =~= old(buffer)@ + Self::encoded(self.deep_view()));
        }
        Ok(())
    }
}

pub fn read_properties(buffer: &mut &[u8]) -> (r: Result<Vec<Property>>)
    ensures
        match <Vec<Property>>::decoded(old(buffer)@) {
            Ok((value, n)) => (r matches Ok(got) && got.deep_view() == value) && final(buffer)@
                == old(buffer)@.skip(n),
            Err(e) => r == Err::<Vec<Property>, Error>(e) && final(buffer)@ == old(buffer)@,
        },
{
    <Vec<Property>>::read(buffer)
}

pub fn write_properties(properties: &Vec<Property>, buffer: &mut Vec<u8>) -> (r: Result<()>)
    ensures
        r.is_ok(),
        final(buffer)@ == old(buffer)@ + <Vec<Property>>::encoded(properties.deep_view()),
{
    properties.write(buffer)
}

/// The server admits the player under an identifier.
#[derive(Debug)]
pub struct LoginSuccess {
    pub uuid: Uuid,
    pub username: String,
    pub properties: Vec<Property>,
    pub enforce_secure_chat: bool,
}

impl DeepView for LoginSuccess {
    type V = (Seq<u8>, (Seq<char>, (Seq<(Seq<char>, (Seq<char>, Option<Seq<char>>))>, bool)));

    open spec fn deep_view(&self) -> Self::V {
        (self.uuid@, (self.username@, (self.properties.deep_view(), self.enforce_secure_chat)))
    }
}

impl Packet for LoginSuccess {
    open spec fn id() -> i32 {
        0x02
    }

    open spec fn decoded(fields: Seq<u8>) -> Parsed<Self::V> {
        <(Uuid, (String, (Vec<Property>, bool)))>::decoded(fields)
    }

    open spec fn encoded(value: Self::V) -> Seq<u8> {
        <(Uuid, (String, (Vec<Property>, bool)))>::encoded(value)
    }

    open spec fn portable(value: Self::V) -> bool {
        <(Uuid, (String, (Vec<Property>, bool)))>::portable(value, Seq::empty())
    }

    proof fn round_trip(value: Self::V) {
        let bytes = <(Uuid, (String, (Vec<Property>, bool)))>::encoded(value);
        <(Uuid, (String, (Vec<Property>, bool)))>::round_trip(value, Seq::empty());
        assert(bytes + Seq::<u8>::empty() =~= bytes);
    }

    fn packet_id() -> (r: i32) {
        0x02
    }
}

impl Encodable for LoginSuccess {
    fn write(&self, buffer: &mut Vec<u8>) -> (r: Result<()>) {
        write_varint(buffer, Self::packet_id())?;
        self.uuid.write(buffer)?;
        self.username.write(buffer)?;
        self.properties.write(buffer)?;
        self.enforce_secure_chat.write(buffer)?;
        proof {
            assert(buffer@ =~= old(buffer)@ + (varint_encoded(Self::id()) + Self::encoded(
                self.deep_view(),
            )));
        }
        Ok(())
    }
}

/// The client confirms that it has logged in. It has no fields.
#[derive(Debug)]
pub struct LoginAcknowledged;

impl DeepView for LoginAcknowledged {
    type V = ();

    open spec fn deep_view(&self) -> () {
        ()
    }
}

impl Packet for LoginAcknowledged {
    open spec fn id() -> i32 {
        0x03
    }

    open spec fn decoded(fields: Seq<u8>) -> Parsed<()> {
        <()>::decoded(fields)
    }

    open spec fn encoded(value: ()) -> Seq<u8> {
        <()>::encoded(value)
    }

    open spec fn portable(value: ()) -> bool {
        <()>::portable(value, Seq::empty())
    }

    proof fn round_trip(value: ()) {
        let bytes = <()>::encoded(value);
        <()>::round_trip(value, Seq::empty());
        assert(bytes + Seq::<u8>::empty() =~= bytes);
    }

    fn packet_id() -> (r: i32) {
        0x03
    }
}

impl Decodable for LoginAcknowledged {
    fn read(buffer: &mut &[u8]) -> (r: Result<Self>) {
        <()>::read(buffer)?;
        Ok(LoginAcknowledged)
    }
}

} // verus!
