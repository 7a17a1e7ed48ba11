//! Field codecs: the types that can stand as a field of a packet, each with
//! its layout on the wire.

use crate::protocol::error::{Error, IoErrorKind, Result};
use crate::protocol::packet::raw_data::{
    long_decoded, long_encoded, long_round_trip, read_long, read_string, read_unsigned_short,
    read_uuid, read_varint, short_read, string_decoded, string_encoded,
    string_round_trip, unsigned_short_decoded, unsigned_short_encoded, unsigned_short_round_trip,
    uuid_decoded, uuid_round_trip, varint_decoded, varint_decoded_len, varint_encoded,
    varint_round_trip, write_long, write_string, write_unsigned_short, write_uuid, write_varint,
    Parsed, MAX_STRING_LEN,
};
use crate::protocol::packet::types::Uuid;
use vstd::prelude::*;
use vstd::utf8::encode_utf8;

verus! {

/// A value with a layout on the wire. Contracts speak of such a value by its
/// deep view.
pub trait PacketData: Sized + DeepView {
    /// What `read` makes of the bytes in front of it.
    spec fn decoded(s: Seq<u8>) -> Parsed<Self::V>;

    /// The bytes that `write` appends for a value.
    spec fn encoded(value: Self::V) -> Seq<u8>;

    /// Whether a value, written in front of `rest`, can be read back.
    spec fn portable(value: Self::V, rest: Seq<u8>) -> bool;

    /// A value that was read took up bytes that were there.
    proof fn decoded_len(s: Seq<u8>)
        ensures
            Self::decoded(s) matches Ok((_, n)) ==> 0 <= n <= s.len(),
    ;

    /// Reading what was written gives the value back and takes exactly the
    /// bytes that were written.
    proof fn round_trip(value: Self::V, rest: Seq<u8>)
        requires
            Self::portable(value, rest),
        ensures
            Self::decoded(Self::encoded(value) + rest) == Ok::<(Self::V, int), Error>(
                (value, Self::encoded(value).len() as int),
            ),
    ;

    fn read(buffer: &mut &[u8]) -> (r: Result<Self>)
        ensures
            match Self::decoded(old(buffer)@) {
                Ok((value, n)) => (r matches Ok(got) && got.deep_view() == value) && final(buffer)@
                    == old(buffer)@.skip(n),
                Err(e) => r == Err::<Self, Error>(e) && final(buffer)@ == old(buffer)@,
            },
    ;

    fn write(&self, buffer: &mut Vec<u8>) -> (r: Result<()>)
        ensures
            r.is_ok(),
            final(buffer)@ == old(buffer)@ + Self::encoded(self.deep_view()),
    ;
}

impl PacketData for String {
    open spec fn decoded(s: Seq<u8>) -> Parsed<Seq<char>> {
        string_decoded(s)
    }

    open spec fn encoded(value: Seq<char>) -> Seq<u8> {
        string_encoded(value)
    }

    open spec fn portable(value: Seq<char>, rest: Seq<u8>) -> bool {
        encode_utf8(value).len() <= MAX_STRING_LEN
    }

    proof fn decoded_len(s: Seq<u8>) {
        varint_decoded_len(s);
    }

    proof fn round_trip(value: Seq<char>, rest: Seq<u8>) {
        string_round_trip(value, rest);
    }

    fn read(buffer: &mut &[u8]) -> (r: Result<Self>) {
        read_string(buffer)
    }

    fn write(&self, buffer: &mut Vec<u8>) -> (r: Result<()>) {
        write_string(buffer, self.as_str())
    }
}

impl PacketData for u16 {
    open spec fn decoded(s: Seq<u8>) -> Parsed<u16> {
        unsigned_short_decoded(s)
    }

    open spec fn encoded(value: u16) -> Seq<u8> {
        unsigned_short_encoded(value)
    }

    open spec fn portable(value: u16, rest: Seq<u8>) -> bool {
        true
    }

    proof fn decoded_len(s: Seq<u8>) {
    }

    proof fn round_trip(value: u16, rest: Seq<u8>) {
        unsigned_short_round_trip(value, rest);
    }

    fn read(buffer: &mut &[u8]) -> (r: Result<Self>) {
        read_unsigned_short(buffer)
    }

    fn write(&self, buffer: &mut Vec<u8>) -> (r: Result<()>) {
        write_unsigned_short(buffer, *self)
    }
}

impl PacketData for i32 {
    open spec fn decoded(s: Seq<u8>) -> Parsed<i32> {
        varint_decoded(s)
    }

    open spec fn encoded(value: i32) -> Seq<u8> {
        varint_encoded(value)
    }

    open spec fn portable(value: i32, rest: Seq<u8>) -> bool {
        true
    }

    proof fn decoded_len(s: Seq<u8>) {
        varint_decoded_len(s);
    }

    proof fn round_trip(value: i32, rest: Seq<u8>) {
        varint_round_trip(value, rest);
    }

    fn read(buffer: &mut &[u8]) -> (r: Result<Self>) {
        read_varint(buffer)
    }

    fn write(&self, buffer: &mut Vec<u8>) -> (r: Result<()>) {
        write_varint(buffer, *self)
    }
}

impl PacketData for i64 {
    open spec fn decoded(s: Seq<u8>) -> Parsed<i64> {
        long_decoded(s)
    }

    open spec fn encoded(value: i64) -> Seq<u8> {
        long_encoded(value)
    }

    open spec fn portable(value: i64, rest: Seq<u8>) -> bool {
        true
    }

    proof fn decoded_len(s: Seq<u8>) {
    }

    proof fn round_trip(value: i64, rest: Seq<u8>) {
        long_round_trip(value, rest);
    }

    fn read(buffer: &mut &[u8]) -> (r: Result<Self>) {
        read_long(buffer)
    }

    fn write(&self, buffer: &mut Vec<u8>) -> (r: Result<()>) {
        write_long(buffer, *self)
    }
}

impl PacketData for Uuid {
    open spec fn decoded(s: Seq<u8>) -> Parsed<Seq<u8>> {
        uuid_decoded(s)
    }

    open spec fn encoded(value: Seq<u8>) -> Seq<u8> {
        value
    }

    open spec fn portable(value: Seq<u8>, rest: Seq<u8>) -> bool {
        value.len() == 16
    }

    proof fn decoded_len(s: Seq<u8>) {
    }

    proof fn round_trip(value: Seq<u8>, rest: Seq<u8>) {
        uuid_round_trip(value, rest);
    }

    fn read(buffer: &mut &[u8]) -> (r: Result<Self>) {
        read_uuid(buffer)
    }

    fn write(&self, buffer: &mut Vec<u8>) -> (r: Result<()>) {
        write_uuid(buffer, *self)
    }
}

/// The byte at the front of `s`.
pub open spec fn byte_decoded(s: Seq<u8>) -> Parsed<u8> {
    if s.len() < 1 {
        Err(short_read())
    } else {
        Ok((s[0], 1))
    }
}

impl PacketData for u8 {
    open spec fn decoded(s: Seq<u8>) -> Parsed<u8> {
        byte_decoded(s)
    }

    open spec fn encoded(value: u8) -> Seq<u8> {
        seq![value]
    }

    open spec fn portable(value: u8, rest: Seq<u8>) -> bool {
        true
    }

    proof fn decoded_len(s: Seq<u8>) {
    }

    proof fn round_trip(value: u8, rest: Seq<u8>) {
    }

    fn read(buffer: &mut &[u8]) -> (r: Result<Self>) {
        let s: &[u8] = *buffer;
        if s.len() < 1 {
            return Err(Error::Io(IoErrorKind::UnexpectedEof));
        }
        let byte = s[0];
        *buffer = vstd::slice::slice_subrange(s, 1, s.len());
        Ok(byte)
    }

    fn write(&self, buffer: &mut Vec<u8>) -> (r: Result<()>) {
        buffer.push(*self);
        proof {
            assert(buffer@ =~= old(buffer)@ + seq![*self]);
        }
        Ok(())
    }
}

/// The boolean at the front of `s`: one byte, true unless it is zero.
pub open spec fn bool_decoded(s: Seq<u8>) -> Parsed<bool> {
    if s.len() < 1 {
        Err(short_read())
    } else {
        Ok((s[0] != 0, 1))
    }
}

/// The byte of a boolean: one for true, zero for false.
pub open spec fn bool_encoded(value: bool) -> Seq<u8> {
    seq![if value { 1u8 } else { 0u8 }]
}

impl PacketData for bool {
    open spec fn decoded(s: Seq<u8>) -> Parsed<bool> {
        bool_decoded(s)
    }

    open spec fn encoded(value: bool) -> Seq<u8> {
        bool_encoded(value)
    }

    open spec fn portable(value: bool, rest: Seq<u8>) -> bool {
        true
    }

    proof fn decoded_len(s: Seq<u8>) {
    }

    proof fn round_trip(value: bool, rest: Seq<u8>) {
    }

    fn read(buffer: &mut &[u8]) -> (r: Result<Self>) {
        let s: &[u8] = *buffer;
        assert(Self::decoded(s@) == bool_decoded(s@));
        if s.len() < 1 {
            return Err(Error::Io(IoErrorKind::UnexpectedEof));
        }
        let byte = s[0];
        *buffer = vstd::slice::slice_subrange(s, 1, s.len());
        Ok(byte != 0)
    }

    fn write(&self, buffer: &mut Vec<u8>) -> (r: Result<()>) {
        buffer.push(if *self { 1 } else { 0 });
        proof {
            assert(buffer@ =~= old(buffer)@ + bool_encoded(*self));
        }
        Ok(())
    }
}

} // verus!
