use crate::protocol::error::{Error, Result};
use crate::protocol::packet::data::{byte_decoded, PacketData};
use crate::protocol::packet::raw_data::Parsed;
use vstd::prelude::*;

verus! {

/// All the bytes that are left of a packet, as they stand.
#[derive(Debug)]
pub struct PacketBytes(pub Vec<u8>);

impl DeepView for PacketBytes {
    type V = Seq<u8>;

    open spec fn deep_view(&self) -> Seq<u8> {
        self.0@
    }
}

impl PacketData for PacketBytes {
    open spec fn decoded(s: Seq<u8>) -> Parsed<Seq<u8>> {
        Ok((s, s.len() as int))
    }

    open spec fn encoded(value: Seq<u8>) -> Seq<u8> {
        value
    }

    /// Such a field reads to the end, so it comes back only where nothing
    /// follows it.
    open spec fn portable(value: Seq<u8>, rest: Seq<u8>) -> bool {
        rest.len() == 0
    }

    proof fn decoded_len(s: Seq<u8>) {
    }

    proof fn round_trip(value: Seq<u8>, rest: Seq<u8>) {
        assert(value + rest =~= value);
    }

    fn read(buffer: &mut &[u8]) -> (r: Result<Self>) {
        let s: &[u8] = *buffer;
        let data = vstd::slice::slice_to_vec(s);
        *buffer = vstd::slice::slice_subrange(s, s.len(), s.len());
        proof {
            assert(final(buffer)@ =~= old(buffer)@.skip(s@.len() as int));
        }
        Ok(PacketBytes(data))
    }

    fn write(&self, buffer: &mut Vec<u8>) -> (r: Result<()>) {
        buffer.extend_from_slice(self.0.as_slice());
        Ok(())
    }
}

/// One byte, as it stands.
#[derive(Debug)]
pub struct PacketByte(pub u8);

impl DeepView for PacketByte {
    type V = u8;

    open spec fn deep_view(&self) -> u8 {
        self.0
    }
}

impl PacketData for PacketByte {
    open spec fn decoded(s: Seq<u8>) -> Parsed<u8> {
        byte_decoded(s)
    }

    open spec fn encoded(value: u8) -> Seq<u8> {
        seq![value]
    }

    open spec fn portable(value: u8, rest: Seq<u8>) -> bool {
        true
    }

    proof fn decoded_len(s: Seq<u8>) {
    }

    proof fn round_trip(value: u8, rest: Seq<u8>) {
    }

    fn read(buffer: &mut &[u8]) -> (r: Result<Self>) {
        let byte = u8::read(buffer)?;
        Ok(PacketByte(byte))
    }

    fn write(&self, buffer: &mut Vec<u8>) -> (r: Result<()>) {
        self.0.write(buffer)
    }
}

/// A 128-bit identifier, held as its sixteen bytes in wire order.
#[derive(Debug, Clone, Copy, PartialEq, Eq)]
pub struct Uuid {
    bytes: [u8; 16],
}

impl View for Uuid {
    type V = Seq<u8>;

    closed spec fn view(&self) -> Seq<u8> {
        self.bytes@
    }
}

impl DeepView for Uuid {
    type V = Seq<u8>;

    open spec fn deep_view(&self) -> Seq<u8> {
        self@
    }
}

impl Uuid {
    pub fn from_bytes(bytes: [u8; 16]) -> (r: Self)
        ensures
            r@ == bytes@,
    {
        Uuid { bytes }
    }

    pub(crate) fn from_slice(bytes: &[u8]) -> (r: Self)
        requires
            bytes@.len() == 16,
        ensures
            r@ == bytes@,
    {
        let mut out = [0u8;16];
        let mut i: usize = 0;
        while i < 16
            invariant
                i <= 16,
                bytes@.len() == 16,
                forall|j: int| 0 <= j < i ==> out@[j] == bytes@[j],
            decreases 16 - i,
        {
            out[i] = bytes[i];
            i += 1;
        }
        proof {
            assert(out@ =~= bytes@);
        }
        Uuid { bytes: out }
    }

    pub fn as_bytes(&self) -> (r: &[u8; 16])
        ensures
            r@ == self@,
    {
        &self.bytes
    }

    /// The identifier's length is always sixteen.
    pub proof fn len_is_sixteen(&self)
        ensures
            self@.len() == 16,
    {
    }
}

} // verus!
