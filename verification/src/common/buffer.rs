//! The accumulation buffer of a connection: a `bytes::BytesMut`, which Verus
//! knows by the bytes it holds. What is said here of its methods is taken on
//! trust from the `bytes` crate.

use bytes::{Buf, BytesMut};
use vstd::prelude::*;

verus! {

#[verifier::external_type_specification]
#[verifier::external_body]
pub struct ExBytesMut(BytesMut);

/// The bytes that a buffer holds, the oldest first.
pub uninterp spec fn buffered(buffer: BytesMut) -> Seq<u8>;

/// `BytesMut::with_capacity`: a buffer that holds nothing.
#[verifier::external_body]
pub(crate) fn buffer_with_capacity(capacity: usize) -> (r: BytesMut)
    ensures
        buffered(r) == Seq::<u8>::empty(),
{
    BytesMut::with_capacity(capacity)
}

/// `BytesMut::len`: the number of bytes held.
#[verifier::external_body]
pub(crate) fn buffer_len(buffer: &BytesMut) -> (r: usize)
    ensures
        r == buffered(*buffer).len(),
{
    buffer.len()
}

/// The buffer as a slice (`Deref`): the bytes held, in order.
#[verifier::external_body]
pub(crate) fn buffer_bytes(buffer: &BytesMut) -> (r: &[u8])
    ensures
        r@ == buffered(*buffer),
{
    &buffer[..]
}

/// `BytesMut::extend_from_slice`: the new bytes come after those held.
#[verifier::external_body]
pub(crate) fn buffer_extend(buffer: &mut BytesMut, data: &[u8])
    ensures
        buffered(*final(buffer)) == buffered(*old(buffer)) + data@,
{
    buffer.extend_from_slice(data)
}

/// `Buf::advance` on a `BytesMut`: the first `count` bytes are dropped. It
/// panics when asked to drop more than are held.
#[verifier::external_body]
pub(crate) fn buffer_advance(buffer: &mut BytesMut, count: usize)
    requires
        count <= buffered(*old(buffer)).len(),
    ensures
        buffered(*final(buffer)) == buffered(*old(buffer)).skip(count as int),
{
    buffer.advance(count)
}

/// `BytesMut::split_to`: the first `at` bytes are taken out and handed back.
/// It panics when asked for more than are held.
#[verifier::external_body]
pub(crate) fn buffer_split_to(buffer: &mut BytesMut, at: usize) -> (r: Vec<u8>)
    requires
        at <= buffered(*old(buffer)).len(),
    ensures
        r@ == buffered(*old(buffer)).take(at as int),
        buffered(*final(buffer)) == buffered(*old(buffer)).skip(at as int),
{
    buffer.split_to(at).to_vec()
}

} // verus!
