//! The wire primitives: how each is laid out in bytes, and the functions that
//! read one from the front of a byte slice or append one to a buffer.
//!
//! Every reader takes a cursor, a `&mut &[u8]`. On success the cursor moves
//! past the bytes that were read; on failure it stays where it was.

pub use crate::protocol::packet::compound::write_varint_prefixed_array;

use crate::protocol::error::{Error, IoErrorKind, Result};
use crate::protocol::packet::types::Uuid;
use vstd::prelude::*;
use vstd::utf8::{decode_utf8, encode_utf8, valid_utf8};

verus! {

/// What a reader makes of the bytes in front of it: the value and the number
/// of bytes it takes up, or the error.
pub type Parsed<T> = std::result::Result<(T, int), Error>;

/// The error of a read that runs past the end of the bytes.
pub open spec fn short_read() -> Error {
    Error::Io(IoErrorKind::UnexpectedEof)
}

/// The longest string, in bytes, that `read_string` accepts.
pub const MAX_STRING_LEN: usize = 32767;

/// The seven payload bits of a varint byte.
pub open spec fn varint_payload(byte: u8) -> u32 {
    (byte & 0x7f) as u32
}

/// Whether a varint byte says that another one follows.
pub open spec fn varint_continues(byte: u8) -> bool {
    byte & 0x80 != 0
}

/// Reads varint groups from index `i` on, least significant group first,
/// with `acc` holding the groups before `i`. At most five groups make a
/// value; bits of the fifth that do not fit into 32 bits are dropped.
pub open spec fn varint_scan(s: Seq<u8>, i: int, acc: u32) -> Parsed<i32>
    decreases 5 - i,
{
    if i < 0 || i >= 5 {
        Err(Error::InvalidVarInt)
    } else if i >= s.len() {
        Err(short_read())
    } else {
        let next = acc | (varint_payload(s[i]) << ((7 * i) as u32));
        if varint_continues(s[i]) {
            varint_scan(s, i + 1, next)
        } else {
            Ok((next as i32, i + 1))
        }
    }
}

/// The varint at the front of `s`.
pub open spec fn varint_decoded(s: Seq<u8>) -> Parsed<i32> {
    varint_scan(s, 0, 0)
}

/// The groups of the 32-bit pattern `x`, each but the last with its
/// continuation bit set.
pub open spec fn varint_groups(x: u32) -> Seq<u8>
    decreases x,
    via varint_groups_decreases
{
    if x < 0x80 {
        seq![x as u8]
    } else {
        seq![((x & 0x7f) | 0x80) as u8] + varint_groups(x >> 7)
    }
}

#[via_fn]
proof fn varint_groups_decreases(x: u32) {
    assert(x >= 0x80 ==> (x >> 7) < x) by (bit_vector);
}

/// The bytes of `value` as a varint: its two's complement pattern, in groups.
pub open spec fn varint_encoded(value: i32) -> Seq<u8> {
    varint_groups(value as u32)
}

pub fn read_varint(buffer: &mut &[u8]) -> (r: Result<i32>)
    ensures
        match varint_decoded(old(buffer)@) {
            Ok((value, n)) => r == Ok::<i32, Error>(value) && final(buffer)@ == old(buffer)@.skip(n),
            Err(e) => r == Err::<i32, Error>(e) && final(buffer)@ == old(buffer)@,
        },
{
    let s: &[u8] = *buffer;
    let mut i: usize = 0;
    let mut acc: u32 = 0;
    loop
        invariant
            i <= 5,
            i <= s@.len(),
            s@ == old(buffer)@,
            *buffer == *old(buffer),
            varint_decoded(s@) == varint_scan(s@, i as int, acc),
        decreases 5 - i,
    {
        if i >= 5 {
            return Err(Error::InvalidVarInt);
        }
        if i >= s.len() {
            return Err(Error::Io(IoErrorKind::UnexpectedEof));
        }
        let byte = s[i];
        let shift: u32 = 7 * (i as u32);
        let next = acc | (((byte & 0x7f) as u32) << shift);
        if byte & 0x80 == 0 {
            *buffer = vstd::slice::slice_subrange(s, i + 1, s.len());
            return Ok(#[verifier::truncate] (next as i32));
        }
        acc = next;
        i += 1;
    }
}

pub fn write_varint(buffer: &mut Vec<u8>, value: i32) -> (r: Result<()>)
    ensures
        r.is_ok(),
        final(buffer)@ == old(buffer)@ + varint_encoded(value),
{
    let mut x: u32 = #[verifier::truncate] (value as u32);
    loop
        invariant
            old(buffer)@ + varint_encoded(value) == buffer@ + varint_groups(x),
        decreases x,
    {
        if x < 0x80 {
            buffer.push(#[verifier::truncate] (x as u8));
            proof {
                assert(buffer@ =~= old(buffer)@ + varint_encoded(value));
            }
            return Ok(());
        }
        let ghost before = buffer@;
        buffer.push(#[verifier::truncate] (((x & 0x7f) | 0x80) as u8));
        proof {
            assert(x >= 0x80 ==> (x >> 7) < x) by (bit_vector);
            assert(before + varint_groups(x) =~= buffer@ + varint_groups(x >> 7));
        }
        x = x >> 7;
    }
}

/// That a reader returned `r` and left `after` in its cursor, which held
/// `before`, is what `parsed` asks for.
pub open spec fn reads<T>(parsed: Parsed<T>, before: Seq<u8>, r: Result<T>, after: Seq<u8>) -> bool {
    match parsed {
        Ok((value, n)) => r == Ok::<T, Error>(value) && after == before.skip(n),
        Err(e) => r == Err::<T, Error>(e) && after == before,
    }
}

/// As `reads`, for a type that contracts speak of by its view.
pub open spec fn reads_as<T: View>(
    parsed: Parsed<T::V>,
    before: Seq<u8>,
    r: Result<T>,
    after: Seq<u8>,
) -> bool {
    match parsed {
        Ok((value, n)) => (r matches Ok(got) && got@ == value) && after == before.skip(n),
        Err(e) => r == Err::<T, Error>(e) && after == before,
    }
}

/// The string at the front of `s`: a varint byte count, then that many bytes
/// of UTF-8.
pub open spec fn string_decoded(s: Seq<u8>) -> Parsed<Seq<char>> {
    match varint_decoded(s) {
        Err(e) => Err(e),
        Ok((len, n)) => {
            if len < 0 || len > MAX_STRING_LEN {
                Err(Error::InvalidString)
            } else if s.len() - n < len {
                Err(short_read())
            } else if !valid_utf8(s.subrange(n, n + len)) {
                Err(Error::InvalidString)
            } else {
                Ok((decode_utf8(s.subrange(n, n + len)), n + len))
            }
        },
    }
}

/// The bytes of a string: the count of its UTF-8 bytes as a varint, then the
/// bytes. A count that does not fit in 32 bits is cut down to them.
pub open spec fn string_encoded(chars: Seq<char>) -> Seq<u8> {
    varint_encoded(encode_utf8(chars).len() as i32) + encode_utf8(chars)
}

/// `String::from_utf8`: the string that the bytes spell where they are valid
/// UTF-8, and nothing where they are not.
#[verifier::external_body]
fn string_from_utf8(bytes: Vec<u8>) -> (r: Option<String>)
    ensures
        r.is_some() <==> valid_utf8(bytes@),
        r matches Some(text) ==> text@ == decode_utf8(bytes@),
{
    String::from_utf8(bytes).ok()
}

pub fn read_string(buffer: &mut &[u8]) -> (r: Result<String>)
    ensures
        reads_as(string_decoded(old(buffer)@), old(buffer)@, r, final(buffer)@),
{
    let mut cur: &[u8] = *buffer;
    let len = read_varint(&mut cur)?;
    proof {
        varint_decoded_len(old(buffer)@);
    }
    if len < 0 || len > 32767 {
        return Err(Error::InvalidString);
    }
    let len = len as usize;
    if cur.len() < len {
        return Err(Error::Io(IoErrorKind::UnexpectedEof));
    }
    let (bytes, rest) = cur.split_at(len);
    proof {
        let n = varint_decoded(old(buffer)@)->Ok_0.1;
        assert(bytes@ =~= old(buffer)@.subrange(n, n + len));
        assert(rest@ =~= old(buffer)@.skip(n + len));
    }
    match string_from_utf8(vstd::slice::slice_to_vec(bytes)) {
        Some(text) => {
            *buffer = rest;
            Ok(text)
        },
        None => Err(Error::InvalidString),
    }
}

pub fn write_string(buffer: &mut Vec<u8>, value: &str) -> (r: Result<()>)
    ensures
        r.is_ok(),
        final(buffer)@ == old(buffer)@ + string_encoded(value@),
{
    let bytes = value.as_bytes();
    write_varint(buffer, #[verifier::truncate] (bytes.len() as i32))?;
    buffer.extend_from_slice(bytes);
    proof {
        assert(buffer@ =~= old(buffer)@ + string_encoded(value@));
    }
    Ok(())
}

/// The unsigned short at the front of `s`: two bytes, the high one first.
pub open spec fn unsigned_short_decoded(s: Seq<u8>) -> Parsed<u16> {
    if s.len() < 2 {
        Err(short_read())
    } else {
        Ok(((s[0] * 256 + s[1]) as u16, 2))
    }
}

pub open spec fn unsigned_short_encoded(value: u16) -> Seq<u8> {
    seq![(value / 256) as u8, (value % 256) as u8]
}

pub fn read_unsigned_short(buffer: &mut &[u8]) -> (r: Result<u16>)
    ensures
        reads(unsigned_short_decoded(old(buffer)@), old(buffer)@, r, final(buffer)@),
{
    let s: &[u8] = *buffer;
    if s.len() < 2 {
        return Err(Error::Io(IoErrorKind::UnexpectedEof));
    }
    let value: u16 = (s[0] as u16) * 256 + (s[1] as u16);
    *buffer = vstd::slice::slice_subrange(s, 2, s.len());
    Ok(value)
}

pub fn write_unsigned_short(buffer: &mut Vec<u8>, value: u16) -> (r: Result<()>)
    ensures
        r.is_ok(),
        final(buffer)@ == old(buffer)@ + unsigned_short_encoded(value),
{
    buffer.push((value / 256) as u8);
    buffer.push((value % 256) as u8);
    proof {
        assert(buffer@ =~= old(buffer)@ + unsigned_short_encoded(value));
    }
    Ok(())
}

/// The number that eight bytes spell, the most significant first.
pub open spec fn big_endian_u64(s: Seq<u8>) -> int {
    ((((((s[0] * 256 + s[1]) * 256 + s[2]) * 256 + s[3]) * 256 + s[4]) * 256 + s[5]) * 256 + s[6])
        * 256 + s[7]
}

/// The long at the front of `s`: eight bytes, the most significant first,
/// read as a two's complement number.
pub open spec fn long_decoded(s: Seq<u8>) -> Parsed<i64> {
    if s.len() < 8 {
        Err(short_read())
    } else {
        Ok((big_endian_u64(s.take(8)) as u64 as i64, 8))
    }
}

/// The eight bytes of the 64-bit pattern `x`, the most significant first:
/// each is what is left of `x` after the bytes below it are taken away.
pub open spec fn u64_bytes(x: u64) -> Seq<u8> {
    let x1 = x / 256;
    let x2 = x1 / 256;
    let x3 = x2 / 256;
    let x4 = x3 / 256;
    let x5 = x4 / 256;
    let x6 = x5 / 256;
    let x7 = x6 / 256;
    seq![
        (x7 % 256) as u8,
        (x6 % 256) as u8,
        (x5 % 256) as u8,
        (x4 % 256) as u8,
        (x3 % 256) as u8,
        (x2 % 256) as u8,
        (x1 % 256) as u8,
        (x % 256) as u8,
    ]
}

pub open spec fn long_encoded(value: i64) -> Seq<u8> {
    u64_bytes(value as u64)
}

pub fn read_long(buffer: &mut &[u8]) -> (r: Result<i64>)
    ensures
        reads(long_decoded(old(buffer)@), old(buffer)@, r, final(buffer)@),
{
    let s: &[u8] = *buffer;
    if s.len() < 8 {
        return Err(Error::Io(IoErrorKind::UnexpectedEof));
    }
    let x0: u64 = s[0] as u64;
    let x1: u64 = x0 * 256 + s[1] as u64;
    let x2: u64 = x1 * 256 + s[2] as u64;
    let x3: u64 = x2 * 256 + s[3] as u64;
    let x4: u64 = x3 * 256 + s[4] as u64;
    let x5: u64 = x4 * 256 + s[5] as u64;
    let x6: u64 = x5 * 256 + s[6] as u64;
    let x7: u64 = x6 * 256 + s[7] as u64;
    *buffer = vstd::slice::slice_subrange(s, 8, s.len());
    Ok(#[verifier::truncate] (x7 as i64))
}

pub fn write_long(buffer: &mut Vec<u8>, value: i64) -> (r: Result<()>)
    ensures
        r.is_ok(),
        final(buffer)@ == old(buffer)@ + long_encoded(value),
{
    let x: u64 = #[verifier::truncate] (value as u64);
    let x1: u64 = x / 256;
    let x2: u64 = x1 / 256;
    let x3: u64 = x2 / 256;
    let x4: u64 = x3 / 256;
    let x5: u64 = x4 / 256;
    let x6: u64 = x5 / 256;
    let x7: u64 = x6 / 256;
    buffer.push((x7 % 256) as u8);
    buffer.push((x6 % 256) as u8);
    buffer.push((x5 % 256) as u8);
    buffer.push((x4 % 256) as u8);
    buffer.push((x3 % 256) as u8);
    buffer.push((x2 % 256) as u8);
    buffer.push((x1 % 256) as u8);
    buffer.push((x % 256) as u8);
    proof {
        assert(buffer@ =~= old(buffer)@ + long_encoded(value));
    }
    Ok(())
}

/// The identifier at the front of `s`: its sixteen bytes as they stand.
pub open spec fn uuid_decoded(s: Seq<u8>) -> Parsed<Seq<u8>> {
    if s.len() < 16 {
        Err(short_read())
    } else {
        Ok((s.take(16), 16))
    }
}

pub fn read_uuid(buffer: &mut &[u8]) -> (r: Result<Uuid>)
    ensures
        reads_as(uuid_decoded(old(buffer)@), old(buffer)@, r, final(buffer)@),
{
    let s: &[u8] = *buffer;
    if s.len() < 16 {
        return Err(Error::Io(IoErrorKind::UnexpectedEof));
    }
    let (bytes, rest) = s.split_at(16);
    *buffer = rest;
    Ok(Uuid::from_slice(bytes))
}

pub fn write_uuid(buffer: &mut Vec<u8>, value: Uuid) -> (r: Result<()>)
    ensures
        r.is_ok(),
        final(buffer)@ == old(buffer)@ + value@,
{
    buffer.extend_from_slice(value.as_bytes());
    Ok(())
}

/// The first `len` bytes of `s`, as they stand.
pub open spec fn bytes_decoded(s: Seq<u8>, len: int) -> Parsed<Seq<u8>> {
    if s.len() < len {
        Err(Error::UnexpectedEof)
    } else {
        Ok((s.take(len), len))
    }
}

pub fn read_bytes<'a>(buffer: &mut &'a [u8], len: usize) -> (r: Result<&'a [u8]>)
    ensures
        reads_as(bytes_decoded(old(buffer)@, len as int), old(buffer)@, r, final(buffer)@),
{
    let s: &'a [u8] = *buffer;
    if s.len() < len {
        return Err(Error::UnexpectedEof);
    }
    let (bytes, rest) = s.split_at(len);
    *buffer = rest;
    Ok(bytes)
}

/// A varint that reads as a value lies within the bytes it was read from.
pub proof fn varint_decoded_len(s: Seq<u8>)
    ensures
        varint_decoded(s) matches Ok((_, n)) ==> 1 <= n <= 5 && n <= s.len(),
{
    reveal_with_fuel(varint_scan, 6);
}

/// The largest pattern whose groups, from group `i` on, still fit in 32 bits.
pub open spec fn varint_room(i: int) -> u32 {
    0xffff_ffffu32 >> ((7 * i) as u32)
}

proof fn varint_scan_groups(pre: Seq<u8>, y: u32, rest: Seq<u8>, i: int, acc: u32)
    requires
        0 <= i < 5,
        pre.len() == i,
        y <= varint_room(i),
    ensures
        varint_scan(pre + varint_groups(y) + rest, i, acc) == Ok::<(i32, int), Error>(
            ((acc | (y << ((7 * i) as u32))) as i32, i + varint_groups(y).len()),
        ),
        i + varint_groups(y).len() <= 5,
    decreases y,
{
    let s = pre + varint_groups(y) + rest;
    let shift = (7 * i) as u32;
    assert(s[i] == varint_groups(y)[0]);
    if y < 0x80 {
        let byte = y as u8;
        assert(y < 0x80 ==> ((y as u8) & 0x7f) as u32 == y && (y as u8) & 0x80 == 0) by (bit_vector);
    } else {
        let byte = ((y & 0x7f) | 0x80) as u8;
        assert(((((y & 0x7f) | 0x80) as u8) & 0x7f) as u32 == y & 0x7f && (((y & 0x7f) | 0x80) as u8)
            & 0x80 != 0) by (bit_vector);
        assert(shift == 28 && y <= (0xffff_ffffu32 >> shift) ==> y < 0x80) by (bit_vector);
        assert(i < 4);
        assert(shift <= 21);
        let next = acc | ((y & 0x7f) << shift);
        let shift2 = (7 * (i + 1)) as u32;
        assert(shift2 == shift + 7);
        assert(shift <= 21 && y <= (0xffff_ffffu32 >> shift) ==> (y >> 7) <= (0xffff_ffffu32 >> (
        shift + 7) as u32) && (y >> 7) < y || y == 0) by (bit_vector);
        assert(shift <= 21 ==> (acc | ((y & 0x7f) << shift)) | ((y >> 7) << ((shift + 7) as u32)) == acc
            | (y << shift)) by (bit_vector);
        let pre2 = pre + seq![byte];
        assert(pre2 + varint_groups(y >> 7) + rest =~= s);
        varint_scan_groups(pre2, y >> 7, rest, i + 1, next);
    }
}

proof fn varint_scan_cut(pre: Seq<u8>, y: u32, k: int, i: int, acc: u32)
    requires
        0 <= i < 5,
        pre.len() == i,
        y <= varint_room(i),
        0 <= k < varint_groups(y).len(),
    ensures
        varint_scan(pre + varint_groups(y).take(k), i, acc) == Err::<(i32, int), Error>(short_read()),
    decreases y,
{
    let s = pre + varint_groups(y).take(k);
    let shift = (7 * i) as u32;
    if k > 0 {
        assert(y >= 0x80);
        let byte = ((y & 0x7f) | 0x80) as u8;
        assert(s[i] == byte);
        assert((((y & 0x7f) | 0x80) as u8) & 0x80 != 0) by (bit_vector);
        assert(shift == 28 && y <= (0xffff_ffffu32 >> shift) ==> y < 0x80) by (bit_vector);
        assert(shift <= 21 && y <= (0xffff_ffffu32 >> shift) ==> (y >> 7) <= (0xffff_ffffu32 >> (
        shift + 7) as u32) && (y >> 7) < y || y == 0) by (bit_vector);
        assert(i < 4 && shift <= 21);
        let next = acc | (varint_payload(byte) << shift);
        let pre2 = pre + seq![byte];
        assert(pre2 + varint_groups(y >> 7).take(k - 1) =~= s);
        varint_scan_cut(pre2, y >> 7, k - 1, i + 1, next);
    } else {
        assert(s.len() == i);
    }
}

/// A varint takes between one and five bytes.
pub proof fn varint_encoded_len(value: i32)
    ensures
        1 <= varint_encoded(value).len() <= 5,
{
    assert(0xffff_ffffu32 >> 0u32 == 0xffff_ffffu32) by (bit_vector);
    varint_scan_groups(Seq::empty(), value as u32, Seq::empty(), 0, 0);
}

/// Reading what `write_varint` wrote gives the value back, whatever follows
/// it, and takes exactly the bytes that were written.
pub proof fn varint_round_trip(value: i32, rest: Seq<u8>)
    ensures
        varint_decoded(varint_encoded(value) + rest) == Ok::<(i32, int), Error>(
            (value, varint_encoded(value).len() as int),
        ),
{
    let x = value as u32;
    assert(0xffff_ffffu32 >> 0u32 == 0xffff_ffffu32) by (bit_vector);
    varint_scan_groups(Seq::empty(), x, rest, 0, 0);
    assert(Seq::<u8>::empty() + varint_groups(x) + rest =~= varint_encoded(value) + rest);
    assert(((0u32 | ((value as u32) << 0u32)) as i32) == value) by (bit_vector);
}

/// A varint that was cut short reads as a short read, never as a value.
pub proof fn varint_prefix_is_short(value: i32, k: int)
    requires
        0 <= k < varint_encoded(value).len(),
    ensures
        varint_decoded(varint_encoded(value).take(k)) == Err::<(i32, int), Error>(short_read()),
{
    assert(0xffff_ffffu32 >> 0u32 == 0xffff_ffffu32) by (bit_vector);
    varint_scan_cut(Seq::empty(), value as u32, k, 0, 0);
    assert(Seq::<u8>::empty() + varint_groups(value as u32).take(k) =~= varint_encoded(value).take(k));
}

/// Zero is the single byte zero.
pub proof fn varint_zero()
    ensures
        varint_encoded(0i32) == seq![0u8],
{
    assert(varint_groups(0u32) =~= seq![0u8]);
}

/// Minus one, the pattern of 32 set bits, takes all five bytes.
pub proof fn varint_minus_one()
    ensures
        varint_encoded(-1i32) == seq![0xffu8, 0xffu8, 0xffu8, 0xffu8, 0x0fu8],
{
    assert((-1i32) as u32 == 0xffff_ffffu32) by (bit_vector);
    assert(((0xffff_ffffu32 & 0x7f) | 0x80) as u8 == 0xffu8) by (bit_vector);
    assert(0xffff_ffffu32 >> 7 == 0x01ff_ffffu32) by (bit_vector);
    assert(((0x01ff_ffffu32 & 0x7f) | 0x80) as u8 == 0xffu8) by (bit_vector);
    assert(0x01ff_ffffu32 >> 7 == 0x0003_ffffu32) by (bit_vector);
    assert(((0x0003_ffffu32 & 0x7f) | 0x80) as u8 == 0xffu8) by (bit_vector);
    assert(0x0003_ffffu32 >> 7 == 0x07ffu32) by (bit_vector);
    assert(((0x07ffu32 & 0x7f) | 0x80) as u8 == 0xffu8) by (bit_vector);
    assert(0x07ffu32 >> 7 == 0x0fu32) by (bit_vector);
    reveal_with_fuel(varint_groups, 6);
    assert(varint_groups(0xffff_ffffu32) =~= seq![0xffu8, 0xffu8, 0xffu8, 0xffu8, 0x0fu8]);
}

/// Five bytes that all announce a successor are no varint: the sixth is
/// never read.
pub proof fn varint_overlong(s: Seq<u8>)
    requires
        s.len() >= 5,
        forall|i: int| 0 <= i < 5 ==> varint_continues(#[trigger] s[i]),
    ensures
        varint_decoded(s) == Err::<(i32, int), Error>(Error::InvalidVarInt),
{
    reveal_with_fuel(varint_scan, 6);
    assert(varint_continues(s[0]) && varint_continues(s[1]) && varint_continues(s[2])
        && varint_continues(s[3]) && varint_continues(s[4]));
}

/// Reading what `write_string` wrote gives the string back, whatever
/// follows it, as long as the string is no longer than a reader accepts.
pub proof fn string_round_trip(chars: Seq<char>, rest: Seq<u8>)
    requires
        encode_utf8(chars).len() <= MAX_STRING_LEN,
    ensures
        string_decoded(string_encoded(chars) + rest) == Ok::<(Seq<char>, int), Error>(
            (chars, string_encoded(chars).len() as int),
        ),
{
    let bytes = encode_utf8(chars);
    let len = bytes.len() as i32;
    let head = varint_encoded(len);
    let s = string_encoded(chars) + rest;
    assert(s =~= head + (bytes + rest));
    varint_round_trip(len, bytes + rest);
    assert(s.subrange(head.len() as int, head.len() + len) =~= bytes);
    vstd::utf8::encode_utf8_valid_utf8(chars);
    vstd::utf8::encode_utf8_decode_utf8(chars);
}

/// A string of more bytes than a reader accepts is written, but not read
/// back: the reader refuses its length.
pub proof fn string_too_long(chars: Seq<char>, rest: Seq<u8>)
    requires
        MAX_STRING_LEN < encode_utf8(chars).len() <= i32::MAX,
    ensures
        string_decoded(string_encoded(chars) + rest) == Err::<(Seq<char>, int), Error>(
            Error::InvalidString,
        ),
{
    let bytes = encode_utf8(chars);
    let len = bytes.len() as i32;
    assert(string_encoded(chars) + rest =~= varint_encoded(len) + (bytes + rest));
    varint_round_trip(len, bytes + rest);
}

/// Reading what `write_unsigned_short` wrote gives the value back.
pub proof fn unsigned_short_round_trip(value: u16, rest: Seq<u8>)
    ensures
        unsigned_short_decoded(unsigned_short_encoded(value) + rest) == Ok::<(u16, int), Error>(
            (value, 2),
        ),
{
}

/// Reading what `write_long` wrote gives the value back.
pub proof fn long_round_trip(value: i64, rest: Seq<u8>)
    ensures
        long_decoded(long_encoded(value) + rest) == Ok::<(i64, int), Error>((value, 8)),
{
    let x = value as u64;
    let s = long_encoded(value) + rest;
    assert(s.take(8) =~= u64_bytes(x));
    let x1 = x / 256;
    let x2 = x1 / 256;
    let x3 = x2 / 256;
    let x4 = x3 / 256;
    let x5 = x4 / 256;
    let x6 = x5 / 256;
    let x7 = x6 / 256;
    assert(x7 < 256);
    assert(x6 == x7 % 256 * 256 + x6 % 256);
    assert(x5 == x6 * 256 + x5 % 256);
    assert(x4 == x5 * 256 + x4 % 256);
    assert(x3 == x4 * 256 + x3 % 256);
    assert(x2 == x3 * 256 + x2 % 256);
    assert(x1 == x2 * 256 + x1 % 256);
    assert(x == x1 * 256 + x % 256);
    assert(big_endian_u64(u64_bytes(x)) == x);
    assert((value as u64) as i64 == value) by (bit_vector);
}

/// Reading sixteen bytes as an identifier gives those bytes, whatever they
/// are.
pub proof fn uuid_round_trip(bytes: Seq<u8>, rest: Seq<u8>)
    requires
        bytes.len() == 16,
    ensures
        uuid_decoded(bytes + rest) == Ok::<(Seq<u8>, int), Error>((bytes, 16)),
{
    assert((bytes + rest).take(16) =~= bytes);
}

/// A text takes at most four bytes for each of its characters.
pub proof fn utf8_len_bound(chars: Seq<char>)
    ensures
        encode_utf8(chars).len() <= 4 * chars.len(),
    decreases chars.len(),
{
    if chars.len() > 0 {
        utf8_len_bound(chars.drop_first());
    }
}

/// A string takes at most five bytes for its length and four for each of its
/// characters.
pub proof fn string_encoded_len(chars: Seq<char>)
    ensures
        string_encoded(chars).len() <= 5 + 4 * chars.len(),
{
    utf8_len_bound(chars);
    varint_encoded_len(encode_utf8(chars).len() as i32);
}

/// A string that was read is no longer than a reader accepts.
pub proof fn string_decoded_len(s: Seq<u8>)
    ensures
        string_decoded(s) matches Ok((chars, n)) ==> encode_utf8(chars).len() <= MAX_STRING_LEN
            && 0 <= n <= s.len(),
{
    varint_decoded_len(s);
    if let Ok((len, n)) = varint_decoded(s) {
        if 0 <= len <= MAX_STRING_LEN && s.len() - n >= len && valid_utf8(
            s.subrange(n, n + len),
        ) {
            vstd::utf8::decode_utf8_encode_utf8(s.subrange(n, n + len));
        }
    }
}

} // verus!
