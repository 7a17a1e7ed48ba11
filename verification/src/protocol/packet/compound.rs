//! Field codecs made of other field codecs: fields in a row, an optional
//! field, and a counted list.

use crate::protocol::error::{Error, Result};
use crate::protocol::packet::data::{bool_decoded, bool_encoded, PacketData};
use crate::protocol::packet::raw_data::{
    read_varint, varint_decoded, varint_decoded_len, varint_encoded, varint_round_trip,
    write_varint, Parsed,
};
use vstd::prelude::*;

verus! {

/// What is read when `first` has been read from the front of `s` and `then`
/// is read from what follows it.
pub open spec fn chained<A, B>(first: Parsed<A>, then: spec_fn(int) -> Parsed<B>) -> Parsed<(A, B)> {
    match first {
        Err(e) => Err(e),
        Ok((a, n)) => match then(n) {
            Err(e) => Err(e),
            Ok((b, m)) => Ok(((a, b), n + m)),
        },
    }
}

impl PacketData for () {
    open spec fn decoded(s: Seq<u8>) -> Parsed<()> {
        Ok(((), 0))
    }

    open spec fn encoded(value: ()) -> Seq<u8> {
        Seq::empty()
    }

    open spec fn portable(value: (), rest: Seq<u8>) -> bool {
        true
    }

    proof fn decoded_len(s: Seq<u8>) {
    }

    proof fn round_trip(value: (), rest: Seq<u8>) {
    }

    fn read(buffer: &mut &[u8]) -> (r: Result<Self>) {
        proof {
            assert(old(buffer)@.skip(0) =~= old(buffer)@);
        }
        Ok(())
    }

    fn write(&self, buffer: &mut Vec<u8>) -> (r: Result<()>) {
        proof {
            assert(buffer@ =~= old(buffer)@ + Seq::<u8>::empty());
        }
        Ok(())
    }
}

impl<A: PacketData, B: PacketData> PacketData for (A, B) {
    open spec fn decoded(s: Seq<u8>) -> Parsed<(A::V, B::V)> {
        chained(A::decoded(s), |n: int| B::decoded(s.skip(n)))
    }

    open spec fn encoded(value: (A::V, B::V)) -> Seq<u8> {
        A::encoded(value.0) + B::encoded(value.1)
    }

    open spec fn portable(value: (A::V, B::V), rest: Seq<u8>) -> bool {
        A::portable(value.0, B::encoded(value.1) + rest) && B::portable(value.1, rest)
    }

    proof fn decoded_len(s: Seq<u8>) {
        A::decoded_len(s);
        if let Ok((_, n)) = A::decoded(s) {
            B::decoded_len(s.skip(n));
        }
    }

    proof fn round_trip(value: (A::V, B::V), rest: Seq<u8>) {
        let a = A::encoded(value.0);
        let b = B::encoded(value.1);
        A::round_trip(value.0, b + rest);
        B::round_trip(value.1, rest);
        assert(a + b + rest =~= a + (b + rest));
        assert((a + (b + rest)).skip(a.len() as int) =~= b + rest);
    }

    fn read(buffer: &mut &[u8]) -> (r: Result<Self>) {
        let mut cur: &[u8] = *buffer;
        proof {
            A::decoded_len(cur@);
        }
        let a = A::read(&mut cur)?;
        let ghost mid = cur@;
        proof {
            B::decoded_len(mid);
        }
        let b = B::read(&mut cur)?;
        proof {
            let n = A::decoded(old(buffer)@)->Ok_0.1;
            let m = B::decoded(mid)->Ok_0.1;
            assert(cur@ =~= old(buffer)@.skip(n + m));
        }
        *buffer = cur;
        Ok((a, b))
    }

    fn write(&self, buffer: &mut Vec<u8>) -> (r: Result<()>) {
        self.0.write(buffer)?;
        self.1.write(buffer)?;
        proof {
            assert(buffer@ =~= old(buffer)@ + Self::encoded(self.deep_view()));
        }
        Ok(())
    }
}

/// An optional field: a boolean that says whether the value is there, then
/// the value if it is.
impl<T: PacketData> PacketData for Option<T> {
    open spec fn decoded(s: Seq<u8>) -> Parsed<Option<T::V>> {
        match bool_decoded(s) {
            Err(e) => Err(e),
            Ok((false, n)) => Ok((None, n)),
            Ok((true, n)) => match T::decoded(s.skip(n)) {
                Err(e) => Err(e),
                Ok((value, m)) => Ok((Some(value), n + m)),
            },
        }
    }

    open spec fn encoded(value: Option<T::V>) -> Seq<u8> {
        match value {
            None => bool_encoded(false),
            Some(inner) => bool_encoded(true) + T::encoded(inner),
        }
    }

    open spec fn portable(value: Option<T::V>, rest: Seq<u8>) -> bool {
        value matches Some(inner) ==> T::portable(inner, rest)
    }

    proof fn decoded_len(s: Seq<u8>) {
        if s.len() >= 1 {
            T::decoded_len(s.skip(1));
        }
    }

    proof fn round_trip(value: Option<T::V>, rest: Seq<u8>) {
        match value {
            None => {},
            Some(inner) => {
                let s = bool_encoded(true) + T::encoded(inner) + rest;
                assert(s.skip(1) =~= T::encoded(inner) + rest);
                T::round_trip(inner, rest);
            },
        }
    }

    fn read(buffer: &mut &[u8]) -> (r: Result<Self>) {
        let mut cur: &[u8] = *buffer;
        let present = bool::read(&mut cur)?;
        if !present {
            *buffer = cur;
            return Ok(None);
        }
        let ghost mid = cur@;
        proof {
            T::decoded_len(mid);
        }
        let value = T::read(&mut cur)?;
        proof {
            let m = T::decoded(mid)->Ok_0.1;
            assert(cur@ =~= old(buffer)@.skip(1 + m));
        }
        *buffer = cur;
        Ok(Some(value))
    }

    fn write(&self, buffer: &mut Vec<u8>) -> (r: Result<()>) {
        match self {
            None => {
                false.write(buffer)?;
            },
            Some(inner) => {
                true.write(buffer)?;
                inner.write(buffer)?;
                proof {
                    assert(buffer@ =~= old(buffer)@ + Self::encoded(self.deep_view()));
                }
            },
        }
        Ok(())
    }
}

/// `count` items in a row at the front of `s`.
pub open spec fn items_decoded<T: PacketData>(s: Seq<u8>, count: nat) -> Parsed<Seq<T::V>>
    decreases count,
{
    if count == 0 {
        Ok((Seq::empty(), 0))
    } else {
        match T::decoded(s) {
            Err(e) => Err(e),
            Ok((first, n)) => match items_decoded::<T>(s.skip(n), (count - 1) as nat) {
                Err(e) => Err(e),
                Ok((others, m)) => Ok((seq![first] + others, n + m)),
            },
        }
    }
}

/// The bytes of items in a row.
pub open spec fn items_encoded<T: PacketData>(items: Seq<T::V>) -> Seq<u8>
    decreases items.len(),
{
    if items.len() == 0 {
        Seq::empty()
    } else {
        T::encoded(items[0]) + items_encoded::<T>(items.skip(1))
    }
}

/// Whether each of the items, written in a row in front of `rest`, can be
/// read back.
pub open spec fn items_portable<T: PacketData>(items: Seq<T::V>, rest: Seq<u8>) -> bool
    decreases items.len(),
{
    items.len() == 0 || (T::portable(items[0], items_encoded::<T>(items.skip(1)) + rest)
        && items_portable::<T>(items.skip(1), rest))
}

/// The number of items that a list with the count `count` holds: a negative
/// count announces none.
pub open spec fn announced(count: i32) -> nat {
    if count < 0 {
        0
    } else {
        count as nat
    }
}

/// The list at the front of `s`: a varint count, then that many items.
pub open spec fn list_decoded<T: PacketData>(s: Seq<u8>) -> Parsed<Seq<T::V>> {
    match varint_decoded(s) {
        Err(e) => Err(e),
        Ok((count, n)) => match items_decoded::<T>(s.skip(n), announced(count)) {
            Err(e) => Err(e),
            Ok((items, m)) => Ok((items, n + m)),
        },
    }
}

/// The bytes of a list: the count of its items as a varint, then the items.
/// A count that does not fit in 32 bits is cut down to them.
pub open spec fn list_encoded<T: PacketData>(items: Seq<T::V>) -> Seq<u8> {
    varint_encoded(items.len() as i32) + items_encoded::<T>(items)
}

/// Items that were read took up bytes that were there, and are as many as
/// were asked for.
pub proof fn items_decoded_len<T: PacketData>(s: Seq<u8>, count: nat)
    ensures
        items_decoded::<T>(s, count) matches Ok((items, n)) ==> 0 <= n <= s.len() && items.len()
            == count,
    decreases count,
{
    if count > 0 {
        T::decoded_len(s);
        if let Ok((_, n)) = T::decoded(s) {
            items_decoded_len::<T>(s.skip(n), (count - 1) as nat);
        }
    }
}

/// Writing one more item appends its bytes.
pub proof fn items_encoded_push<T: PacketData>(items: Seq<T::V>, last: T::V)
    ensures
        items_encoded::<T>(items.push(last)) == items_encoded::<T>(items) + T::encoded(last),
    decreases items.len(),
{
    let all = items.push(last);
    if items.len() == 0 {
        assert(all.skip(1) =~= Seq::<T::V>::empty());
        assert(items_encoded::<T>(all.skip(1)) =~= Seq::<u8>::empty());
        assert(items_encoded::<T>(items) =~= Seq::<u8>::empty());
        assert(items_encoded::<T>(all) =~= T::encoded(last));
        assert(items_encoded::<T>(items) + T::encoded(last) =~= T::encoded(last));
    } else {
        assert(all.skip(1) =~= items.skip(1).push(last));
        items_encoded_push::<T>(items.skip(1), last);
        assert(items_encoded::<T>(all) =~= items_encoded::<T>(items) + T::encoded(last));
    }
}

/// Reading as many items as were written gives them back.
pub proof fn items_round_trip<T: PacketData>(items: Seq<T::V>, rest: Seq<u8>)
    requires
        items_portable::<T>(items, rest),
    ensures
        items_decoded::<T>(items_encoded::<T>(items) + rest, items.len()) == Ok::<
            (Seq<T::V>, int),
            Error,
        >((items, items_encoded::<T>(items).len() as int)),
    decreases items.len(),
{
    if items.len() == 0 {
        assert(items =~= Seq::<T::V>::empty());
    } else {
        let head = T::encoded(items[0]);
        let tail = items_encoded::<T>(items.skip(1));
        let s = items_encoded::<T>(items) + rest;
        assert(s =~= head + (tail + rest));
        T::round_trip(items[0], tail + rest);
        assert(s.skip(head.len() as int) =~= tail + rest);
        items_round_trip::<T>(items.skip(1), rest);
        assert(seq![items[0]] + items.skip(1) =~= items);
    }
}

impl<T: PacketData> PacketData for Vec<T> {
    open spec fn decoded(s: Seq<u8>) -> Parsed<Seq<T::V>> {
        list_decoded::<T>(s)
    }

    open spec fn encoded(value: Seq<T::V>) -> Seq<u8> {
        list_encoded::<T>(value)
    }

    open spec fn portable(value: Seq<T::V>, rest: Seq<u8>) -> bool {
        value.len() <= i32::MAX && items_portable::<T>(value, rest)
    }

    proof fn decoded_len(s: Seq<u8>) {
        varint_decoded_len(s);
        if let Ok((count, n)) = varint_decoded(s) {
            items_decoded_len::<T>(s.skip(n), announced(count));
        }
    }

    proof fn round_trip(value: Seq<T::V>, rest: Seq<u8>) {
        let count = value.len() as i32;
        let head = varint_encoded(count);
        let body = items_encoded::<T>(value);
        let s = list_encoded::<T>(value) + rest;
        assert(s =~= head + (body + rest));
        varint_round_trip(count, body + rest);
        assert(s.skip(head.len() as int) =~= body + rest);
        items_round_trip::<T>(value, rest);
    }

    fn read(buffer: &mut &[u8]) -> (r: Result<Self>) {
        let mut cur: &[u8] = *buffer;
        let count = read_varint(&mut cur)?;
        let ghost head = varint_decoded(old(buffer)@)->Ok_0.1;
        let ghost start = cur@;
        let ghost total = announced(count);
        let ghost taken: int = 0;
        let mut out: Vec<T> = Vec::new();
        let mut i: i32 = 0;
        proof {
            varint_decoded_len(old(buffer)@);
            assert(start.skip(0) =~= start);
            assert(out.deep_view() =~= Seq::<T::V>::empty());
        }
        while i < count
            invariant
                0 <= i,
                i <= total,
                total == announced(count),
                varint_decoded(old(buffer)@) == Ok::<(i32, int), Error>((count, head)),
                0 <= head <= old(buffer)@.len(),
                start == old(buffer)@.skip(head),
                *buffer == *old(buffer),
                out@.len() == i,
                0 <= taken <= start.len(),
                cur@ == start.skip(taken),
                items_decoded::<T>(start, total) == match items_decoded::<T>(
                    cur@,
                    (total - i) as nat,
                ) {
                    Err(e) => Err::<(Seq<T::V>, int), Error>(e),
                    Ok((others, m)) => Ok((out.deep_view() + others, taken + m)),
                },
            decreases count - i,
        {
            let ghost before = cur@;
            let ghost sofar = out.deep_view();
            proof {
                T::decoded_len(before);
            }
            let item = T::read(&mut cur)?;
            out.push(item);
            proof {
                let n = T::decoded(before)->Ok_0.1;
                assert(out.deep_view() =~= sofar.push(item.deep_view()));
                assert(cur@ =~= start.skip(taken + n));
                match items_decoded::<T>(cur@, (total - i - 1) as nat) {
                    Err(e) => {},
                    Ok((others, m)) => {
                        assert(sofar + (seq![item.deep_view()] + others) =~= out.deep_view()
                            + others);
                    },
                }
                taken = taken + n;
            }
            i += 1;
        }
        proof {
            assert(out.deep_view() + Seq::<T::V>::empty() =~= out.deep_view());
            assert(cur@ =~= old(buffer)@.skip(head + taken));
        }
        *buffer = cur;
        Ok(out)
    }

    fn write(&self, buffer: &mut Vec<u8>) -> (r: Result<()>) {
        let items = self.as_slice();
        proof {
            assert(items.deep_view() =~= self.deep_view());
        }
        write_varint_prefixed_array(buffer, items)
    }
}

/// Appends a list: the count of its items, then each item as its codec
/// lays it out.
pub fn write_varint_prefixed_array<T: PacketData>(buffer: &mut Vec<u8>, array: &[T]) -> (r: Result<
    (),
>)
    ensures
        r.is_ok(),
        final(buffer)@ == old(buffer)@ + list_encoded::<T>(array.deep_view()),
{
    write_varint(buffer, #[verifier::truncate] (array.len() as i32))?;
    let ghost head = buffer@;
    let ghost items = array.deep_view();
    let mut i: usize = 0;
    proof {
        assert(items.take(0) =~= Seq::<T::V>::empty());
        assert(head + items_encoded::<T>(items.take(0)) =~= head);
    }
    while i < array.len()
        invariant
            i <= array@.len(),
            items == array.deep_view(),
            buffer@ == head + items_encoded::<T>(items.take(i as int)),
        decreases array@.len() - i,
    {
        array[i].write(buffer)?;
        proof {
            items_encoded_push::<T>(items.take(i as int), items[i as int]);
            assert(items.take(i + 1) =~= items.take(i as int).push(items[i as int]));
            assert(buffer@ =~= head + items_encoded::<T>(items.take(i + 1)));
        }
        i += 1;
    }
    proof {
        assert(items.take(i as int) =~= items);
        assert(buffer@ =~= old(buffer)@ + list_encoded::<T>(items));
    }
    Ok(())
}

} // verus!
