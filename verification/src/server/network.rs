//! Writers for code that builds a packet by hand in a vector.

use crate::protocol::error::Result;
use crate::protocol::packet::raw_data::{
    string_encoded, varint_encoded, write_string, write_varint,
};
use vstd::prelude::*;

verus! {

pub fn write_varint_to_vec(vec: &mut Vec<u8>, value: i32) -> (r: Result<()>)
    ensures
        r.is_ok(),
        final(vec)@ == old(vec)@ + varint_encoded(value),
{
    write_varint(vec, value)
}

pub fn write_string_to_vec(vec: &mut Vec<u8>, value: &str) -> (r: Result<()>)
    ensures
        r.is_ok(),
        final(vec)@ == old(vec)@ + string_encoded(value@),
{
    write_string(vec, value)
}

} // verus!
