//! Numbers in messages.

use vstd::prelude::*;

verus! {

/// The digits of a natural number in decimal, the most significant first.
pub open spec fn digits(n: nat) -> Seq<char>
    decreases n,
{
    if n < 10 {
        seq![(48 + n) as char]
    } else {
        digits(n / 10).push((48 + n % 10) as char)
    }
}

/// A whole number in decimal: its digits, after a minus sign if it is
/// negative.
pub open spec fn decimal(n: int) -> Seq<char> {
    if n < 0 {
        seq!['-'] + digits((-n) as nat)
    } else {
        digits(n as nat)
    }
}

/// `to_string` on an `i32`: the number in decimal.
#[verifier::external_body]
pub(crate) fn decimal_string(value: i32) -> (r: String)
    ensures
        r@ == decimal(value as int),
{
    value.to_string()
}

} // verus!
