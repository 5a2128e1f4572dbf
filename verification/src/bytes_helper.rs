//! Decoding of the chain's signed byte quantities.

use crate::bigint::{be_value, bigint_value, from_i32};
use num_bigint::BigInt;
use num_bigint::Sign;
use vstd::prelude::*;
use vstd::slice::slice_subrange;

verus! {

/// Whether the sign marker of a quantity says "negative": the lowest bit of
/// its first byte. The other seven bits carry nothing.
pub open spec fn sign_marker(first: u8) -> bool {
    first % 2 == 1
}

/// The integer that a byte quantity stands for. With fewer than two bytes
/// there is no magnitude and the value is zero, whatever the marker says.
pub open spec fn decoded_value(bytes: Seq<u8>) -> int {
    if bytes.len() <= 1 {
        0
    } else if sign_marker(bytes[0]) {
        -(be_value(bytes.skip(1)) as int)
    } else {
        be_value(bytes.skip(1)) as int
    }
}

/// Decodes a sign-and-magnitude byte quantity. Every input has a value.
pub fn bytes_to_bigint(bytes: Vec<u8>) -> (n: BigInt)
    ensures
        bigint_value(n) == decoded_value(bytes@),
        bytes@.len() <= 1 ==> bigint_value(n) == 0,
{
    if bytes.len() <= 1 {
        return from_i32(0);
    }
    let first: u8 = bytes[0];
    assert((first & 1 == 1) == (first % 2 == 1)) by (bit_vector);
    let sign = if first & 1 == 1 { Sign::Minus } else { Sign::Plus };
    let magnitude = slice_subrange(bytes.as_slice(), 1, bytes.len());
    assert(magnitude@ == bytes@.skip(1));
    BigInt::from_bytes_be(sign, magnitude)
}

/// Of the first byte only the lowest bit counts: two quantities with the
/// same magnitude bytes and the same marker bit stand for the same integer.
pub proof fn lemma_only_the_marker_bit_counts(a: Seq<u8>, b: Seq<u8>)
    requires
        a.len() == b.len(),
        a.len() >= 1,
        a.skip(1) == b.skip(1),
        sign_marker(a[0]) == sign_marker(b[0]),
    ensures
        decoded_value(a) == decoded_value(b),
{
}

/// Two quantities with the same magnitude bytes and different marker bits
/// stand for opposite integers; so zero has no sign.
pub proof fn lemma_marker_negates(a: Seq<u8>, b: Seq<u8>)
    requires
        a.len() == b.len(),
        a.len() >= 1,
        a.skip(1) == b.skip(1),
        sign_marker(a[0]) != sign_marker(b[0]),
    ensures
        decoded_value(a) == -decoded_value(b),
{
}

} // verus!
