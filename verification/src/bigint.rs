//! The arbitrary-precision integer that the crate hands out, and the few
//! operations on it that are taken on trust from `num_bigint`.

use crate::decimal::{decimal_value, is_canonical_decimal, is_decimal_numeral};
use num_bigint::BigInt;
use num_bigint::ParseBigIntError;
use num_bigint::Sign;
use vstd::prelude::*;

verus! {

/// `num_bigint::BigInt`, a signed integer of any size. Nothing inside it is
/// seen here; `bigint_value` names the integer it holds.
#[verifier::external_type_specification]
#[verifier::external_body]
pub struct ExBigInt(num_bigint::BigInt);

/// `num_bigint::Sign`, with its three variants.
#[verifier::external_type_specification]
pub struct ExSign(num_bigint::Sign);

/// `num_bigint::ParseBigIntError`, which the crate's parser fails with.
#[verifier::external_type_specification]
#[verifier::external_body]
pub struct ExParseBigIntError(num_bigint::ParseBigIntError);

/// The mathematical integer that a `BigInt` holds.
pub uninterp spec fn bigint_value(n: BigInt) -> int;

/// The number that `bytes` spell as base-256 digits, most significant first.
pub open spec fn be_value(bytes: Seq<u8>) -> nat
    decreases bytes.len(),
{
    if bytes.len() == 0 {
        0
    } else {
        be_value(bytes.drop_last()) * 256 + bytes.last() as nat
    }
}

/// `BigInt::from_bytes_be`: the magnitude is the big-endian reading of
/// `bytes`, negated under `Sign::Minus` and forced to zero under
/// `Sign::NoSign`. No input panics.
pub assume_specification[ BigInt::from_bytes_be ](sign: Sign, bytes: &[u8]) -> (n: BigInt)
    ensures
        bigint_value(n) == match sign {
            Sign::Minus => -(be_value(bytes@) as int),
            Sign::NoSign => 0,
            Sign::Plus => be_value(bytes@) as int,
        },
;

/// `BigInt::from` on an `i32`: the same number, widened.
#[verifier::external_body]
pub(crate) fn from_i32(x: i32) -> (n: BigInt)
    ensures
        bigint_value(n) == x,
{
    BigInt::from(x)
}

/// `==` on two `BigInt`s: whether they hold the same integer. A `BigInt`
/// keeps zero without a sign, so equal numbers have equal parts.
#[verifier::external_body]
pub(crate) fn same_value(a: &BigInt, b: &BigInt) -> (same: bool)
    ensures
        same == (bigint_value(*a) == bigint_value(*b)),
{
    a == b
}

/// `clone` on a `BigInt`: a second `BigInt` that holds the same integer.
pub assume_specification[ <BigInt as Clone>::clone ](n: &BigInt) -> (copy: BigInt)
    ensures
        bigint_value(copy) == bigint_value(*n),
;

/// `to_string` on a `BigInt`, which goes through its `Display`: the digits
/// of the magnitude in base ten without leading zeros, `0` for zero, and a
/// minus sign in front of a negative number.
#[verifier::external_body]
pub(crate) fn to_decimal_string(n: &BigInt) -> (text: String)
    ensures
        is_canonical_decimal(text@),
        decimal_value(text@) == bigint_value(*n),
{
    n.to_string()
}

/// `str::parse::<BigInt>`, which reads base ten. Stated only of decimal
/// numerals (an optional minus sign, then digits): on those it succeeds
/// with the number they denote. It also takes a plus sign and underscores
/// between digits, of which nothing is said here.
#[verifier::external_body]
pub(crate) fn parse_decimal(text: &str) -> (r: Result<BigInt, ParseBigIntError>)
    ensures
        is_decimal_numeral(text@) ==> r is Ok && bigint_value(r->Ok_0) == decimal_value(text@),
{
    text.parse::<BigInt>()
}

} // verus!
