//! Arbitrary-precision naturals. The venue's prices are decimal strings that
//! may exceed any machine integer, so the arithmetic on them is done by
//! `num_bigint::BigUint`; this module states what is relied on of it.

use crate::decimal::{decimal_repr, decimal_value, is_decimal, lemma_repr_denotes};
use num_bigint::BigUint;
use num_traits::FromPrimitive;
use vstd::pervasive::unreached;
use vstd::prelude::*;

verus! {

/// `num_bigint::BigUint`, a natural number of any size.
#[verifier::external_type_specification]
#[verifier::external_body]
pub struct ExBigUint(BigUint);

/// The digits of a `BigUint` in base 2^32, least significant first, as
/// `BigUint::to_u32_digits` gives them.
pub uninterp spec fn biguint_digits(n: BigUint) -> Seq<u32>;

/// The number that base-2^32 digits denote, least significant first.
pub open spec fn limbs_value(digits: Seq<u32>) -> nat
    decreases digits.len(),
{
    if digits.len() == 0 {
        0
    } else {
        digits[0] as nat + 0x1_0000_0000 * limbs_value(digits.subrange(1, digits.len() as int))
    }
}

/// `BigUint::parse_bytes` on the bytes of `s`, in radix ten. It accepts an
/// optional plus sign, then a digit, then digits and underscores, and reads
/// the digits most significant first, passing over the underscores;
/// anything else gives `None`.
#[verifier::external_body]
fn biguint_parse(s: &str, radix: u32) -> (r: Option<BigUint>)
    requires
        radix == 10,
    ensures
        r is Some <==> is_decimal(s@),
        r matches Some(n) ==> limbs_value(biguint_digits(n)) == decimal_value(s@),
{
    BigUint::parse_bytes(s.as_bytes(), radix)
}

/// `FromPrimitive::from_i64` for `BigUint`: the same number where it is not
/// negative, `None` where it is.
#[verifier::external_body]
fn biguint_from_i64(n: i64) -> (r: Option<BigUint>)
    ensures
        r is Some <==> n >= 0,
        r matches Some(b) ==> limbs_value(biguint_digits(b)) == n,
{
    BigUint::from_i64(n)
}

/// The operator `+` of `BigUint` (`Add::add`): the sum, which cannot
/// overflow.
#[verifier::external_body]
fn biguint_add(a: BigUint, b: BigUint) -> (r: BigUint)
    ensures
        limbs_value(biguint_digits(r)) == limbs_value(biguint_digits(a)) + limbs_value(
            biguint_digits(b),
        ),
{
    a + b
}

/// The operator `/` of `BigUint` (`Div::div`): the quotient rounded down.
/// It panics on a divisor of zero, which the caller leaves out.
#[verifier::external_body]
fn biguint_div(a: BigUint, b: BigUint) -> (r: BigUint)
    requires
        limbs_value(biguint_digits(b)) != 0,
    ensures
        limbs_value(biguint_digits(r)) == limbs_value(biguint_digits(a)) / limbs_value(
            biguint_digits(b),
        ),
{
    a / b
}

/// `to_string` of `BigUint`, which prints through its `Display`: the
/// decimal digits, most significant first, without sign or leading zeros,
/// and `"0"` for zero.
#[verifier::external_body]
fn biguint_to_string(n: &BigUint) -> (s: String)
    ensures
        s@ == decimal_repr(limbs_value(biguint_digits(*n))),
{
    n.to_string()
}

/// The midpoint of two numbers, rounded down.
pub open spec fn midpoint(a: nat, b: nat) -> nat {
    (a + b) / 2
}

/// The midpoint lies between the two numbers and does not depend on their
/// order. It is half a unit below the exact mean where the sum is odd.
pub proof fn lemma_midpoint_between(a: nat, b: nat)
    ensures
        midpoint(a, b) == midpoint(b, a),
        a <= b ==> a <= midpoint(a, b) <= b,
        2 * midpoint(a, b) == a + b || 2 * midpoint(a, b) + 1 == a + b,
{
}

/// The mid price of the market: the midpoint, rounded down, of the best bid
/// and the best offer, each a decimal literal of any length, as the
/// canonical literal of that number.
///
/// Returns `None` exactly where one of the two is no decimal literal.
pub fn mid_price(best_bid: &str, best_offer: &str) -> (r: Option<String>)
    ensures
        r is Some <==> is_decimal(best_bid@) && is_decimal(best_offer@),
        r matches Some(p) ==> p@ == decimal_repr(
            midpoint(decimal_value(best_bid@), decimal_value(best_offer@)),
        ),
{
    let bid = match biguint_parse(best_bid, 10) {
        Some(n) => n,
        None => { return None; },
    };
    let ask = match biguint_parse(best_offer, 10) {
        Some(n) => n,
        None => { return None; },
    };
    match biguint_from_i64(2) {
        Some(two) => {
            let total = biguint_add(ask, bid);
            let mid = biguint_div(total, two);
            Some(biguint_to_string(&mid))
        },
        None => unreached(),
    }
}

/// A mid price is itself a decimal literal, and it denotes the midpoint of
/// the two prices.
pub proof fn lemma_mid_price_is_decimal(best_bid: Seq<char>, best_offer: Seq<char>)
    ensures
        is_decimal(decimal_repr(midpoint(decimal_value(best_bid), decimal_value(best_offer)))),
        decimal_value(decimal_repr(midpoint(decimal_value(best_bid), decimal_value(best_offer))))
            == midpoint(decimal_value(best_bid), decimal_value(best_offer)),
{
    lemma_repr_denotes(midpoint(decimal_value(best_bid), decimal_value(best_offer)));
}

} // verus!
