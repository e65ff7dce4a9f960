//! Conversion between on-chain prices and the store's decimal price type.
//!
//! On-chain prices are unsigned 128-bit integers; the store keeps them as
//! arbitrary-precision decimals. The conversion must preserve the full
//! magnitude, so the decimal produced for a price is named by `dec_of` and the
//! inverse conversion is contracted to recover the exact integer, which makes
//! the round trip below a verified fact rather than a convention.

use vstd::prelude::*;

verus! {

/// bigdecimal's arbitrary-precision decimal, declared so that values of it
/// can pass through signatures; the verifier sees nothing inside one.
#[verifier::external_type_specification]
#[verifier::external_body]
pub struct ExBigDecimal(bigdecimal::BigDecimal);

/// The decimal that represents the unsigned 128-bit integer `v`.
pub uninterp spec fn dec_of(v: u128) -> bigdecimal::BigDecimal;

/// Relies on `num_bigint::BigInt::from::<u128>` (exact for every `u128`) and
/// `bigdecimal::BigDecimal::new(digits, 0)`, which denotes the integer
/// `digits` itself.
#[verifier::external_body]
pub fn u128_to_bigdecimal(v: u128) -> (r: bigdecimal::BigDecimal)
    ensures
        r == dec_of(v),
{
    bigdecimal::BigDecimal::new(num_bigint::BigInt::from(v), 0)
}

/// Relies on `bigdecimal::BigDecimal::to_bigint` (returns the integer part,
/// which for a decimal holding an integer is that integer) and on
/// `num_bigint::BigInt::to_u128` (returns `Some` exactly when the integer
/// fits an unsigned 128-bit value).
#[verifier::external_body]
pub fn bigdecimal_to_u128(d: &bigdecimal::BigDecimal) -> (r: Option<u128>)
    ensures
        forall|v: u128| *d == dec_of(v) ==> r == Some(v),
{
    match num_bigint::ToBigInt::to_bigint(d) {
        Some(b) => num_traits::ToPrimitive::to_u128(&b),
        None => None,
    }
}

/// A wide unsigned integer price survives the trip into the decimal price
/// type and back without precision loss.
pub fn price_round_trip(v: u128) -> (r: Option<u128>)
    ensures
        r == Some(v),
{
    let d = u128_to_bigdecimal(v);
    bigdecimal_to_u128(&d)
}

} // verus!
