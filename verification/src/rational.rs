//! Exact arbitrary-precision arithmetic for prices.
//!
//! Reserves are `num_bigint::BigUint` values and prices are
//! `num_rational::BigRational` values, exactly as the exchange reports them.
//! Both types are opaque here; `big_uint_value`, `rational_numer` and
//! `rational_denom` name the mathematical content of a value, and a small set
//! of wrappers carries the contracts of the arithmetic the resolver performs.

use vstd::prelude::*;
use num_bigint::ToBigInt;
use num_traits::FromPrimitive;
use num_traits::Inv;
use num_traits::Zero;

verus! {

#[verifier::external_type_specification]
#[verifier::external_body]
pub struct ExBigUint(num_bigint::BigUint);

#[verifier::external_type_specification]
#[verifier::external_body]
pub struct ExBigInt(num_bigint::BigInt);

#[verifier::external_type_specification]
#[verifier::external_body]
#[verifier::reject_recursive_types(T)]
pub struct ExRatio<T>(num_rational::Ratio<T>);

/// The natural number a `BigUint` stands for.
pub uninterp spec fn big_uint_value(b: num_bigint::BigUint) -> nat;

/// The numerator a `BigRational` holds.
pub uninterp spec fn rational_numer(r: num_rational::BigRational) -> int;

/// The denominator a `BigRational` holds.
pub uninterp spec fn rational_denom(r: num_rational::BigRational) -> int;

/// Ten to the power `e`: the scaling factor attached to a token's decimal count.
pub open spec fn pow10(e: nat) -> int {
    vstd::arithmetic::power::pow(10, e)
}

pub proof fn lemma_pow10_positive(e: nat)
    ensures
        pow10(e) > 0,
{
    vstd::arithmetic::power::lemma_pow_positive(10, e);
}

/// `r` stands for the rational number `num / den`.
pub open spec fn rat_is(r: num_rational::BigRational, num: int, den: int) -> bool {
    &&& rational_denom(r) > 0
    &&& rational_numer(r) * den == num * rational_denom(r)
}

/// Relies on `Clone::clone` for `num_bigint::BigUint`: the copy stands for the
/// same natural number.
#[verifier::external_body]
pub(crate) fn big_uint_clone(b: &num_bigint::BigUint) -> (r: num_bigint::BigUint)
    ensures
        big_uint_value(r) == big_uint_value(*b),
{
    b.clone()
}

/// Relies on `num_traits::Zero::is_zero` for `num_bigint::BigUint`: true
/// exactly of the value zero.
#[verifier::external_body]
pub(crate) fn big_uint_is_zero(b: &num_bigint::BigUint) -> (r: bool)
    ensures
        r == (big_uint_value(*b) == 0),
{
    b.is_zero()
}

/// Relies on `Mul` for `num_bigint::BigUint`: exact product.
#[verifier::external_body]
pub(crate) fn big_uint_mul(a: &num_bigint::BigUint, b: &num_bigint::BigUint) -> (r: num_bigint::BigUint)
    ensures
        big_uint_value(r) == big_uint_value(*a) * big_uint_value(*b),
{
    a * b
}

/// Relies on `num_bigint::BigUint::pow`: exact exponentiation of ten.
#[verifier::external_body]
pub(crate) fn big_uint_pow10(exponent: u32) -> (r: num_bigint::BigUint)
    ensures
        big_uint_value(r) == pow10(exponent as nat),
{
    num_bigint::BigUint::from(10u8).pow(exponent)
}

/// Relies on `num_rational::BigRational::from_i8` (via `num_traits::FromPrimitive`):
/// the rational one, held as 1/1.
#[verifier::external_body]
pub(crate) fn rational_one() -> (r: num_rational::BigRational)
    ensures
        rational_numer(r) == 1,
        rational_denom(r) == 1,
{
    num_rational::BigRational::from_i8(1).unwrap()
}

/// Relies on `num_rational::BigRational::new`: the result is reduced, keeps a
/// positive denominator, and stands for `numer / denom`. It panics on a zero
/// denominator, which the precondition rules out.
#[verifier::external_body]
pub(crate) fn rational_from_parts(numer: num_bigint::BigUint, denom: num_bigint::BigUint) -> (r: num_rational::BigRational)
    requires
        big_uint_value(denom) != 0,
    ensures
        rational_denom(r) > 0,
        rational_numer(r) >= 0,
        rational_numer(r) * big_uint_value(denom) == big_uint_value(numer) * rational_denom(r),
        rational_numer(r) == 0 <==> big_uint_value(numer) == 0,
{
    num_rational::BigRational::new(numer.to_bigint().unwrap(), denom.to_bigint().unwrap())
}

/// Relies on `num_traits::Inv::inv` for `num_rational::BigRational`: the
/// reciprocal. It panics on a zero numerator, which the precondition rules out.
#[verifier::external_body]
pub(crate) fn rational_inv(a: num_rational::BigRational) -> (r: num_rational::BigRational)
    requires
        rational_numer(a) > 0,
        rational_denom(a) > 0,
    ensures
        rational_denom(r) > 0,
        rational_numer(r) > 0,
        rational_numer(r) * rational_numer(a) == rational_denom(a) * rational_denom(r),
{
    a.inv()
}

/// Relies on `Mul` for `num_rational::BigRational`: the exact product, reduced,
/// with a positive denominator.
#[verifier::external_body]
pub(crate) fn rational_mul(a: num_rational::BigRational, b: num_rational::BigRational) -> (r: num_rational::BigRational)
    requires
        rational_denom(a) > 0,
        rational_denom(b) > 0,
    ensures
        rational_denom(r) > 0,
        rational_numer(r) * (rational_denom(a) * rational_denom(b)) == (rational_numer(a) * rational_numer(b)) * rational_denom(r),
        rational_numer(a) >= 0 && rational_numer(b) >= 0 ==> rational_numer(r) >= 0,
{
    a * b
}

} // verus!
