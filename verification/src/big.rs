//! Arbitrary-precision naturals, as `num_bigint::BigUint` provides them.
//!
//! The arithmetic itself is not proved here: each function below hands its
//! arguments to `num_bigint` and states what that crate returns, over the
//! bytes that a `BigUint` holds and the number `be_nat` that they denote.

use num_bigint::BigUint;
use vstd::prelude::*;

verus! {

/// `num_bigint::BigUint`, carried as an opaque value.
#[verifier::external_type_specification]
#[verifier::external_body]
pub struct ExBigUint(num_bigint::BigUint);

/// What a `BigUint` holds: its digits in base 256, most significant first,
/// as `BigUint::to_bytes_be` gives them out. They depend on the number alone,
/// not on the digit size that the machine computes with.
pub uninterp spec fn big_bytes(n: BigUint) -> Seq<u8>;

/// The number that a byte string denotes, most significant byte first.
pub open spec fn be_nat(bytes: Seq<u8>) -> nat
    decreases bytes.len(),
{
    if bytes.len() == 0 {
        0
    } else {
        be_nat(bytes.drop_last()) * 256 + bytes.last() as nat
    }
}

/// The natural number that a `BigUint` stands for.
pub open spec fn big_value(n: BigUint) -> nat {
    be_nat(big_bytes(n))
}

/// The numbers that a sequence of `BigUint`s stands for, in order.
pub open spec fn big_values(s: Seq<BigUint>) -> Seq<nat> {
    s.map_values(|n: BigUint| big_value(n))
}

/// `BigUint::from_bytes_be`: the number whose base-256 digits are `bytes`,
/// most significant first; the empty string gives zero.
#[verifier::external_body]
pub(crate) fn big_from_bytes_be(bytes: &[u8]) -> (r: BigUint)
    ensures
        be_nat(big_bytes(r)) == be_nat(bytes@),
{
    BigUint::from_bytes_be(bytes)
}

/// `<BigUint as Default>::default`: zero.
#[verifier::external_body]
pub(crate) fn big_zero() -> (r: BigUint)
    ensures
        be_nat(big_bytes(r)) == 0,
{
    BigUint::default()
}

/// `<BigUint as Clone>::clone`: a copy that stands for the same number.
#[verifier::external_body]
pub(crate) fn big_clone(a: &BigUint) -> (r: BigUint)
    ensures
        be_nat(big_bytes(r)) == be_nat(big_bytes(*a)),
{
    a.clone()
}

/// `<&BigUint as Add<&BigUint>>::add`: the exact sum, which never overflows.
#[verifier::external_body]
pub(crate) fn big_add(a: &BigUint, b: &BigUint) -> (r: BigUint)
    ensures
        be_nat(big_bytes(r)) == be_nat(big_bytes(*a)) + be_nat(big_bytes(*b)),
{
    a + b
}

/// `<&BigUint as Mul<&BigUint>>::mul`: the exact product, which never overflows.
#[verifier::external_body]
pub(crate) fn big_mul(a: &BigUint, b: &BigUint) -> (r: BigUint)
    ensures
        be_nat(big_bytes(r)) == be_nat(big_bytes(*a)) * be_nat(big_bytes(*b)),
{
    a * b
}

/// `<BigUint as Rem<&BigUint>>::rem`: the remainder of `a` on division by `m`.
/// The outside function panics on a zero divisor, which `requires` leaves out.
#[verifier::external_body]
pub(crate) fn big_rem(a: BigUint, m: &BigUint) -> (r: BigUint)
    requires
        be_nat(big_bytes(*m)) > 0,
    ensures
        be_nat(big_bytes(r)) == be_nat(big_bytes(a)) % be_nat(big_bytes(*m)),
{
    a % m
}

/// A byte appended becomes the least significant digit: what stood before
/// counts 256 times, and the byte is added.
pub proof fn lemma_be_nat_push(bytes: Seq<u8>, b: u8)
    ensures
        be_nat(bytes.push(b)) == be_nat(bytes) * 256 + b as nat,
{
    assert(bytes.push(b).drop_last() =~= bytes);
}

} // verus!
