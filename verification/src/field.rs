//! The prime field: its modulus and the three maps on it, as mathematics.

use vstd::arithmetic::div_mod::{
    lemma_add_mod_noop_right, lemma_mod_bound, lemma_mul_mod_noop, lemma_mul_mod_noop_general,
};
use vstd::arithmetic::power::{lemma_pow1, lemma_pow_adds, pow};
use vstd::prelude::*;

verus! {

/// The field's modulus, a prime of 253 bits.
pub open spec fn modulus() -> nat {
    0x12ab655e9a2ca55660b44d1e5c37b00159aa76fed00000010a11800000000001nat
}

/// The numbers of `cs`, each reduced by the modulus.
pub open spec fn residues(cs: Seq<nat>) -> Seq<nat> {
    cs.map_values(|c: nat| c % modulus())
}

/// Addition in the field.
pub open spec fn add_mod(a: nat, b: nat) -> nat {
    (a + b) % modulus()
}

/// Multiplication in the field.
pub open spec fn mul_mod(a: nat, b: nat) -> nat {
    (a * b) % modulus()
}

/// The round map: the seventeenth power in the field.
pub open spec fn pow17_mod(x: nat) -> nat {
    (pow(x as int, 17) % (modulus() as int)) as nat
}

/// Sums and products in the field lie below the modulus, whatever the operands.
pub proof fn lemma_field_ops_in_range(a: nat, b: nat)
    ensures
        add_mod(a, b) < modulus(),
        mul_mod(a, b) < modulus(),
{
    lemma_mod_bound((a + b) as int, modulus() as int);
    assert(a * b >= 0) by (nonlinear_arith);
    lemma_mod_bound((a * b) as int, modulus() as int);
}

/// A field addition takes an operand and its residue alike.
pub proof fn lemma_add_mod_residue(a: nat, c: nat)
    ensures
        add_mod(a, c % modulus()) == add_mod(a, c),
{
    lemma_add_mod_noop_right(a as int, c as int, modulus() as int);
}

/// The seventeenth power in the field lies below the modulus.
pub proof fn lemma_pow17_in_range(x: nat)
    ensures
        pow17_mod(x) < modulus(),
{
    lemma_mod_bound(pow(x as int, 17), modulus() as int);
}

/// Squaring the residue of `x^e` gives the residue of `x^(2e)`.
proof fn lemma_square_residue(x: nat, e: nat)
    ensures
        mul_mod((pow(x as int, e) % (modulus() as int)) as nat, (pow(x as int, e) % (modulus() as int)) as nat)
            == pow(x as int, 2 * e) % (modulus() as int),
{
    let p = modulus() as int;
    let y = pow(x as int, e);
    lemma_mod_bound(y, p);
    lemma_mul_mod_noop(y, y, p);
    lemma_pow_adds(x as int, e, e);
}

/// Four squarings in the field and one multiplication by `x` give the
/// seventeenth power of `x` in the field.
pub proof fn lemma_pow17_chain(x: nat)
    ensures
        ({
            let r2 = mul_mod(x, x);
            let r4 = mul_mod(r2, r2);
            let r8 = mul_mod(r4, r4);
            let r16 = mul_mod(r8, r8);
            mul_mod(r16, x) == pow17_mod(x)
        }),
{
    let p = modulus() as int;
    let xi = x as int;
    lemma_pow1(xi);
    lemma_pow_adds(xi, 1, 1);
    lemma_mod_bound(pow(xi, 2), p);
    lemma_square_residue(x, 2);
    lemma_mod_bound(pow(xi, 4), p);
    lemma_square_residue(x, 4);
    lemma_mod_bound(pow(xi, 8), p);
    lemma_square_residue(x, 8);
    lemma_mod_bound(pow(xi, 16), p);
    lemma_mul_mod_noop_general(pow(xi, 16), xi, p);
    lemma_pow_adds(xi, 16, 1);
}

} // verus!
