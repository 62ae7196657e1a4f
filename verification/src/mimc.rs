//! The keyed permutation and the hash that chains it over a sequence of
//! field elements.

use crate::big::{
    big_add, big_clone, big_from_bytes_be, big_mul, big_rem, big_value, big_values, big_zero,
};
use crate::constants::{get_constants, get_fr, published_constants, round_constants, ROUNDS};
use crate::field::{
    add_mod, lemma_add_mod_residue, lemma_field_ops_in_range, lemma_pow17_chain,
    lemma_pow17_in_range, modulus, mul_mod, pow17_mod, residues,
};
use num_bigint::BigUint;
use vstd::prelude::*;

verus! {

/// One round: the key and the round constant are added, then the sum is
/// raised to the seventeenth power.
pub open spec fn round(state: nat, acc: nat, c: nat) -> nat {
    pow17_mod(add_mod(add_mod(acc, state), c))
}

/// The rounds for the constants `cs`, in their order, applied to `x` under
/// the key `state`: one round for each constant.
pub open spec fn rounds(state: nat, x: nat, cs: Seq<nat>) -> nat
    decreases cs.len(),
{
    if cs.len() == 0 {
        x
    } else {
        round(state, rounds(state, x, cs.drop_last()), cs.last())
    }
}

/// The permutation of `x` under the key `state`: every round of the table,
/// then the key added once more.
pub open spec fn encrypt_spec(state: nat, x: nat) -> nat {
    add_mod(rounds(state, x, round_constants()), state)
}

/// One step of the chain: the state after `x` has been taken in.
pub open spec fn chain_step(state: nat, x: nat) -> nat {
    add_mod(add_mod(encrypt_spec(state, x), state), x)
}

/// The digest of `m`: the chain run from state zero over `m` in order.
pub open spec fn hash_spec(m: Seq<nat>) -> nat
    decreases m.len(),
{
    if m.len() == 0 {
        0
    } else {
        chain_step(hash_spec(m.drop_last()), m.last())
    }
}

/// A further constant adds exactly one round after the others.
pub proof fn lemma_rounds_push(state: nat, x: nat, cs: Seq<nat>, c: nat)
    ensures
        rounds(state, x, cs.push(c)) == round(state, rounds(state, x, cs), c),
{
    assert(cs.push(c).drop_last() =~= cs);
}

/// A round takes its constant in by a field addition, so a number and its
/// residue give the same round.
pub proof fn lemma_round_residue(state: nat, acc: nat, c: nat)
    ensures
        round(state, acc, c % modulus()) == round(state, acc, c),
{
    lemma_add_mod_residue(add_mod(acc, state), c);
}

/// The rounds for the residues of `cs` are the rounds for `cs`.
pub proof fn lemma_rounds_residues(state: nat, x: nat, cs: Seq<nat>)
    ensures
        rounds(state, x, residues(cs)) == rounds(state, x, cs),
    decreases cs.len(),
{
    if cs.len() > 0 {
        lemma_rounds_residues(state, x, cs.drop_last());
        assert(residues(cs).drop_last() =~= residues(cs.drop_last()));
        lemma_round_residue(state, rounds(state, x, cs.drop_last()), cs.last());
    }
}

/// The permutation is the one that the published numbers give: to reduce
/// them to elements of the field changes no output.
pub proof fn lemma_encrypt_published(state: nat, x: nat)
    ensures
        encrypt_spec(state, x) == add_mod(rounds(state, x, published_constants()), state),
{
    lemma_rounds_residues(state, x, published_constants());
}

/// The permutation runs 61 rounds, whatever its arguments, and adds the key
/// once after them.
pub proof fn lemma_round_count(state: nat, x: nat)
    ensures
        ROUNDS == 61,
        round_constants().len() == ROUNDS,
        encrypt_spec(state, x) == add_mod(rounds(state, x, round_constants()), state),
{
}

/// A further element takes the chain exactly one step on.
pub proof fn lemma_hash_push(m: Seq<nat>, x: nat)
    ensures
        hash_spec(m.push(x)) == chain_step(hash_spec(m), x),
{
    assert(m.push(x).drop_last() =~= m);
}

/// The digest of the empty sequence is zero.
pub proof fn lemma_hash_empty()
    ensures
        hash_spec(Seq::<nat>::empty()) == 0,
{
}

/// The digest of a single element is one step of the chain from state zero:
/// the permutation of the element under key zero, plus the state, plus the
/// element.
pub proof fn lemma_hash_single(x: nat)
    ensures
        hash_spec(seq![x]) == chain_step(0, x),
        hash_spec(seq![x]) == add_mod(add_mod(encrypt_spec(0, x), 0), x),
{
    lemma_hash_push(Seq::<nat>::empty(), x);
    assert(seq![x] =~= Seq::<nat>::empty().push(x));
}

/// The digest depends on nothing but the numbers hashed and their order:
/// two inputs that stand for the same numbers have the same digest.
pub proof fn lemma_hash_deterministic(a: Seq<BigUint>, b: Seq<BigUint>)
    requires
        a.len() == b.len(),
        forall|i: int| 0 <= i < a.len() ==> big_value(a[i]) == big_value(b[i]),
    ensures
        hash_spec(big_values(a)) == hash_spec(big_values(b)),
{
    assert(big_values(a) =~= big_values(b));
}

/// Every digest, and every output of the permutation, lies below the modulus.
pub proof fn lemma_outputs_in_range(state: nat, x: nat, m: Seq<nat>)
    ensures
        encrypt_spec(state, x) < modulus(),
        chain_step(state, x) < modulus(),
        hash_spec(m) < modulus(),
{
    lemma_field_ops_in_range(rounds(state, x, round_constants()), state);
    lemma_field_ops_in_range(add_mod(encrypt_spec(state, x), state), x);
    if m.len() > 0 {
        let before = hash_spec(m.drop_last());
        lemma_field_ops_in_range(add_mod(encrypt_spec(before, m.last()), before), m.last());
    }
}

/// The hash over the fixed field, with the power-17 round map.
pub struct Mimc17 {
    fr: BigUint,
}

impl Mimc17 {
    #[verifier::type_invariant]
    spec fn holds_modulus(self) -> bool {
        big_value(self.fr) == modulus()
    }

    /// The modulus that this value computes with.
    pub closed spec fn prime(&self) -> nat {
        big_value(self.fr)
    }

    /// A hasher over the fixed field.
    pub fn new() -> (r: Mimc17)
        ensures
            r.prime() == modulus(),
    {
        Mimc17 { fr: get_fr() }
    }

    /// The digest of `m`: the chain run from state zero over the elements
    /// of `m` in their order. The empty sequence gives zero.
    pub fn hash(&self, m: &Vec<BigUint>) -> (r: BigUint)
        ensures
            big_value(r) == hash_spec(big_values(m@)),
            big_value(r) < modulus(),
            m@.len() == 0 ==> big_value(r) == 0,
    {
        let mut s = big_zero();
        let mut i: usize = 0;
        while i < m.len()
            invariant
                i <= m@.len(),
                big_value(s) == hash_spec(big_values(m@).take(i as int)),
            decreases m@.len() - i,
        {
            let x = &m[i];
            let mut res = self.encrypt(&s, x);
            res = self.add(&res, &s);
            s = self.add(&res, x);
            proof {
                let vals = big_values(m@);
                assert(vals.take(i + 1) =~= vals.take(i as int).push(big_value(*x)));
                lemma_hash_push(vals.take(i as int), big_value(*x));
            }
            i += 1;
        }
        proof {
            assert(big_values(m@).take(i as int) =~= big_values(m@));
            lemma_outputs_in_range(0, 0, big_values(m@));
        }
        s
    }

    /// The permutation of `m` under the key `s`: for each round constant in
    /// turn the key and the constant are added and the sum is raised to the
    /// seventeenth power; after the last round the key is added once more.
    pub fn encrypt(&self, s: &BigUint, m: &BigUint) -> (r: BigUint)
        ensures
            big_value(r) == encrypt_spec(big_value(*s), big_value(*m)),
            big_value(r) < modulus(),
    {
        let mut x = big_clone(m);
        let constants = get_constants();
        let mut i: usize = 0;
        while i < constants.len()
            invariant
                i <= constants@.len(),
                big_values(constants@) == round_constants(),
                big_value(x) == rounds(
                    big_value(*s),
                    big_value(*m),
                    round_constants().take(i as int),
                ),
            decreases constants@.len() - i,
        {
            let c = &constants[i];
            x = self.add(&x, s);
            x = self.add(&x, c);
            x = self.pow17(&x);
            proof {
                let cs = round_constants();
                assert(cs.take(i + 1) =~= cs.take(i as int).push(big_value(*c)));
                lemma_rounds_push(big_value(*s), big_value(*m), cs.take(i as int), big_value(*c));
            }
            i += 1;
        }
        proof {
            assert(round_constants().take(i as int) =~= round_constants());
        }
        self.add(&x, s)
    }

    /// The sum of `a` and `b` in the field.
    pub fn add(&self, a: &BigUint, b: &BigUint) -> (r: BigUint)
        ensures
            big_value(r) == add_mod(big_value(*a), big_value(*b)),
            big_value(r) < modulus(),
    {
        proof {
            use_type_invariant(self);
            lemma_field_ops_in_range(big_value(*a), big_value(*b));
        }
        big_rem(big_add(a, b), &self.fr)
    }

    /// The product of `a` and `b` in the field.
    pub fn mul(&self, a: &BigUint, b: &BigUint) -> (r: BigUint)
        ensures
            big_value(r) == mul_mod(big_value(*a), big_value(*b)),
            big_value(r) < modulus(),
    {
        proof {
            use_type_invariant(self);
            lemma_field_ops_in_range(big_value(*a), big_value(*b));
        }
        big_rem(big_mul(a, b), &self.fr)
    }

    /// The seventeenth power of `x` in the field, by four squarings and one
    /// multiplication by `x`.
    pub fn pow17(&self, x: &BigUint) -> (r: BigUint)
        ensures
            big_value(r) == pow17_mod(big_value(*x)),
            big_value(r) < modulus(),
    {
        let mut r = self.mul(x, x);
        r = self.mul(&r, &r);
        r = self.mul(&r, &r);
        r = self.mul(&r, &r);
        proof {
            lemma_pow17_chain(big_value(*x));
            lemma_pow17_in_range(big_value(*x));
        }
        self.mul(&r, x)
    }
}

/// Hashes the three one-byte strings "A", "B" and "C", read as numbers, and
/// reports success, which is 0.
pub fn zkmain() -> (status: i64)
    ensures
        status == 0,
{
    let a: [u8; 1] = [0x41];
    let b: [u8; 1] = [0x42];
    let c: [u8; 1] = [0x43];
    let data = vec![
        big_from_bytes_be(a.as_slice()),
        big_from_bytes_be(b.as_slice()),
        big_from_bytes_be(c.as_slice()),
    ];
    let mimc = Mimc17::new();
    let _h = mimc.hash(&data);
    0
}

} // verus!
