//! The power maps of the permutations over the 64-bit field: the seventh
//! power and its inverse.

use crate::field::{lemma_residue_mul, modulus, mul_mod, pow_mod, residue, values, Fp};
use vstd::arithmetic::power::*;
use vstd::prelude::*;

verus! {

/// The exponent of the power map.
pub const ALPHA: u32 = 7;

/// The exponent of the inverse power map: the inverse of `ALPHA` modulo
/// `p - 1`.
pub const INV_ALPHA: u64 = 10540996611094048183;

/// The two exponents are inverse to each other modulo `p - 1`, the order of
/// the multiplicative group of the field.
pub proof fn lemma_inverse_exponent()
    ensures
        (ALPHA * INV_ALPHA) % (modulus() - 1) == 1,
{
    assert(ALPHA * INV_ALPHA == 7 * 10540996611094048183) by (nonlinear_arith)
        requires
            ALPHA == 7,
            INV_ALPHA == 10540996611094048183,
    ;
    vstd::arithmetic::div_mod::lemma_fundamental_div_mod_converse(
        ALPHA * INV_ALPHA,
        modulus() - 1,
        4,
        1,
    );
}

/// Whether raising to the power `ALPHA` undoes the inverse power map on every
/// element of the field. It follows from `lemma_inverse_exponent` once the
/// nonzero elements are known to have orders that divide `p - 1`; this
/// library does not prove that, and the laws that need it take it as their
/// hypothesis.
pub open spec fn power_undoes_root() -> bool {
    forall|t: int|
        0 <= t < modulus() ==> pow_mod(#[trigger] pow_mod(t, INV_ALPHA as nat), ALPHA as nat)
            == t
}

/// The state with every element raised to the seventh power.
pub open spec fn power_layer(state: Seq<int>) -> Seq<int> {
    Seq::new(state.len(), |i: int| pow_mod(state[i], 7))
}

/// The state with every element raised to the power `1/ALPHA`.
pub open spec fn inverse_power_layer(state: Seq<int>) -> Seq<int> {
    Seq::new(state.len(), |i: int| pow_mod(state[i], INV_ALPHA as nat))
}

/// The seventh power is the product of the element, its square and its
/// fourth power.
pub proof fn lemma_seventh_power(x: int)
    ensures
        mul_mod(x, mul_mod(mul_mod(x, x), mul_mod(mul_mod(x, x), mul_mod(x, x)))) == pow_mod(
            x,
            7,
        ),
{
    let x2 = x * x;
    let x4 = x2 * x2;
    assert(pow(x, 7) == x * (x2 * x4)) by {
        reveal_with_fuel(pow, 8);
        assert(x * (x * (x * (x * (x * (x * (x * 1)))))) == x * ((x * x) * ((x * x) * (x
            * x)))) by (nonlinear_arith);
    }
    let t2 = mul_mod(x, x);
    let t4 = mul_mod(t2, t2);
    lemma_residue_mul(x2, x2);
    assert(t4 == residue(x4));
    lemma_residue_mul(x2, x4);
    assert(mul_mod(t2, t4) == residue(x2 * x4));
    lemma_residue_mul(x, x2 * x4);
}

/// Raises the element to the seventh power.
pub fn pow_7(x: &mut Fp)
    ensures
        final(x)@ == pow_mod(old(x)@, 7),
{
    let t2 = x.square();
    let t4 = t2.square();
    proof {
        lemma_seventh_power(x@);
    }
    *x = x.mul(t2.mul(t4));
}

/// Raises every element of the state to the seventh power.
pub fn apply_rescue_sbox<const W: usize>(state: &mut [Fp; W])
    ensures
        values(final(state)@) == power_layer(values(old(state)@)),
{
    let ghost before = values(state@);
    let mut i: usize = 0;
    while i < W
        invariant
            i <= W,
            before.len() == W,
            forall|k: int| 0 <= k < i ==> (#[trigger] state@[k])@ == pow_mod(before[k], 7),
            forall|k: int| i <= k < W ==> (#[trigger] state@[k])@ == before[k],
        decreases W - i,
    {
        let ghost old_state = state@;
        let mut entry = state[i];
        pow_7(&mut entry);
        state[i] = entry;
        assert(state@ == old_state.update(i as int, entry));
        i += 1;
    }
    assert(values(state@) =~= power_layer(before));
}

/// Raises every element of the state to the power `1/ALPHA`.
pub fn apply_rescue_inv_sbox<const W: usize>(state: &mut [Fp; W])
    ensures
        values(final(state)@) == inverse_power_layer(values(old(state)@)),
{
    let ghost before = values(state@);
    let mut i: usize = 0;
    while i < W
        invariant
            i <= W,
            before.len() == W,
            forall|k: int|
                0 <= k < i ==> (#[trigger] state@[k])@ == pow_mod(before[k], INV_ALPHA as nat),
            forall|k: int| i <= k < W ==> (#[trigger] state@[k])@ == before[k],
        decreases W - i,
    {
        let ghost old_state = state@;
        let entry = state[i].pow(INV_ALPHA);
        state[i] = entry;
        assert(state@ == old_state.update(i as int, entry));
        i += 1;
    }
    assert(values(state@) =~= inverse_power_layer(before));
}

} // verus!
