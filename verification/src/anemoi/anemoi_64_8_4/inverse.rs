//! The inverse of the permutation, layer by layer, and what is proved of it.
//!
//! The linear layer and the round constants are undone outright. The S-box
//! roots the first row, so undoing it raises the root to the seventh power:
//! the laws on the S-box, the rounds and the permutation hold where the
//! seventh power undoes the root, and take that as their hypothesis.

use super::sbox::{BETA, DELTA};
use super::{
    add_constants, flystel, lemma_mix_rows, mds_layer, mix, permute, round, rounds, sbox_layer,
};
use crate::f64_utils::{power_undoes_root, ALPHA, INV_ALPHA};
use crate::field::{
    lemma_residue_add, lemma_residue_range, lemma_residue_sub, modulus, pow_mod, residue,
};
use vstd::arithmetic::div_mod::*;
use vstd::arithmetic::power::*;
use vstd::prelude::*;

verus! {

/// Whether a sequence is a state of eight canonical representatives.
pub open spec fn canonical_state(state: Seq<int>) -> bool {
    &&& state.len() == 8
    &&& forall|k: int| 0 <= k < 8 ==> 0 <= #[trigger] state[k] < modulus()
}

/// The column that the S-box takes to `(u, v)`: with `r = u - BETA * v^2 -
/// DELTA` and `y = v + r`, the column is `(r^ALPHA + BETA * y^2, y)`.
pub open spec fn inverse_flystel(u: int, v: int) -> (int, int) {
    let r = residue(u - BETA * (v * v) - DELTA);
    let y = residue(v + r);
    (residue(pow_mod(r, ALPHA as nat) + BETA * (y * y)), y)
}

/// The inverse of the S-box on every column of the state.
pub open spec fn inverse_sbox_layer(state: Seq<int>) -> Seq<int> {
    Seq::new(
        8,
        |k: int|
            if k < 4 {
                inverse_flystel(state[k], state[k + 4]).0
            } else {
                inverse_flystel(state[k - 4], state[k]).1
            },
    )
}

/// The four elements whose product with the matrix is congruent to `w`. The
/// steps of the product are undone from the last to the first; the one
/// division, by seven, is a multiplication by `DELTA`.
pub open spec fn unmix(w: Seq<int>) -> Seq<int> {
    let a3 = w[3] - w[0];
    let a1 = w[1] - w[2];
    let a2 = w[2] - 7 * a3;
    let a0 = w[0] - a1;
    let x1 = DELTA * a1 - a2;
    let x3 = a3 - 7 * a0;
    let x2 = a2 - x3;
    let x0 = a0 - x1;
    seq![residue(x0), residue(x1), residue(x2), residue(x3)]
}

/// The inverse of the linear layer: the two rows are told apart again, each
/// is taken back through the matrix, and the second is rotated back.
pub open spec fn inverse_mds_layer(state: Seq<int>) -> Seq<int> {
    let upper = Seq::new(4, |k: int| state[k] - state[k + 4]);
    let lower = Seq::new(4, |k: int| 2 * state[k + 4] - state[k]);
    let x = unmix(upper);
    let y = unmix(lower);
    seq![x[0], x[1], x[2], x[3], y[3], y[0], y[1], y[2]]
}

/// The state with the constants `c` taken from the first row and `d` from
/// the second.
pub open spec fn subtract_constants(c: Seq<u64>, d: Seq<u64>, state: Seq<int>) -> Seq<int> {
    Seq::new(
        8,
        |k: int|
            if k < 4 {
                residue(state[k] - c[k])
            } else {
                residue(state[k] - d[k - 4])
            },
    )
}

/// The inverse of one round.
pub open spec fn inverse_round(c: Seq<u64>, d: Seq<u64>, state: Seq<int>) -> Seq<int> {
    subtract_constants(c, d, inverse_mds_layer(inverse_sbox_layer(state)))
}

/// The state that the first `count` rounds take to `state`.
pub open spec fn inverse_rounds(
    c: [[u64; 4]; 11],
    d: [[u64; 4]; 11],
    count: nat,
    state: Seq<int>,
) -> Seq<int>
    decreases count,
{
    if count == 0 {
        state
    } else {
        inverse_rounds(
            c,
            d,
            (count - 1) as nat,
            inverse_round(c[count - 1]@, d[count - 1]@, state),
        )
    }
}

/// The inverse of the permutation.
pub open spec fn inverse_permute(c: [[u64; 4]; 11], d: [[u64; 4]; 11], state: Seq<int>) -> Seq<
    int,
> {
    inverse_rounds(c, d, super::NUM_HASH_ROUNDS as nat, inverse_mds_layer(state))
}

/// From the column that the S-box gives, the root that it took and the second
/// element of the column that it was given are found again.
pub proof fn lemma_flystel_recovers_root(x: int, y: int)
    requires
        0 <= y < modulus(),
    ensures
        ({
            let (u, v) = flystel(x, y);
            let r = pow_mod(residue(x - BETA * (y * y)), INV_ALPHA as nat);
            &&& residue(u - BETA * (v * v) - DELTA) == r
            &&& residue(v + r) == y
            &&& 0 <= u < modulus()
            &&& 0 <= v < modulus()
        }),
{
    let t = residue(x - BETA * (y * y));
    let r = pow_mod(t, INV_ALPHA as nat);
    let v = residue(y - r);
    lemma_residue_range(pow(t, INV_ALPHA as nat));
    lemma_residue_range(y - r);
    lemma_residue_range(r + BETA * (v * v) + DELTA);
    // taking the square and the constant off gives back the root
    lemma_residue_sub(r + BETA * (v * v) + DELTA, BETA * (v * v) + DELTA);
    lemma_residue_range(r);
    // adding the root gives back y
    lemma_residue_add(y - r, r);
    lemma_residue_range(y);
}

/// The inverse S-box undoes the S-box on a column, where the seventh power
/// undoes the root.
pub proof fn lemma_flystel_inverse(x: int, y: int)
    requires
        0 <= x < modulus(),
        0 <= y < modulus(),
        power_undoes_root(),
    ensures
        inverse_flystel(flystel(x, y).0, flystel(x, y).1) == (x, y),
        0 <= flystel(x, y).0 < modulus(),
        0 <= flystel(x, y).1 < modulus(),
{
    let t = residue(x - BETA * (y * y));
    let r = pow_mod(t, INV_ALPHA as nat);
    lemma_flystel_recovers_root(x, y);
    // the seventh power of the root is t
    lemma_residue_range(x - BETA * (y * y));
    assert(pow_mod(r, ALPHA as nat) == t);
    // adding the square gives back x
    lemma_residue_add(x - BETA * (y * y), BETA * (y * y));
    lemma_residue_range(x);
}

/// Taking four canonical elements through the matrix and back gives them
/// again, whatever multiples of the modulus the products have lost.
pub proof fn lemma_unmix(v: Seq<int>, w: Seq<int>, e: Seq<int>)
    requires
        v.len() == 4,
        w.len() == 4,
        e.len() == 4,
        forall|k: int| 0 <= k < 4 ==> 0 <= #[trigger] v[k] < modulus(),
        forall|k: int| 0 <= k < 4 ==> #[trigger] w[k] == mix(k, v) + modulus() * e[k],
    ensures
        unmix(w) == v,
{
    let p = modulus();
    lemma_mix_rows(v);
    assert(w[0] == mix(0, v) + p * e[0]);
    assert(w[1] == mix(1, v) + p * e[1]);
    assert(w[2] == mix(2, v) + p * e[2]);
    assert(w[3] == mix(3, v) + p * e[3]);
    let a3 = w[3] - w[0];
    let a1 = w[1] - w[2];
    let a2 = w[2] - 7 * a3;
    let a0 = w[0] - a1;
    let x1 = DELTA * a1 - a2;
    let x3 = a3 - 7 * a0;
    let x2 = a2 - x3;
    let x0 = a0 - x1;
    // the multiples of the modulus that each step carries
    let k3 = e[3] - e[0];
    let k1 = e[1] - e[2];
    let k2 = e[2] - 7 * k3;
    let k0 = e[0] - k1;
    let m1 = (v[1] + v[2] + v[3]) + 2635249152773512046 * k1 - k2;
    let m3 = k3 - 7 * k0;
    let m2 = k2 - m3;
    let m0 = k0 - m1;
    assert(DELTA * a1 == 2635249152773512046 * a1) by (nonlinear_arith)
        requires
            DELTA == 2635249152773512046,
    ;
    assert(x1 == v[1] + p * m1);
    assert(x3 == v[3] + p * m3);
    assert(x2 == v[2] + p * m2);
    assert(x0 == v[0] + p * m0);
    lemma_mod_multiples_vanish(m0, v[0], p);
    lemma_mod_multiples_vanish(m1, v[1], p);
    lemma_mod_multiples_vanish(m2, v[2], p);
    lemma_mod_multiples_vanish(m3, v[3], p);
    lemma_residue_range(v[0]);
    lemma_residue_range(v[1]);
    lemma_residue_range(v[2]);
    lemma_residue_range(v[3]);
    assert(unmix(w) =~= v);
}

/// The inverse linear layer undoes the linear layer.
pub proof fn lemma_mds_inverse(state: Seq<int>)
    requires
        canonical_state(state),
    ensures
        inverse_mds_layer(mds_layer(state)) == state,
        canonical_state(mds_layer(state)),
{
    let p = modulus();
    let x = state.subrange(0, 4);
    let y = seq![state[5], state[6], state[7], state[4]];
    let mixed = mds_layer(state);
    let upper = Seq::new(4, |k: int| mixed[k] - mixed[k + 4]);
    let lower = Seq::new(4, |k: int| 2 * mixed[k + 4] - mixed[k]);
    // the quotients that the reductions of the linear layer dropped
    let qx = Seq::new(4, |k: int| (2 * mix(k, x) + mix(k, y)) / p);
    let qy = Seq::new(4, |k: int| (mix(k, x) + mix(k, y)) / p);
    let ex = Seq::new(4, |k: int| qy[k] - qx[k]);
    let ey = Seq::new(4, |k: int| qx[k] - 2 * qy[k]);
    assert forall|k: int| 0 <= k < 4 implies #[trigger] upper[k] == mix(k, x) + p * ex[k]
        && #[trigger] lower[k] == mix(k, y) + p * ey[k] by {
        lemma_fundamental_div_mod(2 * mix(k, x) + mix(k, y), p);
        lemma_fundamental_div_mod(mix(k, x) + mix(k, y), p);
        assert(mixed[k] == residue(2 * mix(k, x) + mix(k, y)));
        assert(mixed[k + 4] == residue(mix(k, x) + mix(k, y)));
        assert(p * (qy[k] - qx[k]) == p * qy[k] - p * qx[k]) by (nonlinear_arith);
        assert(p * (qx[k] - 2 * qy[k]) == p * qx[k] - 2 * (p * qy[k])) by (nonlinear_arith);
    }
    assert forall|k: int| 0 <= k < 4 implies 0 <= #[trigger] x[k] < p by {
        assert(x[k] == state[k]);
    }
    assert forall|k: int| 0 <= k < 4 implies 0 <= #[trigger] y[k] < p by {
        assert(y[k] == state[if k == 3 {
            4
        } else {
            k + 5
        }]);
    }
    lemma_unmix(x, upper, ex);
    lemma_unmix(y, lower, ey);
    assert(inverse_mds_layer(mixed) =~= state);
    assert forall|k: int| 0 <= k < 8 implies 0 <= #[trigger] mixed[k] < p by {
        if k < 4 {
            lemma_residue_range(2 * mix(k, x) + mix(k, y));
        } else {
            lemma_residue_range(mix(k - 4, x) + mix(k - 4, y));
        }
    }
}

/// The inverse S-box layer undoes the S-box layer, where the seventh power
/// undoes the root.
pub proof fn lemma_sbox_inverse(state: Seq<int>)
    requires
        canonical_state(state),
        power_undoes_root(),
    ensures
        inverse_sbox_layer(sbox_layer(state)) == state,
        canonical_state(sbox_layer(state)),
{
    let boxed = sbox_layer(state);
    assert forall|k: int| 0 <= k < 8 implies 0 <= #[trigger] boxed[k] < modulus()
        && inverse_sbox_layer(boxed)[k] == state[k] by {
        if k < 4 {
            lemma_flystel_inverse(state[k], state[k + 4]);
            assert(boxed[k + 4] == flystel(state[k], state[k + 4]).1);
        } else {
            lemma_flystel_inverse(state[k - 4], state[k]);
            assert(boxed[k - 4] == flystel(state[k - 4], state[k]).0);
        }
    }
    assert(inverse_sbox_layer(boxed) =~= state);
}

/// Taking the round constants off undoes adding them.
pub proof fn lemma_constants_inverse(c: Seq<u64>, d: Seq<u64>, state: Seq<int>)
    requires
        canonical_state(state),
    ensures
        subtract_constants(c, d, add_constants(c, d, state)) == state,
        canonical_state(add_constants(c, d, state)),
{
    let added = add_constants(c, d, state);
    assert forall|k: int| 0 <= k < 8 implies 0 <= #[trigger] added[k] < modulus()
        && subtract_constants(c, d, added)[k] == state[k] by {
        let constant: int = if k < 4 {
            c[k] as int
        } else {
            d[k - 4] as int
        };
        lemma_residue_range(state[k] + constant);
        lemma_residue_sub(state[k] + constant, constant);
        lemma_residue_range(state[k]);
    }
    assert(subtract_constants(c, d, added) =~= state);
}

/// The inverse round undoes the round, where the seventh power undoes the
/// root.
pub proof fn lemma_round_inverse(c: Seq<u64>, d: Seq<u64>, state: Seq<int>)
    requires
        canonical_state(state),
        power_undoes_root(),
    ensures
        inverse_round(c, d, round(c, d, state)) == state,
        canonical_state(round(c, d, state)),
{
    let added = add_constants(c, d, state);
    lemma_constants_inverse(c, d, state);
    lemma_mds_inverse(added);
    lemma_sbox_inverse(mds_layer(added));
}

/// The inverse rounds undo the rounds, where the seventh power undoes the
/// root.
pub proof fn lemma_rounds_inverse(
    c: [[u64; 4]; 11],
    d: [[u64; 4]; 11],
    count: nat,
    state: Seq<int>,
)
    requires
        canonical_state(state),
        power_undoes_root(),
    ensures
        inverse_rounds(c, d, count, rounds(c, d, count, state)) == state,
        canonical_state(rounds(c, d, count, state)),
    decreases count,
{
    if count > 0 {
        let before = rounds(c, d, (count - 1) as nat, state);
        lemma_rounds_inverse(c, d, (count - 1) as nat, state);
        lemma_round_inverse(c[count - 1]@, d[count - 1]@, before);
    }
}

/// Where the seventh power undoes the root, the inverse round sequence
/// applied to the permuted state gives the state back.
pub proof fn lemma_permute_inverse(c: [[u64; 4]; 11], d: [[u64; 4]; 11], state: Seq<int>)
    requires
        canonical_state(state),
        power_undoes_root(),
    ensures
        inverse_permute(c, d, permute(c, d, state)) == state,
        canonical_state(permute(c, d, state)),
{
    let last = rounds(c, d, super::NUM_HASH_ROUNDS as nat, state);
    lemma_rounds_inverse(c, d, super::NUM_HASH_ROUNDS as nat, state);
    lemma_mds_inverse(last);
}

/// Where the seventh power undoes the root, two states that the permutation
/// takes to the same state are the same.
pub proof fn lemma_permute_injective(
    c: [[u64; 4]; 11],
    d: [[u64; 4]; 11],
    first: Seq<int>,
    second: Seq<int>,
)
    requires
        canonical_state(first),
        canonical_state(second),
        power_undoes_root(),
        permute(c, d, first) == permute(c, d, second),
    ensures
        first == second,
{
    lemma_permute_inverse(c, d, first);
    lemma_permute_inverse(c, d, second);
}

} // verus!
