//! Anemoi over a state of eight elements in two rows of four columns, four
//! elements of rate.
//!
//! A round adds the round constants, mixes the state and applies the S-box,
//! in that order; the permutation ends with one more mix. The S-box and the
//! matrix of this instance are fixed. Its round constants are
//! configuration: the functions that add them take the two tables of
//! constants, eleven rows of four each.

pub mod hasher;
pub mod inverse;
pub mod mds;
pub mod sbox;

use crate::digest::ElementDigest;
use crate::f64_utils::{apply_rescue_inv_sbox, inverse_power_layer, INV_ALPHA};
use crate::field::{
    lemma_residue_add, lemma_residue_mul, lemma_residue_sub, pow_mod, reduce_u96, residue, values,
    Fp,
};
pub use hasher::AnemoiHash;
use mds::MDS;
use sbox::{BETA, DELTA};
use vstd::prelude::*;

verus! {

/// The state holds eight field elements.
pub const STATE_WIDTH: usize = 8;

/// Four elements of the state take the input.
pub const RATE_WIDTH: usize = 4;

/// The state is divided into two rows of four columns.
pub const NUM_COLUMNS: usize = 4;

/// Four elements are returned as digest.
pub const DIGEST_SIZE: usize = 4;

/// The number of rounds.
pub const NUM_HASH_ROUNDS: usize = 11;

/// The digest of this instance.
pub type AnemoiDigest = ElementDigest;

/// The S-box on one column `(x, y)`: with `r = (x - BETA * y^2)^(1/ALPHA)`,
/// the column becomes `(r + BETA * v^2 + DELTA, v)`, where `v = y - r`. The
/// first element is rooted in place: what the last step adds to is the root.
pub open spec fn flystel(x: int, y: int) -> (int, int) {
    let r = pow_mod(residue(x - BETA * (y * y)), INV_ALPHA as nat);
    let v = residue(y - r);
    (residue(r + BETA * (v * v) + DELTA), v)
}

/// The S-box on every column of the state.
pub open spec fn sbox_layer(state: Seq<int>) -> Seq<int> {
    Seq::new(
        8,
        |k: int|
            if k < 4 {
                flystel(state[k], state[k + 4]).0
            } else {
                flystel(state[k - 4], state[k]).1
            },
    )
}

/// The product of row `i` of the matrix and four elements.
pub open spec fn mix(i: int, v: Seq<int>) -> int {
    MDS[4 * i] * v[0] + MDS[4 * i + 1] * v[1] + MDS[4 * i + 2] * v[2] + MDS[4 * i + 3] * v[3]
}

/// The linear layer: the matrix is applied to the first row and to the
/// second row rotated by one column; then the second row gains the first,
/// and the first gains the second.
pub open spec fn mds_layer(state: Seq<int>) -> Seq<int> {
    let x = state.subrange(0, 4);
    let y = seq![state[5], state[6], state[7], state[4]];
    Seq::new(
        8,
        |k: int|
            if k < 4 {
                residue(2 * mix(k, x) + mix(k, y))
            } else {
                residue(mix(k - 4, x) + mix(k - 4, y))
            },
    )
}

/// The state with the constants `c` added to the first row and `d` to the
/// second.
pub open spec fn add_constants(c: Seq<u64>, d: Seq<u64>, state: Seq<int>) -> Seq<int> {
    Seq::new(
        8,
        |k: int|
            if k < 4 {
                residue(state[k] + c[k])
            } else {
                residue(state[k] + d[k - 4])
            },
    )
}

/// One round: constants, linear layer, S-box.
pub open spec fn round(c: Seq<u64>, d: Seq<u64>, state: Seq<int>) -> Seq<int> {
    sbox_layer(mds_layer(add_constants(c, d, state)))
}

/// The state after the first `count` rounds.
pub open spec fn rounds(c: [[u64; 4]; 11], d: [[u64; 4]; 11], count: nat, state: Seq<int>) -> Seq<
    int,
>
    decreases count,
{
    if count == 0 {
        state
    } else {
        round(c[count - 1]@, d[count - 1]@, rounds(c, d, (count - 1) as nat, state))
    }
}

/// The permutation: eleven rounds and a last linear layer.
pub open spec fn permute(c: [[u64; 4]; 11], d: [[u64; 4]; 11], state: Seq<int>) -> Seq<int> {
    mds_layer(rounds(c, d, NUM_HASH_ROUNDS as nat, state))
}

/// The S-box as the steps of the field compute it.
proof fn lemma_flystel_steps(x: int, y: int)
    ensures
        ({
            let r = pow_mod(residue(x - residue(residue(y * y) * BETA)), INV_ALPHA as nat);
            let v = residue(y - r);
            (residue(r + residue(residue(residue(v * v) * BETA) + residue(DELTA as int))), v)
        }) == flystel(x, y),
{
    lemma_residue_mul(y * y, BETA as int);
    lemma_residue_sub(x, (y * y) * BETA);
    assert((y * y) * BETA == BETA * (y * y)) by (nonlinear_arith);
    let r = pow_mod(residue(x - BETA * (y * y)), INV_ALPHA as nat);
    let v = residue(y - r);
    lemma_residue_mul(v * v, BETA as int);
    assert((v * v) * BETA == BETA * (v * v)) by (nonlinear_arith);
    lemma_residue_add(BETA * (v * v), DELTA as int);
    lemma_residue_add(r, BETA * (v * v) + DELTA);
}

/// Applies the S-box to the state.
pub fn apply_sbox(state: &mut [Fp; 8])
    ensures
        values(final(state)@) == sbox_layer(values(old(state)@)),
{
    let ghost before = values(state@);
    let mut x: [Fp; 4] = [state[0], state[1], state[2], state[3]];
    let mut y: [Fp; 4] = [state[4], state[5], state[6], state[7]];
    let delta = Fp::new(DELTA);

    let mut i: usize = 0;
    while i < 4
        invariant
            i <= 4,
            before.len() == 8,
            forall|k: int| 0 <= k < 4 ==> (#[trigger] y@[k])@ == before[k + 4],
            forall|k: int|
                0 <= k < i ==> (#[trigger] x@[k])@ == residue(
                    before[k] - residue(residue(before[k + 4] * before[k + 4]) * BETA),
                ),
            forall|k: int| i <= k < 4 ==> (#[trigger] x@[k])@ == before[k],
        decreases 4 - i,
    {
        let ghost old_x = x@;
        let t = x[i].sub(y[i].square().mul_by_u32(BETA));
        x[i] = t;
        assert(x@ == old_x.update(i as int, t));
        i += 1;
    }

    // the first row is rooted in place
    let ghost lifted = values(x@);
    apply_rescue_inv_sbox(&mut x);
    let ghost roots = values(x@);
    assert forall|k: int| 0 <= k < 4 implies (#[trigger] x@[k])@ == pow_mod(
        lifted[k],
        INV_ALPHA as nat,
    ) by {
        assert(roots[k] == inverse_power_layer(lifted)[k]);
    }

    let mut i: usize = 0;
    while i < 4
        invariant
            i <= 4,
            before.len() == 8,
            roots == values(x@),
            forall|k: int| 0 <= k < i ==> (#[trigger] y@[k])@ == residue(before[k + 4] - roots[k]),
            forall|k: int| i <= k < 4 ==> (#[trigger] y@[k])@ == before[k + 4],
        decreases 4 - i,
    {
        let ghost old_y = y@;
        let v = y[i].sub(x[i]);
        y[i] = v;
        assert(y@ == old_y.update(i as int, v));
        i += 1;
    }

    let mut i: usize = 0;
    while i < 4
        invariant
            i <= 4,
            roots.len() == 4,
            delta@ == residue(DELTA as int),
            forall|k: int|
                0 <= k < i ==> (#[trigger] x@[k])@ == residue(
                    roots[k] + residue(
                        residue(residue(y@[k]@ * y@[k]@) * BETA) + residue(DELTA as int),
                    ),
                ),
            forall|k: int| i <= k < 4 ==> (#[trigger] x@[k])@ == roots[k],
        decreases 4 - i,
    {
        let ghost old_x = x@;
        let u = x[i].add(y[i].square().mul_by_u32(BETA).add(delta));
        x[i] = u;
        assert(x@ == old_x.update(i as int, u));
        i += 1;
    }

    *state = [x[0], x[1], x[2], x[3], y[0], y[1], y[2], y[3]];
    assert forall|k: int| 0 <= k < 8 implies values(state@)[k] == sbox_layer(before)[k] by {
        let column = if k < 4 {
            k
        } else {
            k - 4
        };
        lemma_flystel_steps(before[column], before[column + 4]);
        assert(roots[column] == pow_mod(lifted[column], INV_ALPHA as nat));
        assert(y@[column]@ == residue(before[column + 4] - roots[column]));
    }
    assert(values(state@) =~= sbox_layer(before));
}

/// The four rows of the matrix, written out.
pub proof fn lemma_mix_rows(v: Seq<int>)
    ensures
        mix(0, v) == v[0] + 8 * v[1] + 7 * v[2] + 7 * v[3],
        mix(1, v) == 49 * v[0] + 56 * v[1] + 8 * v[2] + 15 * v[3],
        mix(2, v) == 49 * v[0] + 49 * v[1] + v[2] + 8 * v[3],
        mix(3, v) == 8 * v[0] + 15 * v[1] + 7 * v[2] + 8 * v[3],
{
    assert(MDS[0] == 1 && MDS[1] == 8 && MDS[2] == 7 && MDS[3] == 7);
    assert(MDS[4] == 49 && MDS[5] == 56 && MDS[6] == 8 && MDS[7] == 15);
    assert(MDS[8] == 49 && MDS[9] == 49 && MDS[10] == 1 && MDS[11] == 8);
    assert(MDS[12] == 8 && MDS[13] == 15 && MDS[14] == 7 && MDS[15] == 8);
    assert(MDS[0] * v[0] == v[0]) by (nonlinear_arith)
        requires
            MDS[0] == 1,
    ;
    assert(MDS[10] * v[2] == v[2]) by (nonlinear_arith)
        requires
            MDS[10] == 1,
    ;
}

/// Mixes four unreduced values: the product of the matrix and the values.
fn butterfly(v: [u128; 4]) -> (r: [u128; 4])
    requires
        forall|k: int| 0 <= k < 4 ==> v@[k] < 0x1_0000_0000_0000_0000,
    ensures
        forall|k: int| 0 <= k < 4 ==> r@[k] == mix(k, Seq::new(4, |j: int| v@[j] as int)),
        forall|k: int| 0 <= k < 4 ==> r@[k] < 0x100_0000_0000_0000_0000,
{
    let mut x0: u128 = v[0];
    let mut x1: u128 = v[1];
    let mut x2: u128 = v[2];
    let mut x3: u128 = v[3];
    x0 += x1;
    x2 += x3;
    x3 += 7 * x0;
    x1 = 7 * (x1 + x2);
    x0 += x1;
    x2 += 7 * x3;
    x1 += x2;
    x3 += x0;
    let r = [x0, x1, x2, x3];
    proof {
        let s = Seq::new(4, |j: int| v@[j] as int);
        lemma_mix_rows(s);
        assert(r@[0] == mix(0, s));
        assert(r@[1] == mix(1, s));
        assert(r@[2] == mix(2, s));
        assert(r@[3] == mix(3, s));
    }
    r
}

/// Applies the linear layer to the state.
pub fn apply_mds(state: &mut [Fp; 8])
    ensures
        values(final(state)@) == mds_layer(values(old(state)@)),
{
    let ghost before = values(state@);
    let x: [u128; 4] = [
        state[0].to_u64() as u128,
        state[1].to_u64() as u128,
        state[2].to_u64() as u128,
        state[3].to_u64() as u128,
    ];
    // The second row is first rotated
    let y: [u128; 4] = [
        state[5].to_u64() as u128,
        state[6].to_u64() as u128,
        state[7].to_u64() as u128,
        state[4].to_u64() as u128,
    ];
    let x = butterfly(x);
    let y = butterfly(y);
    proof {
        let xs = before.subrange(0, 4);
        let ys = seq![before[5], before[6], before[7], before[4]];
        assert(xs =~= Seq::new(4, |j: int| before[j]));
    }
    let mut i: usize = 0;
    while i < 4
        invariant
            i <= 4,
            before.len() == 8,
            forall|k: int|
                0 <= k < 4 ==> x@[k] == mix(k, before.subrange(0, 4)) && x@[k]
                    < 0x100_0000_0000_0000_0000,
            forall|k: int|
                0 <= k < 4 ==> y@[k] == mix(
                    k,
                    seq![before[5], before[6], before[7], before[4]],
                ) && y@[k] < 0x100_0000_0000_0000_0000,
            forall|k: int|
                0 <= k < i ==> (#[trigger] state@[k])@ == mds_layer(before)[k] && state@[k
                    + 4]@ == mds_layer(before)[k + 4],
        decreases 4 - i,
    {
        // The second row gains the first, then the first gains the second
        let lower: u128 = y[i] + x[i];
        let upper: u128 = x[i] + lower;
        let ghost old_state = state@;
        state[i] = reduce_u96(upper);
        state[i + 4] = reduce_u96(lower);
        assert(state@ == old_state.update(i as int, state@[i as int]).update(
            i + 4,
            state@[i + 4],
        ));
        i += 1;
    }
    assert forall|k: int| 0 <= k < 8 implies values(state@)[k] == mds_layer(before)[k] by {
        if k >= 4 {
            assert(state@[k - 4]@ == mds_layer(before)[k - 4]);
        }
    }
    assert(values(state@) =~= mds_layer(before));
}

/// Runs the round that uses the constants of round `step`, counted modulo
/// the number of rounds.
pub fn apply_round(c: &[[u64; 4]; 11], d: &[[u64; 4]; 11], state: &mut [Fp; 8], step: usize)
    ensures
        values(final(state)@) == round(
            c@[step as int % 11]@,
            d@[step as int % 11]@,
            values(old(state)@),
        ),
{
    let ghost before = values(state@);
    let row = step % NUM_HASH_ROUNDS;
    let mut i: usize = 0;
    while i < NUM_COLUMNS
        invariant
            i <= 4,
            row < 11,
            before.len() == 8,
            forall|k: int|
                0 <= k < i ==> (#[trigger] state@[k])@ == residue(before[k] + c@[row as int]@[k]),
            forall|k: int|
                4 <= k < 4 + i ==> (#[trigger] state@[k])@ == residue(
                    before[k] + d@[row as int]@[k - 4],
                ),
            forall|k: int| i <= k < 4 ==> (#[trigger] state@[k])@ == before[k],
            forall|k: int| 4 + i <= k < 8 ==> (#[trigger] state@[k])@ == before[k],
        decreases 4 - i,
    {
        let upper = state[i].add(Fp::new(c[row][i]));
        let lower = state[NUM_COLUMNS + i].add(Fp::new(d[row][i]));
        proof {
            lemma_residue_add(before[i as int], c@[row as int]@[i as int] as int);
            lemma_residue_add(before[i + 4], d@[row as int]@[i as int] as int);
        }
        let ghost old_state = state@;
        state[i] = upper;
        state[NUM_COLUMNS + i] = lower;
        assert(state@ == old_state.update(i as int, upper).update(i + 4, lower));
        i += 1;
    }
    assert(values(state@) =~= add_constants(c@[row as int]@, d@[row as int]@, before));
    apply_mds(state);
    apply_sbox(state);
}

/// Applies the permutation to the state.
pub fn apply_permutation(c: &[[u64; 4]; 11], d: &[[u64; 4]; 11], state: &mut [Fp; 8])
    ensures
        values(final(state)@) == permute(*c, *d, values(old(state)@)),
{
    let ghost before = values(state@);
    let mut i: usize = 0;
    while i < NUM_HASH_ROUNDS
        invariant
            i <= NUM_HASH_ROUNDS,
            values(state@) == rounds(*c, *d, i as nat, before),
        decreases NUM_HASH_ROUNDS - i,
    {
        let ghost entered = values(state@);
        apply_round(c, d, state, i);
        proof {
            assert(i as int % 11 == i as int);
            assert(rounds(*c, *d, (i + 1) as nat, before) == round(
                c@[i as int]@,
                d@[i as int]@,
                entered,
            ));
        }
        i += 1;
    }
    apply_mds(state)
}

} // verus!
