//! Poseidon over a state of eight elements, four of them rate.

pub mod hasher;
pub mod mds;
pub mod round_constants;

use crate::digest::ElementDigest;
use crate::field::{pow_mod, values, Fp};
use crate::linalg::{ints, mat_vec, table};
use crate::f64_utils::power_layer;
use crate::poseidon::permutation::{full_round, partial_rounds, permutation, sparse_mat_vec};
pub use crate::poseidon::permutation::{NUM_HALF_FULL_ROUNDS, NUM_PARTIAL_ROUNDS, NUM_ROUNDS};
pub use hasher::PoseidonHash;
use mds::{MDS, M_I, V_COL, W_HAT};
use round_constants::ARK;
use vstd::prelude::*;

verus! {

/// The state holds eight field elements.
pub const STATE_WIDTH: usize = 8;

/// Four elements of the state take the input.
pub const RATE_WIDTH: usize = 4;

/// Four elements are returned as digest.
pub const DIGEST_SIZE: usize = 4;

/// The digest of this instance.
pub type PoseidonDigest = ElementDigest;

/// The permutation of this instance, with its published tables.
pub open spec fn permute(state: Seq<int>) -> Seq<int> {
    permutation(table(ARK), table(MDS), table(M_I), table(V_COL), table(W_HAT), state)
}

/// Multiplies the state by the dense diffusion matrix.
pub fn apply_mds(state: &mut [Fp; 8])
    ensures
        values(final(state)@) == mat_vec(table(MDS), values(old(state)@)),
{
    crate::linalg::dense_layer(&MDS, state);
}

/// Takes the state into the basis of the partial rounds.
pub fn apply_mi(state: &mut [Fp; 8])
    ensures
        values(final(state)@) == mat_vec(table(M_I), values(old(state)@)),
{
    crate::linalg::dense_layer(&M_I, state);
}

/// Applies the sparse matrix of the partial round `round`, counted from the
/// first.
pub fn cheap_matrix_mul(state: &mut [Fp; 8], round: usize)
    requires
        round < NUM_PARTIAL_ROUNDS,
    ensures
        values(final(state)@) == sparse_mat_vec(
            ints(W_HAT[NUM_PARTIAL_ROUNDS - round - 1]@),
            ints(V_COL[NUM_PARTIAL_ROUNDS - round - 1]@),
            values(old(state)@),
        ),
{
    crate::poseidon::permutation::sparse_layer(
        &W_HAT[NUM_PARTIAL_ROUNDS - round - 1],
        &V_COL[NUM_PARTIAL_ROUNDS - round - 1],
        state,
    );
}

/// Raises every element of the state to the seventh power.
pub fn apply_full_sbox(state: &mut [Fp; 8])
    ensures
        values(final(state)@) == power_layer(values(old(state)@)),
{
    crate::f64_utils::apply_rescue_sbox(state);
}

/// Raises the element to the seventh power.
pub fn pow_7(x: &mut Fp)
    ensures
        final(x)@ == pow_mod(old(x)@, 7),
{
    crate::f64_utils::pow_7(x);
}

/// Runs the full round that uses the constants of round `step`, counted
/// modulo the number of rounds.
pub fn apply_full_round(state: &mut [Fp; 8], step: usize)
    ensures
        values(final(state)@) == full_round(
            ints(ARK[step as int % NUM_ROUNDS as int]@),
            table(MDS),
            values(old(state)@),
        ),
{
    crate::poseidon::permutation::apply_full_round(&ARK[step % NUM_ROUNDS], &MDS, state);
}

/// Runs the block of partial rounds.
pub fn apply_partial_rounds(state: &mut [Fp; 8])
    ensures
        values(final(state)@) == partial_rounds(
            table(ARK),
            table(M_I),
            table(V_COL),
            table(W_HAT),
            values(old(state)@),
        ),
{
    crate::poseidon::permutation::apply_partial_rounds(&ARK, &M_I, &V_COL, &W_HAT, state);
}

/// Applies the permutation to the state.
pub fn apply_permutation(state: &mut [Fp; 8])
    ensures
        values(final(state)@) == permute(values(old(state)@)),
{
    crate::poseidon::permutation::apply_permutation(&ARK, &MDS, &M_I, &V_COL, &W_HAT, state);
}

} // verus!
