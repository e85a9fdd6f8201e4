//! The Rescue permutation, for any state width and number of rounds.
//!
//! A round has two halves. The first raises every element to the seventh
//! power, the second to the inverse power; each half then multiplies the
//! state by the dense matrix and adds its row of round constants. The matrix
//! and the round constants are configuration.

use crate::f64_utils::{
    apply_rescue_inv_sbox, apply_rescue_sbox, inverse_power_layer, power_layer,
};
use crate::field::{values, Fp};
use crate::linalg::{add_constants, add_round_constants, dense_layer, ints, mat_vec, table};
use crate::traits::Permutation;
use vstd::prelude::*;

verus! {

/// A Rescue permutation of `W` elements in `R` rounds.
#[derive(Debug)]
pub struct RescuePermutation<const W: usize, const R: usize> {
    /// The dense diffusion matrix: row `i` holds the coefficients of element
    /// `i` of the product.
    pub mds: [[u64; W]; W],
    /// The constants added at the end of the first half of each round.
    pub ark_first: [[u64; W]; R],
    /// The constants added at the end of the second half of each round.
    pub ark_second: [[u64; W]; R],
}

/// The first half of a round: seventh powers, dense matrix, constants.
pub open spec fn forward_half(mds: Seq<Seq<int>>, constants: Seq<int>, state: Seq<int>) -> Seq<
    int,
> {
    add_constants(constants, mat_vec(mds, power_layer(state)))
}

/// The second half of a round: inverse powers, dense matrix, constants.
pub open spec fn inverse_half(mds: Seq<Seq<int>>, constants: Seq<int>, state: Seq<int>) -> Seq<
    int,
> {
    add_constants(constants, mat_vec(mds, inverse_power_layer(state)))
}

/// One round: the first half, then the second.
pub open spec fn round(
    mds: Seq<Seq<int>>,
    first: Seq<int>,
    second: Seq<int>,
    state: Seq<int>,
) -> Seq<int> {
    inverse_half(mds, second, forward_half(mds, first, state))
}

/// The state after the first `count` rounds.
pub open spec fn rounds(
    mds: Seq<Seq<int>>,
    ark_first: Seq<Seq<int>>,
    ark_second: Seq<Seq<int>>,
    count: nat,
    state: Seq<int>,
) -> Seq<int>
    decreases count,
{
    if count == 0 {
        state
    } else {
        round(
            mds,
            ark_first[count - 1],
            ark_second[count - 1],
            rounds(mds, ark_first, ark_second, (count - 1) as nat, state),
        )
    }
}

/// The rounds keep the width of the state.
pub proof fn lemma_rounds_width(
    mds: Seq<Seq<int>>,
    ark_first: Seq<Seq<int>>,
    ark_second: Seq<Seq<int>>,
    count: nat,
    state: Seq<int>,
)
    ensures
        rounds(mds, ark_first, ark_second, count, state).len() == state.len(),
    decreases count,
{
    if count > 0 {
        lemma_rounds_width(mds, ark_first, ark_second, (count - 1) as nat, state);
    }
}

impl<const W: usize, const R: usize> RescuePermutation<W, R> {
    /// The permutation with the given matrix and round constants.
    pub fn new(mds: [[u64; W]; W], ark_first: [[u64; W]; R], ark_second: [[u64; W]; R]) -> (engine:
        Self)
        ensures
            engine.mds == mds,
            engine.ark_first == ark_first,
            engine.ark_second == ark_second,
    {
        RescuePermutation { mds, ark_first, ark_second }
    }

    /// The state after the first `count` rounds of this permutation.
    pub open spec fn spec_rounds(&self, count: nat, state: Seq<int>) -> Seq<int> {
        rounds(table(self.mds), table(self.ark_first), table(self.ark_second), count, state)
    }

    /// Runs the round `step`.
    pub fn apply_round(&self, state: &mut [Fp; W], step: usize)
        requires
            step < R,
        ensures
            values(final(state)@) == round(
                table(self.mds),
                ints(self.ark_first@[step as int]@),
                ints(self.ark_second@[step as int]@),
                values(old(state)@),
            ),
    {
        apply_rescue_sbox(state);
        dense_layer(&self.mds, state);
        add_round_constants(&self.ark_first[step], state);
        apply_rescue_inv_sbox(state);
        dense_layer(&self.mds, state);
        add_round_constants(&self.ark_second[step], state);
    }
}

impl<const W: usize, const R: usize> Permutation<W> for RescuePermutation<W, R> {
    open spec fn spec_permute(&self, state: Seq<int>) -> Seq<int> {
        self.spec_rounds(R as nat, state)
    }

    proof fn lemma_permute_width(&self, state: Seq<int>) {
        lemma_rounds_width(
            table(self.mds),
            table(self.ark_first),
            table(self.ark_second),
            R as nat,
            state,
        );
    }

    fn apply_permutation(&self, state: &mut [Fp; W]) {
        let ghost before = values(state@);
        let mut i: usize = 0;
        while i < R
            invariant
                i <= R,
                values(state@) == self.spec_rounds(i as nat, before),
            decreases R - i,
        {
            self.apply_round(state, i);
            i += 1;
        }
    }
}

} // verus!
