//! The hash function built on the permutation of width 8.

use super::mds::{MDS, M_I, V_COL, W_HAT};
use super::round_constants::ARK;
use super::{apply_permutation, permute, PoseidonDigest, RATE_WIDTH};
use crate::digest::ElementDigest;
use crate::field::Fp;
use crate::linalg::table;
use crate::poseidon::permutation::lemma_permutation_width;
use crate::sponge::{jive_merge_digest, merge_jive, poseidon_state, sponge_poseidon};
use crate::traits::{Hasher, Permutation};
use vstd::prelude::*;

verus! {

/// A Poseidon hash over the field, with a compression merge. The two digests
/// of a merge fill the whole state.
#[derive(Clone, Copy, Debug, PartialEq, Eq)]
pub struct PoseidonHash {}

impl Default for PoseidonHash {
    fn default() -> (hasher: PoseidonHash) {
        PoseidonHash {  }
    }
}

impl Permutation<8> for PoseidonHash {
    open spec fn spec_permute(&self, state: Seq<int>) -> Seq<int> {
        permute(state)
    }

    proof fn lemma_permute_width(&self, state: Seq<int>) {
        lemma_permutation_width(
            table(ARK),
            table(MDS),
            table(M_I),
            table(V_COL),
            table(W_HAT),
            state,
        );
    }

    fn apply_permutation(&self, state: &mut [Fp; 8]) {
        apply_permutation(state);
    }
}

impl Hasher for PoseidonHash {
    type Digest = PoseidonDigest;

    open spec fn spec_hash(&self, input: Seq<int>) -> Seq<int> {
        poseidon_state(self, RATE_WIDTH as nat, input).take(4)
    }

    open spec fn spec_merge(&self, left: Seq<int>, right: Seq<int>) -> Seq<int> {
        jive_merge_digest(self, left, right)
    }

    fn hash(&self, input: &[Fp]) -> (digest: PoseidonDigest) {
        let state = sponge_poseidon(self, RATE_WIDTH, input);
        ElementDigest::from_state(&state)
    }

    fn merge(&self, values: &[PoseidonDigest; 2]) -> (digest: PoseidonDigest) {
        let elements = merge_jive(self, values[0].as_elements(), values[1].as_elements());
        ElementDigest::new(elements)
    }

    fn merge_with_int(&self, seed: PoseidonDigest, value: u64) -> (digest: PoseidonDigest) {
        let input = seed.with_int(value);
        self.hash(input.as_slice())
    }
}

} // verus!
