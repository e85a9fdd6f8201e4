//! The hash function built on the Anemoi permutation of width 8.

use super::{apply_permutation, permute, AnemoiDigest, RATE_WIDTH};
use crate::digest::ElementDigest;
use crate::field::Fp;
use crate::sponge::{anemoi_state, jive_merge_digest, merge_jive, sponge_anemoi};
use crate::traits::{Hasher, Permutation};
use vstd::prelude::*;

verus! {

/// An Anemoi hash over the field, with a compression merge. The two digests
/// of a merge fill the whole state.
#[derive(Clone, Copy, Debug, PartialEq, Eq)]
pub struct AnemoiHash {
    /// The round constants of the first row of the state, one row for each
    /// round.
    pub c: [[u64; 4]; 11],
    /// The round constants of the second row of the state, one row for each
    /// round.
    pub d: [[u64; 4]; 11],
}

impl AnemoiHash {
    /// The hash function with the given round constants.
    pub fn new(c: [[u64; 4]; 11], d: [[u64; 4]; 11]) -> (hasher: AnemoiHash)
        ensures
            hasher.c == c,
            hasher.d == d,
    {
        AnemoiHash { c, d }
    }
}

impl Permutation<8> for AnemoiHash {
    open spec fn spec_permute(&self, state: Seq<int>) -> Seq<int> {
        permute(self.c, self.d, state)
    }

    proof fn lemma_permute_width(&self, state: Seq<int>) {
    }

    fn apply_permutation(&self, state: &mut [Fp; 8]) {
        apply_permutation(&self.c, &self.d, state);
    }
}

impl Hasher for AnemoiHash {
    type Digest = AnemoiDigest;

    open spec fn spec_hash(&self, input: Seq<int>) -> Seq<int> {
        anemoi_state(self, RATE_WIDTH as nat, input).take(4)
    }

    open spec fn spec_merge(&self, left: Seq<int>, right: Seq<int>) -> Seq<int> {
        jive_merge_digest(self, left, right)
    }

    fn hash(&self, input: &[Fp]) -> (digest: AnemoiDigest) {
        let state = sponge_anemoi(self, RATE_WIDTH, input);
        ElementDigest::from_state(&state)
    }

    fn merge(&self, values: &[AnemoiDigest; 2]) -> (digest: AnemoiDigest) {
        let elements = merge_jive(self, values[0].as_elements(), values[1].as_elements());
        ElementDigest::new(elements)
    }

    fn merge_with_int(&self, seed: AnemoiDigest, value: u64) -> (digest: AnemoiDigest) {
        let input = seed.with_int(value);
        self.hash(input.as_slice())
    }
}

} // verus!
