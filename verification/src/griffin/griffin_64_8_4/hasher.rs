//! The hash function of width 8.

use super::{GriffinDigest, RATE_WIDTH};
use crate::digest::ElementDigest;
use crate::field::Fp;
use crate::sponge::{griffin_state, jive_merge_digest, merge_jive, sponge_griffin};
use crate::traits::{Hasher, Permutation};
use vstd::prelude::*;

verus! {

/// A Griffin hash over the field, with a compression merge. The two digests
/// of a merge fill the whole state.
#[derive(Debug)]
pub struct GriffinHash<E: Permutation<8>> {
    /// The permutation that the sponge runs.
    pub engine: E,
}

impl<E: Permutation<8> + Default> Default for GriffinHash<E> {
    /// The hash function over the default permutation of its kind.
    fn default() -> (hasher: GriffinHash<E>) {
        GriffinHash { engine: E::default() }
    }
}

impl<E: Permutation<8>> GriffinHash<E> {
    /// The hash function over the given permutation.
    pub fn new(engine: E) -> (hasher: GriffinHash<E>)
        ensures
            hasher.engine == engine,
    {
        GriffinHash { engine }
    }
}

impl<E: Permutation<8>> Hasher for GriffinHash<E> {
    type Digest = GriffinDigest;

    open spec fn spec_hash(&self, input: Seq<int>) -> Seq<int> {
        griffin_state(&self.engine, RATE_WIDTH as nat, input).take(4)
    }

    open spec fn spec_merge(&self, left: Seq<int>, right: Seq<int>) -> Seq<int> {
        jive_merge_digest(&self.engine, left, right)
    }

    fn hash(&self, input: &[Fp]) -> (digest: GriffinDigest) {
        let state = sponge_griffin(&self.engine, RATE_WIDTH, input);
        ElementDigest::from_state(&state)
    }

    fn merge(&self, values: &[GriffinDigest; 2]) -> (digest: GriffinDigest) {
        let elements = merge_jive(&self.engine, values[0].as_elements(), values[1].as_elements());
        ElementDigest::new(elements)
    }

    fn merge_with_int(&self, seed: GriffinDigest, value: u64) -> (digest: GriffinDigest) {
        let input = seed.with_int(value);
        self.hash(input.as_slice())
    }
}

} // verus!
