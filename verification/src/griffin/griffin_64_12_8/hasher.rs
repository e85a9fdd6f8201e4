//! The hash function of width 12.

use super::{GriffinDigest, RATE_WIDTH};
use crate::digest::ElementDigest;
use crate::field::Fp;
use crate::sponge::{griffin_state, merge_plain, plain_merge_state, sponge_griffin};
use crate::traits::{Hasher, Permutation};
use vstd::prelude::*;

verus! {

/// A Griffin hash over the field, with a plain sponge merge.
#[derive(Debug)]
pub struct GriffinHash<E: Permutation<12>> {
    /// The permutation that the sponge runs.
    pub engine: E,
}

impl<E: Permutation<12> + Default> Default for GriffinHash<E> {
    /// The hash function over the default permutation of its kind.
    fn default() -> (hasher: GriffinHash<E>) {
        GriffinHash { engine: E::default() }
    }
}

impl<E: Permutation<12>> GriffinHash<E> {
    /// The hash function over the given permutation.
    pub fn new(engine: E) -> (hasher: GriffinHash<E>)
        ensures
            hasher.engine == engine,
    {
        GriffinHash { engine }
    }
}

impl<E: Permutation<12>> Hasher for GriffinHash<E> {
    type Digest = GriffinDigest;

    open spec fn spec_hash(&self, input: Seq<int>) -> Seq<int> {
        griffin_state(&self.engine, RATE_WIDTH as nat, input).take(4)
    }

    open spec fn spec_merge(&self, left: Seq<int>, right: Seq<int>) -> Seq<int> {
        plain_merge_state(&self.engine, left, right).take(4)
    }

    fn hash(&self, input: &[Fp]) -> (digest: GriffinDigest) {
        let state = sponge_griffin(&self.engine, RATE_WIDTH, input);
        ElementDigest::from_state(&state)
    }

    fn merge(&self, values: &[GriffinDigest; 2]) -> (digest: GriffinDigest) {
        let state = merge_plain(&self.engine, values[0].as_elements(), values[1].as_elements());
        ElementDigest::from_state(&state)
    }

    fn merge_with_int(&self, seed: GriffinDigest, value: u64) -> (digest: GriffinDigest) {
        let input = seed.with_int(value);
        self.hash(input.as_slice())
    }
}

} // verus!
