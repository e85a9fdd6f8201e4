//! The capabilities shared by every hash function of the library.

use crate::field::Fp;
use vstd::prelude::*;

verus! {

/// The output of a hash function: a short sequence of field elements with a
/// fixed 32-byte encoding.
pub trait Digest: core::fmt::Debug + Default + Copy + Clone + Eq + PartialEq + Send + Sync {
    /// The field elements of the digest, as integers in `[0, p)`.
    spec fn spec_elements(&self) -> Seq<int>;

    /// The encoding of a sequence of digest elements.
    spec fn spec_encode(elements: Seq<int>) -> Seq<u8>;

    /// The elements that 32 bytes spell, where each is canonical.
    spec fn spec_decode(bytes: Seq<u8>) -> Option<Seq<int>>;

    /// Returns this digest serialized into an array of bytes.
    fn as_bytes(&self) -> (bytes: [u8; 32])
        ensures
            bytes@ == Self::spec_encode(self.spec_elements()),
            Self::spec_decode(bytes@) == Some(self.spec_elements()),
    ;
}

/// A fixed-width permutation of field elements.
pub trait Permutation<const W: usize> {
    /// The permuted state, as a function of the state alone.
    spec fn spec_permute(&self, state: Seq<int>) -> Seq<int>;

    /// The permutation keeps the width of the state.
    proof fn lemma_permute_width(&self, state: Seq<int>)
        requires
            state.len() == W,
        ensures
            self.spec_permute(state).len() == W,
    ;

    /// Replaces the state by its image under the permutation.
    fn apply_permutation(&self, state: &mut [Fp; W])
        ensures
            crate::field::values(final(state)@) == self.spec_permute(
                crate::field::values(old(state)@),
            ),
    ;
}

/// A cryptographic hash function over field elements.
pub trait Hasher {
    /// The digest type returned by this hasher.
    type Digest: Digest;

    /// The elements of the digest of a sequence of elements.
    spec fn spec_hash(&self, input: Seq<int>) -> Seq<int>;

    /// The elements of the digest that two digests merge into.
    spec fn spec_merge(&self, left: Seq<int>, right: Seq<int>) -> Seq<int>;

    /// Returns a hash of the provided sequence of field elements.
    fn hash(&self, input: &[Fp]) -> (digest: Self::Digest)
        ensures
            digest.spec_elements() == self.spec_hash(crate::field::values(input@)),
    ;

    /// Returns a hash of two digests.
    /// This method is intended for use in construction of Merkle trees.
    fn merge(&self, values: &[Self::Digest; 2]) -> (digest: Self::Digest)
        ensures
            digest.spec_elements() == self.spec_merge(
                values@[0].spec_elements(),
                values@[1].spec_elements(),
            ),
    ;

    /// Returns the hash of the elements of `seed` followed by `value`.
    /// This method is intended for use in random coin sampling contexts.
    fn merge_with_int(&self, seed: Self::Digest, value: u64) -> (digest: Self::Digest)
        ensures
            digest.spec_elements() == self.spec_hash(
                seed.spec_elements().push(crate::field::residue(value as int)),
            ),
    ;
}

} // verus!
