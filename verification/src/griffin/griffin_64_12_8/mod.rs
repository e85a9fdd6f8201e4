//! Griffin over a state of twelve elements, eight of them rate.

pub mod hasher;
pub mod mds;

use crate::digest::ElementDigest;
use crate::field::{values, Fp};
use crate::linalg::{mat_vec, table};
use mds::MDS;
pub use hasher::GriffinHash;
use vstd::prelude::*;

verus! {

/// The state holds twelve field elements.
pub const STATE_WIDTH: usize = 12;

/// Eight elements of the state take the input.
pub const RATE_WIDTH: usize = 8;

/// Four elements are returned as digest.
pub const DIGEST_SIZE: usize = 4;

/// The digest of this instance.
pub type GriffinDigest = ElementDigest;

/// Multiplies the state by the dense diffusion matrix.
pub fn apply_mds(state: &mut [Fp; 12])
    ensures
        values(final(state)@) == mat_vec(table(MDS), values(old(state)@)),
{
    crate::linalg::dense_layer(&MDS, state);
}

} // verus!
