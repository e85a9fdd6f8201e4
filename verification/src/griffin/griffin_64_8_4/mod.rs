//! Griffin over a state of eight elements, four of them rate.

pub mod hasher;

use crate::digest::ElementDigest;
pub use hasher::GriffinHash;
use vstd::prelude::*;

verus! {

/// The state holds eight field elements.
pub const STATE_WIDTH: usize = 8;

/// Four elements of the state take the input.
pub const RATE_WIDTH: usize = 4;

/// Four elements are returned as digest.
pub const DIGEST_SIZE: usize = 4;

/// The digest of this instance.
pub type GriffinDigest = ElementDigest;

} // verus!
