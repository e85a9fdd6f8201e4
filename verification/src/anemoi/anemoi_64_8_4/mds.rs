//! The matrix of the linear layer.

use vstd::prelude::*;

verus! {

/// The matrix that mixes each half of the state, row by row.
pub const MDS: [u32; 16] = [1, 8, 7, 7, 49, 56, 8, 15, 49, 49, 1, 8, 8, 15, 7, 8];

} // verus!
