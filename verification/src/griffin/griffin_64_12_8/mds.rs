//! The matrix of the linear layer of width 12.

use vstd::prelude::*;

verus! {

/// The dense diffusion matrix: row `i` holds the coefficients of element `i`
/// of the product.
pub const MDS: [[u64; 12]; 12] = [
    [10, 14, 2, 6, 5, 7, 1, 3, 5, 7, 1, 3],
    [8, 12, 2, 2, 4, 6, 1, 1, 4, 6, 1, 1],
    [2, 6, 10, 14, 1, 3, 5, 7, 1, 3, 5, 7],
    [2, 2, 8, 12, 1, 1, 4, 6, 1, 1, 4, 6],
    [5, 7, 1, 3, 10, 14, 2, 6, 5, 7, 1, 3],
    [4, 6, 1, 1, 8, 12, 2, 2, 4, 6, 1, 1],
    [1, 3, 5, 7, 2, 6, 10, 14, 1, 3, 5, 7],
    [1, 1, 4, 6, 2, 2, 8, 12, 1, 1, 4, 6],
    [5, 7, 1, 3, 5, 7, 1, 3, 10, 14, 2, 6],
    [4, 6, 1, 1, 4, 6, 1, 1, 8, 12, 2, 2],
    [1, 3, 5, 7, 1, 3, 5, 7, 2, 6, 10, 14],
    [1, 1, 4, 6, 1, 1, 4, 6, 2, 2, 8, 12],
];

} // verus!
