//! The constants of the S-box.

use vstd::prelude::*;

verus! {

/// The multiplier of the squares.
pub const BETA: u32 = 7;

/// The additive constant: the inverse of `BETA` in the field.
pub const DELTA: u64 = 2635249152773512046;

} // verus!
