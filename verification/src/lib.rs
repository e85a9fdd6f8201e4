//! Algebraic hash functions over the 64-bit prime field of order
//! `p = 2^64 - 2^32 + 1`: sponge hashing and two-to-one merging built on
//! fixed-width permutations.
//!
//! - [`field`] holds the field element and its arithmetic, [`f64_utils`] the
//!   power maps, [`linalg`] the sums and products of the linear layers.
//! - [`traits`] declares what a digest, a permutation and a hash function
//!   offer; [`digest`] holds the digest of four elements.
//! - [`sponge`] runs the sponge over any permutation, with the padding rule
//!   of each family and the two ways of merging.
//! - [`poseidon`], [`anemoi`], [`griffin`] and [`rescue`] hold the families.
//!
//! Every function states what it computes over integers: a field element is
//! viewed as its representative in `[0, p)`, a state or a digest as the
//! sequence of the representatives of its elements.

pub mod anemoi;
pub mod digest;
pub mod f64_utils;
pub mod field;
pub mod griffin;
pub mod linalg;
pub mod poseidon;
pub mod rescue;
pub mod sponge;
pub mod traits;

pub use anemoi::anemoi_64_8_4;
pub use griffin::{griffin_64_12_8, griffin_64_8_4};
pub use poseidon::{poseidon_64_12_8, poseidon_64_8_4};
