//! The Griffin family. Its hash functions run the sponge over a permutation
//! engine that the caller supplies.

pub mod griffin_64_12_8;
pub mod griffin_64_8_4;
