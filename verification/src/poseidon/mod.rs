//! The Poseidon family: the round functions shared by its instances, and
//! one module for each instance.

pub mod permutation;
pub mod poseidon_64_12_8;
pub mod poseidon_64_8_4;
