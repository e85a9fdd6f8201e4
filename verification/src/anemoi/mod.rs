//! The Anemoi family.

pub mod anemoi_64_8_4;
