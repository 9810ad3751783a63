//! Queries over the stored locations.

pub mod latest;
pub mod range;
