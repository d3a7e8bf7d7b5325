//! Zipf-distributed ranks in `[1, size]`: the validated parameters of the law,
//! and the verified step that turns each rejection-inversion draw into a rank.

pub mod benchmark;
pub mod exponent;
pub mod sampler;
