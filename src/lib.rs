//! A feed-forward network trainer: layer topology, the background trainer's
//! control protocol, and the column handling of tabular training data.
//!
//! The floating-point engine (activations, forward and backward passes)
//! lives beside this crate; what is decided here is proved.
pub mod topology;
pub mod trainer;
pub mod dataset;
