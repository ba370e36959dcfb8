//! Control layer of a feedback-delay-network reverb plugin: the parameter
//! store, the staleness gate that amortises engine reconfiguration, and the
//! per-block dispatch plan handed to the signal-processing engine.
//!
//! Parameter values are host-normalized `f32` numbers. The library keeps them
//! as their IEEE-754 bit patterns (`f32::to_bits`), which is how an atomic
//! float cell holds them, so that storage and reconciliation can be reasoned
//! about exactly.
pub mod param;
pub mod store;
pub mod shared;
pub mod laws;
