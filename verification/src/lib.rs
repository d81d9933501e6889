//! Shape checking and training-loop orchestration for a small logistic
//! regression trainer.
//!
//! The numeric payload of the model (features, labels, weights) is opaque to
//! this crate: every scalar travels as a raw 64-bit word. What is verified
//! here is everything the trainer decides about those words: when the shapes
//! of the matrix, label vector and weight vector agree, how the weight state
//! evolves across the fixed-length gradient-descent loop, when a diagnostic
//! loss value is due, and when the loop is finished.

pub mod error;
pub mod shape;
pub mod trainer;
