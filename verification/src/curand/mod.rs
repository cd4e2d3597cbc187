//! Pseudo-random number generation: the vendor's vocabulary.

pub mod sys;
