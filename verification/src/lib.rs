//! Structural core of a radix-2 Cooley-Tukey transform library.
//!
//! The recursive transform only works on sequences whose length is a power
//! of two; inputs are zero-padded up to the next such length, split by index
//! parity, transformed half by half, and joined again. This crate proves
//! that each entry point returns exactly the sequence the spec-level
//! recursion describes: every sizing rule, every butterfly's operands and
//! position, and the single normalization pass. The complex-number
//! arithmetic inside the butterflies is floating point, which Verus
//! refuses, so callers supply it through a trait, and the proofs hold for
//! every implementation of it.

pub mod pow2;
pub mod radix;
pub mod transform;
