//! Foreign-call boundary of a homomorphic-encryption computation backend:
//! a pluggable randomness capability, overflow-checked scratch sizing, and
//! an execution-mode selector, with machine-checked contracts.

pub mod csprng;
pub mod scratch;
pub mod uint128;
