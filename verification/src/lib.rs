//! Parameter-optimization engine for a fully-homomorphic-encryption compiler.
//!
//! Given a directed acyclic graph of homomorphic operations and a target
//! configuration (security level, maximum decryption-failure probability,
//! ciphertext-modulus width), the optimizer selects concrete cryptosystem
//! parameters that minimize a modeled execution cost subject to correctness
//! (noise) and security constraints.

pub mod ciphertext;
pub mod graph;
pub mod noise;
pub mod optimizer;
pub mod parameters;
pub mod complexity;
pub mod security;
