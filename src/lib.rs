//! Rank-1 constraint systems over the Jubjub scalar field, their relaxation,
//! Pedersen commitments, and the non-interactive folding scheme that merges
//! two committed relaxed instances into one.

pub mod field;
pub mod wire;
pub mod matrix;
pub mod commitment;
pub mod r1cs;
pub mod relaxed_r1cs;
pub mod transcript;
pub mod committed_relaxed_r1cs;
pub mod folding;
pub mod hash;
pub mod constraint_system;
