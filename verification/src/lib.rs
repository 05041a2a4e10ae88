//! Confidential value commitments and confidential two-party swaps.
//!
//! A party commits to a secret amount, proves in zero knowledge that the amount
//! (or a quantity derived from it) lies in a bounded range, and lets any
//! observer check the proof without learning the amount.  This crate is the
//! protocol layer: it owns the commitment lifecycle, the state transitions of
//! proving and verifying, and the swap rule that rejects an exchange rate
//! that strays too far from the agreed one.  Curve arithmetic, the range-proof
//! construction and the random source are left to the crates it calls.

pub mod confidential;
pub mod confidential_swap;
pub mod engine;
pub mod error;
pub mod range;
pub mod scalar;
pub mod text;
pub mod utils;

pub use confidential::ConfidentialTransactions;
