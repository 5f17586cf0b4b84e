//! An epoch-based reward distribution engine: an administrator publishes a
//! Merkle root per epoch, and recipients prove inclusion to claim exactly once.
//! Beside it stands the treasury controller that routes funds and limits trades.
pub mod controller;
pub mod engine;
pub mod error;
pub mod lemmas;
pub mod merkle;
pub mod state;
pub mod vault;
