//! A miniature modular state-transition engine.
//!
//! Independent state modules ("pallets") are composed behind a uniform
//! dispatch protocol; a block executor consumes batches of externally
//! submitted instructions ("extrinsics") and applies them deterministically,
//! isolating per-instruction failures from the rest of the block.

pub mod balances;
pub mod proof_of_existence;
pub mod runtime;
pub mod storage;
pub mod support;
pub mod system;
pub mod traits;
