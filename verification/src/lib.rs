//! A verified progression engine for game-asset tokens.
//!
//! Four operations — mint, update, evolve, fuse — derive new attribute
//! values from prior state and validate temporal and ordering
//! preconditions before committing a mutation. The engine is pure: it
//! receives the current progression record and the caller's clock
//! reading, validates, and returns the updated record together with the
//! attribute set that the host hands to its external attribute ledger.

pub mod achievement;
pub mod attributes;
pub mod engine;
pub mod rarity;
pub mod state;
pub mod text;
