//! Rule engine for a two-player hidden-information tile game.
//!
//! Each player commits to a board of 15 tiles (2 Poison, 1 Shield, the rest
//! Normal) by a 32-byte hash, then the players alternate attacks.  A claimed
//! tile type is accepted only together with a zero-knowledge proof whose
//! public inputs are derived exclusively from state already on record, so
//! neither party can lie about a board after committing to it.  The first
//! attacker to uncover 2 Poison and 1 Shield on the opponent's board wins,
//! and the wager is settled exactly once.
//!
//! The proof verifier and the escrow ledger are external collaborators: the
//! library hands out the exact public-input bytes the verifier must check and
//! consumes its verdict as a plain value, and it reports when settlement is
//! owed rather than performing it.

pub mod game;
pub mod inputs;
pub mod laws;
pub mod state;
pub mod types;
