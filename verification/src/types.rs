//! Shared vocabulary of the rule engine: error taxonomy, match phases and
//! the record of a single proven reveal.

use vstd::prelude::*;

verus! {

/// Number of tiles on each player's board; valid tile indices are
/// `0 .. TOTAL_TILES`.
pub const TOTAL_TILES: u32 = 15;

/// Exact byte length of a proof blob of the fixed proof scheme.  A response
/// whose blob differs in length is rejected before the verifier is consulted.
pub const PROOF_BYTES: usize = 14592;

/// Byte length of the public-input vector handed to the proof verifier:
/// three 32-byte field elements.
pub const PUB_INPUT_BYTES: usize = 96;

/// Everything that can go wrong with a request.  Every operation returns
/// either success, with its whole effect applied, or exactly one of these,
/// with no effect at all.
#[derive(Copy, Clone, Debug, PartialEq, Eq, Structural)]
pub enum Error {
    GameNotFound,
    NotPlayer,
    WrongPhase,
    AlreadyCommitted,
    NotYourTurn,
    TileAlreadyRevealed,
    InvalidTileIndex,
    InvalidProof,
    GameAlreadyEnded,
    SelfPlay,
    VkNotSet,
    VkParseError,
    NotAdmin,
}

/// Lifecycle of a match; the phase only ever moves forward.
#[derive(Copy, Clone, Debug, PartialEq, Eq, Structural)]
pub enum Phase {
    WaitingForCommits,
    Playing,
    Finished,
}

/// One tile proven on a player's board: which tile, and which type the
/// accepted proof vouched for (0 = Normal, 1 = Poison, 2 = Shield).
#[derive(Copy, Clone, Debug, PartialEq, Eq, Structural)]
pub struct RevealedTile {
    pub tile_index: u32,
    pub tile_type: u32,
}

/// Tile type codes carried in [`RevealedTile::tile_type`].
pub const TILE_NORMAL: u32 = 0;

/// Tile type code of a Poison tile; an attacker needs two of these.
pub const TILE_POISON: u32 = 1;

/// Tile type code of the Shield tile; revealing it grants the attacker a
/// bonus attack, and an attacker needs one of them to win.
pub const TILE_SHIELD: u32 = 2;

} // verus!
