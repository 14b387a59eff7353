//! The per-match record and its mathematical model.
//!
//! A [`GameState`] is the single source of truth for one match.  Its ghost
//! view, [`GameModel`], abstracts the pending attack into an `Option` and the
//! byte vectors into sequences; every contract of the rule engine speaks of
//! that model.  [`GameModel::wf`] is the record invariant: every constructor
//! establishes it and every operation preserves it.

use vstd::prelude::*;

use crate::types::{Phase, RevealedTile, TILE_POISON, TILE_SHIELD, TOTAL_TILES};

verus! {

/// Mathematical model of one match record.
#[verifier::ext_equal]
pub ghost struct GameModel {
    /// Identity token of the first player (opaque bytes; only equality is
    /// ever asked of it).
    pub player1: Seq<u8>,
    /// Identity token of the second player.
    pub player2: Seq<u8>,
    /// Wager of the first player, passed through to the escrow ledger.
    pub player1_points: int,
    /// Wager of the second player.
    pub player2_points: int,
    /// 32-byte hash binding the first player to an undisclosed board;
    /// all zero until that player commits.
    pub player1_commitment: Seq<u8>,
    /// Commitment of the second player.
    pub player2_commitment: Seq<u8>,
    /// Whether the first player has committed; flips false to true once.
    pub player1_committed: bool,
    /// Whether the second player has committed.
    pub player2_committed: bool,
    /// Lifecycle phase, strictly forward.
    pub phase: Phase,
    /// Whose turn it is to attack: 1 or 2.
    pub current_turn: u32,
    /// The single tile challenge awaiting a proof-backed response, if any.
    pub pending_attack: Option<u32>,
    /// Tiles proven on the first player's board, in order of acceptance.
    pub p1_revealed: Seq<RevealedTile>,
    /// Tiles proven on the second player's board.
    pub p2_revealed: Seq<RevealedTile>,
    /// Terminal result: 0 while the match runs, else 1 or 2.
    pub winner: u32,
}

/// One match record, keyed by a session identifier held by the caller.
#[derive(Debug)]
pub struct GameState {
    pub player1: Vec<u8>,
    pub player2: Vec<u8>,
    pub player1_points: i128,
    pub player2_points: i128,
    pub player1_commitment: Vec<u8>,
    pub player2_commitment: Vec<u8>,
    pub player1_committed: bool,
    pub player2_committed: bool,
    pub phase: Phase,
    pub current_turn: u32,
    pub pending_attack_tile: u32,
    pub has_pending_attack: bool,
    pub p1_revealed: Vec<RevealedTile>,
    pub p2_revealed: Vec<RevealedTile>,
    pub winner: u32,
}

impl View for GameState {
    type V = GameModel;

    open spec fn view(&self) -> GameModel {
        GameModel {
            player1: self.player1@,
            player2: self.player2@,
            player1_points: self.player1_points as int,
            player2_points: self.player2_points as int,
            player1_commitment: self.player1_commitment@,
            player2_commitment: self.player2_commitment@,
            player1_committed: self.player1_committed,
            player2_committed: self.player2_committed,
            phase: self.phase,
            current_turn: self.current_turn,
            pending_attack: if self.has_pending_attack {
                Some(self.pending_attack_tile)
            } else {
                None
            },
            p1_revealed: self.p1_revealed@,
            p2_revealed: self.p2_revealed@,
            winner: self.winner,
        }
    }
}

/// The other of the two player numbers.
pub open spec fn other_player(num: u32) -> u32 {
    if num == 1 { 2 } else { 1 }
}

/// Whether some reveal in `s` concerns tile `idx`.
pub open spec fn contains_index(s: Seq<RevealedTile>, idx: u32) -> bool {
    exists|i: int| 0 <= i < s.len() && s[i].tile_index == idx
}

/// No tile index occurs twice in `s`.
pub open spec fn no_duplicate_indices(s: Seq<RevealedTile>) -> bool {
    forall|i: int, j: int|
        0 <= i < j < s.len() ==> s[i].tile_index != s[j].tile_index
}

/// Invariant of a revealed-tiles sequence: indices unique and on the board,
/// types drawn from the closed enumeration, and no more entries than tiles.
pub open spec fn revealed_list_ok(s: Seq<RevealedTile>) -> bool {
    &&& no_duplicate_indices(s)
    &&& forall|i: int|
        0 <= i < s.len() ==> (#[trigger] s[i]).tile_index < TOTAL_TILES && s[i].tile_type <= 2
    &&& s.len() <= TOTAL_TILES
}

/// How many Poison reveals `s` holds.
pub open spec fn count_poison(s: Seq<RevealedTile>) -> int
    decreases s.len(),
{
    if s.len() == 0 {
        0
    } else {
        count_poison(s.drop_last()) + if s.last().tile_type == TILE_POISON { 1int } else { 0int }
    }
}

/// How many Shield reveals `s` holds.
pub open spec fn count_shield(s: Seq<RevealedTile>) -> int
    decreases s.len(),
{
    if s.len() == 0 {
        0
    } else {
        count_shield(s.drop_last()) + if s.last().tile_type == TILE_SHIELD { 1int } else { 0int }
    }
}

/// The winning condition of the race variant: the reveals on one board show
/// two Poison tiles and a Shield tile.
pub open spec fn spec_attacker_won(s: Seq<RevealedTile>) -> bool {
    count_poison(s) >= 2 && count_shield(s) >= 1
}

impl GameModel {
    /// Whether `who` is one of the two participants.
    pub open spec fn is_player(self, who: Seq<u8>) -> bool {
        who == self.player1 || who == self.player2
    }

    /// Which participant `who` is: 1 or 2.
    pub open spec fn player_num(self, who: Seq<u8>) -> u32
        recommends
            self.is_player(who),
    {
        if who == self.player1 { 1 } else { 2 }
    }

    /// The reveals on the board currently under attack: the board of the
    /// opponent of the player whose turn it is.
    pub open spec fn target_list(self) -> Seq<RevealedTile> {
        if self.current_turn == 1 { self.p2_revealed } else { self.p1_revealed }
    }

    /// The stored commitment of player `num`.
    pub open spec fn commitment_of(self, num: u32) -> Seq<u8> {
        if num == 1 { self.player1_commitment } else { self.player2_commitment }
    }

    /// The reveals on the board of player `num`.
    pub open spec fn revealed_of(self, num: u32) -> Seq<RevealedTile> {
        if num == 1 { self.p1_revealed } else { self.p2_revealed }
    }

    /// Well-formedness of a match record.  Established at match start and
    /// preserved by every operation.
    pub open spec fn wf(self) -> bool {
        &&& self.player1 != self.player2
        &&& self.player1_commitment.len() == 32
        &&& self.player2_commitment.len() == 32
        &&& self.current_turn == 1 || self.current_turn == 2
        &&& self.winner <= 2
        &&& (self.phase is Finished) <==> self.winner != 0
        &&& (self.phase is Playing || self.phase is Finished) ==> (
            self.player1_committed && self.player2_committed
        )
        &&& self.pending_attack matches Some(tile) ==> {
            &&& self.phase is Playing
            &&& tile < TOTAL_TILES
            &&& !contains_index(self.target_list(), tile)
        }
        &&& revealed_list_ok(self.p1_revealed)
        &&& revealed_list_ok(self.p2_revealed)
    }
}

impl GameState {
    /// Well-formedness, stated of the concrete record through its model.
    pub open spec fn wf(self) -> bool {
        self@.wf()
    }
}

/// A well-formed revealed list that misses at least one on-board tile has
/// strictly fewer entries than the board has tiles: its indices are distinct
/// members of the board range with one member excluded.  This is what lets a
/// reveal be appended without ever growing a list past the board size.
pub proof fn lemma_unrevealed_tile_bounds_len(s: Seq<RevealedTile>, tile: u32)
    requires
        no_duplicate_indices(s),
        forall|i: int| 0 <= i < s.len() ==> (#[trigger] s[i]).tile_index < TOTAL_TILES,
        tile < TOTAL_TILES,
        !contains_index(s, tile),
    ensures
        s.len() < TOTAL_TILES,
{
    broadcast use vstd::set::group_set_axioms;

    let idx = Seq::new(s.len(), |i: int| s[i].tile_index as int);
    assert(idx.no_duplicates());
    idx.unique_seq_to_set();
    let range = vstd::set_lib::set_int_range(0, TOTAL_TILES as int);
    vstd::set_lib::lemma_int_range(0, TOTAL_TILES as int);
    let allowed = range.remove(tile as int);
    assert forall|x: int| idx.to_set().contains(x) implies allowed.contains(x) by {
        let i = choose|i: int| 0 <= i < idx.len() && idx[i] == x;
        assert(s[i].tile_index < TOTAL_TILES);
        assert(s[i].tile_index != tile);
    }
    assert(allowed.insert(tile as int) =~= range);
    vstd::set_lib::lemma_len_subset(idx.to_set(), allowed);
}

/// Byte-for-byte equality of two identity tokens.
pub fn bytes_eq(a: &Vec<u8>, b: &Vec<u8>) -> (r: bool)
    ensures
        r <==> a@ == b@,
{
    if a.len() != b.len() {
        return false;
    }
    let n = a.len();
    let mut i: usize = 0;
    while i < n
        invariant
            n == a@.len() == b@.len(),
            0 <= i <= n,
            forall|j: int| 0 <= j < i ==> a@[j] == b@[j],
        decreases n - i,
    {
        if a[i] != b[i] {
            return false;
        }
        i += 1;
    }
    proof {
        assert(a@ =~= b@);
    }
    true
}

/// Whether tile `idx` already occurs in `revealed`.
pub fn contains_tile(revealed: &Vec<RevealedTile>, idx: u32) -> (r: bool)
    ensures
        r == contains_index(revealed@, idx),
{
    let n = revealed.len();
    let mut i: usize = 0;
    while i < n
        invariant
            n == revealed@.len(),
            0 <= i <= n,
            forall|j: int| 0 <= j < i ==> revealed@[j].tile_index != idx,
        decreases n - i,
    {
        if revealed[i].tile_index == idx {
            return true;
        }
        i += 1;
    }
    false
}

/// Count how many Poison and how many Shield reveals `revealed` holds.
/// Returns `(poison, shield)`.
pub fn count_specials(revealed: &Vec<RevealedTile>) -> (r: (u32, u32))
    requires
        revealed@.len() <= TOTAL_TILES,
    ensures
        r.0 == count_poison(revealed@),
        r.1 == count_shield(revealed@),
{
    let mut poison: u32 = 0;
    let mut shield: u32 = 0;
    let n = revealed.len();
    let mut i: usize = 0;
    while i < n
        invariant
            n == revealed@.len() <= TOTAL_TILES,
            0 <= i <= n,
            poison == count_poison(revealed@.take(i as int)),
            shield == count_shield(revealed@.take(i as int)),
            poison <= i,
            shield <= i,
        decreases n - i,
    {
        let t = revealed[i].tile_type;
        proof {
            assert(revealed@.take(i + 1).drop_last() =~= revealed@.take(i as int));
            assert(revealed@.take(i + 1).last() == revealed@[i as int]);
        }
        if t == TILE_POISON {
            poison += 1;
        }
        if t == TILE_SHIELD {
            shield += 1;
        }
        i += 1;
    }
    proof {
        assert(revealed@.take(n as int) =~= revealed@);
    }
    (poison, shield)
}

/// Did the attacker already win on this board: two Poison and one Shield
/// found among the reveals.
pub fn attacker_won(revealed: &Vec<RevealedTile>) -> (r: bool)
    requires
        revealed@.len() <= TOTAL_TILES,
    ensures
        r == spec_attacker_won(revealed@),
{
    let (poison, shield) = count_specials(revealed);
    poison >= 2 && shield >= 1
}

} // verus!
