//! The four operations of the rule engine: match start, board commitment,
//! attack, and proof-gated response.
//!
//! Each operation has a spec-level transition on [`GameModel`] and an
//! executable counterpart on [`GameState`] whose contract says the result is
//! exactly that transition.  External work stays outside: the escrow lock
//! happens after [`start_game`] returns, the proof verifier is consulted
//! between [`prepare_response`] and [`respond_to_attack`], and settlement is
//! requested when [`respond_to_attack`] returns [`RespondEffect::Settle`].

use vstd::prelude::*;

use crate::inputs::{build_public_inputs, public_inputs_for};
use crate::state::{
    attacker_won, bytes_eq, contains_index, contains_tile, lemma_unrevealed_tile_bounds_len,
    other_player, spec_attacker_won, GameModel, GameState,
};
use crate::types::{Error, Phase, RevealedTile, PROOF_BYTES, TILE_SHIELD, TOTAL_TILES};

verus! {

/// The verifier's verdict on one proof blob, as the caller observed it:
/// the verification key failed to parse, or the proof was checked against
/// the public inputs and rejected, or it was checked and accepted.
#[derive(Copy, Clone, Debug, PartialEq, Eq, Structural)]
pub enum ProofVerdict {
    Accepted,
    Rejected,
    VkMalformed,
}

/// What the caller owes the outside world after an accepted response:
/// nothing, or one settlement request naming the winner.
#[derive(Copy, Clone, Debug, PartialEq, Eq, Structural)]
pub enum RespondEffect {
    Continue,
    Settle { player1_won: bool },
}

/// The all-zero commitment slot value of a player who has not committed.
pub open spec fn zero_commitment_seq() -> Seq<u8> {
    Seq::new(32, |i: int| 0u8)
}

/// The record a freshly started match holds.
pub open spec fn initial_model(p1: Seq<u8>, p2: Seq<u8>, w1: int, w2: int) -> GameModel {
    GameModel {
        player1: p1,
        player2: p2,
        player1_points: w1,
        player2_points: w2,
        player1_commitment: zero_commitment_seq(),
        player2_commitment: zero_commitment_seq(),
        player1_committed: false,
        player2_committed: false,
        phase: Phase::WaitingForCommits,
        current_turn: 1,
        pending_attack: None,
        p1_revealed: Seq::empty(),
        p2_revealed: Seq::empty(),
        winner: 0,
    }
}

/// Outcome of a commitment request: the new record, or the exact error.
pub open spec fn commit_outcome(m: GameModel, player: Seq<u8>, hash: Seq<u8>) -> Result<
    GameModel,
    Error,
> {
    if !(m.phase is WaitingForCommits) {
        Err(Error::WrongPhase)
    } else if player == m.player1 {
        if m.player1_committed {
            Err(Error::AlreadyCommitted)
        } else {
            Ok(commit_apply(m, 1, hash))
        }
    } else if player == m.player2 {
        if m.player2_committed {
            Err(Error::AlreadyCommitted)
        } else {
            Ok(commit_apply(m, 2, hash))
        }
    } else {
        Err(Error::NotPlayer)
    }
}

/// Store `hash` in the slot of player `num` and flip that player's flag;
/// when both flags are set the match advances to `Playing`, the only path
/// into that phase.
pub open spec fn commit_apply(m: GameModel, num: u32, hash: Seq<u8>) -> GameModel {
    let m1 = if num == 1 {
        GameModel { player1_commitment: hash, player1_committed: true, ..m }
    } else {
        GameModel { player2_commitment: hash, player2_committed: true, ..m }
    };
    if m1.player1_committed && m1.player2_committed {
        GameModel { phase: Phase::Playing, ..m1 }
    } else {
        m1
    }
}

/// The exact error an attack request gets, or `None` when it is accepted.
/// The checks run in this order, so the first failing one names the error.
pub open spec fn attack_error(m: GameModel, attacker: Seq<u8>, tile_index: u32) -> Option<
    Error,
> {
    if !(m.phase is Playing) {
        Some(Error::WrongPhase)
    } else if m.winner != 0 {
        Some(Error::GameAlreadyEnded)
    } else if m.pending_attack is Some {
        Some(Error::WrongPhase)
    } else if tile_index >= TOTAL_TILES {
        Some(Error::InvalidTileIndex)
    } else if !m.is_player(attacker) {
        Some(Error::NotPlayer)
    } else if m.player_num(attacker) != m.current_turn {
        Some(Error::NotYourTurn)
    } else if contains_index(m.target_list(), tile_index) {
        Some(Error::TileAlreadyRevealed)
    } else {
        None
    }
}

/// An accepted attack stages the tile and changes nothing else.
pub open spec fn attack_apply(m: GameModel, tile_index: u32) -> GameModel {
    GameModel { pending_attack: Some(tile_index), ..m }
}

/// The exact error a response gets before the verifier's verdict matters,
/// or `None` when the verdict decides.  The checks run in this order.
pub open spec fn respond_precheck(m: GameModel, defender: Seq<u8>, tile_type: u32) -> Option<
    Error,
> {
    if !(m.phase is Playing) {
        Some(Error::WrongPhase)
    } else if m.winner != 0 {
        Some(Error::GameAlreadyEnded)
    } else if m.pending_attack is None {
        Some(Error::WrongPhase)
    } else if tile_type > 2 {
        Some(Error::InvalidProof)
    } else if !m.is_player(defender) {
        Some(Error::NotPlayer)
    } else if m.player_num(defender) == m.current_turn {
        Some(Error::NotYourTurn)
    } else {
        None
    }
}

/// The exact error of a full response request, `None` when it succeeds.
/// After the prechecks: the proof blob must have the exact scheme length, a
/// verification key must be configured, and then the verdict decides.  A
/// rejected proof leaves the attack pending, so a corrected response may be
/// retried.
pub open spec fn respond_error(
    m: GameModel,
    defender: Seq<u8>,
    tile_type: u32,
    proof_len: int,
    has_vk: bool,
    verdict: ProofVerdict,
) -> Option<Error> {
    if respond_precheck(m, defender, tile_type) is Some {
        respond_precheck(m, defender, tile_type)
    } else if proof_len != PROOF_BYTES {
        Some(Error::InvalidProof)
    } else if !has_vk {
        Some(Error::VkNotSet)
    } else if verdict is VkMalformed {
        Some(Error::VkParseError)
    } else if verdict is Rejected {
        Some(Error::InvalidProof)
    } else {
        None
    }
}

/// Record one verified reveal: append the tile to the defender's revealed
/// list, clear the pending attack, then either finish the match (the
/// attacker completed 2 Poison + 1 Shield), or rotate the turn — except
/// that a revealed Shield grants the attacker a bonus attack.
pub open spec fn reveal_apply(m: GameModel, tile_type: u32) -> GameModel
    recommends
        m.pending_attack is Some,
{
    let entry = RevealedTile { tile_index: m.pending_attack.unwrap(), tile_type };
    let defender_num = other_player(m.current_turn);
    let m1 = if defender_num == 1 {
        GameModel { p1_revealed: m.p1_revealed.push(entry), pending_attack: None, ..m }
    } else {
        GameModel { p2_revealed: m.p2_revealed.push(entry), pending_attack: None, ..m }
    };
    if spec_attacker_won(m1.revealed_of(defender_num)) {
        GameModel { winner: m.current_turn, phase: Phase::Finished, ..m1 }
    } else if tile_type != TILE_SHIELD {
        GameModel { current_turn: other_player(m.current_turn), ..m1 }
    } else {
        m1
    }
}

/// What an accepted response obliges the caller to do about the wager.
pub open spec fn reveal_effect(m: GameModel, tile_type: u32) -> RespondEffect {
    let defender_num = other_player(m.current_turn);
    let entry = RevealedTile { tile_index: m.pending_attack.unwrap(), tile_type };
    if spec_attacker_won(m.revealed_of(defender_num).push(entry)) {
        RespondEffect::Settle { player1_won: m.current_turn == 1 }
    } else {
        RespondEffect::Continue
    }
}

/// An accepted reveal preserves the record invariant.
pub proof fn lemma_reveal_apply_wf(m: GameModel, tile_type: u32)
    requires
        m.wf(),
        m.phase is Playing,
        m.pending_attack is Some,
        tile_type <= 2,
    ensures
        reveal_apply(m, tile_type).wf(),
{
    let tile = m.pending_attack.unwrap();
    let defender_num = other_player(m.current_turn);
    let old_list = m.revealed_of(defender_num);
    assert(old_list == m.target_list());
    lemma_unrevealed_tile_bounds_len(old_list, tile);
    let entry = RevealedTile { tile_index: tile, tile_type };
    let new_list = old_list.push(entry);
    assert forall|i: int, j: int|
        0 <= i < j < new_list.len() implies new_list[i].tile_index
        != new_list[j].tile_index by {
        if j == new_list.len() - 1 {
            assert(new_list[i] == old_list[i]);
            assert(!contains_index(old_list, tile));
        }
    }
}

/// Make the 32-byte all-zero commitment slot.
fn zero_commitment() -> (r: Vec<u8>)
    ensures
        r@ == zero_commitment_seq(),
{
    let mut out: Vec<u8> = Vec::new();
    let mut i: usize = 0;
    while i < 32
        invariant
            0 <= i <= 32,
            out@ =~= zero_commitment_seq().take(i as int),
        decreases 32 - i,
    {
        out.push(0u8);
        proof {
            assert(zero_commitment_seq().take(i + 1) =~= zero_commitment_seq().take(i as int)
                + seq![0u8]);
        }
        i += 1;
    }
    proof {
        assert(out@ =~= zero_commitment_seq());
    }
    out
}

/// Copy an identity token or hash so the record owns its bytes.
fn clone_bytes(src: &Vec<u8>) -> (r: Vec<u8>)
    ensures
        r@ == src@,
{
    let mut out: Vec<u8> = Vec::new();
    let n = src.len();
    let mut i: usize = 0;
    while i < n
        invariant
            n == src@.len(),
            0 <= i <= n,
            out@ =~= src@.take(i as int),
        decreases n - i,
    {
        out.push(src[i]);
        proof {
            assert(src@.take(i + 1) =~= src@.take(i as int) + seq![src@[i as int]]);
        }
        i += 1;
    }
    proof {
        assert(out@ =~= src@);
    }
    out
}

/// Start a match: two distinct players and their wagers yield a fresh record
/// in `WaitingForCommits` with the first player to move.  The caller locks
/// the wagers with the escrow ledger only after this succeeds, so a rejected
/// request never touches escrow.
pub fn start_game(
    player1: &Vec<u8>,
    player2: &Vec<u8>,
    player1_points: i128,
    player2_points: i128,
) -> (r: Result<GameState, Error>)
    ensures
        r is Ok <==> player1@ != player2@,
        r matches Ok(g) ==> g@ == initial_model(
            player1@,
            player2@,
            player1_points as int,
            player2_points as int,
        ) && g.wf(),
        r matches Err(e) ==> e == Error::SelfPlay,
{
    if bytes_eq(player1, player2) {
        return Err(Error::SelfPlay);
    }
    let game = GameState {
        player1: clone_bytes(player1),
        player2: clone_bytes(player2),
        player1_points,
        player2_points,
        player1_commitment: zero_commitment(),
        player2_commitment: zero_commitment(),
        player1_committed: false,
        player2_committed: false,
        phase: Phase::WaitingForCommits,
        current_turn: 1,
        pending_attack_tile: 0,
        has_pending_attack: false,
        p1_revealed: Vec::new(),
        p2_revealed: Vec::new(),
        winner: 0,
    };
    proof {
        assert(game@ =~= initial_model(
            player1@,
            player2@,
            player1_points as int,
            player2_points as int,
        ));
    }
    Ok(game)
}

/// Accept one board commitment: store the hash under the caller's slot,
/// flip that player's flag, and advance to `Playing` once both players have
/// committed.  Each player's slot is written at most once, ever.
pub fn commit_board(game: &mut GameState, player: &Vec<u8>, board_hash: &Vec<u8>) -> (r: Result<
    (),
    Error,
>)
    requires
        old(game).wf(),
        board_hash@.len() == 32,
    ensures
        final(game).wf(),
        r is Ok <==> commit_outcome(old(game)@, player@, board_hash@) is Ok,
        r is Ok ==> Ok::<GameModel, Error>(final(game)@) == commit_outcome(
            old(game)@,
            player@,
            board_hash@,
        ),
        r matches Err(e) ==> commit_outcome(old(game)@, player@, board_hash@) == Err::<
            GameModel,
            Error,
        >(e) && *final(game) == *old(game),
{
    if !(game.phase == Phase::WaitingForCommits) {
        return Err(Error::WrongPhase);
    }
    if bytes_eq(player, &game.player1) {
        if game.player1_committed {
            return Err(Error::AlreadyCommitted);
        }
        game.player1_commitment = clone_bytes(board_hash);
        game.player1_committed = true;
        if game.player2_committed {
            game.phase = Phase::Playing;
        }
        proof {
            assert(game@ =~= commit_apply(old(game)@, 1, board_hash@));
        }
        Ok(())
    } else if bytes_eq(player, &game.player2) {
        if game.player2_committed {
            return Err(Error::AlreadyCommitted);
        }
        game.player2_commitment = clone_bytes(board_hash);
        game.player2_committed = true;
        if game.player1_committed {
            game.phase = Phase::Playing;
        }
        proof {
            assert(game@ =~= commit_apply(old(game)@, 2, board_hash@));
        }
        Ok(())
    } else {
        Err(Error::NotPlayer)
    }
}

/// Stage an attack: the player whose turn it is picks an on-board tile of
/// the opponent's board that has not been revealed yet.  Nothing is claimed
/// about the tile's type at this step, and exactly one attack can be
/// outstanding.
pub fn attack(game: &mut GameState, attacker: &Vec<u8>, tile_index: u32) -> (r: Result<
    (),
    Error,
>)
    requires
        old(game).wf(),
    ensures
        final(game).wf(),
        r is Ok <==> attack_error(old(game)@, attacker@, tile_index) is None,
        r is Ok ==> final(game)@ == attack_apply(old(game)@, tile_index),
        r matches Err(e) ==> attack_error(old(game)@, attacker@, tile_index) == Some(e)
            && *final(game) == *old(game),
{
    if !(game.phase == Phase::Playing) {
        return Err(Error::WrongPhase);
    }
    if game.winner != 0 {
        return Err(Error::GameAlreadyEnded);
    }
    if game.has_pending_attack {
        return Err(Error::WrongPhase);
    }
    if tile_index >= TOTAL_TILES {
        return Err(Error::InvalidTileIndex);
    }
    let attacker_num: u32 = if bytes_eq(attacker, &game.player1) {
        1
    } else if bytes_eq(attacker, &game.player2) {
        2
    } else {
        return Err(Error::NotPlayer);
    };
    if attacker_num != game.current_turn {
        return Err(Error::NotYourTurn);
    }
    let already = if attacker_num == 1 {
        contains_tile(&game.p2_revealed, tile_index)
    } else {
        contains_tile(&game.p1_revealed, tile_index)
    };
    if already {
        return Err(Error::TileAlreadyRevealed);
    }
    game.pending_attack_tile = tile_index;
    game.has_pending_attack = true;
    proof {
        assert(game@ =~= attack_apply(old(game)@, tile_index));
    }
    Ok(())
}

/// The prechecks shared by [`prepare_response`] and [`respond_to_attack`].
fn check_response(game: &GameState, defender: &Vec<u8>, tile_type: u32) -> (r: Result<(), Error>)
    requires
        game.wf(),
    ensures
        r is Ok <==> respond_precheck(game@, defender@, tile_type) is None,
        r matches Err(e) ==> respond_precheck(game@, defender@, tile_type) == Some(e),
{
    if !(game.phase == Phase::Playing) {
        return Err(Error::WrongPhase);
    }
    if game.winner != 0 {
        return Err(Error::GameAlreadyEnded);
    }
    if !game.has_pending_attack {
        return Err(Error::WrongPhase);
    }
    if tile_type > 2 {
        return Err(Error::InvalidProof);
    }
    let defender_num: u32 = if bytes_eq(defender, &game.player1) {
        1
    } else if bytes_eq(defender, &game.player2) {
        2
    } else {
        return Err(Error::NotPlayer);
    };
    if defender_num == game.current_turn {
        return Err(Error::NotYourTurn);
    }
    Ok(())
}

/// Derive the public inputs the proof verifier must check for the pending
/// attack, or say exactly why the response is rejected without consulting
/// the verifier.  The vector is built only from values already on record —
/// the defender's stored commitment, the staged tile index — plus the
/// claimed tile type, the one value the proof must vouch for.
pub fn prepare_response(
    game: &GameState,
    defender: &Vec<u8>,
    tile_type: u32,
    proof_len: usize,
    has_vk: bool,
) -> (r: Result<Vec<u8>, Error>)
    requires
        game.wf(),
    ensures
        ({
            let m = game@;
            &&& respond_precheck(m, defender@, tile_type) matches Some(e) ==> r == Err::<
                Vec<u8>,
                Error,
            >(e)
            &&& respond_precheck(m, defender@, tile_type) is None && proof_len != PROOF_BYTES
                ==> r == Err::<Vec<u8>, Error>(Error::InvalidProof)
            &&& respond_precheck(m, defender@, tile_type) is None && proof_len == PROOF_BYTES
                && !has_vk ==> r == Err::<Vec<u8>, Error>(Error::VkNotSet)
            &&& respond_precheck(m, defender@, tile_type) is None && proof_len == PROOF_BYTES
                && has_vk ==> (r matches Ok(pi) && pi@ == public_inputs_for(
                m.commitment_of(other_player(m.current_turn)),
                m.pending_attack.unwrap(),
                tile_type,
            ))
        }),
{
    check_response(game, defender, tile_type)?;
    if proof_len != PROOF_BYTES {
        return Err(Error::InvalidProof);
    }
    if !has_vk {
        return Err(Error::VkNotSet);
    }
    let inputs = if game.current_turn == 1 {
        build_public_inputs(&game.player2_commitment, game.pending_attack_tile, tile_type)
    } else {
        build_public_inputs(&game.player1_commitment, game.pending_attack_tile, tile_type)
    };
    Ok(inputs)
}

/// Resolve the pending attack with the verifier's verdict on the proof the
/// defender submitted for the public inputs of [`prepare_response`].
///
/// A rejected proof changes nothing — the attack stays pending and the call
/// reports `InvalidProof`, so the defender may retry.  An accepted proof
/// records the reveal atomically with its consequences: the match either
/// finishes (the attacker completed 2 Poison + 1 Shield, and the returned
/// effect tells the caller to settle the wager, exactly once), or continues
/// with the turn rotated — unless the revealed tile was the Shield, which
/// grants the attacker a bonus attack.
pub fn respond_to_attack(
    game: &mut GameState,
    defender: &Vec<u8>,
    tile_type: u32,
    proof_len: usize,
    has_vk: bool,
    verdict: ProofVerdict,
) -> (r: Result<RespondEffect, Error>)
    requires
        old(game).wf(),
    ensures
        final(game).wf(),
        ({
            let m = old(game)@;
            let err = respond_error(m, defender@, tile_type, proof_len as int, has_vk, verdict);
            &&& err matches Some(e) ==> r == Err::<RespondEffect, Error>(e) && *final(game)
                == *old(game)
            &&& err is None ==> r == Ok::<RespondEffect, Error>(reveal_effect(m, tile_type))
                && final(game)@ == reveal_apply(m, tile_type)
        }),
{
    check_response(game, defender, tile_type)?;
    if proof_len != PROOF_BYTES {
        return Err(Error::InvalidProof);
    }
    if !has_vk {
        return Err(Error::VkNotSet);
    }
    match verdict {
        ProofVerdict::VkMalformed => Err(Error::VkParseError),
        ProofVerdict::Rejected => Err(Error::InvalidProof),
        ProofVerdict::Accepted => {
            proof {
                lemma_reveal_apply_wf(old(game)@, tile_type);
                lemma_unrevealed_tile_bounds_len(
                    old(game)@.target_list(),
                    old(game)@.pending_attack.unwrap(),
                );
            }
            let tile = game.pending_attack_tile;
            let entry = RevealedTile { tile_index: tile, tile_type };
            let defender_num: u32 = if game.current_turn == 1 {
                2
            } else {
                1
            };
            if defender_num == 1 {
                game.p1_revealed.push(entry);
            } else {
                game.p2_revealed.push(entry);
            }
            game.has_pending_attack = false;
            let won = if defender_num == 1 {
                attacker_won(&game.p1_revealed)
            } else {
                attacker_won(&game.p2_revealed)
            };
            if won {
                let player1_won = game.current_turn == 1;
                game.winner = if player1_won {
                    1
                } else {
                    2
                };
                game.phase = Phase::Finished;
                proof {
                    assert(game@ =~= reveal_apply(old(game)@, tile_type));
                }
                Ok(RespondEffect::Settle { player1_won })
            } else {
                if tile_type != TILE_SHIELD {
                    game.current_turn = if game.current_turn == 1 {
                        2
                    } else {
                        1
                    };
                }
                proof {
                    assert(game@ =~= reveal_apply(old(game)@, tile_type));
                }
                Ok(RespondEffect::Continue)
            }
        },
    }
}

/// Gate an administrative request: only the configured administrator may
/// reconfigure the deployment (store a verification key, move the escrow
/// address, or hand over administration).
pub fn check_admin(caller: &Vec<u8>, admin: &Vec<u8>) -> (r: Result<(), Error>)
    ensures
        r is Ok <==> caller@ == admin@,
        r matches Err(e) ==> e == Error::NotAdmin,
{
    if bytes_eq(caller, admin) {
        Ok(())
    } else {
        Err(Error::NotAdmin)
    }
}

} // verus!
