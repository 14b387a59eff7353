//! The protocol's safety laws, proved once and for all over the spec-level
//! transitions of [`crate::game`].  Each executable operation's contract
//! says its result *is* the corresponding transition, so these laws carry
//! over to every run of the engine.

use vstd::prelude::*;

use crate::game::{
    attack_apply, attack_error, commit_outcome, respond_error, respond_precheck, reveal_apply,
    ProofVerdict,
};
use crate::state::{contains_index, no_duplicate_indices, GameModel};
use crate::types::{Error, Phase, RevealedTile, TOTAL_TILES};

verus! {

/// A player commits at most once: after a player's successful commitment,
/// any further commitment request by the same player fails —
/// `AlreadyCommitted` while the match still waits for the other player,
/// `WrongPhase` once both boards are in — and the stored hash is exactly
/// the one from the successful call.
pub proof fn lemma_single_commitment(m: GameModel, player: Seq<u8>, h1: Seq<u8>, h2: Seq<u8>)
    requires
        m.wf(),
        commit_outcome(m, player, h1) is Ok,
    ensures
        ({
            let m1 = commit_outcome(m, player, h1).unwrap();
            &&& commit_outcome(m1, player, h2) is Err
            &&& m1.phase is WaitingForCommits ==> commit_outcome(m1, player, h2) == Err::<
                GameModel,
                Error,
            >(Error::AlreadyCommitted)
            &&& !(m1.phase is WaitingForCommits) ==> commit_outcome(m1, player, h2) == Err::<
                GameModel,
                Error,
            >(Error::WrongPhase)
            &&& player == m.player1 ==> m1.player1_commitment == h1
            &&& player == m.player2 ==> m1.player2_commitment == h1
        }),
{
}

/// A commitment, once stored, never changes: no later operation — another
/// player's commitment, an attack, or a verified reveal — touches a
/// committed player's stored hash or clears their committed flag.
pub proof fn lemma_commitment_stable(
    m: GameModel,
    player: Seq<u8>,
    h: Seq<u8>,
    tile_index: u32,
    tile_type: u32,
)
    ensures
        commit_outcome(m, player, h) matches Ok(m2) ==> {
            &&& m.player1_committed ==> m2.player1_committed && m2.player1_commitment
                == m.player1_commitment
            &&& m.player2_committed ==> m2.player2_committed && m2.player2_commitment
                == m.player2_commitment
        },
        attack_apply(m, tile_index).player1_commitment == m.player1_commitment,
        attack_apply(m, tile_index).player2_commitment == m.player2_commitment,
        reveal_apply(m, tile_type).player1_commitment == m.player1_commitment,
        reveal_apply(m, tile_type).player2_commitment == m.player2_commitment,
{
}

/// No tile is revealed twice.  A well-formed record never holds a duplicate
/// index in either revealed list, and an attack on a tile already present
/// in the opponent's list is refused — with `TileAlreadyRevealed` whenever
/// every earlier check passes.
pub proof fn lemma_no_double_reveal(m: GameModel, attacker: Seq<u8>, tile_index: u32)
    requires
        m.wf(),
    ensures
        no_duplicate_indices(m.p1_revealed),
        no_duplicate_indices(m.p2_revealed),
        contains_index(m.target_list(), tile_index) ==> attack_error(m, attacker, tile_index)
            is Some,
        contains_index(m.target_list(), tile_index) && m.phase is Playing && m.pending_attack
            is None && tile_index < TOTAL_TILES && m.is_player(attacker) && m.player_num(attacker)
            == m.current_turn ==> attack_error(m, attacker, tile_index) == Some(
            Error::TileAlreadyRevealed,
        ),
{
}

/// At most one attack is outstanding: while an attack is pending, any
/// further attack request fails with `WrongPhase`, whoever makes it.
pub proof fn lemma_turn_exclusivity(m: GameModel, attacker: Seq<u8>, tile_index: u32)
    requires
        m.wf(),
        m.phase is Playing,
        m.pending_attack is Some,
    ensures
        attack_error(m, attacker, tile_index) == Some(Error::WrongPhase),
{
}

/// Position of a phase on the one-way lifecycle road.
pub open spec fn phase_rank(p: Phase) -> int {
    match p {
        Phase::WaitingForCommits => 0,
        Phase::Playing => 1,
        Phase::Finished => 2,
    }
}

/// The phase only ever moves forward: no transition — commitment, attack
/// or verified reveal — takes a record to an earlier phase.
pub proof fn lemma_phase_forward(
    m: GameModel,
    player: Seq<u8>,
    h: Seq<u8>,
    tile_index: u32,
    tile_type: u32,
)
    ensures
        commit_outcome(m, player, h) matches Ok(m2) ==> phase_rank(m.phase) <= phase_rank(
            m2.phase,
        ),
        phase_rank(attack_apply(m, tile_index).phase) == phase_rank(m.phase),
        phase_rank(m.phase) <= phase_rank(reveal_apply(m, tile_type).phase),
{
}

/// The revealed lists are append-only: a commitment or an attack leaves
/// them untouched, and a verified reveal only extends one of them — no
/// entry is ever rewritten or removed.
pub proof fn lemma_reveals_append_only(
    m: GameModel,
    player: Seq<u8>,
    h: Seq<u8>,
    tile_index: u32,
    tile_type: u32,
)
    ensures
        commit_outcome(m, player, h) matches Ok(m2) ==> m2.p1_revealed == m.p1_revealed
            && m2.p2_revealed == m.p2_revealed,
        attack_apply(m, tile_index).p1_revealed == m.p1_revealed,
        attack_apply(m, tile_index).p2_revealed == m.p2_revealed,
        m.p1_revealed.is_prefix_of(reveal_apply(m, tile_type).p1_revealed),
        m.p2_revealed.is_prefix_of(reveal_apply(m, tile_type).p2_revealed),
{
    assert(m.p1_revealed =~= m.p1_revealed.push(
        RevealedTile { tile_index: m.pending_attack.unwrap(), tile_type },
    ).subrange(0, m.p1_revealed.len() as int));
    assert(m.p2_revealed =~= m.p2_revealed.push(
        RevealedTile { tile_index: m.pending_attack.unwrap(), tile_type },
    ).subrange(0, m.p2_revealed.len() as int));
}

/// A finished match is frozen: every mutating request — commitment, attack
/// or response — fails with `WrongPhase`, so the recorded outcome can never
/// change.  (Only a reveal sets the winner, and a reveal needs a pending
/// attack, which a finished record cannot hold.)
pub proof fn lemma_terminal_absorption(
    m: GameModel,
    who: Seq<u8>,
    h: Seq<u8>,
    tile_index: u32,
    tile_type: u32,
    proof_len: int,
    has_vk: bool,
    verdict: ProofVerdict,
)
    requires
        m.wf(),
        m.phase is Finished,
    ensures
        commit_outcome(m, who, h) == Err::<GameModel, Error>(Error::WrongPhase),
        attack_error(m, who, tile_index) == Some(Error::WrongPhase),
        respond_precheck(m, who, tile_type) == Some(Error::WrongPhase),
        respond_error(m, who, tile_type, proof_len, has_vk, verdict) == Some(Error::WrongPhase),
{
}

} // verus!
