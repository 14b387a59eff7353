//! End-to-end runs of the commit/attack/respond protocol.

use poison_game::game::{
    attack, commit_board, prepare_response, respond_to_attack, start_game, ProofVerdict,
    RespondEffect,
};
use poison_game::state::GameState;
use poison_game::types::{Error, Phase, PROOF_BYTES};

fn alice() -> Vec<u8> {
    b"GALICE".to_vec()
}

fn bob() -> Vec<u8> {
    b"GBOB".to_vec()
}

fn hash_a() -> Vec<u8> {
    vec![0xAA; 32]
}

fn hash_b() -> Vec<u8> {
    vec![0xBB; 32]
}

/// A fresh match with both boards committed, ready to play.
fn active_game() -> GameState {
    let mut g = start_game(&alice(), &bob(), 100, 100).unwrap();
    commit_board(&mut g, &alice(), &hash_a()).unwrap();
    commit_board(&mut g, &bob(), &hash_b()).unwrap();
    g
}

/// Run one full verified exchange: `attacker_id` attacks `tile`, the other
/// player responds with an accepted proof of `tile_type`.
fn exchange(g: &mut GameState, defender: &[u8], tile: u32, tile_type: u32) -> RespondEffect {
    let attacker = if defender == bob().as_slice() { alice() } else { bob() };
    attack(g, &attacker, tile).unwrap();
    respond_to_attack(
        g,
        &defender.to_vec(),
        tile_type,
        PROOF_BYTES,
        true,
        ProofVerdict::Accepted,
    )
    .unwrap()
}

#[test]
fn start_game_initial_record() {
    let g = start_game(&alice(), &bob(), 100, 50).unwrap();
    assert_eq!(g.phase, Phase::WaitingForCommits);
    assert_eq!(g.current_turn, 1);
    assert_eq!(g.player1, alice());
    assert_eq!(g.player2, bob());
    assert_eq!(g.player1_points, 100);
    assert_eq!(g.player2_points, 50);
    assert!(!g.player1_committed);
    assert!(!g.player2_committed);
    assert_eq!(g.player1_commitment, vec![0u8; 32]);
    assert_eq!(g.player2_commitment, vec![0u8; 32]);
    assert!(!g.has_pending_attack);
    assert!(g.p1_revealed.is_empty());
    assert!(g.p2_revealed.is_empty());
    assert_eq!(g.winner, 0);
}

#[test]
fn start_game_rejects_self_play() {
    assert_eq!(start_game(&alice(), &alice(), 100, 100).unwrap_err(), Error::SelfPlay);
}

#[test]
fn scenario_first_exchange() {
    // Start, both commit, attack tile 3, verified Poison response: the
    // reveal lands on the defender's board, the turn passes, no settlement.
    let mut g = start_game(&alice(), &bob(), 100, 100).unwrap();
    commit_board(&mut g, &alice(), &hash_a()).unwrap();
    assert_eq!(g.phase, Phase::WaitingForCommits);
    commit_board(&mut g, &bob(), &hash_b()).unwrap();
    assert_eq!(g.phase, Phase::Playing);

    attack(&mut g, &alice(), 3).unwrap();
    assert!(g.has_pending_attack);
    assert_eq!(g.pending_attack_tile, 3);

    let eff = respond_to_attack(&mut g, &bob(), 1, PROOF_BYTES, true, ProofVerdict::Accepted)
        .unwrap();
    assert_eq!(eff, RespondEffect::Continue);
    assert_eq!(g.p2_revealed.len(), 1);
    assert_eq!(g.p2_revealed[0].tile_index, 3);
    assert_eq!(g.p2_revealed[0].tile_type, 1);
    assert!(g.p1_revealed.is_empty());
    assert!(!g.has_pending_attack);
    assert_eq!(g.current_turn, 2);
    assert_eq!(g.phase, Phase::Playing);
    assert_eq!(g.winner, 0);
}

#[test]
fn scenario_race_win_fires_on_completing_reveal() {
    // Two verified Poison reveals and one Shield reveal for the same
    // attacker: termination fires exactly on the reveal that completes
    // 2 Poison + 1 Shield, with settlement naming the attacker.
    let mut g = active_game();
    // Alice reveals a Poison on Bob's board; turn passes to Bob.
    assert_eq!(exchange(&mut g, &bob(), 0, 1), RespondEffect::Continue);
    // Bob reveals a Normal tile on Alice's board; turn passes back.
    assert_eq!(exchange(&mut g, &alice(), 0, 0), RespondEffect::Continue);
    // Alice reveals the Shield: bonus attack, turn stays with Alice.
    assert_eq!(exchange(&mut g, &bob(), 1, 2), RespondEffect::Continue);
    assert_eq!(g.current_turn, 1);
    // Alice reveals the second Poison: the race is complete, the match
    // finishes and settlement is requested for player 1 exactly once.
    let eff = exchange(&mut g, &bob(), 2, 1);
    assert_eq!(eff, RespondEffect::Settle { player1_won: true });
    assert_eq!(g.phase, Phase::Finished);
    assert_eq!(g.winner, 1);
    // The finished record is frozen: no further exchange can produce a
    // second settlement.
    assert_eq!(attack(&mut g, &alice(), 5).unwrap_err(), Error::WrongPhase);
    assert_eq!(
        respond_to_attack(&mut g, &bob(), 1, PROOF_BYTES, true, ProofVerdict::Accepted)
            .unwrap_err(),
        Error::WrongPhase
    );
    assert_eq!(g.winner, 1);
}

#[test]
fn scenario_rejected_proof_is_retryable() {
    // A structurally valid response with a cryptographically rejected proof
    // fails with InvalidProof and consumes nothing; a corrected response
    // for the same pending attack then succeeds.
    let mut g = active_game();
    attack(&mut g, &alice(), 7).unwrap();
    let err = respond_to_attack(&mut g, &bob(), 2, PROOF_BYTES, true, ProofVerdict::Rejected)
        .unwrap_err();
    assert_eq!(err, Error::InvalidProof);
    assert!(g.has_pending_attack);
    assert_eq!(g.pending_attack_tile, 7);
    assert!(g.p2_revealed.is_empty());
    assert_eq!(g.current_turn, 1);

    let eff = respond_to_attack(&mut g, &bob(), 2, PROOF_BYTES, true, ProofVerdict::Accepted)
        .unwrap();
    assert_eq!(eff, RespondEffect::Continue);
    assert_eq!(g.p2_revealed.len(), 1);
    assert_eq!(g.p2_revealed[0].tile_index, 7);
    assert_eq!(g.p2_revealed[0].tile_type, 2);
    // The revealed Shield grants the attacker a bonus attack.
    assert_eq!(g.current_turn, 1);
}

#[test]
fn race_win_for_second_player() {
    let mut g = active_game();
    // Alice wastes her turns on Normal tiles; Bob hunts the specials.
    assert_eq!(exchange(&mut g, &bob(), 0, 0), RespondEffect::Continue);
    assert_eq!(exchange(&mut g, &alice(), 0, 1), RespondEffect::Continue);
    assert_eq!(exchange(&mut g, &bob(), 1, 0), RespondEffect::Continue);
    assert_eq!(exchange(&mut g, &alice(), 1, 1), RespondEffect::Continue);
    assert_eq!(exchange(&mut g, &bob(), 2, 0), RespondEffect::Continue);
    let eff = exchange(&mut g, &alice(), 2, 2);
    assert_eq!(eff, RespondEffect::Settle { player1_won: false });
    assert_eq!(g.phase, Phase::Finished);
    assert_eq!(g.winner, 2);
}

#[test]
fn shield_grants_bonus_attack_and_poison_rotates() {
    let mut g = active_game();
    assert_eq!(g.current_turn, 1);
    exchange(&mut g, &bob(), 4, 2);
    assert_eq!(g.current_turn, 1, "shield: attacker keeps the turn");
    exchange(&mut g, &bob(), 5, 1);
    assert_eq!(g.current_turn, 2, "poison: turn rotates");
    exchange(&mut g, &alice(), 4, 0);
    assert_eq!(g.current_turn, 1, "normal: turn rotates");
}

#[test]
fn prepare_response_returns_expected_inputs() {
    let mut g = active_game();
    attack(&mut g, &alice(), 3).unwrap();
    let pi = prepare_response(&g, &bob(), 2, PROOF_BYTES, true).unwrap();
    // Bob is the defender, so the inputs open with Bob's stored commitment.
    let mut expected = vec![0xBB; 32];
    expected.extend_from_slice(&[0u8; 28]);
    expected.extend_from_slice(&3u32.to_be_bytes());
    expected.extend_from_slice(&[0u8; 28]);
    expected.extend_from_slice(&2u32.to_be_bytes());
    assert_eq!(pi, expected);
}

#[test]
fn prepare_response_rejects_bad_length_and_missing_vk() {
    let mut g = active_game();
    attack(&mut g, &alice(), 3).unwrap();
    assert_eq!(
        prepare_response(&g, &bob(), 2, PROOF_BYTES - 1, true).unwrap_err(),
        Error::InvalidProof
    );
    assert_eq!(prepare_response(&g, &bob(), 2, PROOF_BYTES, false).unwrap_err(), Error::VkNotSet);
}

#[test]
fn respond_rejects_bad_length_missing_vk_and_bad_key() {
    let mut g = active_game();
    attack(&mut g, &alice(), 3).unwrap();
    assert_eq!(
        respond_to_attack(&mut g, &bob(), 1, PROOF_BYTES + 1, true, ProofVerdict::Accepted)
            .unwrap_err(),
        Error::InvalidProof
    );
    assert_eq!(
        respond_to_attack(&mut g, &bob(), 1, PROOF_BYTES, false, ProofVerdict::Accepted)
            .unwrap_err(),
        Error::VkNotSet
    );
    assert_eq!(
        respond_to_attack(&mut g, &bob(), 1, PROOF_BYTES, true, ProofVerdict::VkMalformed)
            .unwrap_err(),
        Error::VkParseError
    );
    // None of the rejections consumed the pending attack.
    assert!(g.has_pending_attack);
}

#[test]
fn respond_rejects_wrong_caller_and_bad_type() {
    let mut g = active_game();
    attack(&mut g, &alice(), 3).unwrap();
    // The attacker cannot answer their own attack.
    assert_eq!(
        respond_to_attack(&mut g, &alice(), 1, PROOF_BYTES, true, ProofVerdict::Accepted)
            .unwrap_err(),
        Error::NotYourTurn
    );
    // A stranger is not a participant.
    assert_eq!(
        respond_to_attack(&mut g, &b"GEVE".to_vec(), 1, PROOF_BYTES, true, ProofVerdict::Accepted)
            .unwrap_err(),
        Error::NotPlayer
    );
    // Tile type codes stop at 2.
    assert_eq!(
        respond_to_attack(&mut g, &bob(), 3, PROOF_BYTES, true, ProofVerdict::Accepted)
            .unwrap_err(),
        Error::InvalidProof
    );
    // A response with no attack pending is out of phase.
    let mut idle = active_game();
    assert_eq!(
        respond_to_attack(&mut idle, &bob(), 1, PROOF_BYTES, true, ProofVerdict::Accepted)
            .unwrap_err(),
        Error::WrongPhase
    );
}
