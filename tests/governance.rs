use ingl::delegation::create_vote_account;
use ingl::error::InglError;
use ingl::governance::{
    close_proposal, contains_key, create_validator_selection_proposal, finalize_proposal,
    register_validator_id, vote_validator_proposal, winning_index,
};
use ingl::position::mint_nft;
use ingl::state::{
    Class, GemAccountV0_0_1, GlobalGems, Key, ValidatorProposal, GLOBAL_GEMS_VAL_PHRASE,
    LAMPORTS_PER_SOL, MAXIMUM_DELEGATABLE_STAKE, VALIDATOR_PROPOSAL_VAL_PHRASE,
    VALIDATOR_VOTE_VAL_PHRASE,
};

fn ledger() -> GlobalGems {
    GlobalGems {
        validation_phrase: GLOBAL_GEMS_VAL_PHRASE,
        counter: 0,
        total_raised: 0,
        pd_pool_total: 0,
        delegated_total: 0,
        dealloced_total: 0,
        is_proposal_ongoing: false,
        proposal_numeration: 0,
        pending_delegation_total: 0,
        validator_list: Vec::new(),
    }
}

fn key(n: u64) -> Key {
    Key { w0: n, w1: 0, w2: 0, w3: 0 }
}

fn decided_proposal(votes: Vec<u32>) -> ValidatorProposal {
    let ids: Vec<Key> = (0..votes.len() as u64).map(|i| key(i + 1)).collect();
    ValidatorProposal {
        validation_phrase: VALIDATOR_PROPOSAL_VAL_PHRASE,
        validator_ids: ids,
        date_created: 0,
        date_finalized: None,
        votes,
        winner: None,
    }
}

#[test]
fn register_rejects_duplicates() {
    let mut g = ledger();
    register_validator_id(&mut g, key(1)).unwrap();
    register_validator_id(&mut g, key(2)).unwrap();
    assert_eq!(register_validator_id(&mut g, key(1)), Err(InglError::TooLate));
    assert_eq!(g.validator_list, vec![key(1), key(2)]);
    assert!(contains_key(&g.validator_list, key(2)));
    assert!(!contains_key(&g.validator_list, key(3)));
}

#[test]
fn create_proposal_snapshots_candidates() {
    let mut g = ledger();
    assert_eq!(create_validator_selection_proposal(&mut g, 10).unwrap_err(), InglError::TooEarly);
    register_validator_id(&mut g, key(1)).unwrap();
    register_validator_id(&mut g, key(2)).unwrap();
    register_validator_id(&mut g, key(3)).unwrap();
    let p = create_validator_selection_proposal(&mut g, 10).unwrap();
    assert_eq!(p.validator_ids, vec![key(1), key(2), key(3)]);
    assert_eq!(p.votes, vec![0, 0, 0]);
    assert_eq!(p.date_created, 10);
    assert_eq!(p.winner, None);
    assert!(g.is_proposal_ongoing);
    assert_eq!(g.proposal_numeration, 1);
}

#[test]
fn second_proposal_refused_while_active() {
    let mut g = ledger();
    register_validator_id(&mut g, key(1)).unwrap();
    create_validator_selection_proposal(&mut g, 10).unwrap();
    assert_eq!(create_validator_selection_proposal(&mut g, 11).unwrap_err(), InglError::TooEarly);
    assert_eq!(g.proposal_numeration, 1);
}

#[test]
fn voting_twice_is_refused() {
    let mut g = ledger();
    register_validator_id(&mut g, key(1)).unwrap();
    register_validator_id(&mut g, key(2)).unwrap();
    let mut p = create_validator_selection_proposal(&mut g, 10).unwrap();
    let id = key(77);
    let a = mint_nft(&mut g, Class::Ruby, 1).unwrap();
    let b = mint_nft(&mut g, Class::Emerald, 1).unwrap();
    let mut gems: Vec<GemAccountV0_0_1> = vec![a, b];
    vote_validator_proposal(&mut p, id, &mut gems, 1).unwrap();
    assert_eq!(p.votes, vec![0, 510]);
    assert_eq!(gems[0].last_voted_proposal, Some(id));
    assert_eq!(gems[1].all_votes.len(), 1);
    assert_eq!(gems[1].all_votes[0].validator_index, 1);
    assert_eq!(gems[1].all_votes[0].validation_phrase, VALIDATOR_VOTE_VAL_PHRASE);
    let mut again: Vec<GemAccountV0_0_1> = vec![gems[0].clone()];
    assert_eq!(vote_validator_proposal(&mut p, id, &mut again, 0), Err(InglError::AlreadyVoted));
    assert_eq!(p.votes, vec![0, 510]);
    assert_eq!(again[0].all_votes.len(), 1);
}

#[test]
fn vote_refusals() {
    let mut g = ledger();
    register_validator_id(&mut g, key(1)).unwrap();
    let mut p = create_validator_selection_proposal(&mut g, 10).unwrap();
    let a = mint_nft(&mut g, Class::Benitoite, 1).unwrap();
    let mut gems = vec![a];
    assert_eq!(vote_validator_proposal(&mut p, key(9), &mut gems, 1), Err(InglError::BeyondBounds));
    p.votes[0] = u32::MAX;
    assert_eq!(vote_validator_proposal(&mut p, key(9), &mut gems, 0), Err(InglError::BeyondBounds));
    p.votes[0] = 0;
    p.date_finalized = Some(3);
    assert_eq!(vote_validator_proposal(&mut p, key(9), &mut gems, 0), Err(InglError::TooLate));
    assert_eq!(gems[0].last_voted_proposal, None);
}

#[test]
fn tie_goes_to_lowest_index() {
    assert_eq!(winning_index(&vec![10, 10, 5]), 0);
    assert_eq!(winning_index(&vec![5, 10, 10]), 1);
    assert_eq!(winning_index(&vec![0, 0, 0]), 0);
    assert_eq!(winning_index(&vec![1, 2, 3]), 2);
}

#[test]
fn finalize_picks_first_of_tied_leaders() {
    let mut g = ledger();
    g.validator_list = vec![key(1), key(2), key(3), key(9)];
    g.is_proposal_ongoing = true;
    g.pd_pool_total = MAXIMUM_DELEGATABLE_STAKE;
    let mut p = decided_proposal(vec![10, 10, 5]);
    finalize_proposal(&mut p, &mut g, 44).unwrap();
    assert_eq!(p.winner, Some(key(1)));
    assert_eq!(p.date_finalized, Some(44));
    assert_eq!(g.validator_list, vec![key(2), key(3), key(9)]);
    assert!(!g.is_proposal_ongoing);
    assert_eq!(finalize_proposal(&mut p, &mut g, 45), Err(InglError::InvalidAccountData));
}

#[test]
fn finalize_waits_for_threshold() {
    let mut g = ledger();
    g.validator_list = vec![key(1)];
    g.is_proposal_ongoing = true;
    g.pd_pool_total = MAXIMUM_DELEGATABLE_STAKE - 1;
    let mut p = decided_proposal(vec![3]);
    assert_eq!(finalize_proposal(&mut p, &mut g, 44), Err(InglError::TooEarly));
    assert!(g.is_proposal_ongoing);
    assert_eq!(p.winner, None);
}

#[test]
fn close_needs_ninety_percent_bound() {
    let mut g = ledger();
    g.is_proposal_ongoing = true;
    g.pd_pool_total = MAXIMUM_DELEGATABLE_STAKE;
    let mut p = decided_proposal(vec![3, 1]);
    p.winner = Some(key(1));
    let mut t = create_vote_account(&p, key(1), 3).unwrap();
    t.total_delegated = 4 * LAMPORTS_PER_SOL;
    t.dealloced = LAMPORTS_PER_SOL / 2 - 1;
    assert_eq!(close_proposal(&mut g, &t), Err(InglError::TooEarly));
    assert!(g.is_proposal_ongoing);
    t.dealloced = LAMPORTS_PER_SOL / 2;
    close_proposal(&mut g, &t).unwrap();
    assert!(!g.is_proposal_ongoing);
}

#[test]
fn binding_needs_the_winner() {
    let mut p = decided_proposal(vec![3, 1]);
    assert_eq!(create_vote_account(&p, key(1), 3).unwrap_err(), InglError::TooEarly);
    p.winner = Some(key(1));
    assert_eq!(create_vote_account(&p, key(2), 3).unwrap_err(), InglError::AddressMismatch);
    let t = create_vote_account(&p, key(1), 3).unwrap();
    assert_eq!(t.validator_id, key(1));
    assert_eq!(t.last_withdraw_epoch, 3);
    assert_eq!(t.total_delegated, 0);
    assert_eq!(t.pending_validator_rewards, None);
}
