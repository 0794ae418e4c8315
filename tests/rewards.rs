use ingl::error::InglError;
use ingl::rewards::{epoch_reward, nft_withdraw, position_reward, process_rewards, RewardSplit};
use ingl::state::{
    Class, FundsLocation, GemAccountV0_0_1, GemAccountVersions, InglVoteAccountData, Key, VoteRewards,
    GEM_ACCOUNT_VAL_PHRASE, INGL_VOTE_ACCOUNT_DATA_VAL_PHRASE, LAMPORTS_PER_SOL,
    VOTE_REWARDS_VAL_PHRASE,
};

fn key(n: u64) -> Key {
    Key { w0: n, w1: 1, w2: 2, w3: 3 }
}

fn target() -> InglVoteAccountData {
    InglVoteAccountData {
        validation_phrase: INGL_VOTE_ACCOUNT_DATA_VAL_PHRASE,
        total_delegated: 2 * LAMPORTS_PER_SOL,
        last_withdraw_epoch: 0,
        dealloced: 0,
        pending_validator_rewards: None,
        validator_id: key(1),
        pending_delegation_total: 0,
        is_t_stake_initialized: false,
        vote_rewards: Vec::new(),
        last_total_staked: 0,
    }
}

fn delegated(class: Class, vote: Key, epoch: u64) -> GemAccountV0_0_1 {
    GemAccountV0_0_1 {
        struct_id: GemAccountVersions::GemAccountV0_0_1,
        validation_phrase: GEM_ACCOUNT_VAL_PHRASE,
        date_created: 0,
        class,
        redeemable_date: 0,
        numeration: 1,
        rarity: None,
        funds_location: FundsLocation::VoteAccount { vote_account_id: vote },
        rarity_seed_time: None,
        date_allocated: Some(0),
        last_voted_proposal: None,
        last_withdrawal_epoch: None,
        last_delegation_epoch: Some(epoch),
        all_withdraws: Vec::new(),
        all_votes: Vec::new(),
    }
}

fn entry(epoch: u64, reward: u64, stake: u64) -> VoteRewards {
    VoteRewards { validation_phrase: VOTE_REWARDS_VAL_PHRASE, epoch_number: epoch, total_reward: reward, total_stake: stake }
}

#[test]
fn process_rewards_records_epoch() {
    let mut t = target();
    let split = process_rewards(&mut t, 4, 1_000_000_500, 500).unwrap();
    assert_eq!(
        split,
        RewardSplit { total: 1_000_000_000, team: 120_000_000, validator: 150_000_000, treasury: 130_000_000 }
    );
    assert_eq!(t.vote_rewards, vec![entry(4, 1_000_000_000, 2 * LAMPORTS_PER_SOL)]);
    assert_eq!(t.last_withdraw_epoch, 4);
    assert_eq!(process_rewards(&mut t, 4, 2_000, 500), Err(InglError::TooEarly));
    assert_eq!(process_rewards(&mut t, 5, 400, 500), Err(InglError::BeyondBounds));
    assert_eq!(t.vote_rewards.len(), 1);
}

#[test]
fn equal_positions_split_epoch_evenly() {
    let vote = key(9);
    let mut t = target();
    let r: u64 = 1_000_000_007;
    t.vote_rewards.push(entry(3, r, 2 * LAMPORTS_PER_SOL));
    let mut gems = vec![delegated(Class::Benitoite, vote, 2), delegated(Class::Benitoite, vote, 2)];
    let paid = nft_withdraw(&t, vote, &mut gems, 4).unwrap();
    let each = (LAMPORTS_PER_SOL as u128 * 60 * r as u128 / (100 * 2 * LAMPORTS_PER_SOL as u128)) as u64;
    assert_eq!(each, 300_000_002);
    assert_eq!(gems[0].all_withdraws, vec![each]);
    assert_eq!(gems[1].all_withdraws, vec![each]);
    assert_eq!(paid, 2 * each);
    assert!(paid <= 60 * r / 100 && 60 * r / 100 <= paid + 1);
    assert_eq!(gems[0].last_withdrawal_epoch, Some(4));
    let again = nft_withdraw(&t, vote, &mut gems, 5).unwrap();
    assert_eq!(again, 0);
}

#[test]
fn withdrawal_counts_only_later_epochs() {
    let vote = key(9);
    let mut t = target();
    t.vote_rewards.push(entry(3, 1_000, 1_000_000_000));
    t.vote_rewards.push(entry(4, 2_000_000_000, 1_000_000_000));
    t.vote_rewards.push(entry(5, 500, 0));
    let late = delegated(Class::Benitoite, vote, 3);
    assert_eq!(position_reward(late.class, &t.vote_rewards, Some(3)), Some(1_200_000_000));
    assert_eq!(position_reward(Class::Benitoite, &t.vote_rewards, None), Some(1_200_000_600));
    assert_eq!(epoch_reward(Class::Ruby, &entry(1, u64::MAX, 1)), None);
    let mut gems = vec![late];
    assert_eq!(nft_withdraw(&t, vote, &mut gems, 6), Ok(1_200_000_000));
}

#[test]
fn withdrawal_refusals() {
    let vote = key(9);
    let mut t = target();
    t.vote_rewards.push(entry(3, u64::MAX, 1));
    let mut gems = vec![delegated(Class::Benitoite, vote, 1)];
    assert_eq!(nft_withdraw(&t, vote, &mut gems, 6), Err(InglError::BeyondBounds));
    assert_eq!(gems[0].all_withdraws.len(), 0);
    let mut other = vec![delegated(Class::Benitoite, key(10), 1)];
    assert_eq!(nft_withdraw(&t, vote, &mut other, 6), Err(InglError::AddressMismatch));
    let mut pooled = vec![delegated(Class::Benitoite, vote, 1)];
    pooled[0].funds_location = FundsLocation::PDPool;
    assert_eq!(nft_withdraw(&t, vote, &mut pooled, 6), Err(InglError::InvalidFundsLocation));
}
