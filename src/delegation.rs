use vstd::prelude::*;

use crate::error::InglError;
use crate::state::{
    class_lamports, commits1, commits2, commits3, FundsLocation, GemAccountV0_0_1, GlobalGems,
    InglVoteAccountData, Key, ValidatorProposal, INGL_VOTE_ACCOUNT_DATA_VAL_PHRASE,
    MAXIMUM_DELEGATABLE_STAKE,
};

verus! {

/// Binds a delegation target for the winner of a decided proposal.
pub fn create_vote_account(proposal: &ValidatorProposal, validator: Key, epoch: u64) -> (r: Result<
    InglVoteAccountData,
    InglError,
>)
    ensures
        proposal.winner is None ==> r == Err::<InglVoteAccountData, InglError>(InglError::TooEarly),
        proposal.winner matches Some(w) && w != validator ==> r == Err::<
            InglVoteAccountData,
            InglError,
        >(InglError::AddressMismatch),
        proposal.winner == Some(validator) ==> r is Ok,
        r matches Ok(t) ==> {
            &&& t.validation_phrase == INGL_VOTE_ACCOUNT_DATA_VAL_PHRASE
            &&& t.total_delegated == 0
            &&& t.last_withdraw_epoch == epoch
            &&& t.dealloced == 0
            &&& t.pending_validator_rewards is None
            &&& t.validator_id == validator
            &&& t.pending_delegation_total == 0
            &&& !t.is_t_stake_initialized
            &&& t.vote_rewards@.len() == 0
            &&& t.last_total_staked == 0
        },
{
    match proposal.winner {
        None => Err(InglError::TooEarly),
        Some(w) => {
            if w != validator {
                return Err(InglError::AddressMismatch);
            }
            Ok(
                InglVoteAccountData {
                    validation_phrase: INGL_VOTE_ACCOUNT_DATA_VAL_PHRASE,
                    total_delegated: 0,
                    last_withdraw_epoch: epoch,
                    dealloced: 0,
                    pending_validator_rewards: None,
                    validator_id: validator,
                    pending_delegation_total: 0,
                    is_t_stake_initialized: false,
                    vote_rewards: Vec::new(),
                    last_total_staked: 0,
                },
            )
        },
    }
}

/// Moves a pooled position's value into the target `target_key`. Value that
/// the target had given back and not yet reabsorbed is reused first;
/// otherwise the value waits as pending delegation for the next rebalance.
pub open spec fn delegate_plan(
    gem: GemAccountV0_0_1,
    global: GlobalGems,
    target: InglVoteAccountData,
    target_key: Key,
    epoch: u64,
) -> Result<(GemAccountV0_0_1, GlobalGems, InglVoteAccountData, ()), InglError> {
    let cost = class_lamports(gem.class);
    let gem1 = GemAccountV0_0_1 {
        funds_location: FundsLocation::VoteAccount { vote_account_id: target_key },
        last_delegation_epoch: Some(epoch),
        ..gem
    };
    if gem.funds_location != FundsLocation::PDPool {
        Err(InglError::InvalidFundsLocation)
    } else if target.total_delegated + cost > MAXIMUM_DELEGATABLE_STAKE {
        Err(InglError::BeyondBounds)
    } else if global.pd_pool_total < cost {
        Err(InglError::BeyondBounds)
    } else if global.delegated_total + cost > u64::MAX {
        Err(InglError::BeyondBounds)
    } else if target.dealloced >= cost {
        if global.dealloced_total < cost {
            Err(InglError::BeyondBounds)
        } else {
            Ok(
                (
                    gem1,
                    GlobalGems {
                        pd_pool_total: (global.pd_pool_total - cost) as u64,
                        delegated_total: (global.delegated_total + cost) as u64,
                        dealloced_total: (global.dealloced_total - cost) as u64,
                        ..global
                    },
                    InglVoteAccountData {
                        total_delegated: (target.total_delegated + cost) as u64,
                        dealloced: (target.dealloced - cost) as u64,
                        ..target
                    },
                    (),
                ),
            )
        }
    } else if global.pending_delegation_total + cost > u64::MAX {
        Err(InglError::BeyondBounds)
    } else if target.pending_delegation_total + cost > u64::MAX {
        Err(InglError::BeyondBounds)
    } else {
        Ok(
            (
                gem1,
                GlobalGems {
                    pd_pool_total: (global.pd_pool_total - cost) as u64,
                    delegated_total: (global.delegated_total + cost) as u64,
                    pending_delegation_total: (global.pending_delegation_total + cost) as u64,
                    ..global
                },
                InglVoteAccountData {
                    total_delegated: (target.total_delegated + cost) as u64,
                    pending_delegation_total: (target.pending_delegation_total + cost) as u64,
                    ..target
                },
                (),
            ),
        )
    }
}

pub fn delegate_nft(
    gem: &mut GemAccountV0_0_1,
    global: &mut GlobalGems,
    target: &mut InglVoteAccountData,
    target_key: Key,
    epoch: u64,
) -> (r: Result<(), InglError>)
    ensures
        commits3(
            delegate_plan(*old(gem), *old(global), *old(target), target_key, epoch),
            r,
            *old(gem),
            *final(gem),
            *old(global),
            *final(global),
            *old(target),
            *final(target),
        ),
{
    if gem.funds_location != FundsLocation::PDPool {
        return Err(InglError::InvalidFundsLocation);
    }
    let cost = gem.class.get_class_lamports();
    if cost > MAXIMUM_DELEGATABLE_STAKE || target.total_delegated > MAXIMUM_DELEGATABLE_STAKE - cost
        || global.pd_pool_total < cost
        || global.delegated_total > u64::MAX - cost {
        return Err(InglError::BeyondBounds);
    }
    if target.dealloced >= cost {
        if global.dealloced_total < cost {
            return Err(InglError::BeyondBounds);
        }
        global.dealloced_total = global.dealloced_total - cost;
        target.dealloced = target.dealloced - cost;
    } else {
        if global.pending_delegation_total > u64::MAX - cost || target.pending_delegation_total
            > u64::MAX - cost {
            return Err(InglError::BeyondBounds);
        }
        global.pending_delegation_total = global.pending_delegation_total + cost;
        target.pending_delegation_total = target.pending_delegation_total + cost;
    }
    global.pd_pool_total = global.pd_pool_total - cost;
    global.delegated_total = global.delegated_total + cost;
    target.total_delegated = target.total_delegated + cost;
    gem.funds_location = FundsLocation::VoteAccount { vote_account_id: target_key };
    gem.last_delegation_epoch = Some(epoch);
    Ok(())
}

/// Moves a delegated position's value from the target `target_key` back to
/// the pooled-delegation pool. Value still pending delegation is taken back
/// first; otherwise the value is recorded as given back by the target.
pub open spec fn undelegate_plan(
    gem: GemAccountV0_0_1,
    global: GlobalGems,
    target: InglVoteAccountData,
    target_key: Key,
) -> Result<(GemAccountV0_0_1, GlobalGems, InglVoteAccountData, ()), InglError> {
    let cost = class_lamports(gem.class);
    let gem1 = GemAccountV0_0_1 { funds_location: FundsLocation::PDPool, ..gem };
    if !(gem.funds_location is VoteAccount) {
        Err(InglError::InvalidFundsLocation)
    } else if gem.funds_location != (FundsLocation::VoteAccount { vote_account_id: target_key }) {
        Err(InglError::AddressMismatch)
    } else if global.pd_pool_total + cost > u64::MAX {
        Err(InglError::BeyondBounds)
    } else if global.delegated_total < cost {
        Err(InglError::BeyondBounds)
    } else if target.total_delegated < cost {
        Err(InglError::BeyondBounds)
    } else if target.pending_delegation_total >= cost {
        if global.pending_delegation_total < cost {
            Err(InglError::BeyondBounds)
        } else {
            Ok(
                (
                    gem1,
                    GlobalGems {
                        pd_pool_total: (global.pd_pool_total + cost) as u64,
                        delegated_total: (global.delegated_total - cost) as u64,
                        pending_delegation_total: (global.pending_delegation_total - cost) as u64,
                        ..global
                    },
                    InglVoteAccountData {
                        total_delegated: (target.total_delegated - cost) as u64,
                        pending_delegation_total: (target.pending_delegation_total - cost) as u64,
                        ..target
                    },
                    (),
                ),
            )
        }
    } else if global.dealloced_total + cost > u64::MAX {
        Err(InglError::BeyondBounds)
    } else if target.dealloced + cost > u64::MAX {
        Err(InglError::BeyondBounds)
    } else {
        Ok(
            (
                gem1,
                GlobalGems {
                    pd_pool_total: (global.pd_pool_total + cost) as u64,
                    delegated_total: (global.delegated_total - cost) as u64,
                    dealloced_total: (global.dealloced_total + cost) as u64,
                    ..global
                },
                InglVoteAccountData {
                    total_delegated: (target.total_delegated - cost) as u64,
                    dealloced: (target.dealloced + cost) as u64,
                    ..target
                },
                (),
            ),
        )
    }
}

pub fn undelegate_nft(
    gem: &mut GemAccountV0_0_1,
    global: &mut GlobalGems,
    target: &mut InglVoteAccountData,
    target_key: Key,
) -> (r: Result<(), InglError>)
    ensures
        commits3(
            undelegate_plan(*old(gem), *old(global), *old(target), target_key),
            r,
            *old(gem),
            *final(gem),
            *old(global),
            *final(global),
            *old(target),
            *final(target),
        ),
{
    match gem.funds_location {
        FundsLocation::VoteAccount { vote_account_id } => {
            if vote_account_id != target_key {
                return Err(InglError::AddressMismatch);
            }
        },
        _ => {
            return Err(InglError::InvalidFundsLocation);
        },
    }
    let cost = gem.class.get_class_lamports();
    if global.pd_pool_total > u64::MAX - cost || global.delegated_total < cost
        || target.total_delegated < cost {
        return Err(InglError::BeyondBounds);
    }
    if target.pending_delegation_total >= cost {
        if global.pending_delegation_total < cost {
            return Err(InglError::BeyondBounds);
        }
        global.pending_delegation_total = global.pending_delegation_total - cost;
        target.pending_delegation_total = target.pending_delegation_total - cost;
    } else {
        if global.dealloced_total > u64::MAX - cost || target.dealloced > u64::MAX - cost {
            return Err(InglError::BeyondBounds);
        }
        global.dealloced_total = global.dealloced_total + cost;
        target.dealloced = target.dealloced + cost;
    }
    global.pd_pool_total = global.pd_pool_total + cost;
    global.delegated_total = global.delegated_total - cost;
    target.total_delegated = target.total_delegated - cost;
    gem.funds_location = FundsLocation::PDPool;
    Ok(())
}

/// What a started rebalance asks of the staking service: how much pooled
/// value to delegate newly, and how much to split off for withdrawal.
#[derive(Clone, Copy, PartialEq, Eq, Structural, Debug)]
pub struct RebalancePlan {
    pub delegate_amount: u64,
    pub withdraw_amount: u64,
}

/// Starts a rebalance of a target whose stake now holds `stake_balance`.
/// The growth since the last baseline is the reward marker. Pending
/// delegation beyond what was given back is delegated; a shortfall is added
/// to the withdrawal. Both counters of the target are cleared, and the
/// ledger's totals drop by the same amounts.
pub open spec fn init_rebalance_plan(target: InglVoteAccountData, global: GlobalGems, stake_balance: u64) -> Result<
    (InglVoteAccountData, GlobalGems, RebalancePlan),
    InglError,
> {
    let pending = target.pending_delegation_total;
    let given_back = target.dealloced;
    let reward = stake_balance - target.last_total_staked;
    if target.pending_validator_rewards is Some {
        Err(InglError::TooLate)
    } else if stake_balance < target.last_total_staked {
        Err(InglError::BeyondBounds)
    } else if pending < given_back && reward + (given_back - pending) > u64::MAX {
        Err(InglError::BeyondBounds)
    } else if global.pending_delegation_total < pending {
        Err(InglError::BeyondBounds)
    } else if global.dealloced_total < given_back {
        Err(InglError::BeyondBounds)
    } else {
        Ok(
            (
                InglVoteAccountData {
                    pending_delegation_total: 0,
                    dealloced: 0,
                    pending_validator_rewards: Some(reward as u64),
                    is_t_stake_initialized: pending >= given_back,
                    ..target
                },
                GlobalGems {
                    pending_delegation_total: (global.pending_delegation_total - pending) as u64,
                    dealloced_total: (global.dealloced_total - given_back) as u64,
                    ..global
                },
                if pending >= given_back {
                    RebalancePlan {
                        delegate_amount: (pending - given_back) as u64,
                        withdraw_amount: reward as u64,
                    }
                } else {
                    RebalancePlan {
                        delegate_amount: 0,
                        withdraw_amount: (reward + (given_back - pending)) as u64,
                    }
                },
            ),
        )
    }
}

pub fn init_rebalance(target: &mut InglVoteAccountData, global: &mut GlobalGems, stake_balance: u64) -> (r: Result<
    RebalancePlan,
    InglError,
>)
    ensures
        commits2(
            init_rebalance_plan(*old(target), *old(global), stake_balance),
            r,
            *old(target),
            *final(target),
            *old(global),
            *final(global),
        ),
{
    if target.pending_validator_rewards.is_some() {
        return Err(InglError::TooLate);
    }
    if stake_balance < target.last_total_staked {
        return Err(InglError::BeyondBounds);
    }
    let reward = stake_balance - target.last_total_staked;
    let pending = target.pending_delegation_total;
    let given_back = target.dealloced;
    let plan = if pending >= given_back {
        RebalancePlan { delegate_amount: pending - given_back, withdraw_amount: reward }
    } else {
        if reward > u64::MAX - (given_back - pending) {
            return Err(InglError::BeyondBounds);
        }
        RebalancePlan { delegate_amount: 0, withdraw_amount: reward + (given_back - pending) }
    };
    if global.pending_delegation_total < pending || global.dealloced_total < given_back {
        return Err(InglError::BeyondBounds);
    }
    global.pending_delegation_total = global.pending_delegation_total - pending;
    global.dealloced_total = global.dealloced_total - given_back;
    target.pending_delegation_total = 0;
    target.dealloced = 0;
    target.pending_validator_rewards = Some(reward);
    target.is_t_stake_initialized = pending >= given_back;
    Ok(plan)
}

/// Completes the rebalance in flight: pays out the reward marker, clears it,
/// and records `stake_balance` as the new baseline.
pub open spec fn finalize_rebalance_plan(target: InglVoteAccountData, stake_balance: u64) -> Result<
    (InglVoteAccountData, u64),
    InglError,
> {
    match target.pending_validator_rewards {
        None => Err(InglError::TooEarly),
        Some(reward) => Ok(
            (
                InglVoteAccountData {
                    pending_validator_rewards: None,
                    last_total_staked: stake_balance,
                    ..target
                },
                reward,
            ),
        ),
    }
}

pub fn finalize_rebalance(target: &mut InglVoteAccountData, stake_balance: u64) -> (r: Result<
    u64,
    InglError,
>)
    ensures
        commits1(finalize_rebalance_plan(*old(target), stake_balance), r, *old(target), *final(target)),
{
    match target.pending_validator_rewards {
        None => Err(InglError::TooEarly),
        Some(reward) => {
            target.pending_validator_rewards = None;
            target.last_total_staked = stake_balance;
            Ok(reward)
        },
    }
}

} // verus!
