use vstd::prelude::*;

use crate::delegation::{delegate_plan, init_rebalance_plan, undelegate_plan};
use crate::error::InglError;
use crate::governance::{create_proposal_error, vote_error, voted};
use crate::position::{allocate_plan, deallocate_plan, fee_fits, lemma_fee_bounds, max_fee, mint_plan};
use crate::rewards::{epoch_share, gem_reward, rewards_after, settled_epoch, withdraw_total};
use crate::state::{
    class_lamports, Class, FundsLocation, GemAccountV0_0_1, GlobalGems, InglVoteAccountData, Key,
    ValidatorProposal, VoteRewards, FEE_DECAY_PERIOD, NFTS_SHARE,
};

verus! {

/// One of the operations that move a position's value between pools.
pub enum PoolOp {
    Allocate { gem: int, now: u32, lock_period: u32 },
    Deallocate { gem: int, now: u32 },
    Delegate { gem: int, target: int, target_key: Key, epoch: u64 },
    Undelegate { gem: int, target: int, target_key: Key },
}

/// The state that pool operations act on: positions, the ledger and the
/// delegation targets.
pub struct Pools {
    pub gems: Seq<GemAccountV0_0_1>,
    pub global: GlobalGems,
    pub targets: Seq<InglVoteAccountData>,
}

/// Applies one operation as the operations themselves do: a refused
/// operation, or one naming a record that does not exist, changes nothing.
pub open spec fn step(s: Pools, op: PoolOp) -> Pools {
    match op {
        PoolOp::Allocate { gem, now, lock_period } => if 0 <= gem < s.gems.len() {
            match allocate_plan(s.gems[gem], s.global, now, lock_period) {
                Ok((g, gl, _)) => Pools { gems: s.gems.update(gem, g), global: gl, ..s },
                Err(_) => s,
            }
        } else {
            s
        },
        PoolOp::Deallocate { gem, now } => if 0 <= gem < s.gems.len() {
            match deallocate_plan(s.gems[gem], s.global, now) {
                Ok((g, gl, _)) => Pools { gems: s.gems.update(gem, g), global: gl, ..s },
                Err(_) => s,
            }
        } else {
            s
        },
        PoolOp::Delegate { gem, target, target_key, epoch } => if 0 <= gem < s.gems.len() && 0
            <= target < s.targets.len() {
            match delegate_plan(s.gems[gem], s.global, s.targets[target], target_key, epoch) {
                Ok((g, gl, t, _)) => Pools {
                    gems: s.gems.update(gem, g),
                    global: gl,
                    targets: s.targets.update(target, t),
                },
                Err(_) => s,
            }
        } else {
            s
        },
        PoolOp::Undelegate { gem, target, target_key } => if 0 <= gem < s.gems.len() && 0 <= target
            < s.targets.len() {
            match undelegate_plan(s.gems[gem], s.global, s.targets[target], target_key) {
                Ok((g, gl, t, _)) => Pools {
                    gems: s.gems.update(gem, g),
                    global: gl,
                    targets: s.targets.update(target, t),
                },
                Err(_) => s,
            }
        } else {
            s
        },
    }
}

/// The states passed through while applying `ops` in order, starting at `s`.
pub open spec fn run(s: Pools, ops: Seq<PoolOp>) -> Pools
    decreases ops.len(),
{
    if ops.len() == 0 {
        s
    } else {
        step(run(s, ops.drop_last()), ops.last())
    }
}

/// Value a position contributes outside the minting pool.
pub open spec fn contribution(g: GemAccountV0_0_1) -> int {
    if g.funds_location == FundsLocation::MintingPool {
        0
    } else {
        class_lamports(g.class) as int
    }
}

/// Sum of the values of all positions not in the minting pool.
pub open spec fn held_value(gems: Seq<GemAccountV0_0_1>) -> int
    decreases gems.len(),
{
    if gems.len() == 0 {
        0
    } else {
        held_value(gems.drop_last()) + contribution(gems.last())
    }
}

proof fn lemma_held_value_update(gems: Seq<GemAccountV0_0_1>, i: int, g: GemAccountV0_0_1)
    requires
        0 <= i < gems.len(),
    ensures
        held_value(gems.update(i, g)) == held_value(gems) - contribution(gems[i]) + contribution(g),
    decreases gems.len(),
{
    let u = gems.update(i, g);
    if i == gems.len() - 1 {
        assert(u.drop_last() =~= gems.drop_last());
    } else {
        assert(u.drop_last() =~= gems.drop_last().update(i, g));
        lemma_held_value_update(gems.drop_last(), i, g);
    }
}

/// Pooled plus delegated value of the ledger.
pub open spec fn pooled_and_delegated(global: GlobalGems) -> int {
    global.pd_pool_total + global.delegated_total
}

proof fn lemma_step_conserves(s: Pools, op: PoolOp)
    ensures
        pooled_and_delegated(step(s, op).global) - held_value(step(s, op).gems) == pooled_and_delegated(
            s.global,
        ) - held_value(s.gems),
{
    match op {
        PoolOp::Allocate { gem, now, lock_period } => {
            if 0 <= gem < s.gems.len() {
                if let Ok((g, gl, _)) = allocate_plan(s.gems[gem], s.global, now, lock_period) {
                    lemma_held_value_update(s.gems, gem, g);
                }
            }
        },
        PoolOp::Deallocate { gem, now } => {
            if 0 <= gem < s.gems.len() {
                if let Ok((g, gl, _)) = deallocate_plan(s.gems[gem], s.global, now) {
                    lemma_held_value_update(s.gems, gem, g);
                }
            }
        },
        PoolOp::Delegate { gem, target, target_key, epoch } => {
            if 0 <= gem < s.gems.len() && 0 <= target < s.targets.len() {
                if let Ok((g, gl, t, _)) = delegate_plan(
                    s.gems[gem],
                    s.global,
                    s.targets[target],
                    target_key,
                    epoch,
                ) {
                    lemma_held_value_update(s.gems, gem, g);
                }
            }
        },
        PoolOp::Undelegate { gem, target, target_key } => {
            if 0 <= gem < s.gems.len() && 0 <= target < s.targets.len() {
                if let Ok((g, gl, t, _)) = undelegate_plan(
                    s.gems[gem],
                    s.global,
                    s.targets[target],
                    target_key,
                ) {
                    lemma_held_value_update(s.gems, gem, g);
                }
            }
        },
    }
}

/// Over any sequence of allocations, deallocations, delegations and
/// undelegations, pooled plus delegated value changes exactly as the value of
/// the positions outside the minting pool does: if they agree at the start,
/// they agree after every operation.
pub proof fn pooled_value_is_conserved(s: Pools, ops: Seq<PoolOp>)
    ensures
        pooled_and_delegated(run(s, ops).global) - held_value(run(s, ops).gems) == pooled_and_delegated(
            s.global,
        ) - held_value(s.gems),
    decreases ops.len(),
{
    if ops.len() > 0 {
        pooled_value_is_conserved(s, ops.drop_last());
        lemma_step_conserves(run(s, ops.drop_last()), ops.last());
    }
}

/// Whether the deallocated total keeps its value through every state of the
/// run.
pub open spec fn dealloced_steady(s: Pools, ops: Seq<PoolOp>) -> bool {
    forall|k: int| 0 <= k <= ops.len() ==> #[trigger] run(s, ops.take(k)).global.dealloced_total
        == s.global.dealloced_total
}

/// Pooled plus delegated plus deallocated value equals the value of the
/// positions outside the minting pool after any sequence of pool operations,
/// when it does at the start and no operation of the run reabsorbs value or
/// records value given back by a target (the deallocated total stays put).
pub proof fn pool_totals_match_positions(s: Pools, ops: Seq<PoolOp>)
    requires
        s.global.pd_pool_total + s.global.delegated_total + s.global.dealloced_total == held_value(
            s.gems,
        ),
        dealloced_steady(s, ops),
    ensures
        run(s, ops).global.pd_pool_total + run(s, ops).global.delegated_total + run(
            s,
            ops,
        ).global.dealloced_total == held_value(run(s, ops).gems),
{
    pooled_value_is_conserved(s, ops);
    assert(ops.take(ops.len() as int) =~= ops);
    assert(run(s, ops.take(ops.len() as int)).global.dealloced_total == s.global.dealloced_total);
}

/// A proposal cannot be opened while one is ongoing.
pub proof fn no_second_active_proposal(global: GlobalGems)
    requires
        global.is_proposal_ongoing,
    ensures
        create_proposal_error(global) == Some(InglError::TooEarly),
{
}

/// The operations on positions, pools and rebalances leave the ongoing
/// proposal flag as it was.
pub proof fn proposal_flag_untouched(
    s: Pools,
    op: PoolOp,
    global: GlobalGems,
    target: InglVoteAccountData,
    class: Class,
    stake_balance: u64,
)
    ensures
        step(s, op).global.is_proposal_ongoing == s.global.is_proposal_ongoing,
        mint_plan(global, class) matches Ok((g, _)) ==> g.is_proposal_ongoing
            == global.is_proposal_ongoing,
        init_rebalance_plan(target, global, stake_balance) matches Ok((_, g, _))
            ==> g.is_proposal_ongoing == global.is_proposal_ongoing,
{
}

/// A position that voted on a proposal cannot vote on it again while it is
/// open: a later vote that includes it is refused with `AlreadyVoted`.
pub proof fn vote_once_per_proposal(
    g0: GemAccountV0_0_1,
    g1: GemAccountV0_0_1,
    proposal: ValidatorProposal,
    id: Key,
    first_index: u32,
    gems: Seq<GemAccountV0_0_1>,
    i: int,
    index: u32,
)
    requires
        voted(g0, g1, id, first_index),
        0 <= i < gems.len(),
        gems[i] == g1,
        proposal.date_finalized is None,
        index < proposal.votes@.len(),
    ensures
        vote_error(proposal, id, gems, index) == Some(InglError::AlreadyVoted),
{
    assert(gems[i].last_voted_proposal == Some(id));
}

/// A redemption exactly one decay period after the draw pays no fee.
pub proof fn no_fee_after_period(class: Class, fee: int)
    requires
        fee >= 0,
        fee_fits(max_fee(class), FEE_DECAY_PERIOD as int, fee),
    ensures
        fee == 0,
{
    lemma_fee_bounds(max_fee(class), FEE_DECAY_PERIOD as int, fee);
}

/// A redemption at the moment of the draw pays the full fee.
pub proof fn full_fee_at_draw(class: Class, fee: int)
    requires
        fee >= 0,
        fee_fits(max_fee(class), 0, fee),
        !fee_fits(max_fee(class), 0, fee + 1),
    ensures
        fee == max_fee(class),
{
    lemma_fee_bounds(max_fee(class), 0, fee);
}

/// Two positions of one class, both settled before the only epoch entry,
/// whose stake is exactly their joint value: each is owed the positions'
/// share of half the reward, rounded down, and together they are owed the
/// positions' share of the whole reward less at most one lamport of
/// rounding.
pub proof fn rewards_split_evenly(g1: GemAccountV0_0_1, g2: GemAccountV0_0_1, entry: VoteRewards)
    requires
        g1.class == g2.class,
        entry.total_stake == 2 * class_lamports(g1.class),
        settled_epoch(g1) matches Some(e) ==> e < entry.epoch_number,
        settled_epoch(g2) matches Some(e) ==> e < entry.epoch_number,
    ensures
        gem_reward(g1, seq![entry]) == NFTS_SHARE * entry.total_reward / 200,
        gem_reward(g2, seq![entry]) == NFTS_SHARE * entry.total_reward / 200,
        withdraw_total(seq![g1, g2], seq![entry]) <= NFTS_SHARE * entry.total_reward / 100,
        withdraw_total(seq![g1, g2], seq![entry]) + 1 >= NFTS_SHARE * entry.total_reward / 100,
{
    let value = class_lamports(g1.class) as int;
    let reward = entry.total_reward as int;
    let es = seq![entry];
    assert(es.drop_last() =~= Seq::<VoteRewards>::empty());
    assert(es.last() == entry);
    assert(rewards_after(value, es.drop_last(), settled_epoch(g1)) == 0);
    assert(rewards_after(value, es.drop_last(), settled_epoch(g2)) == 0);
    assert(rewards_after(value, es, settled_epoch(g1)) == epoch_share(value, entry));
    assert(rewards_after(value, es, settled_epoch(g2)) == epoch_share(value, entry));
    let q = 60 * reward / 200;
    assert(value * 60 * reward / (100 * (2 * value)) == q) by (nonlinear_arith)
        requires
            value > 0,
            reward >= 0,
            q == 60 * reward / 200,
    ;
    assert(epoch_share(value, entry) == q);
    let gs = seq![g1, g2];
    assert(gs.drop_last() =~= seq![g1]);
    assert(gs.last() == g2);
    assert(seq![g1].drop_last() =~= Seq::<GemAccountV0_0_1>::empty());
    assert(seq![g1].last() == g1);
    assert(withdraw_total(Seq::<GemAccountV0_0_1>::empty(), es) == 0);
    assert(withdraw_total(seq![g1], es) == q);
    assert(withdraw_total(gs, es) == 2 * q);
    assert(2 * q <= 60 * reward / 100 && 60 * reward / 100 <= 2 * q + 1) by (nonlinear_arith)
        requires
            reward >= 0,
            q == 60 * reward / 200,
    ;
}

/// A second rebalance cannot start before the first one is finalized.
pub proof fn rebalance_not_restarted(
    target: InglVoteAccountData,
    global: GlobalGems,
    first_balance: u64,
    second_balance: u64,
)
    requires
        init_rebalance_plan(target, global, first_balance) is Ok,
    ensures
        ({
            let (t1, g1, _) = init_rebalance_plan(target, global, first_balance).unwrap();
            init_rebalance_plan(t1, g1, second_balance) == Err::<
                (InglVoteAccountData, GlobalGems, crate::delegation::RebalancePlan),
                InglError,
            >(InglError::TooLate)
        }),
{
}

} // verus!
