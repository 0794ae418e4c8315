use vstd::prelude::*;

use crate::error::InglError;
use crate::state::{
    class_lamports, Class, FundsLocation, GemAccountV0_0_1, InglVoteAccountData, Key, VoteRewards,
    NFTS_SHARE, TEAM_SHARE, TREASURY_SHARE, VALIDATOR_ID_SHARE, VOTE_REWARDS_VAL_PHRASE,
};

verus! {

/// How a harvested epoch yield is split: whole percent shares for the
/// issuance authority, the candidate identity and the treasury; the rest is
/// kept for the positions.
#[derive(Clone, Copy, PartialEq, Eq, Structural, Debug)]
pub struct RewardSplit {
    pub total: u64,
    pub team: u64,
    pub validator: u64,
    pub treasury: u64,
}

/// Epoch entries appear in strictly increasing epoch order.
pub open spec fn epochs_increasing(entries: Seq<VoteRewards>) -> bool {
    forall|i: int, j: int|
        0 <= i < j < entries.len() ==> #[trigger] entries[i].epoch_number < #[trigger] entries[j].epoch_number
}

/// When an epoch's yield cannot be recorded, and with which error.
pub open spec fn process_rewards_error(target: InglVoteAccountData, epoch: u64, balance: u64, rent_minimum: u64) -> Option<
    InglError,
> {
    let entries = target.vote_rewards@;
    if balance < rent_minimum {
        Some(InglError::BeyondBounds)
    } else if entries.len() > 0 && entries.last().epoch_number >= epoch {
        Some(InglError::TooEarly)
    } else {
        None
    }
}

/// Records the yield of epoch `epoch` for a target whose external account
/// holds `balance`, of which `rent_minimum` must stay: the excess is
/// harvested, split, and appended as a new epoch entry.
pub fn process_rewards(target: &mut InglVoteAccountData, epoch: u64, balance: u64, rent_minimum: u64) -> (r: Result<
    RewardSplit,
    InglError,
>)
    ensures
        process_rewards_error(*old(target), epoch, balance, rent_minimum) matches Some(e) ==> r == Err::<
            RewardSplit,
            InglError,
        >(e),
        process_rewards_error(*old(target), epoch, balance, rent_minimum) is None ==> r is Ok,
        r is Err ==> *final(target) == *old(target),
        epochs_increasing(old(target).vote_rewards@) ==> epochs_increasing(final(target).vote_rewards@),
        r matches Ok(s) ==> {
            let total = balance - rent_minimum;
            &&& s.total == total
            &&& s.team == total / 100 * TEAM_SHARE
            &&& s.validator == total / 100 * VALIDATOR_ID_SHARE
            &&& s.treasury == total / 100 * TREASURY_SHARE
            &&& *final(target) == (InglVoteAccountData {
                last_withdraw_epoch: epoch,
                vote_rewards: final(target).vote_rewards,
                ..*old(target)
            })
            &&& final(target).vote_rewards@ == old(target).vote_rewards@.push(
                VoteRewards {
                    validation_phrase: VOTE_REWARDS_VAL_PHRASE,
                    epoch_number: epoch,
                    total_stake: old(target).total_delegated,
                    total_reward: total as u64,
                },
            )
        },
{
    if balance < rent_minimum {
        return Err(InglError::BeyondBounds);
    }
    let total = balance - rent_minimum;
    let n = target.vote_rewards.len();
    if n > 0 && target.vote_rewards[n - 1].epoch_number >= epoch {
        return Err(InglError::TooEarly);
    }
    let one_percent = total / 100;
    let split = RewardSplit {
        total,
        team: one_percent * TEAM_SHARE,
        validator: one_percent * VALIDATOR_ID_SHARE,
        treasury: one_percent * TREASURY_SHARE,
    };
    target.vote_rewards.push(
        VoteRewards {
            validation_phrase: VOTE_REWARDS_VAL_PHRASE,
            epoch_number: epoch,
            total_stake: target.total_delegated,
            total_reward: total,
        },
    );
    target.last_withdraw_epoch = epoch;
    proof {
        let e = target.vote_rewards@;
        if epochs_increasing(old(target).vote_rewards@) {
            assert forall|i: int, j: int| 0 <= i < j < e.len() implies #[trigger] e[i].epoch_number
                < #[trigger] e[j].epoch_number by {
                if j == n as int && i < n as int - 1 {
                    assert(old(target).vote_rewards@[i].epoch_number < old(target).vote_rewards@[n
                        - 1].epoch_number);
                }
            }
        }
    }
    Ok(split)
}

/// A position's share of one epoch entry: its value times the positions'
/// percentage of the entry's reward per unit of stake, rounded down once per
/// entry. An entry without stake pays nothing.
pub open spec fn epoch_share(value: int, entry: VoteRewards) -> int {
    if entry.total_stake == 0 {
        0
    } else {
        (value * NFTS_SHARE * entry.total_reward) / (100 * entry.total_stake)
    }
}

/// Sum of the shares of the entries whose epoch comes after `after` (all of
/// them when `after` is `None`).
pub open spec fn rewards_after(value: int, entries: Seq<VoteRewards>, after: Option<u64>) -> int
    decreases entries.len(),
{
    if entries.len() == 0 {
        0
    } else {
        rewards_after(value, entries.drop_last(), after) + if after matches Some(a)
            && entries.last().epoch_number <= a {
            0
        } else {
            epoch_share(value, entries.last())
        }
    }
}

/// The last epoch up to which a position has been settled: the later of its
/// last withdrawal and its last delegation.
pub open spec fn settled_epoch(g: GemAccountV0_0_1) -> Option<u64> {
    match (g.last_withdrawal_epoch, g.last_delegation_epoch) {
        (Some(w), Some(d)) => Some(if w >= d { w } else { d }),
        (Some(w), None) => Some(w),
        (None, Some(d)) => Some(d),
        (None, None) => None,
    }
}

/// What a position may withdraw from a target's epoch entries.
pub open spec fn gem_reward(g: GemAccountV0_0_1, entries: Seq<VoteRewards>) -> int {
    rewards_after(class_lamports(g.class) as int, entries, settled_epoch(g))
}

/// What a list of positions may withdraw together.
pub open spec fn withdraw_total(gems: Seq<GemAccountV0_0_1>, entries: Seq<VoteRewards>) -> int
    decreases gems.len(),
{
    if gems.len() == 0 {
        0
    } else {
        withdraw_total(gems.drop_last(), entries) + gem_reward(gems.last(), entries)
    }
}

proof fn lemma_epoch_share_nonneg(value: int, entry: VoteRewards)
    requires
        value >= 0,
    ensures
        epoch_share(value, entry) >= 0,
{
    if entry.total_stake != 0 {
        let num = value * NFTS_SHARE * entry.total_reward;
        let den = 100 * entry.total_stake;
        assert(num >= 0 && den > 0) by (nonlinear_arith)
            requires
                value >= 0,
                num == value * NFTS_SHARE * entry.total_reward,
                den == 100 * entry.total_stake,
                entry.total_stake > 0,
        ;
        assert(num / den >= 0) by (nonlinear_arith)
            requires
                num >= 0,
                den > 0,
        ;
    }
}

proof fn lemma_rewards_after_mono(value: int, entries: Seq<VoteRewards>, after: Option<u64>, i: int)
    requires
        value >= 0,
        0 <= i <= entries.len(),
    ensures
        0 <= rewards_after(value, entries.take(i), after) <= rewards_after(value, entries, after),
    decreases entries.len() - i,
{
    if i < entries.len() {
        assert(entries.take(i + 1).drop_last() =~= entries.take(i));
        assert(entries.take(i + 1).last() == entries[i]);
        lemma_rewards_after_nonneg(value, entries.take(i), after);
        lemma_epoch_share_nonneg(value, entries[i]);
        lemma_rewards_after_mono(value, entries, after, i + 1);
    } else {
        assert(entries.take(i) =~= entries);
        lemma_rewards_after_nonneg(value, entries, after);
    }
}

proof fn lemma_rewards_after_nonneg(value: int, entries: Seq<VoteRewards>, after: Option<u64>)
    requires
        value >= 0,
    ensures
        rewards_after(value, entries, after) >= 0,
    decreases entries.len(),
{
    if entries.len() > 0 {
        lemma_rewards_after_nonneg(value, entries.drop_last(), after);
        lemma_epoch_share_nonneg(value, entries.last());
    }
}

proof fn lemma_withdraw_total_mono(gems: Seq<GemAccountV0_0_1>, entries: Seq<VoteRewards>, i: int)
    requires
        0 <= i <= gems.len(),
    ensures
        0 <= withdraw_total(gems.take(i), entries) <= withdraw_total(gems, entries),
    decreases gems.len() - i,
{
    if i < gems.len() {
        assert(gems.take(i + 1).drop_last() =~= gems.take(i));
        assert(gems.take(i + 1).last() == gems[i]);
        lemma_withdraw_total_nonneg(gems.take(i), entries);
        lemma_rewards_after_nonneg(class_lamports(gems[i].class) as int, entries, settled_epoch(gems[i]));
        lemma_withdraw_total_mono(gems, entries, i + 1);
    } else {
        assert(gems.take(i) =~= gems);
        lemma_withdraw_total_nonneg(gems, entries);
    }
}

proof fn lemma_withdraw_total_nonneg(gems: Seq<GemAccountV0_0_1>, entries: Seq<VoteRewards>)
    ensures
        withdraw_total(gems, entries) >= 0,
    decreases gems.len(),
{
    if gems.len() > 0 {
        lemma_withdraw_total_nonneg(gems.drop_last(), entries);
        lemma_rewards_after_nonneg(
            class_lamports(gems.last().class) as int,
            entries,
            settled_epoch(gems.last()),
        );
    }
}

/// A position's share of one epoch entry, `None` when it exceeds `u64`.
pub fn epoch_reward(class: Class, entry: &VoteRewards) -> (r: Option<u64>)
    ensures
        r matches Some(x) ==> x == epoch_share(class_lamports(class) as int, *entry),
        r is None ==> epoch_share(class_lamports(class) as int, *entry) > u64::MAX,
{
    if entry.total_stake == 0 {
        return Some(0);
    }
    let value = class.get_class_lamports();
    let v: u128 = value as u128;
    let share: u128 = NFTS_SHARE as u128;
    let reward: u128 = entry.total_reward as u128;
    assert(v * share <= 30_000_000_000_000 && v * share * reward <= 30_000_000_000_000
        * 18_446_744_073_709_551_615) by (nonlinear_arith)
        requires
            v <= 500_000_000_000,
            share == 60,
            reward <= 18_446_744_073_709_551_615,
    ;
    let num: u128 = v * share * reward;
    let den: u128 = 100 * (entry.total_stake as u128);
    let q: u128 = num / den;
    if q > u64::MAX as u128 {
        return None;
    }
    Some(q as u64)
}

/// What a position of `class`, settled up to `after`, may withdraw from
/// `entries`; `None` when the sum exceeds `u64`.
pub fn position_reward(class: Class, entries: &Vec<VoteRewards>, after: Option<u64>) -> (r: Option<u64>)
    ensures
        r matches Some(x) ==> x == rewards_after(class_lamports(class) as int, entries@, after),
        r is None ==> rewards_after(class_lamports(class) as int, entries@, after) > u64::MAX,
{
    let ghost value = class_lamports(class) as int;
    let mut total: u64 = 0;
    let mut i: usize = 0;
    while i < entries.len()
        invariant
            i <= entries@.len(),
            total == rewards_after(value, entries@.take(i as int), after),
            value == class_lamports(class) as int,
        decreases entries@.len() - i,
    {
        proof {
            assert(entries@.take(i as int + 1).drop_last() =~= entries@.take(i as int));
            lemma_rewards_after_mono(value, entries@, after, i as int + 1);
        }
        let e = &entries[i];
        let counted = match after {
            Some(a) => e.epoch_number > a,
            None => true,
        };
        if counted {
            match epoch_reward(class, e) {
                None => {
                    proof {
                        lemma_rewards_after_nonneg(value, entries@.take(i as int), after);
                    }
                    return None;
                },
                Some(x) => {
                    if total > u64::MAX - x {
                        return None;
                    }
                    total = total + x;
                },
            }
        }
        i = i + 1;
    }
    assert(entries@.take(i as int) =~= entries@);
    Some(total)
}

/// `g1` is `g0` after it withdrew `amount` at epoch `epoch`.
pub open spec fn withdrawn(g0: GemAccountV0_0_1, g1: GemAccountV0_0_1, epoch: u64, amount: int) -> bool {
    &&& g1 == GemAccountV0_0_1 {
        last_withdrawal_epoch: Some(epoch),
        all_withdraws: g1.all_withdraws,
        ..g0
    }
    &&& g1.all_withdraws@ == g0.all_withdraws@.push(amount as u64)
}

/// When a withdrawal for `gems` from target `target_key` is refused, and
/// with which error.
pub open spec fn withdraw_error(gems: Seq<GemAccountV0_0_1>, target_key: Key, entries: Seq<VoteRewards>) -> Option<
    InglError,
> {
    if exists|i: int| 0 <= i < gems.len() && !(gems[i].funds_location is VoteAccount) {
        Some(InglError::InvalidFundsLocation)
    } else if exists|i: int|
        0 <= i < gems.len() && gems[i].funds_location != (FundsLocation::VoteAccount {
            vote_account_id: target_key,
        }) {
        Some(InglError::AddressMismatch)
    } else if withdraw_total(gems, entries) > u64::MAX {
        Some(InglError::BeyondBounds)
    } else {
        None
    }
}

/// Pays each position in `gems`, all delegated to the target `target_key`,
/// its share of every epoch entry after the epoch up to which it was settled,
/// and marks it settled up to `epoch`. Returns the sum paid.
pub fn nft_withdraw(target: &InglVoteAccountData, target_key: Key, gems: &mut Vec<GemAccountV0_0_1>, epoch: u64) -> (r:
    Result<u64, InglError>)
    ensures
        withdraw_error(old(gems)@, target_key, target.vote_rewards@) matches Some(e) ==> r == Err::<
            u64,
            InglError,
        >(e),
        withdraw_error(old(gems)@, target_key, target.vote_rewards@) is None ==> r is Ok,
        r is Err ==> *final(gems) == *old(gems),
        r matches Ok(total) ==> {
            &&& total == withdraw_total(old(gems)@, target.vote_rewards@)
            &&& final(gems)@.len() == old(gems)@.len()
            &&& forall|i: int|
                0 <= i < old(gems)@.len() ==> withdrawn(
                    #[trigger] old(gems)@[i],
                    final(gems)@[i],
                    epoch,
                    gem_reward(old(gems)@[i], target.vote_rewards@),
                )
        },
{
    let n = gems.len();
    let mut i: usize = 0;
    while i < n
        invariant
            n == gems@.len(),
            i <= n,
            *gems == *old(gems),
            forall|j: int| 0 <= j < i ==> gems@[j].funds_location is VoteAccount,
        decreases n - i,
    {
        if !matches!(gems[i].funds_location, FundsLocation::VoteAccount { .. }) {
            assert(!(gems@[i as int].funds_location is VoteAccount));
            return Err(InglError::InvalidFundsLocation);
        }
        i = i + 1;
    }
    i = 0;
    while i < n
        invariant
            n == gems@.len(),
            i <= n,
            *gems == *old(gems),
            forall|j: int| 0 <= j < n ==> gems@[j].funds_location is VoteAccount,
            forall|j: int|
                0 <= j < i ==> gems@[j].funds_location == (FundsLocation::VoteAccount {
                    vote_account_id: target_key,
                }),
        decreases n - i,
    {
        if gems[i].funds_location != (FundsLocation::VoteAccount { vote_account_id: target_key }) {
            assert(gems@[i as int].funds_location != (FundsLocation::VoteAccount {
                vote_account_id: target_key,
            }));
            return Err(InglError::AddressMismatch);
        }
        i = i + 1;
    }
    let ghost entries = target.vote_rewards@;
    let mut amounts: Vec<u64> = Vec::new();
    let mut total: u64 = 0;
    i = 0;
    while i < n
        invariant
            n == gems@.len(),
            i <= n,
            *gems == *old(gems),
            entries == target.vote_rewards@,
            forall|j: int| 0 <= j < n ==> gems@[j].funds_location is VoteAccount,
            forall|j: int|
                0 <= j < n ==> gems@[j].funds_location == (FundsLocation::VoteAccount {
                    vote_account_id: target_key,
                }),
            amounts@.len() == i,
            forall|j: int| 0 <= j < i ==> amounts@[j] == gem_reward(#[trigger] gems@[j], entries),
            total == withdraw_total(gems@.take(i as int), entries),
        decreases n - i,
    {
        proof {
            assert(gems@.take(i as int + 1).drop_last() =~= gems@.take(i as int));
            lemma_withdraw_total_mono(gems@, entries, i as int + 1);
            lemma_withdraw_total_mono(gems@, entries, i as int);
        }
        let g = &gems[i];
        let after = match (g.last_withdrawal_epoch, g.last_delegation_epoch) {
            (Some(w), Some(d)) => Some(if w >= d { w } else { d }),
            (Some(w), None) => Some(w),
            (None, Some(d)) => Some(d),
            (None, None) => None,
        };
        match position_reward(g.class, &target.vote_rewards, after) {
            None => {
                return Err(InglError::BeyondBounds);
            },
            Some(x) => {
                if total > u64::MAX - x {
                    return Err(InglError::BeyondBounds);
                }
                total = total + x;
                amounts.push(x);
            },
        }
        i = i + 1;
    }
    assert(gems@.take(n as int) =~= gems@);
    let ghost old_gems = gems@;
    let mut out: Vec<GemAccountV0_0_1> = Vec::new();
    while gems.len() > 0
        invariant
            out@.len() + gems@.len() == old_gems.len(),
            gems@ == old_gems.skip(out@.len() as int),
            old_gems == old(gems)@,
            amounts@.len() == old_gems.len(),
            entries == target.vote_rewards@,
            forall|j: int| 0 <= j < old_gems.len() ==> amounts@[j] == gem_reward(#[trigger] old_gems[j], entries),
            forall|j: int|
                0 <= j < out@.len() ==> withdrawn(
                    #[trigger] old_gems[j],
                    out@[j],
                    epoch,
                    gem_reward(old_gems[j], entries),
                ),
        decreases gems@.len(),
    {
        let k = out.len();
        let mut g = gems.remove(0);
        g.last_withdrawal_epoch = Some(epoch);
        g.all_withdraws.push(amounts[k]);
        out.push(g);
        assert(gems@ =~= old_gems.skip(out@.len() as int));
    }
    *gems = out;
    Ok(total)
}

} // verus!
