use vstd::prelude::*;

use crate::error::InglError;
use crate::state::{
    class_lamports, commits2, Class, FundsLocation, GemAccountV0_0_1, GemAccountVersions, GlobalGems,
    FEE_DECAY_PERIOD, FEE_MULTIPLYER, GEM_ACCOUNT_VAL_PHRASE, TREASURY_FEE_MULTIPLYER,
};

verus! {

/// Issues a new position of `class` at time `now`: counts it and adds its
/// value to the total ever raised.
pub open spec fn mint_plan(global: GlobalGems, class: Class) -> Result<(GlobalGems, ()), InglError> {
    if global.counter as int + 1 > u32::MAX as int {
        Err(InglError::BeyondBounds)
    } else if global.total_raised as int + class_lamports(class) as int > u64::MAX as int {
        Err(InglError::BeyondBounds)
    } else {
        Ok(
            (
                GlobalGems {
                    counter: (global.counter + 1) as u32,
                    total_raised: (global.total_raised + class_lamports(class)) as u64,
                    ..global
                },
                (),
            ),
        )
    }
}

/// The record of a position just issued.
pub open spec fn is_new_gem(g: GemAccountV0_0_1, class: Class, now: u32, numeration: u32) -> bool {
    &&& g.struct_id == GemAccountVersions::GemAccountV0_0_1
    &&& g.validation_phrase == GEM_ACCOUNT_VAL_PHRASE
    &&& g.date_created == now
    &&& g.class == class
    &&& g.redeemable_date == now
    &&& g.numeration == numeration
    &&& g.rarity.is_none()
    &&& g.funds_location == FundsLocation::MintingPool
    &&& g.rarity_seed_time.is_none()
    &&& g.date_allocated.is_none()
    &&& g.last_voted_proposal.is_none()
    &&& g.last_withdrawal_epoch.is_none()
    &&& g.last_delegation_epoch.is_none()
    &&& g.all_withdraws@.len() == 0
    &&& g.all_votes@.len() == 0
}

pub fn mint_nft(global: &mut GlobalGems, class: Class, now: u32) -> (r: Result<
    GemAccountV0_0_1,
    InglError,
>)
    ensures
        mint_plan(*old(global), class) is Ok <==> r is Ok,
        mint_plan(*old(global), class) is Ok ==> *final(global) == mint_plan(*old(global), class).unwrap().0,
        r matches Ok(g) ==> is_new_gem(g, class, now, final(global).counter),
        r is Err ==> r == Err::<GemAccountV0_0_1, InglError>(InglError::BeyondBounds),
        r is Err ==> *final(global) == *old(global),
{
    let cost = class.get_class_lamports();
    if global.counter == u32::MAX || global.total_raised > u64::MAX - cost {
        return Err(InglError::BeyondBounds);
    }
    global.counter = global.counter + 1;
    global.total_raised = global.total_raised + cost;
    Ok(
        GemAccountV0_0_1 {
            struct_id: GemAccountVersions::GemAccountV0_0_1,
            validation_phrase: GEM_ACCOUNT_VAL_PHRASE,
            date_created: now,
            class,
            redeemable_date: now,
            numeration: global.counter,
            rarity: None,
            funds_location: FundsLocation::MintingPool,
            rarity_seed_time: None,
            date_allocated: None,
            last_voted_proposal: None,
            last_withdrawal_epoch: None,
            last_delegation_epoch: None,
            all_withdraws: Vec::new(),
            all_votes: Vec::new(),
        },
    )
}

/// Moves a position's value from the minting pool to the pooled-delegation
/// pool and locks it for `lock_period` seconds from `now`.
pub open spec fn allocate_plan(gem: GemAccountV0_0_1, global: GlobalGems, now: u32, lock_period: u32) -> Result<
    (GemAccountV0_0_1, GlobalGems, ()),
    InglError,
> {
    let cost = class_lamports(gem.class);
    if gem.funds_location != FundsLocation::MintingPool {
        Err(InglError::InvalidFundsLocation)
    } else if now as int + lock_period as int > u32::MAX as int {
        Err(InglError::BeyondBounds)
    } else if global.pd_pool_total as int + cost as int > u64::MAX as int {
        Err(InglError::BeyondBounds)
    } else {
        Ok(
            (
                GemAccountV0_0_1 {
                    funds_location: FundsLocation::PDPool,
                    date_allocated: Some(now),
                    redeemable_date: (now + lock_period) as u32,
                    ..gem
                },
                GlobalGems { pd_pool_total: (global.pd_pool_total + cost) as u64, ..global },
                (),
            ),
        )
    }
}

pub fn allocate_sol(gem: &mut GemAccountV0_0_1, global: &mut GlobalGems, now: u32, lock_period: u32) -> (r: Result<
    (),
    InglError,
>)
    ensures
        commits2(
            allocate_plan(*old(gem), *old(global), now, lock_period),
            r,
            *old(gem),
            *final(gem),
            *old(global),
            *final(global),
        ),
{
    if gem.funds_location != FundsLocation::MintingPool {
        return Err(InglError::InvalidFundsLocation);
    }
    let cost = gem.class.get_class_lamports();
    if now > u32::MAX - lock_period || global.pd_pool_total > u64::MAX - cost {
        return Err(InglError::BeyondBounds);
    }
    gem.funds_location = FundsLocation::PDPool;
    gem.date_allocated = Some(now);
    gem.redeemable_date = now + lock_period;
    global.pd_pool_total = global.pd_pool_total + cost;
    Ok(())
}

/// Moves a position's value back from the pooled-delegation pool to the
/// minting pool once its lock has run out.
pub open spec fn deallocate_plan(gem: GemAccountV0_0_1, global: GlobalGems, now: u32) -> Result<
    (GemAccountV0_0_1, GlobalGems, ()),
    InglError,
> {
    let cost = class_lamports(gem.class);
    if gem.funds_location != FundsLocation::PDPool {
        Err(InglError::InvalidFundsLocation)
    } else if now < gem.redeemable_date {
        Err(InglError::TooEarly)
    } else if global.pd_pool_total < cost {
        Err(InglError::BeyondBounds)
    } else {
        Ok(
            (
                GemAccountV0_0_1 { funds_location: FundsLocation::MintingPool, ..gem },
                GlobalGems { pd_pool_total: (global.pd_pool_total - cost) as u64, ..global },
                (),
            ),
        )
    }
}

pub fn deallocate_sol(gem: &mut GemAccountV0_0_1, global: &mut GlobalGems, now: u32) -> (r: Result<
    (),
    InglError,
>)
    ensures
        commits2(
            deallocate_plan(*old(gem), *old(global), now),
            r,
            *old(gem),
            *final(gem),
            *old(global),
            *final(global),
        ),
{
    if gem.funds_location != FundsLocation::PDPool {
        return Err(InglError::InvalidFundsLocation);
    }
    if now < gem.redeemable_date {
        return Err(InglError::TooEarly);
    }
    let cost = gem.class.get_class_lamports();
    if global.pd_pool_total < cost {
        return Err(InglError::BeyondBounds);
    }
    gem.funds_location = FundsLocation::MintingPool;
    global.pd_pool_total = global.pd_pool_total - cost;
    Ok(())
}

/// The largest exit fee of a class: `FEE_MULTIPLYER` percent of its value.
pub open spec fn max_fee(class: Class) -> int {
    class_lamports(class) * FEE_MULTIPLYER / 100
}

/// `r` is at most the exact fee `m * sqrt(1 - (elapsed / period)^2)`,
/// compared without roots: `(r * period)^2 <= m^2 * (period^2 - elapsed^2)`.
pub open spec fn fee_fits(m: int, elapsed: int, r: int) -> bool {
    let p = FEE_DECAY_PERIOD as int;
    (r * p) * (r * p) <= m * m * (p * p - elapsed * elapsed)
}

pub(crate) proof fn lemma_fee_bounds(m: int, e: int, r: int)
    requires
        0 <= m,
        0 <= e <= FEE_DECAY_PERIOD,
        0 <= r,
    ensures
        fee_fits(m, e, 0),
        !fee_fits(m, e, m + 1),
        e == FEE_DECAY_PERIOD && fee_fits(m, e, r) ==> r == 0,
        e == 0 && fee_fits(m, e, r) ==> r <= m,
        e == 0 ==> fee_fits(m, e, m),
        e == 0 && !fee_fits(m, e, r + 1) ==> r >= m,
{
    let p = FEE_DECAY_PERIOD as int;
    assert((0 * p) * (0 * p) == 0) by (nonlinear_arith);
    if e == p {
        assert(m * m * (p * p - e * e) == 0) by (nonlinear_arith)
            requires
                e == p,
        ;
    }
    assert(p * p - e * e >= 0) by (nonlinear_arith)
        requires
            0 <= e <= p,
    ;
    assert(m * m * (p * p - e * e) >= 0) by (nonlinear_arith)
        requires
            p * p - e * e >= 0,
    ;
    assert(m * m * (p * p - e * e) <= m * m * (p * p)) by (nonlinear_arith)
        requires
            e * e >= 0,
    ;
    assert(((m + 1) * p) * ((m + 1) * p) > m * m * (p * p)) by (nonlinear_arith)
        requires
            m >= 0,
            p > 0,
    ;
    if e == p && fee_fits(m, e, r) {
        assert(r == 0) by (nonlinear_arith)
            requires
                (r * p) * (r * p) <= 0,
                r >= 0,
                p > 0,
        ;
    }
    if e == 0 && fee_fits(m, e, r) {
        assert(r <= m) by (nonlinear_arith)
            requires
                (r * p) * (r * p) <= m * m * (p * p),
                r >= 0,
                m >= 0,
                p > 0,
        ;
    }
    if e == 0 {
        assert((m * p) * (m * p) == m * m * (p * p)) by (nonlinear_arith);
    }
    if e == 0 && !fee_fits(m, e, r + 1) {
        assert(r + 1 > m) by (nonlinear_arith)
            requires
                ((r + 1) * p) * ((r + 1) * p) > m * m * (p * p),
                r >= 0,
                m >= 0,
                p > 0,
        ;
    }
}

/// Exit fee of a position of `class` redeemed `elapsed` seconds after its
/// rarity draw: the whole-lamport floor of
/// `max_fee * sqrt(1 - (elapsed / FEE_DECAY_PERIOD)^2)`.
pub fn redeem_fee(class: Class, elapsed: u32) -> (r: u64)
    requires
        elapsed <= FEE_DECAY_PERIOD,
    ensures
        fee_fits(max_fee(class), elapsed as int, r as int),
        !fee_fits(max_fee(class), elapsed as int, r + 1),
        r <= max_fee(class),
        elapsed == FEE_DECAY_PERIOD ==> r == 0,
        elapsed == 0 ==> r == max_fee(class),
{
    let cost = class.get_class_lamports();
    assert(cost <= 500_000_000_000);
    let rate: u64 = FEE_MULTIPLYER as u64;
    assert(cost * rate <= 5_000_000_000_000 && cost * rate / 100 <= 50_000_000_000) by (nonlinear_arith)
        requires
            cost <= 500_000_000_000,
            rate == 10,
    ;
    let m: u64 = cost * rate / 100;
    assert(m <= 50_000_000_000);
    assert(m * m <= 2_500_000_000_000_000_000_000) by (nonlinear_arith)
        requires
            0 <= m <= 50_000_000_000,
    ;
    let p: u128 = FEE_DECAY_PERIOD as u128;
    let e: u128 = elapsed as u128;
    let mm: u128 = (m as u128) * (m as u128);
    assert(e * e <= p * p) by (nonlinear_arith)
        requires
            e <= p,
    ;
    let rest: u128 = p * p - e * e;
    assert(mm * rest <= 2_500_000_000_000_000_000_000 * 994_519_296_000_000) by (nonlinear_arith)
        requires
            mm == m * m,
            m <= 50_000_000_000,
            rest <= 994_519_296_000_000,
            mm >= 0,
            rest >= 0,
    ;
    let n: u128 = mm * rest;
    proof {
        lemma_fee_bounds(m as int, elapsed as int, 0);
    }
    let mut lo: u64 = 0;
    let mut hi: u64 = m + 1;
    while hi - lo > 1
        invariant
            lo < hi <= m + 1,
            m == max_fee(class),
            m <= 50_000_000_000,
            n == m * m * (p * p - e * e),
            p == FEE_DECAY_PERIOD,
            e == elapsed,
            fee_fits(m as int, e as int, lo as int),
            !fee_fits(m as int, e as int, hi as int),
        decreases hi - lo,
    {
        let mid: u64 = lo + (hi - lo) / 2;
        assert((mid as u128) * p <= 50_000_000_001 * 31_536_000) by (nonlinear_arith)
            requires
                mid <= 50_000_000_001,
                p == 31_536_000,
        ;
        let t: u128 = (mid as u128) * p;
        assert(t * t <= 1_576_800_031_536_000_000 * 1_576_800_031_536_000_000) by (nonlinear_arith)
            requires
                0 <= t <= 1_576_800_031_536_000_000,
        ;
        if t * t <= n {
            lo = mid;
        } else {
            hi = mid;
        }
    }
    proof {
        lemma_fee_bounds(m as int, elapsed as int, lo as int);
    }
    lo
}

/// Amounts of a redemption: the fee, its treasury and issuance-authority
/// shares, and what is paid back to the holder.
#[derive(Clone, Copy, PartialEq, Eq, Structural, Debug)]
pub struct RedeemPayout {
    pub fee: u64,
    pub treasury_fee: u64,
    pub authority_fee: u64,
    pub payout: u64,
}

/// When a redemption of `gem` at `now` is refused, and with which error.
pub open spec fn redeem_error(gem: GemAccountV0_0_1, now: u32) -> Option<InglError> {
    if gem.funds_location != FundsLocation::MintingPool {
        Some(InglError::InvalidFundsLocation)
    } else if gem.redeemable_date > now {
        Some(InglError::TooEarly)
    } else if gem.rarity_seed_time matches Some(s) && s > now {
        Some(InglError::BeyondBounds)
    } else {
        None
    }
}

/// Whether a fee is charged: only within one decay period after the draw.
pub open spec fn fee_charged(gem: GemAccountV0_0_1, now: u32) -> bool {
    gem.rarity_seed_time matches Some(s) && now - s < FEE_DECAY_PERIOD
}

/// Redeems a position held in the minting pool. The fee decays with the time
/// since the rarity draw; 70 percent of it (rounded down) goes to the
/// treasury, the rest to the issuance authority, and the holder is paid the
/// class value less the fee.
pub fn redeem_nft(gem: &GemAccountV0_0_1, now: u32) -> (r: Result<RedeemPayout, InglError>)
    ensures
        redeem_error(*gem, now) matches Some(e) ==> r == Err::<RedeemPayout, InglError>(e),
        redeem_error(*gem, now) is None ==> r is Ok,
        r matches Ok(p) ==> {
            &&& fee_charged(*gem, now) ==> {
                &&& fee_fits(max_fee(gem.class), now - gem.rarity_seed_time.unwrap(), p.fee as int)
                &&& !fee_fits(max_fee(gem.class), now - gem.rarity_seed_time.unwrap(), p.fee + 1)
            }
            &&& !fee_charged(*gem, now) ==> p.fee == 0
            &&& p.treasury_fee == p.fee * TREASURY_FEE_MULTIPLYER / 100
            &&& p.authority_fee == p.fee - p.treasury_fee
            &&& p.payout == class_lamports(gem.class) - p.fee
        },
{
    if gem.funds_location != FundsLocation::MintingPool {
        return Err(InglError::InvalidFundsLocation);
    }
    if gem.redeemable_date > now {
        return Err(InglError::TooEarly);
    }
    let mut fee: u64 = 0;
    match gem.rarity_seed_time {
        Some(seed) => {
            if seed > now {
                return Err(InglError::BeyondBounds);
            }
            let elapsed = now - seed;
            if elapsed < FEE_DECAY_PERIOD {
                fee = redeem_fee(gem.class, elapsed);
            }
        },
        None => {},
    }
    let cost = gem.class.get_class_lamports();
    let treasury_fee = fee * (TREASURY_FEE_MULTIPLYER as u64) / 100;
    Ok(
        RedeemPayout {
            fee,
            treasury_fee,
            authority_fee: fee - treasury_fee,
            payout: cost - fee,
        },
    )
}

} // verus!
