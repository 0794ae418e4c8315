use ingl::error::InglError;
use ingl::position::{allocate_sol, deallocate_sol, mint_nft, redeem_fee, redeem_nft};
use ingl::state::{
    Class, FundsLocation, GemAccountV0_0_1, GlobalGems, FEE_DECAY_PERIOD, GEM_ACCOUNT_VAL_PHRASE,
    GLOBAL_GEMS_VAL_PHRASE, LAMPORTS_PER_SOL,
};

fn ledger() -> GlobalGems {
    GlobalGems {
        validation_phrase: GLOBAL_GEMS_VAL_PHRASE,
        counter: 0,
        total_raised: 0,
        pd_pool_total: 0,
        delegated_total: 0,
        dealloced_total: 0,
        is_proposal_ongoing: false,
        proposal_numeration: 0,
        pending_delegation_total: 0,
        validator_list: Vec::new(),
    }
}

fn gem(global: &mut GlobalGems, class: Class) -> GemAccountV0_0_1 {
    mint_nft(global, class, 100).unwrap()
}

#[test]
fn class_values_are_fixed() {
    assert_eq!(Class::Ruby.get_class_lamports(), 500 * LAMPORTS_PER_SOL);
    assert_eq!(Class::Diamond.get_class_lamports(), 100 * LAMPORTS_PER_SOL);
    assert_eq!(Class::Sapphire.get_class_lamports(), 50 * LAMPORTS_PER_SOL);
    assert_eq!(Class::Emerald.get_class_lamports(), 10 * LAMPORTS_PER_SOL);
    assert_eq!(Class::Serendibite.get_class_lamports(), 5 * LAMPORTS_PER_SOL);
    assert_eq!(Class::Benitoite.get_class_lamports(), LAMPORTS_PER_SOL);
    assert_eq!(Class::Ruby.get_class_units(), 500);
    assert_eq!(Class::Benitoite.get_class_units(), 1);
}

#[test]
fn mint_counts_and_raises() {
    let mut g = ledger();
    let a = mint_nft(&mut g, Class::Emerald, 7).unwrap();
    let b = mint_nft(&mut g, Class::Ruby, 9).unwrap();
    assert_eq!(g.counter, 2);
    assert_eq!(g.total_raised, 510 * LAMPORTS_PER_SOL);
    assert_eq!(a.numeration, 1);
    assert_eq!(b.numeration, 2);
    assert_eq!(a.validation_phrase, GEM_ACCOUNT_VAL_PHRASE);
    assert_eq!(a.funds_location, FundsLocation::MintingPool);
    assert_eq!(b.date_created, 9);
    assert_eq!(b.redeemable_date, 9);
}

#[test]
fn mint_counter_overflow_is_beyond_bounds() {
    let mut g = ledger();
    g.counter = u32::MAX;
    assert_eq!(mint_nft(&mut g, Class::Emerald, 7).unwrap_err(), InglError::BeyondBounds);
    assert_eq!(g.counter, u32::MAX);
    assert_eq!(g.total_raised, 0);
}

#[test]
fn allocate_then_deallocate() {
    let mut g = ledger();
    let mut p = gem(&mut g, Class::Serendibite);
    allocate_sol(&mut p, &mut g, 1_000, 730).unwrap();
    assert_eq!(p.funds_location, FundsLocation::PDPool);
    assert_eq!(p.date_allocated, Some(1_000));
    assert_eq!(p.redeemable_date, 1_730);
    assert_eq!(g.pd_pool_total, 5 * LAMPORTS_PER_SOL);
    assert_eq!(allocate_sol(&mut p, &mut g, 1_001, 730), Err(InglError::InvalidFundsLocation));
    assert_eq!(deallocate_sol(&mut p, &mut g, 1_729), Err(InglError::TooEarly));
    assert_eq!(p.funds_location, FundsLocation::PDPool);
    deallocate_sol(&mut p, &mut g, 1_730).unwrap();
    assert_eq!(p.funds_location, FundsLocation::MintingPool);
    assert_eq!(g.pd_pool_total, 0);
    assert_eq!(deallocate_sol(&mut p, &mut g, 2_000), Err(InglError::InvalidFundsLocation));
}

#[test]
fn allocate_lock_overflow_is_beyond_bounds() {
    let mut g = ledger();
    let mut p = gem(&mut g, Class::Benitoite);
    assert_eq!(allocate_sol(&mut p, &mut g, u32::MAX - 5, 730), Err(InglError::BeyondBounds));
    assert_eq!(p.funds_location, FundsLocation::MintingPool);
    assert_eq!(g.pd_pool_total, 0);
}

#[test]
fn exit_fee_values() {
    assert_eq!(redeem_fee(Class::Ruby, 0), 50_000_000_000);
    assert_eq!(redeem_fee(Class::Ruby, FEE_DECAY_PERIOD / 2), 43_301_270_189);
    assert_eq!(redeem_fee(Class::Ruby, FEE_DECAY_PERIOD - 1), 12_591_622);
    assert_eq!(redeem_fee(Class::Ruby, FEE_DECAY_PERIOD), 0);
    assert_eq!(redeem_fee(Class::Benitoite, 0), 100_000_000);
    assert_eq!(redeem_fee(Class::Benitoite, FEE_DECAY_PERIOD / 2), 86_602_540);
    assert_eq!(redeem_fee(Class::Benitoite, FEE_DECAY_PERIOD - 1), 25_183);
}

#[test]
fn redeem_at_draw_pays_full_fee() {
    let mut g = ledger();
    let mut p = gem(&mut g, Class::Ruby);
    p.rarity_seed_time = Some(5_000);
    let out = redeem_nft(&p, 5_000).unwrap();
    assert_eq!(out.fee, 50_000_000_000);
    assert_eq!(out.treasury_fee, 35_000_000_000);
    assert_eq!(out.authority_fee, 15_000_000_000);
    assert_eq!(out.payout, 450_000_000_000);
}

#[test]
fn redeem_one_period_after_draw_is_free() {
    let mut g = ledger();
    let mut p = gem(&mut g, Class::Ruby);
    p.rarity_seed_time = Some(5_000);
    let out = redeem_nft(&p, 5_000 + FEE_DECAY_PERIOD).unwrap();
    assert_eq!(out.fee, 0);
    assert_eq!(out.treasury_fee, 0);
    assert_eq!(out.authority_fee, 0);
    assert_eq!(out.payout, 500 * LAMPORTS_PER_SOL);
}

#[test]
fn redeem_half_period_splits_fee() {
    let mut g = ledger();
    let mut p = gem(&mut g, Class::Benitoite);
    p.rarity_seed_time = Some(0);
    let out = redeem_nft(&p, FEE_DECAY_PERIOD / 2).unwrap();
    assert_eq!(out.fee, 86_602_540);
    assert_eq!(out.treasury_fee, 60_621_778);
    assert_eq!(out.authority_fee, 25_980_762);
    assert_eq!(out.payout, 1_000_000_000 - 86_602_540);
}

#[test]
fn redeem_without_draw_is_free() {
    let mut g = ledger();
    let p = gem(&mut g, Class::Emerald);
    let out = redeem_nft(&p, 100).unwrap();
    assert_eq!(out.fee, 0);
    assert_eq!(out.payout, 10 * LAMPORTS_PER_SOL);
}

#[test]
fn redeem_refusals() {
    let mut g = ledger();
    let mut p = gem(&mut g, Class::Emerald);
    p.redeemable_date = 200;
    assert_eq!(redeem_nft(&p, 199), Err(InglError::TooEarly));
    p.rarity_seed_time = Some(300);
    assert_eq!(redeem_nft(&p, 250), Err(InglError::BeyondBounds));
    p.funds_location = FundsLocation::PDPool;
    assert_eq!(redeem_nft(&p, 400), Err(InglError::InvalidFundsLocation));
}
