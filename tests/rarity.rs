use ingl::error::InglError;
use ingl::nfts::get_uri;
use ingl::rarity::{
    digest_value, draw_rarity, feed_price, imprint_rarity, init_rarity_imprint, price_entropy,
    push_decimal, rarity_from_digest,
};
use ingl::state::{
    Class, FundsLocation, GemAccountV0_0_1, GemAccountVersions, Rarity, GEM_ACCOUNT_VAL_PHRASE,
};

fn fresh(class: Class) -> GemAccountV0_0_1 {
    GemAccountV0_0_1 {
        struct_id: GemAccountVersions::GemAccountV0_0_1,
        validation_phrase: GEM_ACCOUNT_VAL_PHRASE,
        date_created: 0,
        class,
        redeemable_date: 0,
        numeration: 1,
        rarity: None,
        funds_location: FundsLocation::MintingPool,
        rarity_seed_time: None,
        date_allocated: None,
        last_voted_proposal: None,
        last_withdrawal_epoch: None,
        last_delegation_epoch: None,
        all_withdraws: Vec::new(),
        all_votes: Vec::new(),
    }
}

fn hex(s: &str) -> Vec<u8> {
    (0..s.len() / 2).map(|i| u8::from_str_radix(&s[2 * i..2 * i + 2], 16).unwrap()).collect()
}

#[test]
fn rarity_thresholds() {
    assert_eq!(Class::Benitoite.get_rarity(8000), Some(Rarity::Common));
    assert_eq!(Class::Benitoite.get_rarity(7999), Some(Rarity::Uncommon));
    assert_eq!(Class::Benitoite.get_rarity(1999), Some(Rarity::Mythic));
    assert_eq!(Class::Serendibite.get_rarity(30), Some(Rarity::Exalted));
    assert_eq!(Class::Serendibite.get_rarity(29), Some(Rarity::Mythic));
    assert_eq!(Class::Emerald.get_rarity(1069), Some(Rarity::Rare));
    assert_eq!(Class::Sapphire.get_rarity(650), Some(Rarity::Rare));
    assert_eq!(Class::Diamond.get_rarity(8499), Some(Rarity::Uncommon));
    assert_eq!(Class::Ruby.get_rarity(u64::MAX), Some(Rarity::Common));
    assert_eq!(Class::Ruby.get_rarity(0), Some(Rarity::Mythic));
}

#[test]
fn artwork_locations() {
    assert_eq!(
        get_uri(Class::Ruby, None),
        "https://arweave.net/CHqG0ntgg2GeSCNmZnFGGrLsQExwnnaOuUg5S4GpmpI"
    );
    assert_eq!(
        get_uri(Class::Benitoite, Some(Rarity::Exalted)),
        "https://arweave.net/7a8tB2RrKj7blya4s9H-8SXarbY5x-5xdarSq05jyfA"
    );
}

#[test]
fn decimal_text_of_prices() {
    let mut out = Vec::new();
    push_decimal(&mut out, -27);
    push_decimal(&mut out, 0);
    push_decimal(&mut out, i128::MIN);
    assert_eq!(out, b"-270-170141183460469231731687303715884105728".to_vec());
    assert_eq!(price_entropy(2_500_000, 3_000, 180_000, -27), b"25000003000180000-27".to_vec());
}

#[test]
fn feed_prices() {
    assert_eq!(feed_price(123, 2), Ok(12_300));
    assert_eq!(feed_price(-4, 0), Ok(-4));
    assert_eq!(feed_price(0, 500), Ok(0));
    assert_eq!(feed_price(1, 38), Ok(10i128.pow(38)));
    assert_eq!(feed_price(2, 38), Err(InglError::BeyondBounds));
    assert_eq!(feed_price(-1, 39), Err(InglError::BeyondBounds));
}

#[test]
fn digest_scaling() {
    let d = hex("09deeed8f77b3cef041fc9be32efdc16905bb222b70f65737a2ef7d45775e442");
    assert_eq!(digest_value(&d), 5265);
    assert_eq!(digest_value(&vec![255u8; 32]), 9999);
    assert_eq!(digest_value(&vec![0u8; 32]), 0);
    assert_eq!(rarity_from_digest(Class::Ruby, &d), Rarity::Uncommon);
    assert_eq!(rarity_from_digest(Class::Benitoite, &d), Rarity::Rare);
}

#[test]
fn draw_hashes_price_text() {
    assert_eq!(draw_rarity(Class::Ruby, 2_500_000, 3_000, 180_000, -27), Rarity::Uncommon);
    assert_eq!(draw_rarity(Class::Benitoite, 2_500_000, 3_000, 180_000, -27), Rarity::Rare);
    assert_eq!(draw_rarity(Class::Serendibite, 0, 0, 0, 0), Rarity::Common);
    assert_eq!(draw_rarity(Class::Emerald, i128::MIN, 1, 2, 3), Rarity::Uncommon);
    assert_eq!(draw_rarity(Class::Ruby, i128::MIN, 1, 2, 3), Rarity::Rare);
}

#[test]
fn rarity_is_drawn_once() {
    let mut g = fresh(Class::Benitoite);
    assert_eq!(imprint_rarity(&mut g, 100, 1, 2, 3, 4), Err(InglError::TooEarly));
    init_rarity_imprint(&mut g, 100).unwrap();
    assert_eq!(g.rarity_seed_time, Some(120));
    assert_eq!(init_rarity_imprint(&mut g, 101), Err(InglError::InvalidAccountData));
    assert_eq!(imprint_rarity(&mut g, 119, 2_500_000, 3_000, 180_000, -27), Err(InglError::TooEarly));
    imprint_rarity(&mut g, 120, 2_500_000, 3_000, 180_000, -27).unwrap();
    assert_eq!(g.rarity, Some(Rarity::Rare));
    assert_eq!(imprint_rarity(&mut g, 130, 0, 0, 0, 0), Err(InglError::InvalidAccountData));
    assert_eq!(g.rarity, Some(Rarity::Rare));
    let mut late = fresh(Class::Ruby);
    assert_eq!(init_rarity_imprint(&mut late, u32::MAX - 3), Err(InglError::BeyondBounds));
}
