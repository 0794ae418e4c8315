use vstd::prelude::*;

use crate::error::InglError;
use crate::nfts::rarity_for;
use crate::state::{commits1, Class, GemAccountV0_0_1, Rarity, PRICE_TIME_INTERVAL};

verus! {

/// The SHA-256 digest of a byte string, as the host computes it.
pub uninterp spec fn sha256_of(data: Seq<u8>) -> Seq<u8>;

/// Relies on solana_program::hash::hash: the SHA-256 digest of the bytes,
/// 32 bytes long.
#[verifier::external_body]
fn sha256_digest(data: &Vec<u8>) -> (r: Vec<u8>)
    ensures
        r@ == sha256_of(data@),
        r@.len() == 32,
{
    solana_program::hash::hash(data.as_slice()).to_bytes().to_vec()
}

/// ASCII decimal digits of `n`, without leading zeros.
pub open spec fn decimal_digits(n: nat) -> Seq<u8>
    decreases n,
{
    if n < 10 {
        seq![(48 + n) as u8]
    } else {
        decimal_digits(n / 10).push((48 + n % 10) as u8)
    }
}

/// ASCII decimal text of `v`, with a leading minus sign when negative.
pub open spec fn decimal_text(v: int) -> Seq<u8> {
    if v < 0 {
        seq![45u8] + decimal_digits((-v) as nat)
    } else {
        decimal_digits(v as nat)
    }
}

fn push_digits(out: &mut Vec<u8>, n: u128)
    ensures
        final(out)@ == old(out)@ + decimal_digits(n as nat),
    decreases n,
{
    if n >= 10 {
        push_digits(out, n / 10);
    }
    out.push((48 + n % 10) as u8);
    proof {
        if n < 10 {
            assert(old(out)@ + decimal_digits(n as nat) =~= old(out)@.push((48 + n % 10) as u8));
        } else {
            assert(old(out)@ + decimal_digits(n as nat) =~= (old(out)@ + decimal_digits(
                (n / 10) as nat,
            )).push((48 + n % 10) as u8));
        }
    }
}

/// Appends the decimal text of `v` to `out`.
pub fn push_decimal(out: &mut Vec<u8>, v: i128)
    ensures
        final(out)@ == old(out)@ + decimal_text(v as int),
{
    if v < 0 {
        out.push(45);
        let magnitude: u128 = ((-(v + 1)) as u128) + 1;
        push_digits(out, magnitude);
        assert(old(out)@ + decimal_text(v as int) =~= old(out)@.push(45u8) + decimal_digits(
            magnitude as nat,
        ));
    } else {
        push_digits(out, v as u128);
    }
}

/// 10 to the power `n`.
pub open spec fn pow10(n: nat) -> int
    decreases n,
{
    if n == 0 {
        1
    } else {
        10 * pow10((n - 1) as nat)
    }
}

proof fn lemma_pow10_grows(n: nat)
    ensures
        pow10(n) >= 1,
    decreases n,
{
    if n > 0 {
        lemma_pow10_grows((n - 1) as nat);
    }
}

/// Whether `x` fits in an `i128`.
pub open spec fn fits_i128(x: int) -> bool {
    i128::MIN <= x <= i128::MAX
}

/// The price a feed entry stands for: its mantissa times ten to its scale,
/// refused with `BeyondBounds` when that leaves `i128`.
pub fn feed_price(mantissa: i128, scale: u32) -> (r: Result<i128, InglError>)
    ensures
        fits_i128(mantissa * pow10(scale as nat)) ==> r == Ok::<i128, InglError>(
            (mantissa * pow10(scale as nat)) as i128,
        ),
        !fits_i128(mantissa * pow10(scale as nat)) ==> r == Err::<i128, InglError>(
            InglError::BeyondBounds,
        ),
{
    if mantissa == 0 {
        assert(mantissa * pow10(scale as nat) == 0);
        return Ok(0);
    }
    let mut acc: i128 = mantissa;
    let mut i: u32 = 0;
    while i < scale
        invariant
            i <= scale,
            mantissa != 0,
            acc == mantissa * pow10(i as nat),
        decreases scale - i,
    {
        match acc.checked_mul(10) {
            Some(next) => {
                proof {
                    assert(mantissa * pow10((i + 1) as nat) == mantissa * pow10(i as nat) * 10)
                        by (nonlinear_arith)
                        requires
                            pow10((i + 1) as nat) == 10 * pow10(i as nat),
                    ;
                }
                acc = next;
            },
            None => {
                proof {
                    let big = acc as int * 10;
                    let rest = pow10((scale - i - 1) as nat);
                    lemma_pow10_grows((scale - i - 1) as nat);
                    lemma_pow10_split(i as nat, (scale - i - 1) as nat);
                    assert(mantissa * pow10(scale as nat) == big * rest) by (nonlinear_arith)
                        requires
                            big == mantissa * pow10(i as nat) * 10,
                            pow10(scale as nat) == pow10(i as nat) * 10 * rest,
                    ;
                    assert(!fits_i128(big * rest)) by (nonlinear_arith)
                        requires
                            !fits_i128(big),
                            rest >= 1,
                    ;
                }
                return Err(InglError::BeyondBounds);
            },
        }
        i = i + 1;
    }
    Ok(acc)
}

proof fn lemma_pow10_split(a: nat, b: nat)
    ensures
        pow10(a + 1 + b) == pow10(a) * 10 * pow10(b),
    decreases a,
{
    if a == 0 {
        assert(pow10(1 + b) == 10 * pow10(b));
    } else {
        lemma_pow10_split((a - 1) as nat, b);
        assert(pow10(a + 1 + b) == 10 * pow10(((a - 1) + 1 + b) as nat));
        assert(pow10(a) == 10 * pow10((a - 1) as nat));
        assert(10 * (pow10((a - 1) as nat) * 10 * pow10(b)) == (10 * pow10((a - 1) as nat)) * 10
            * pow10(b)) by (nonlinear_arith);
    }
}

/// The bytes hashed for a rarity draw: the decimal texts of the four prices,
/// one after another.
pub open spec fn entropy_text(btc: i128, sol: i128, eth: i128, bnb: i128) -> Seq<u8> {
    decimal_text(btc as int) + decimal_text(sol as int) + decimal_text(eth as int) + decimal_text(
        bnb as int,
    )
}

pub fn price_entropy(btc: i128, sol: i128, eth: i128, bnb: i128) -> (r: Vec<u8>)
    ensures
        r@ == entropy_text(btc, sol, eth, bnb),
{
    let mut out: Vec<u8> = Vec::new();
    push_decimal(&mut out, btc);
    push_decimal(&mut out, sol);
    push_decimal(&mut out, eth);
    push_decimal(&mut out, bnb);
    assert(out@ =~= entropy_text(btc, sol, eth, bnb));
    out
}

/// Sum of the bytes of `s`.
pub open spec fn byte_sum(s: Seq<u8>) -> int
    decreases s.len(),
{
    if s.len() == 0 {
        0
    } else {
        byte_sum(s.drop_last()) + s.last()
    }
}

/// The draw value of a digest: the sum of its bytes scaled from
/// `0..=255 * 32` onto `0..=9999`, rounded down.
pub open spec fn draw_value(digest: Seq<u8>) -> int {
    byte_sum(digest) * 9999 / (255 * 32) as int
}

pub fn digest_value(digest: &Vec<u8>) -> (r: u64)
    requires
        digest@.len() == 32,
    ensures
        r == draw_value(digest@),
        r <= 9999,
{
    let mut sum: u64 = 0;
    let mut i: usize = 0;
    while i < digest.len()
        invariant
            i <= digest@.len() == 32,
            sum == byte_sum(digest@.take(i as int)),
            sum <= 255 * i,
        decreases digest@.len() - i,
    {
        assert(digest@.take(i as int + 1).drop_last() =~= digest@.take(i as int));
        sum = sum + digest[i] as u64;
        i = i + 1;
    }
    assert(digest@.take(32) =~= digest@);
    assert(sum * 9999 / 8160 <= 9999) by (nonlinear_arith)
        requires
            sum <= 8160,
    ;
    sum * 9999 / (255 * 32)
}

/// Rarity of a position of `class` whose draw hashed to `digest`.
pub fn rarity_from_digest(class: Class, digest: &Vec<u8>) -> (r: Rarity)
    requires
        digest@.len() == 32,
    ensures
        r == rarity_for(class, draw_value(digest@) as u64),
{
    let v = digest_value(digest);
    class.get_rarity(v).unwrap()
}

/// The rarity drawn for `class` from the four prices: the digest of their
/// decimal texts, its byte sum scaled onto `0..=9999`, and the class's table.
pub fn draw_rarity(class: Class, btc: i128, sol: i128, eth: i128, bnb: i128) -> (r: Rarity)
    ensures
        r == rarity_for(class, draw_value(sha256_of(entropy_text(btc, sol, eth, bnb))) as u64),
{
    let text = price_entropy(btc, sol, eth, bnb);
    let digest = sha256_digest(&text);
    rarity_from_digest(class, &digest)
}

/// Starts a rarity draw at `now`: the prices to be read are those at
/// `now + PRICE_TIME_INTERVAL`. A position draws only once.
pub open spec fn init_draw_plan(gem: GemAccountV0_0_1, now: u32) -> Result<(GemAccountV0_0_1, ()), InglError> {
    if gem.rarity_seed_time is Some {
        Err(InglError::InvalidAccountData)
    } else if now + PRICE_TIME_INTERVAL > u32::MAX {
        Err(InglError::BeyondBounds)
    } else {
        Ok(
            (
                GemAccountV0_0_1 {
                    rarity_seed_time: Some((now + PRICE_TIME_INTERVAL) as u32),
                    ..gem
                },
                (),
            ),
        )
    }
}

pub fn init_rarity_imprint(gem: &mut GemAccountV0_0_1, now: u32) -> (r: Result<(), InglError>)
    ensures
        commits1(init_draw_plan(*old(gem), now), r, *old(gem), *final(gem)),
{
    if gem.rarity_seed_time.is_some() {
        return Err(InglError::InvalidAccountData);
    }
    let interval = PRICE_TIME_INTERVAL as u32;
    if now > u32::MAX - interval {
        return Err(InglError::BeyondBounds);
    }
    gem.rarity_seed_time = Some(now + interval);
    Ok(())
}

/// When a draw cannot be completed, and with which error.
pub open spec fn imprint_error(gem: GemAccountV0_0_1, now: u32) -> Option<InglError> {
    match gem.rarity_seed_time {
        None => Some(InglError::TooEarly),
        Some(t) => if now < t {
            Some(InglError::TooEarly)
        } else if gem.rarity is Some {
            Some(InglError::InvalidAccountData)
        } else {
            None
        },
    }
}

/// Completes a rarity draw from the four prices read at the draw time, and
/// assigns the drawn rarity once.
pub fn imprint_rarity(gem: &mut GemAccountV0_0_1, now: u32, btc: i128, sol: i128, eth: i128, bnb: i128) -> (r:
    Result<(), InglError>)
    ensures
        imprint_error(*old(gem), now) matches Some(e) ==> r == Err::<(), InglError>(e),
        imprint_error(*old(gem), now) is None ==> r is Ok,
        r is Err ==> *final(gem) == *old(gem),
        r is Ok ==> *final(gem) == (GemAccountV0_0_1 {
            rarity: Some(
                rarity_for(old(gem).class, draw_value(sha256_of(entropy_text(btc, sol, eth, bnb))) as u64),
            ),
            ..*old(gem)
        }),
{
    match gem.rarity_seed_time {
        None => {
            return Err(InglError::TooEarly);
        },
        Some(t) => {
            if now < t {
                return Err(InglError::TooEarly);
            }
        },
    }
    if gem.rarity.is_some() {
        return Err(InglError::InvalidAccountData);
    }
    gem.rarity = Some(draw_rarity(gem.class, btc, sol, eth, bnb));
    Ok(())
}

} // verus!
