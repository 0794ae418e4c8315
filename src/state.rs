use vstd::prelude::*;

use crate::error::InglError;

verus! {

/// Lamports in one whole unit of the host currency.
pub const LAMPORTS_PER_SOL: u64 = 1_000_000_000;
/// Percentage of a position's value taken as the largest exit fee.
pub const FEE_MULTIPLYER: u8 = 10;
/// Seconds between the start of a rarity draw and the price time it reads.
pub const PRICE_TIME_INTERVAL: u8 = 20;
/// Percentage of an exit fee that goes to the treasury.
pub const TREASURY_FEE_MULTIPLYER: u8 = 70;
/// Pooled value needed before a proposal can be decided; also the most that
/// one delegation target may hold.
pub const MAXIMUM_DELEGATABLE_STAKE: u64 = 5 * LAMPORTS_PER_SOL;
/// Seconds over which the exit fee decays to zero after a rarity draw.
pub const FEE_DECAY_PERIOD: u32 = 31_536_000;
/// Seconds that allocated funds stay locked before they can be deallocated.
pub const ALLOCATION_LOCK_PERIOD: u32 = 730;
/// Contribution a candidate pays when it registers.
pub const REGISTRATION_FEE: u64 = 2 * LAMPORTS_PER_SOL;

/// Percentages in which a harvested reward is split.
pub const VALIDATOR_ID_SHARE: u64 = 15;
pub const TREASURY_SHARE: u64 = 13;
pub const TEAM_SHARE: u64 = 12;
pub const NFTS_SHARE: u64 = 60;

/// Validation phrases that open each kind of record.
pub const VALIDATOR_PROPOSAL_VAL_PHRASE: u32 = 842_542_964;
pub const GLOBAL_GEMS_VAL_PHRASE: u32 = 546_875_215;
pub const VALIDATOR_VOTE_VAL_PHRASE: u32 = 214_648_321;
pub const INGL_VOTE_ACCOUNT_DATA_VAL_PHRASE: u32 = 842_154_348;
pub const GEM_ACCOUNT_VAL_PHRASE: u32 = 516_248_961;
pub const VOTE_REWARDS_VAL_PHRASE: u32 = 584_625_418;

/// How an operation on two records went: on success both hold the planned
/// values and the planned result is returned; on failure both are unchanged.
pub open spec fn commits2<A, B, T>(
    plan: Result<(A, B, T), InglError>,
    r: Result<T, InglError>,
    a0: A,
    a1: A,
    b0: B,
    b1: B,
) -> bool {
    match plan {
        Ok((a, b, t)) => r == Ok::<T, InglError>(t) && a1 == a && b1 == b,
        Err(e) => r == Err::<T, InglError>(e) && a1 == a0 && b1 == b0,
    }
}

/// As `commits2`, for operations on three records.
pub open spec fn commits3<A, B, C, T>(
    plan: Result<(A, B, C, T), InglError>,
    r: Result<T, InglError>,
    a0: A,
    a1: A,
    b0: B,
    b1: B,
    c0: C,
    c1: C,
) -> bool {
    match plan {
        Ok((a, b, c, t)) => r == Ok::<T, InglError>(t) && a1 == a && b1 == b && c1 == c,
        Err(e) => r == Err::<T, InglError>(e) && a1 == a0 && b1 == b0 && c1 == c0,
    }
}

/// As `commits2`, for operations on one record.
pub open spec fn commits1<A, T>(plan: Result<(A, T), InglError>, r: Result<T, InglError>, a0: A, a1: A) -> bool {
    match plan {
        Ok((a, t)) => r == Ok::<T, InglError>(t) && a1 == a,
        Err(e) => r == Err::<T, InglError>(e) && a1 == a0,
    }
}

/// A 32-byte account identity, held as four little-endian words.
#[derive(Clone, Copy, PartialEq, Eq, Structural, Debug)]
pub struct Key {
    pub w0: u64,
    pub w1: u64,
    pub w2: u64,
    pub w3: u64,
}

/// The tier of a position, which fixes its value.
#[derive(Clone, Copy, PartialEq, Eq, Structural, Debug)]
pub enum Class {
    Ruby,
    Diamond,
    Sapphire,
    Emerald,
    Serendibite,
    Benitoite,
}

/// Whole units of value that a class stands for.
pub open spec fn class_units(c: Class) -> u64 {
    match c {
        Class::Ruby => 500,
        Class::Diamond => 100,
        Class::Sapphire => 50,
        Class::Emerald => 10,
        Class::Serendibite => 5,
        Class::Benitoite => 1,
    }
}

/// Value of a class in lamports.
pub open spec fn class_lamports(c: Class) -> u64 {
    (LAMPORTS_PER_SOL * class_units(c)) as u64
}

impl Class {
    pub fn get_class_lamports(self) -> (r: u64)
        ensures
            r == class_lamports(self),
            r == LAMPORTS_PER_SOL * class_units(self),
            LAMPORTS_PER_SOL <= r <= 500 * LAMPORTS_PER_SOL,
    {
        LAMPORTS_PER_SOL * match self {
            Class::Ruby => 500,
            Class::Diamond => 100,
            Class::Sapphire => 50,
            Class::Emerald => 10,
            Class::Serendibite => 5,
            Class::Benitoite => 1,
        }
    }

    /// Voting weight of the class: its value in whole units.
    pub fn get_class_units(self) -> (r: u32)
        ensures
            r == class_units(self),
            r as u64 == class_lamports(self) / LAMPORTS_PER_SOL,
    {
        (self.get_class_lamports() / LAMPORTS_PER_SOL) as u32
    }
}

#[derive(Clone, Copy, PartialEq, Eq, Structural, Debug)]
pub enum Rarity {
    Common,
    Uncommon,
    Rare,
    Exalted,
    Mythic,
}

/// Where the value backing a position currently lies.
#[derive(Clone, Copy, PartialEq, Eq, Structural, Debug)]
pub enum FundsLocation {
    MintingPool,
    PDPool,
    VoteAccount { vote_account_id: Key },
}

/// The singleton record of pool totals.
#[derive(Clone, Debug)]
pub struct GlobalGems {
    pub validation_phrase: u32,
    pub counter: u32,
    pub total_raised: u64,
    pub pd_pool_total: u64,
    pub delegated_total: u64,
    pub dealloced_total: u64,
    pub is_proposal_ongoing: bool,
    pub proposal_numeration: u32,
    pub pending_delegation_total: u64,
    pub validator_list: Vec<Key>,
}

impl GlobalGems {
    /// The ledger as created at genesis: every total zero, no candidates and
    /// no proposal.
    pub fn genesis() -> (r: GlobalGems)
        ensures
            r.validation_phrase == GLOBAL_GEMS_VAL_PHRASE,
            r.counter == 0,
            r.total_raised == 0,
            r.pd_pool_total == 0,
            r.delegated_total == 0,
            r.dealloced_total == 0,
            !r.is_proposal_ongoing,
            r.proposal_numeration == 0,
            r.pending_delegation_total == 0,
            r.validator_list@.len() == 0,
    {
        GlobalGems {
            validation_phrase: GLOBAL_GEMS_VAL_PHRASE,
            counter: 0,
            total_raised: 0,
            pd_pool_total: 0,
            delegated_total: 0,
            dealloced_total: 0,
            is_proposal_ongoing: false,
            proposal_numeration: 0,
            pending_delegation_total: 0,
            validator_list: Vec::new(),
        }
    }

    pub fn validate(self) -> (r: Result<Self, InglError>)
        ensures
            self.validation_phrase == GLOBAL_GEMS_VAL_PHRASE ==> r == Ok::<Self, InglError>(self),
            self.validation_phrase != GLOBAL_GEMS_VAL_PHRASE ==> r == Err::<Self, InglError>(
                InglError::InvalidValPhrase,
            ),
    {
        if self.validation_phrase != GLOBAL_GEMS_VAL_PHRASE {
            return Err(InglError::InvalidValPhrase);
        }
        Ok(self)
    }
}

/// One vote, kept in a position's history.
#[derive(Clone, Copy, PartialEq, Eq, Structural, Debug)]
pub struct ValidatorVote {
    pub validation_phrase: u32,
    pub proposal_id: Key,
    pub validator_index: u32,
}

impl ValidatorVote {
    pub fn validate(self) -> (r: Result<Self, InglError>)
        ensures
            self.validation_phrase == VALIDATOR_VOTE_VAL_PHRASE ==> r == Ok::<Self, InglError>(self),
            self.validation_phrase != VALIDATOR_VOTE_VAL_PHRASE ==> r == Err::<Self, InglError>(
                InglError::InvalidValPhrase,
            ),
    {
        if self.validation_phrase != VALIDATOR_VOTE_VAL_PHRASE {
            return Err(InglError::InvalidValPhrase);
        }
        Ok(self)
    }
}

/// Version tag at the start of a position record.
#[derive(Clone, Copy, PartialEq, Eq, Structural, Debug)]
pub enum GemAccountVersions {
    GemAccountV0_0_1,
    BlanckCase,
}

impl GemAccountVersions {
    /// Reads the version tag byte of a position record; only the first
    /// version is readable.
    pub fn from_tag(tag: u8) -> (r: Result<GemAccountVersions, InglError>)
        ensures
            tag == 0 ==> r == Ok::<GemAccountVersions, InglError>(GemAccountVersions::GemAccountV0_0_1),
            tag != 0 ==> r == Err::<GemAccountVersions, InglError>(InglError::InvalidStructType),
    {
        if tag == 0 {
            Ok(GemAccountVersions::GemAccountV0_0_1)
        } else {
            Err(InglError::InvalidStructType)
        }
    }
}

/// The record of one position.
#[derive(Clone, Debug)]
pub struct GemAccountV0_0_1 {
    pub struct_id: GemAccountVersions,
    pub validation_phrase: u32,
    pub date_created: u32,
    pub class: Class,
    pub redeemable_date: u32,
    pub numeration: u32,
    pub rarity: Option<Rarity>,
    pub funds_location: FundsLocation,
    pub rarity_seed_time: Option<u32>,
    pub date_allocated: Option<u32>,
    pub last_voted_proposal: Option<Key>,
    pub last_withdrawal_epoch: Option<u64>,
    pub last_delegation_epoch: Option<u64>,
    pub all_withdraws: Vec<u64>,
    pub all_votes: Vec<ValidatorVote>,
}

impl GemAccountV0_0_1 {
    pub fn validate(account_data: Self) -> (r: Result<Self, InglError>)
        ensures
            account_data.validation_phrase == GEM_ACCOUNT_VAL_PHRASE ==> r == Ok::<Self, InglError>(
                account_data,
            ),
            account_data.validation_phrase != GEM_ACCOUNT_VAL_PHRASE ==> r == Err::<Self, InglError>(
                InglError::InvalidValPhrase,
            ),
    {
        if account_data.validation_phrase != GEM_ACCOUNT_VAL_PHRASE {
            return Err(InglError::InvalidValPhrase);
        }
        Ok(account_data)
    }
}

/// A governance round choosing the next delegation target.
#[derive(Clone, Debug)]
pub struct ValidatorProposal {
    pub validation_phrase: u32,
    pub validator_ids: Vec<Key>,
    pub date_created: u32,
    pub date_finalized: Option<u32>,
    pub votes: Vec<u32>,
    pub winner: Option<Key>,
}

impl ValidatorProposal {
    /// The vote accumulator runs parallel to a non-empty candidate list.
    pub open spec fn wf(&self) -> bool {
        &&& self.validator_ids@.len() > 0
        &&& self.votes@.len() == self.validator_ids@.len()
    }

    pub fn validate(self) -> (r: Result<Self, InglError>)
        ensures
            self.validation_phrase == VALIDATOR_PROPOSAL_VAL_PHRASE ==> r == Ok::<Self, InglError>(
                self,
            ),
            self.validation_phrase != VALIDATOR_PROPOSAL_VAL_PHRASE ==> r == Err::<Self, InglError>(
                InglError::InvalidValPhrase,
            ),
    {
        if self.validation_phrase != VALIDATOR_PROPOSAL_VAL_PHRASE {
            return Err(InglError::InvalidValPhrase);
        }
        Ok(self)
    }
}

/// The yield recorded for one epoch of a delegation target.
#[derive(Clone, Copy, PartialEq, Eq, Structural, Debug)]
pub struct VoteRewards {
    pub validation_phrase: u32,
    pub epoch_number: u64,
    pub total_reward: u64,
    pub total_stake: u64,
}

impl VoteRewards {
    pub fn validate(self) -> (r: Result<Self, InglError>)
        ensures
            self.validation_phrase == VOTE_REWARDS_VAL_PHRASE ==> r == Ok::<Self, InglError>(self),
            self.validation_phrase != VOTE_REWARDS_VAL_PHRASE ==> r == Err::<Self, InglError>(
                InglError::InvalidValPhrase,
            ),
    {
        if self.validation_phrase != VOTE_REWARDS_VAL_PHRASE {
            return Err(InglError::InvalidValPhrase);
        }
        Ok(self)
    }
}

/// Bookkeeping of one delegation target.
#[derive(Clone, Debug)]
pub struct InglVoteAccountData {
    pub validation_phrase: u32,
    pub total_delegated: u64,
    pub last_withdraw_epoch: u64,
    pub dealloced: u64,
    /// Set while a rebalance is in flight: the reward it will pay out.
    pub pending_validator_rewards: Option<u64>,
    pub validator_id: Key,
    pub pending_delegation_total: u64,
    pub is_t_stake_initialized: bool,
    pub vote_rewards: Vec<VoteRewards>,
    pub last_total_staked: u64,
}

impl InglVoteAccountData {
    pub fn validate(self) -> (r: Result<Self, InglError>)
        ensures
            self.validation_phrase == INGL_VOTE_ACCOUNT_DATA_VAL_PHRASE ==> r == Ok::<
                Self,
                InglError,
            >(self),
            self.validation_phrase != INGL_VOTE_ACCOUNT_DATA_VAL_PHRASE ==> r == Err::<
                Self,
                InglError,
            >(InglError::InvalidValPhrase),
    {
        if self.validation_phrase != INGL_VOTE_ACCOUNT_DATA_VAL_PHRASE {
            return Err(InglError::InvalidValPhrase);
        }
        Ok(self)
    }
}

/// Size facts of the host's vote records.
pub struct VoteState {}

impl VoteState {
    pub fn space() -> (r: usize)
        ensures
            r == 3731,
    {
        3731
    }
}

} // verus!
