use vstd::prelude::*;

use crate::error::InglError;
use crate::state::{
    class_units, commits1, GemAccountV0_0_1, GlobalGems, InglVoteAccountData, Key, ValidatorProposal,
    ValidatorVote, MAXIMUM_DELEGATABLE_STAKE, VALIDATOR_PROPOSAL_VAL_PHRASE,
    VALIDATOR_VOTE_VAL_PHRASE,
};

verus! {

/// Two ledger records that differ at most in their candidate lists.
pub open spec fn same_but_candidates(a: GlobalGems, b: GlobalGems) -> bool {
    a == GlobalGems { validator_list: a.validator_list, ..b }
}

pub fn contains_key(keys: &Vec<Key>, k: Key) -> (r: bool)
    ensures
        r == keys@.contains(k),
{
    let mut i: usize = 0;
    while i < keys.len()
        invariant
            i <= keys@.len(),
            forall|j: int| 0 <= j < i ==> keys@[j] != k,
        decreases keys@.len() - i,
    {
        if keys[i] == k {
            return true;
        }
        i = i + 1;
    }
    false
}

/// Registers a candidate identity; a second registration of the same
/// identity is refused with `TooLate`.
pub fn register_validator_id(global: &mut GlobalGems, candidate: Key) -> (r: Result<(), InglError>)
    ensures
        old(global).validator_list@.contains(candidate) ==> r == Err::<(), InglError>(
            InglError::TooLate,
        ),
        !old(global).validator_list@.contains(candidate) ==> r is Ok,
        r is Ok ==> final(global).validator_list@ == old(global).validator_list@.push(candidate),
        r is Ok ==> final(global).validator_list@.contains(candidate),
        r is Ok ==> same_but_candidates(*final(global), *old(global)),
        r is Err ==> *final(global) == *old(global),
{
    if contains_key(&global.validator_list, candidate) {
        return Err(InglError::TooLate);
    }
    global.validator_list.push(candidate);
    assert(global.validator_list@[global.validator_list@.len() - 1] == candidate);
    Ok(())
}

/// When a new proposal cannot be opened, and with which error.
pub open spec fn create_proposal_error(global: GlobalGems) -> Option<InglError> {
    if global.is_proposal_ongoing {
        Some(InglError::TooEarly)
    } else if global.validator_list@.len() == 0 {
        Some(InglError::TooEarly)
    } else if global.proposal_numeration == u32::MAX {
        Some(InglError::BeyondBounds)
    } else {
        None
    }
}

/// Opens a proposal over a snapshot of the registered candidates, with every
/// vote count at zero, and marks a proposal as ongoing.
pub fn create_validator_selection_proposal(global: &mut GlobalGems, now: u32) -> (r: Result<
    ValidatorProposal,
    InglError,
>)
    ensures
        create_proposal_error(*old(global)) matches Some(e) ==> r == Err::<
            ValidatorProposal,
            InglError,
        >(e),
        create_proposal_error(*old(global)) is None ==> r is Ok,
        r is Err ==> *final(global) == *old(global),
        r is Ok ==> *final(global) == (GlobalGems {
            is_proposal_ongoing: true,
            proposal_numeration: (old(global).proposal_numeration + 1) as u32,
            ..*old(global)
        }),
        r matches Ok(p) ==> {
            &&& p.validation_phrase == VALIDATOR_PROPOSAL_VAL_PHRASE
            &&& p.validator_ids@ == old(global).validator_list@
            &&& p.date_created == now
            &&& p.date_finalized.is_none()
            &&& p.votes@ == Seq::new(old(global).validator_list@.len(), |i: int| 0u32)
            &&& p.winner.is_none()
            &&& p.wf()
        },
{
    if global.is_proposal_ongoing || global.validator_list.len() == 0 {
        return Err(InglError::TooEarly);
    }
    if global.proposal_numeration == u32::MAX {
        return Err(InglError::BeyondBounds);
    }
    let n = global.validator_list.len();
    let mut ids: Vec<Key> = Vec::new();
    let mut votes: Vec<u32> = Vec::new();
    let mut i: usize = 0;
    while i < n
        invariant
            n == global.validator_list@.len(),
            i <= n,
            ids@ == global.validator_list@.take(i as int),
            votes@ == Seq::new(i as nat, |j: int| 0u32),
        decreases n - i,
    {
        ids.push(global.validator_list[i]);
        votes.push(0);
        i = i + 1;
        assert(ids@ =~= global.validator_list@.take(i as int));
        assert(votes@ =~= Seq::new(i as nat, |j: int| 0u32));
    }
    assert(ids@ =~= global.validator_list@);
    global.is_proposal_ongoing = true;
    global.proposal_numeration = global.proposal_numeration + 1;
    Ok(
        ValidatorProposal {
            validation_phrase: VALIDATOR_PROPOSAL_VAL_PHRASE,
            validator_ids: ids,
            date_created: now,
            date_finalized: None,
            votes,
            winner: None,
        },
    )
}

/// Total voting weight of a list of positions.
pub open spec fn weight_sum(gems: Seq<GemAccountV0_0_1>) -> int
    decreases gems.len(),
{
    if gems.len() == 0 {
        0
    } else {
        weight_sum(gems.drop_last()) + class_units(gems.last().class)
    }
}

/// `g1` is `g0` after it voted for candidate `index` of proposal `id`.
pub open spec fn voted(g0: GemAccountV0_0_1, g1: GemAccountV0_0_1, id: Key, index: u32) -> bool {
    &&& g1 == GemAccountV0_0_1 {
        last_voted_proposal: Some(id),
        all_votes: g1.all_votes,
        ..g0
    }
    &&& g1.all_votes@ == g0.all_votes@.push(
        ValidatorVote { validation_phrase: VALIDATOR_VOTE_VAL_PHRASE, proposal_id: id, validator_index: index },
    )
}

/// When a vote is refused, and with which error.
pub open spec fn vote_error(
    proposal: ValidatorProposal,
    id: Key,
    gems: Seq<GemAccountV0_0_1>,
    index: u32,
) -> Option<InglError> {
    if proposal.date_finalized is Some {
        Some(InglError::TooLate)
    } else if index >= proposal.votes@.len() {
        Some(InglError::BeyondBounds)
    } else if exists|i: int| 0 <= i < gems.len() && gems[i].last_voted_proposal == Some(id) {
        Some(InglError::AlreadyVoted)
    } else if proposal.votes@[index as int] + weight_sum(gems) > u32::MAX {
        Some(InglError::BeyondBounds)
    } else {
        None
    }
}

proof fn lemma_weight_sum_step(gems: Seq<GemAccountV0_0_1>, i: int)
    requires
        0 <= i < gems.len(),
    ensures
        weight_sum(gems.take(i + 1)) == weight_sum(gems.take(i)) + class_units(gems[i].class),
        weight_sum(gems.take(i)) >= 0,
{
    assert(gems.take(i + 1).drop_last() =~= gems.take(i));
    lemma_weight_sum_nonneg(gems.take(i));
}

proof fn lemma_weight_sum_nonneg(gems: Seq<GemAccountV0_0_1>)
    ensures
        weight_sum(gems) >= 0,
    decreases gems.len(),
{
    if gems.len() > 0 {
        lemma_weight_sum_nonneg(gems.drop_last());
    }
}

proof fn lemma_weight_sum_prefix(gems: Seq<GemAccountV0_0_1>, i: int)
    requires
        0 <= i <= gems.len(),
    ensures
        weight_sum(gems.take(i)) <= weight_sum(gems),
    decreases gems.len() - i,
{
    if i < gems.len() {
        lemma_weight_sum_step(gems, i);
        lemma_weight_sum_prefix(gems, i + 1);
    } else {
        assert(gems.take(i) =~= gems);
    }
}

/// Casts one vote for candidate `validator_index` of the proposal whose
/// identity is `proposal_id` from each position in `gems`, each adding its
/// class weight. A position whose latest vote went to this proposal is
/// refused with `AlreadyVoted`, and then no vote is counted.
pub fn vote_validator_proposal(
    proposal: &mut ValidatorProposal,
    proposal_id: Key,
    gems: &mut Vec<GemAccountV0_0_1>,
    validator_index: u32,
) -> (r: Result<(), InglError>)
    ensures
        vote_error(*old(proposal), proposal_id, old(gems)@, validator_index) matches Some(e) ==> r
            == Err::<(), InglError>(e),
        vote_error(*old(proposal), proposal_id, old(gems)@, validator_index) is None ==> r is Ok,
        r is Err ==> *final(proposal) == *old(proposal) && *final(gems) == *old(gems),
        r is Ok ==> {
            &&& *final(proposal) == (ValidatorProposal { votes: final(proposal).votes, ..*old(proposal) })
            &&& final(proposal).votes@ == old(proposal).votes@.update(
                validator_index as int,
                (old(proposal).votes@[validator_index as int] + weight_sum(old(gems)@)) as u32,
            )
            &&& final(gems)@.len() == old(gems)@.len()
            &&& forall|i: int|
                0 <= i < old(gems)@.len() ==> voted(
                    #[trigger] old(gems)@[i],
                    final(gems)@[i],
                    proposal_id,
                    validator_index,
                )
        },
{
    if proposal.date_finalized.is_some() {
        return Err(InglError::TooLate);
    }
    if validator_index as usize >= proposal.votes.len() {
        return Err(InglError::BeyondBounds);
    }
    let idx = validator_index as usize;
    let n = gems.len();
    let mut i: usize = 0;
    while i < n
        invariant
            n == gems@.len(),
            i <= n,
            forall|j: int| 0 <= j < i ==> gems@[j].last_voted_proposal != Some(proposal_id),
            *proposal == *old(proposal),
            *gems == *old(gems),
            proposal.date_finalized is None,
            idx < proposal.votes@.len(),
            idx == validator_index,
        decreases n - i,
    {
        if gems[i].last_voted_proposal == Some(proposal_id) {
            assert(gems@[i as int].last_voted_proposal == Some(proposal_id));
            return Err(InglError::AlreadyVoted);
        }
        i = i + 1;
    }
    let mut total: u64 = proposal.votes[idx] as u64;
    i = 0;
    while i < n
        invariant
            n == gems@.len(),
            i <= n,
            idx < proposal.votes@.len(),
            total == proposal.votes@[idx as int] + weight_sum(gems@.take(i as int)),
            total <= u32::MAX,
            forall|j: int| 0 <= j < n ==> gems@[j].last_voted_proposal != Some(proposal_id),
            *proposal == *old(proposal),
            *gems == *old(gems),
            proposal.date_finalized is None,
            idx == validator_index,
        decreases n - i,
    {
        proof {
            lemma_weight_sum_step(gems@, i as int);
        }
        let w = gems[i].class.get_class_units();
        if total + (w as u64) > u32::MAX as u64 {
            proof {
                lemma_weight_sum_prefix(gems@, i as int + 1);
            }
            return Err(InglError::BeyondBounds);
        }
        total = total + (w as u64);
        i = i + 1;
    }
    assert(gems@.take(n as int) =~= gems@);
    let ghost old_gems = gems@;
    let mut out: Vec<GemAccountV0_0_1> = Vec::new();
    while gems.len() > 0
        invariant
            out@.len() + gems@.len() == old_gems.len(),
            gems@ == old_gems.skip(out@.len() as int),
            forall|j: int|
                0 <= j < out@.len() ==> voted(
                    #[trigger] old_gems[j],
                    out@[j],
                    proposal_id,
                    validator_index,
                ),
            *proposal == *old(proposal),
            old_gems == old(gems)@,
            idx < proposal.votes@.len(),
            idx == validator_index,
        decreases gems@.len(),
    {
        let mut g = gems.remove(0);
        g.last_voted_proposal = Some(proposal_id);
        g.all_votes.push(
            ValidatorVote {
                validation_phrase: VALIDATOR_VOTE_VAL_PHRASE,
                proposal_id,
                validator_index,
            },
        );
        out.push(g);
        assert(gems@ =~= old_gems.skip(out@.len() as int));
    }
    *gems = out;
    proposal.votes.set(idx, total as u32);
    Ok(())
}

/// Index of the winner: the first index holding the largest count, the same
/// as a left-to-right scan that moves only on a strictly larger count.
pub open spec fn first_max_index(votes: Seq<u32>) -> int
    decreases votes.len(),
{
    if votes.len() <= 1 {
        0
    } else {
        let i = first_max_index(votes.drop_last());
        if votes.last() > votes[i] {
            votes.len() - 1
        } else {
            i
        }
    }
}

/// The scan's index holds the largest count, and every earlier count is
/// strictly smaller: ties go to the lowest index.
pub proof fn lemma_first_max_index(votes: Seq<u32>)
    requires
        votes.len() > 0,
    ensures
        0 <= first_max_index(votes) < votes.len(),
        forall|j: int| 0 <= j < votes.len() ==> #[trigger] votes[j] <= votes[first_max_index(votes)],
        forall|j: int|
            0 <= j < first_max_index(votes) ==> #[trigger] votes[j] < votes[first_max_index(votes)],
    decreases votes.len(),
{
    if votes.len() > 1 {
        let d = votes.drop_last();
        lemma_first_max_index(d);
        assert forall|j: int| 0 <= j < d.len() implies d[j] == votes[j] by {}
    }
}

pub fn winning_index(votes: &Vec<u32>) -> (r: usize)
    requires
        votes@.len() > 0,
    ensures
        r == first_max_index(votes@),
        r < votes@.len(),
        forall|j: int| 0 <= j < votes@.len() ==> votes@[j] <= votes@[r as int],
        forall|j: int| 0 <= j < r ==> votes@[j] < votes@[r as int],
{
    let mut best: usize = 0;
    let mut i: usize = 1;
    while i < votes.len()
        invariant
            1 <= i <= votes@.len(),
            best == first_max_index(votes@.take(i as int)),
        decreases votes@.len() - i,
    {
        proof {
            assert(votes@.take(i as int + 1).drop_last() =~= votes@.take(i as int));
            lemma_first_max_index(votes@.take(i as int));
        }
        if votes[i] > votes[best] {
            best = i;
        }
        i = i + 1;
    }
    assert(votes@.take(i as int) =~= votes@);
    proof {
        lemma_first_max_index(votes@);
    }
    best
}

/// When a proposal cannot be decided, and with which error.
pub open spec fn finalize_error(proposal: ValidatorProposal, global: GlobalGems) -> Option<InglError> {
    if proposal.date_finalized is Some {
        Some(InglError::InvalidAccountData)
    } else if global.pd_pool_total < MAXIMUM_DELEGATABLE_STAKE {
        Some(InglError::TooEarly)
    } else if !proposal.wf() {
        Some(InglError::InvalidAccountData)
    } else {
        None
    }
}

/// `i` is the first place of `k` in `s`.
pub open spec fn is_first_index(s: Seq<Key>, k: Key, i: int) -> bool {
    &&& 0 <= i < s.len()
    &&& s[i] == k
    &&& forall|j: int| 0 <= j < i ==> s[j] != k
}

/// Decides a proposal once the pooled total reaches the threshold: the winner
/// is the first candidate with the most votes; it leaves the candidate list,
/// and the ongoing flag is cleared.
pub fn finalize_proposal(proposal: &mut ValidatorProposal, global: &mut GlobalGems, now: u32) -> (r: Result<
    (),
    InglError,
>)
    ensures
        finalize_error(*old(proposal), *old(global)) matches Some(e) ==> r == Err::<(), InglError>(e),
        finalize_error(*old(proposal), *old(global)) is None ==> r is Ok,
        r is Err ==> *final(proposal) == *old(proposal) && *final(global) == *old(global),
        r is Ok ==> *final(proposal) == (ValidatorProposal {
            date_finalized: Some(now),
            winner: Some(old(proposal).validator_ids@[first_max_index(old(proposal).votes@)]),
            ..*old(proposal)
        }),
        r is Ok ==> same_but_candidates(
            *final(global),
            GlobalGems { is_proposal_ongoing: false, ..*old(global) },
        ),
        r is Ok ==> {
            let s = old(global).validator_list@;
            let w = old(proposal).validator_ids@[first_max_index(old(proposal).votes@)];
            &&& !s.contains(w) ==> final(global).validator_list@ == s
            &&& s.contains(w) ==> exists|i: int|
                is_first_index(s, w, i) && final(global).validator_list@ == s.remove(i)
        },
{
    if proposal.date_finalized.is_some() {
        return Err(InglError::InvalidAccountData);
    }
    if global.pd_pool_total < MAXIMUM_DELEGATABLE_STAKE {
        return Err(InglError::TooEarly);
    }
    if proposal.validator_ids.len() == 0 || proposal.votes.len() != proposal.validator_ids.len() {
        return Err(InglError::InvalidAccountData);
    }
    let w = winning_index(&proposal.votes);
    let winner = proposal.validator_ids[w];
    proposal.date_finalized = Some(now);
    proposal.winner = Some(winner);
    let mut i: usize = 0;
    let n = global.validator_list.len();
    while i < n
        invariant
            n == global.validator_list@.len(),
            i <= n,
            forall|j: int| 0 <= j < i ==> global.validator_list@[j] != winner,
        ensures
            i <= n,
            i < n ==> global.validator_list@[i as int] == winner,
            forall|j: int| 0 <= j < i ==> global.validator_list@[j] != winner,
        decreases n - i,
    {
        if global.validator_list[i] == winner {
            break;
        }
        i = i + 1;
    }
    if i < n {
        assert(is_first_index(global.validator_list@, winner, i as int));
        global.validator_list.remove(i);
    } else {
        assert(!global.validator_list@.contains(winner));
    }
    global.is_proposal_ongoing = false;
    Ok(())
}

/// When a decided proposal cannot be closed, and with which error.
pub open spec fn close_plan(global: GlobalGems, target: InglVoteAccountData) -> Result<(GlobalGems, ()), InglError> {
    if global.pd_pool_total < MAXIMUM_DELEGATABLE_STAKE {
        Err(InglError::TooEarly)
    } else if (target.total_delegated + target.dealloced) * 100 < MAXIMUM_DELEGATABLE_STAKE * 90 {
        Err(InglError::TooEarly)
    } else {
        Ok((GlobalGems { is_proposal_ongoing: false, ..global }, ()))
    }
}

/// Closes the current proposal once its bound target holds at least 90
/// percent of the threshold, so that a new proposal may open.
pub fn close_proposal(global: &mut GlobalGems, target: &InglVoteAccountData) -> (r: Result<(), InglError>)
    ensures
        commits1(close_plan(*old(global), *target), r, *old(global), *final(global)),
{
    if global.pd_pool_total < MAXIMUM_DELEGATABLE_STAKE {
        return Err(InglError::TooEarly);
    }
    let held: u128 = target.total_delegated as u128 + target.dealloced as u128;
    if held * 100 < (MAXIMUM_DELEGATABLE_STAKE as u128) * 90 {
        return Err(InglError::TooEarly);
    }
    global.is_proposal_ongoing = false;
    Ok(())
}

} // verus!
