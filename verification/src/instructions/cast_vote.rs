use vstd::prelude::*;

use crate::errors::VotingError;
use crate::states::{
    all_distinct, candidate_stubs, contains_id, has_duplicate, id_views, ids_of, Candidate,
    Proposal, Pubkey, Vote,
};

verus! {

/// The first validation failure a ballot runs into, or `None` when the
/// ballot is acceptable. Checks run in a fixed order: the clock must fall
/// inside the voting window, the ballot must approve at least one and at
/// most slate-many candidates, its ids must be pairwise distinct, and
/// every id must name a candidate of the proposal.
pub open spec fn cast_vote_validation(
    proposal: Proposal,
    candidate_ids: Seq<Seq<char>>,
    now: int,
) -> Option<VotingError> {
    if !proposal.accepts_votes_at(now) {
        Some(VotingError::ProposalClosed)
    } else if candidate_ids.len() == 0 {
        Some(VotingError::NotEnoughCandidateVotes)
    } else if candidate_ids.len() > proposal.candidates@.len() {
        Some(VotingError::TooManyCandidateVotes)
    } else if !all_distinct(candidate_ids) {
        Some(VotingError::DuplicateCandidates)
    } else if !ballot_on_slate(proposal.candidates@, candidate_ids) {
        Some(VotingError::InvalidCandidateId)
    } else {
        None
    }
}

/// Whether every id of the ballot names some candidate of the slate.
pub open spec fn ballot_on_slate(cs: Seq<Candidate>, ballot: Seq<Seq<char>>) -> bool {
    forall|k: int| 0 <= k < ballot.len() ==> contains_id(ids_of(cs), #[trigger] ballot[k])
}

/// How an accepted ballot moves the tallies: every candidate keeps its
/// id, an approved candidate's tally grows by exactly one, and any other
/// tally is untouched.
pub open spec fn tallies_bumped(
    old_cs: Seq<Candidate>,
    new_cs: Seq<Candidate>,
    ballot: Seq<Seq<char>>,
) -> bool {
    &&& new_cs.len() == old_cs.len()
    &&& forall|j: int| 0 <= j < old_cs.len() ==> (#[trigger] new_cs[j]).id@ == old_cs[j].id@
    &&& forall|j: int|
        0 <= j < old_cs.len() ==> (#[trigger] new_cs[j]).vote_count == old_cs[j].vote_count + (
        if contains_id(ballot, old_cs[j].id@) {
            1int
        } else {
            0int
        })
}

/// Index of the candidate whose id equals `id`, if the slate has one.
fn find_candidate(cands: &Vec<Candidate>, id: &String) -> (found: Option<usize>)
    ensures
        match found {
            Some(k) => k < cands@.len() && cands@[k as int].id@ == id@,
            None => !contains_id(ids_of(cands@), id@),
        },
{
    let mut k: usize = 0;
    while k < cands.len()
        invariant
            k <= cands@.len(),
            forall|m: int| 0 <= m < k ==> cands@[m].id@ != id@,
        decreases cands@.len() - k,
    {
        if cands[k].id == *id {
            return Some(k);
        }
        k += 1;
    }
    proof {
        assert forall|m: int| 0 <= m < ids_of(cands@).len() implies ids_of(cands@)[m] != id@ by {
            assert(ids_of(cands@)[m] == cands@[m].id@);
        }
    }
    None
}

/// Growing a ballot by one id extends what it contains by that id alone.
proof fn lemma_contains_id_push(ids: Seq<Seq<char>>, x: Seq<char>, y: Seq<char>)
    ensures
        contains_id(ids.push(y), x) <==> contains_id(ids, x) || x == y,
{
    if contains_id(ids, x) {
        let k = choose|k: int| 0 <= k < ids.len() && ids[k] == x;
        assert(ids.push(y)[k] == x);
    }
    if x == y {
        assert(ids.push(y)[ids.len() as int] == x);
    }
    if contains_id(ids.push(y), x) {
        let k = choose|k: int| 0 <= k < ids.push(y).len() && ids.push(y)[k] == x;
        if k < ids.len() {
            assert(ids[k] == x);
        }
    }
}

/// Validates a ballot against the live proposal and, when it passes,
/// bumps the tally of every approved candidate by one in a single commit
/// and returns the immutable receipt for the host to persist: the
/// proposal's key, the voter, and one zero-tally stub per approved id in
/// ballot order. On any failure the proposal is left exactly as it was —
/// a rejected ballot never moves a tally, so replaying with corrected
/// input behaves as a first attempt. Whether this voter has already cast
/// a ballot is the host storage's insert-once check, not repeated here.
pub fn cast_vote(
    proposal: &mut Proposal,
    candidate_ids: Vec<String>,
    now: i64,
    voter: Pubkey,
    proposal_key: Pubkey,
    bump: u8,
) -> (result: Result<Vote, VotingError>)
    requires
        old(proposal).wf(),
        forall|j: int|
            0 <= j < old(proposal).candidates@.len() ==> (#[trigger] old(
                proposal,
            ).candidates@[j]).vote_count < u64::MAX,
    ensures
        match result {
            Ok(v) => {
                &&& cast_vote_validation(*old(proposal), id_views(candidate_ids@), now as int)
                    is None
                &&& tallies_bumped(
                    old(proposal).candidates@,
                    final(proposal).candidates@,
                    id_views(candidate_ids@),
                )
                &&& final(proposal).title@ == old(proposal).title@
                &&& final(proposal).description@ == old(proposal).description@
                &&& final(proposal).proposal_open_from == old(proposal).proposal_open_from
                &&& final(proposal).proposal_finished_from == old(
                    proposal,
                ).proposal_finished_from
                &&& final(proposal).proposer == old(proposal).proposer
                &&& final(proposal).bump == old(proposal).bump
                &&& final(proposal).wf()
                &&& v.proposal == proposal_key
                &&& v.voter == voter
                &&& v.bump == bump
                &&& ids_of(v.candidates@) == id_views(candidate_ids@)
                &&& forall|i: int|
                    0 <= i < v.candidates@.len() ==> (#[trigger] v.candidates@[i]).vote_count == 0
            },
            Err(e) => {
                &&& Some(e) == cast_vote_validation(
                    *old(proposal),
                    id_views(candidate_ids@),
                    now as int,
                )
                &&& *final(proposal) == *old(proposal)
            },
        },
{
    let ghost ballot = id_views(candidate_ids@);
    if now < proposal.proposal_open_from || proposal.proposal_finished_from < now {
        return Err(VotingError::ProposalClosed);
    }
    if candidate_ids.len() == 0 {
        return Err(VotingError::NotEnoughCandidateVotes);
    }
    if candidate_ids.len() > proposal.candidates.len() {
        return Err(VotingError::TooManyCandidateVotes);
    }
    if has_duplicate(&candidate_ids) {
        return Err(VotingError::DuplicateCandidates);
    }
    // All-or-nothing: locate every approved candidate before any tally moves.
    let mut idxs: Vec<usize> = Vec::new();
    let mut i: usize = 0;
    while i < candidate_ids.len()
        invariant
            *proposal == *old(proposal),
            ballot == id_views(candidate_ids@),
            cast_vote_validation(*proposal, ballot, now as int) is None || cast_vote_validation(
                *proposal,
                ballot,
                now as int,
            ) == Some(VotingError::InvalidCandidateId),
            i <= candidate_ids@.len(),
            idxs@.len() == i,
            forall|t: int|
                0 <= t < i ==> (#[trigger] idxs@[t]) < proposal.candidates@.len()
                    && proposal.candidates@[idxs@[t] as int].id@ == id_views(candidate_ids@)[t],
        decreases candidate_ids@.len() - i,
    {
        match find_candidate(&proposal.candidates, &candidate_ids[i]) {
            Some(k) => {
                proof {
                    assert(id_views(candidate_ids@)[i as int] == candidate_ids@[i as int]@);
                }
                idxs.push(k);
            },
            None => {
                proof {
                    assert(ballot[i as int] == candidate_ids@[i as int]@);
                    assert(!contains_id(ids_of(proposal.candidates@), ballot[i as int]));
                    assert(!ballot_on_slate(proposal.candidates@, ballot));
                }
                return Err(VotingError::InvalidCandidateId);
            },
        }
        i += 1;
    }
    proof {
        assert forall|k: int| 0 <= k < ballot.len() implies contains_id(
            ids_of(proposal.candidates@),
            #[trigger] ballot[k],
        ) by {
            assert(ids_of(proposal.candidates@)[idxs@[k] as int]
                == proposal.candidates@[idxs@[k] as int].id@);
        }
        assert(cast_vote_validation(*old(proposal), ballot, now as int) is None);
    }
    // One commit: every located candidate gains exactly one approval.
    let ghost orig = proposal.candidates@;
    let n = idxs.len();
    let mut i: usize = 0;
    while i < n
        invariant
            n == idxs@.len(),
            idxs@.len() == candidate_ids@.len(),
            i <= n,
            ballot == id_views(candidate_ids@),
            ballot.len() == n,
            all_distinct(ballot),
            all_distinct(ids_of(orig)),
            orig == old(proposal).candidates@,
            forall|j: int| 0 <= j < orig.len() ==> (#[trigger] orig[j]).vote_count < u64::MAX,
            forall|t: int|
                0 <= t < n ==> (#[trigger] idxs@[t]) < orig.len() && orig[idxs@[t] as int].id@
                    == ballot[t],
            proposal.candidates@.len() == orig.len(),
            forall|j: int|
                0 <= j < orig.len() ==> (#[trigger] proposal.candidates@[j]).id@ == orig[j].id@,
            forall|j: int|
                0 <= j < orig.len() ==> (#[trigger] proposal.candidates@[j]).vote_count
                    == orig[j].vote_count + (
                if contains_id(ballot.take(i as int), orig[j].id@) {
                    1int
                } else {
                    0int
                }),
            proposal.title@ == old(proposal).title@,
            proposal.description@ == old(proposal).description@,
            proposal.proposal_open_from == old(proposal).proposal_open_from,
            proposal.proposal_finished_from == old(proposal).proposal_finished_from,
            proposal.proposer == old(proposal).proposer,
            proposal.bump == old(proposal).bump,
        decreases n - i,
    {
        let k = idxs[i];
        let ghost pre = proposal.candidates@;
        proof {
            // The approved id has not been counted yet, so the tally at k
            // still reads its original value and the increment fits.
            let ghost counted = orig[k as int].id@;
            if contains_id(ballot.take(i as int), counted) {
                let t = choose|t: int|
                    0 <= t < ballot.take(i as int).len() && ballot.take(i as int)[t] == counted;
                assert(ballot[t] == ballot[i as int]);
                assert(false);
            }
        }
        proposal.candidates[k].vote_count = proposal.candidates[k].vote_count + 1;
        proof {
            assert(ballot.take(i + 1 as int) =~= ballot.take(i as int).push(ballot[i as int]));
            assert forall|j: int| 0 <= j < orig.len() implies (#[trigger] proposal.candidates@[j]).vote_count
                == orig[j].vote_count + (
            if contains_id(ballot.take(i + 1 as int), orig[j].id@) {
                1int
            } else {
                0int
            }) by {
                lemma_contains_id_push(ballot.take(i as int), orig[j].id@, ballot[i as int]);
                if j != k as int {
                    // A distinct slate means no other candidate carries the id
                    // counted in this step.
                    assert(ids_of(orig)[j] == orig[j].id@);
                    assert(ids_of(orig)[k as int] == orig[k as int].id@);
                    assert(proposal.candidates@[j] == pre[j]);
                }
            }
        }
        i += 1;
    }
    proof {
        assert(ballot.take(n as int) =~= ballot);
        assert(ids_of(proposal.candidates@) =~= ids_of(old(proposal).candidates@));
    }
    let receipt = candidate_stubs(&candidate_ids);
    proof {
        assert(ids_of(receipt@) =~= id_views(candidate_ids@));
    }
    Ok(Vote { proposal: proposal_key, voter, candidates: receipt, bump })
}

} // verus!
