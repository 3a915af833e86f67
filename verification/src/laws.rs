use vstd::prelude::*;

use crate::errors::VotingError;
use crate::instructions::cast_vote::cast_vote_validation;
use crate::instructions::create_proposal::create_proposal_validation;
use crate::states::{
    all_distinct, byte_len, contains_id, ids_of, ids_within_length, Proposal,
    MAX_NUMBER_OF_CANDIDATES, MIN_NUMBER_OF_CANDIDATES, PROPOSAL_MAX_DESCRIPTION_LENGTH,
    PROPOSAL_MAX_TITLE_LENGTH,
};

verus! {

/// Every well-formed proposal carries at least two and at most twelve
/// candidates, and their ids are pairwise distinct. Creation only hands
/// out well-formed proposals, and casting a ballot preserves
/// well-formedness, so this holds of every proposal the ledger ever
/// exposes.
pub proof fn lemma_wf_slate_bounds(p: Proposal)
    requires
        p.wf(),
    ensures
        MIN_NUMBER_OF_CANDIDATES <= p.candidates@.len() <= MAX_NUMBER_OF_CANDIDATES,
        all_distinct(ids_of(p.candidates@)),
{
}

/// A creation request whose opening does not lie strictly before its
/// close is rejected for every clock value; and whenever every check
/// ahead of the time check passes, the reported error is exactly
/// `InvalidProposalTime`.
pub proof fn lemma_open_not_before_finish_rejected(
    title: Seq<char>,
    description: Seq<char>,
    candidate_ids: Seq<Seq<char>>,
    proposal_open_from: int,
    proposal_finished_from: int,
    now: int,
)
    requires
        proposal_open_from >= proposal_finished_from,
    ensures
        create_proposal_validation(
            title,
            description,
            candidate_ids,
            proposal_open_from,
            proposal_finished_from,
            now,
        ) is Some,
        (byte_len(title) <= PROPOSAL_MAX_TITLE_LENGTH && byte_len(description)
            <= PROPOSAL_MAX_DESCRIPTION_LENGTH && MIN_NUMBER_OF_CANDIDATES <= candidate_ids.len()
            <= MAX_NUMBER_OF_CANDIDATES && ids_within_length(candidate_ids) && all_distinct(
            candidate_ids,
        )) ==> create_proposal_validation(
            title,
            description,
            candidate_ids,
            proposal_open_from,
            proposal_finished_from,
            now,
        ) == Some(VotingError::InvalidProposalTime),
{
}

/// An empty ballot is rejected against every proposal and every clock
/// value; and whenever the proposal accepts votes at `now`, the reported
/// error is exactly `NotEnoughCandidateVotes`. (Against a proposal whose
/// window excludes `now`, the liveness check answers first, with
/// `ProposalClosed`.)
pub proof fn lemma_empty_ballot_rejected(p: Proposal, now: int)
    ensures
        cast_vote_validation(p, Seq::empty(), now) is Some,
        p.accepts_votes_at(now) ==> cast_vote_validation(p, Seq::empty(), now) == Some(
            VotingError::NotEnoughCandidateVotes,
        ),
{
}

/// A ballot that names even one id outside the proposal's slate is
/// rejected whole, with `InvalidCandidateId`: validation never reaches
/// the tally update, and `cast_vote` guarantees the proposal is then
/// left untouched.
pub proof fn lemma_unknown_id_rejected(p: Proposal, ballot: Seq<Seq<char>>, now: int, k: int)
    requires
        p.accepts_votes_at(now),
        0 < ballot.len() <= p.candidates@.len(),
        all_distinct(ballot),
        0 <= k < ballot.len(),
        !contains_id(ids_of(p.candidates@), ballot[k]),
    ensures
        cast_vote_validation(p, ballot, now) == Some(VotingError::InvalidCandidateId),
{
}

/// A ballot that repeats an id is rejected with `DuplicateCandidates`
/// before any candidate lookup, and so before any tally could move.
pub proof fn lemma_duplicate_ballot_rejected(p: Proposal, ballot: Seq<Seq<char>>, now: int)
    requires
        p.accepts_votes_at(now),
        0 < ballot.len() <= p.candidates@.len(),
        !all_distinct(ballot),
    ensures
        cast_vote_validation(p, ballot, now) == Some(VotingError::DuplicateCandidates),
{
}

} // verus!
