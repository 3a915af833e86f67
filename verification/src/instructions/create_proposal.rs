use vstd::prelude::*;

use crate::errors::VotingError;
use crate::states::{
    all_distinct, all_ids_within_length, byte_len, candidate_stubs, has_duplicate, id_views,
    ids_of, ids_within_length, str_byte_len, Proposal, Pubkey, MAX_NUMBER_OF_CANDIDATES,
    MIN_NUMBER_OF_CANDIDATES, PROPOSAL_MAX_DESCRIPTION_LENGTH, PROPOSAL_MAX_TITLE_LENGTH,
};

verus! {

/// The first validation failure a creation request runs into, or `None`
/// when the request is acceptable. Checks run in a fixed order: title
/// bound, description bound, slate size, id byte bound, id uniqueness,
/// and last the time window, which must be a nonempty interval that has
/// not begun in the past.
pub open spec fn create_proposal_validation(
    title: Seq<char>,
    description: Seq<char>,
    candidate_ids: Seq<Seq<char>>,
    proposal_open_from: int,
    proposal_finished_from: int,
    now: int,
) -> Option<VotingError> {
    if byte_len(title) > PROPOSAL_MAX_TITLE_LENGTH {
        Some(VotingError::TitleTooLong)
    } else if byte_len(description) > PROPOSAL_MAX_DESCRIPTION_LENGTH {
        Some(VotingError::DescriptionTooLong)
    } else if candidate_ids.len() < MIN_NUMBER_OF_CANDIDATES {
        Some(VotingError::NotEnoughCandidates)
    } else if candidate_ids.len() > MAX_NUMBER_OF_CANDIDATES {
        Some(VotingError::TooManyCandidates)
    } else if !ids_within_length(candidate_ids) {
        Some(VotingError::CandidateIdTooLong)
    } else if !all_distinct(candidate_ids) {
        Some(VotingError::DuplicateCandidates)
    } else if proposal_open_from >= proposal_finished_from || proposal_open_from < now
        || proposal_finished_from < now {
        Some(VotingError::InvalidProposalTime)
    } else {
        None
    }
}

/// Validates a creation request and, when it passes, returns the fully
/// populated proposal record for the host to persist: the given title,
/// description and window, one zero-tally candidate per id in input
/// order, and the proposer stamped in. On failure it returns the first
/// violated precondition and nothing else; the function reads no prior
/// state, so a rejected call has no effect anywhere.
pub fn create_proposal(
    title: String,
    description: String,
    candidate_ids: Vec<String>,
    proposal_open_from: i64,
    proposal_finished_from: i64,
    now: i64,
    proposer: Pubkey,
    bump: u8,
) -> (result: Result<Proposal, VotingError>)
    ensures
        match result {
            Ok(p) => {
                &&& create_proposal_validation(
                    title@,
                    description@,
                    id_views(candidate_ids@),
                    proposal_open_from as int,
                    proposal_finished_from as int,
                    now as int,
                ) is None
                &&& p.title@ == title@
                &&& p.description@ == description@
                &&& ids_of(p.candidates@) == id_views(candidate_ids@)
                &&& forall|i: int|
                    0 <= i < p.candidates@.len() ==> (#[trigger] p.candidates@[i]).vote_count == 0
                &&& p.proposal_open_from == proposal_open_from
                &&& p.proposal_finished_from == proposal_finished_from
                &&& p.proposer == proposer
                &&& p.bump == bump
                &&& p.wf()
            },
            Err(e) => Some(e) == create_proposal_validation(
                title@,
                description@,
                id_views(candidate_ids@),
                proposal_open_from as int,
                proposal_finished_from as int,
                now as int,
            ),
        },
{
    if str_byte_len(&title) > PROPOSAL_MAX_TITLE_LENGTH {
        return Err(VotingError::TitleTooLong);
    }
    if str_byte_len(&description) > PROPOSAL_MAX_DESCRIPTION_LENGTH {
        return Err(VotingError::DescriptionTooLong);
    }
    if candidate_ids.len() < MIN_NUMBER_OF_CANDIDATES {
        return Err(VotingError::NotEnoughCandidates);
    }
    if candidate_ids.len() > MAX_NUMBER_OF_CANDIDATES {
        return Err(VotingError::TooManyCandidates);
    }
    if !all_ids_within_length(&candidate_ids) {
        return Err(VotingError::CandidateIdTooLong);
    }
    if has_duplicate(&candidate_ids) {
        return Err(VotingError::DuplicateCandidates);
    }
    if proposal_open_from >= proposal_finished_from || proposal_open_from < now
        || proposal_finished_from < now {
        return Err(VotingError::InvalidProposalTime);
    }
    let candidates = candidate_stubs(&candidate_ids);
    let proposal = Proposal {
        title,
        description,
        candidates,
        proposal_open_from,
        proposal_finished_from,
        proposer,
        bump,
    };
    proof {
        assert(ids_of(proposal.candidates@) =~= id_views(candidate_ids@));
    }
    Ok(proposal)
}

} // verus!
