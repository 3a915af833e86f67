use vstd::prelude::*;

verus! {

/// Every way a proposal creation or a ballot can be refused. Each variant
/// names the single precondition it reports; validation stops at the first
/// violated one.
#[derive(Clone, Copy, PartialEq, Eq, Structural, Debug)]
pub enum VotingError {
    /// The proposal title exceeds its byte bound.
    TitleTooLong,
    /// The proposal description exceeds its byte bound.
    DescriptionTooLong,
    /// The candidate slate is larger than the ledger accepts.
    TooManyCandidates,
    /// The candidate slate is smaller than the ledger accepts.
    NotEnoughCandidates,
    /// A candidate id exceeds its byte bound.
    CandidateIdTooLong,
    /// The open/finish timestamps do not form a window ahead of the clock.
    InvalidProposalTime,
    /// The ballot approves no candidate at all.
    NotEnoughCandidateVotes,
    /// The ballot approves more candidates than the slate holds.
    TooManyCandidateVotes,
    /// The same candidate id appears twice in the slate or the ballot.
    DuplicateCandidates,
    /// A ballot entry names no candidate of the proposal.
    InvalidCandidateId,
    /// The clock is outside the proposal's voting window.
    ProposalClosed,
}

} // verus!
