use voting_program::cast_vote;
use voting_program::create_proposal;
use voting_program::errors::VotingError;
use voting_program::states::Proposal;
use voting_program::states::Pubkey;

fn key(tag: u8) -> Pubkey {
    Pubkey { bytes: [tag; 32] }
}

fn ids(names: &[&str]) -> Vec<String> {
    names.iter().map(|s| s.to_string()).collect()
}

fn proposal_abc(open_from: i64, finished_from: i64, now: i64) -> Proposal {
    create_proposal(
        "Board election".to_string(),
        "Choose the next board".to_string(),
        ids(&["A", "B", "C"]),
        open_from,
        finished_from,
        now,
        key(1),
        7,
    )
    .unwrap()
}

fn tallies(p: &Proposal) -> Vec<u64> {
    p.candidates.iter().map(|c| c.vote_count).collect()
}

#[test]
fn create_proposal_populates_record() {
    let p = proposal_abc(100, 200, 50);
    assert_eq!(p.title, "Board election");
    assert_eq!(p.description, "Choose the next board");
    assert_eq!(p.candidates.len(), 3);
    let slate: Vec<String> = p.candidates.iter().map(|c| c.id.clone()).collect();
    assert_eq!(slate, ids(&["A", "B", "C"]));
    assert_eq!(tallies(&p), vec![0, 0, 0]);
    assert_eq!(p.proposal_open_from, 100);
    assert_eq!(p.proposal_finished_from, 200);
    assert_eq!(p.proposer, key(1));
    assert_eq!(p.bump, 7);
}

#[test]
fn create_proposal_title_too_long() {
    let title = "x".repeat(101);
    let r = create_proposal(title, String::new(), ids(&["A", "B"]), 100, 200, 50, key(1), 0);
    assert_eq!(r.unwrap_err(), VotingError::TitleTooLong);
}

#[test]
fn create_proposal_title_bound_counts_bytes() {
    // 51 two-byte characters: 51 chars but 102 bytes, over the 100-byte bound.
    let title = "é".repeat(51);
    assert_eq!(title.chars().count(), 51);
    let r = create_proposal(title, String::new(), ids(&["A", "B"]), 100, 200, 50, key(1), 0);
    assert_eq!(r.unwrap_err(), VotingError::TitleTooLong);
}

#[test]
fn create_proposal_title_at_bound_accepted() {
    let title = "x".repeat(100);
    let r = create_proposal(title, String::new(), ids(&["A", "B"]), 100, 200, 50, key(1), 0);
    assert!(r.is_ok());
}

#[test]
fn create_proposal_description_too_long() {
    let description = "y".repeat(601);
    let r = create_proposal("t".to_string(), description, ids(&["A", "B"]), 100, 200, 50, key(1), 0);
    assert_eq!(r.unwrap_err(), VotingError::DescriptionTooLong);
}

#[test]
fn create_proposal_not_enough_candidates() {
    let r = create_proposal("t".to_string(), String::new(), ids(&["A"]), 100, 200, 50, key(1), 0);
    assert_eq!(r.unwrap_err(), VotingError::NotEnoughCandidates);
}

#[test]
fn create_proposal_too_many_candidates() {
    let names: Vec<String> = (0..13).map(|i| format!("c{}", i)).collect();
    let r = create_proposal("t".to_string(), String::new(), names, 100, 200, 50, key(1), 0);
    assert_eq!(r.unwrap_err(), VotingError::TooManyCandidates);
}

#[test]
fn create_proposal_slate_size_bounds_accepted() {
    let two = create_proposal("t".to_string(), String::new(), ids(&["A", "B"]), 100, 200, 50, key(1), 0);
    assert_eq!(two.unwrap().candidates.len(), 2);
    let names: Vec<String> = (0..12).map(|i| format!("c{}", i)).collect();
    let twelve = create_proposal("t".to_string(), String::new(), names, 100, 200, 50, key(1), 0);
    assert_eq!(twelve.unwrap().candidates.len(), 12);
}

#[test]
fn create_proposal_candidate_id_too_long() {
    let long_id = "z".repeat(51);
    let r = create_proposal(
        "t".to_string(),
        String::new(),
        vec!["A".to_string(), long_id],
        100,
        200,
        50,
        key(1),
        0,
    );
    assert_eq!(r.unwrap_err(), VotingError::CandidateIdTooLong);
}

#[test]
fn create_proposal_duplicate_candidates() {
    let r = create_proposal("t".to_string(), String::new(), ids(&["A", "B", "A"]), 100, 200, 50, key(1), 0);
    assert_eq!(r.unwrap_err(), VotingError::DuplicateCandidates);
}

#[test]
fn create_proposal_open_not_before_finish() {
    let r = create_proposal("t".to_string(), String::new(), ids(&["A", "B"]), 200, 200, 50, key(1), 0);
    assert_eq!(r.unwrap_err(), VotingError::InvalidProposalTime);
    let r = create_proposal("t".to_string(), String::new(), ids(&["A", "B"]), 300, 200, 50, key(1), 0);
    assert_eq!(r.unwrap_err(), VotingError::InvalidProposalTime);
}

#[test]
fn create_proposal_window_in_the_past() {
    let r = create_proposal("t".to_string(), String::new(), ids(&["A", "B"]), 100, 200, 150, key(1), 0);
    assert_eq!(r.unwrap_err(), VotingError::InvalidProposalTime);
    let r = create_proposal("t".to_string(), String::new(), ids(&["A", "B"]), 100, 200, 250, key(1), 0);
    assert_eq!(r.unwrap_err(), VotingError::InvalidProposalTime);
}

#[test]
fn approval_scenario_tallies_add_up() {
    let t0: i64 = 1_000;
    let mut p = proposal_abc(t0, t0 + 100, t0 - 10);

    let v1 = cast_vote(&mut p, ids(&["A", "C"]), t0 + 1, key(2), key(9), 3).unwrap();
    assert_eq!(tallies(&p), vec![1, 0, 1]);
    assert_eq!(v1.voter, key(2));
    assert_eq!(v1.proposal, key(9));
    assert_eq!(v1.bump, 3);
    let receipt: Vec<String> = v1.candidates.iter().map(|c| c.id.clone()).collect();
    assert_eq!(receipt, ids(&["A", "C"]));
    assert!(v1.candidates.iter().all(|c| c.vote_count == 0));

    let v2 = cast_vote(&mut p, ids(&["B"]), t0 + 50, key(3), key(9), 4).unwrap();
    assert_eq!(tallies(&p), vec![1, 1, 1]);
    assert_eq!(v2.voter, key(3));

    let late = cast_vote(&mut p, ids(&["A"]), t0 + 101, key(4), key(9), 5);
    assert_eq!(late.unwrap_err(), VotingError::ProposalClosed);
    assert_eq!(tallies(&p), vec![1, 1, 1]);
}

#[test]
fn cast_vote_empty_ballot_rejected() {
    let mut p = proposal_abc(100, 200, 50);
    let r = cast_vote(&mut p, vec![], 150, key(2), key(9), 0);
    assert_eq!(r.unwrap_err(), VotingError::NotEnoughCandidateVotes);
    assert_eq!(tallies(&p), vec![0, 0, 0]);
}

#[test]
fn cast_vote_before_opening_rejected() {
    let mut p = proposal_abc(100, 200, 50);
    let r = cast_vote(&mut p, ids(&["A"]), 99, key(2), key(9), 0);
    assert_eq!(r.unwrap_err(), VotingError::ProposalClosed);
    assert_eq!(tallies(&p), vec![0, 0, 0]);
}

#[test]
fn cast_vote_window_boundaries_accepted() {
    let mut p = proposal_abc(100, 200, 50);
    assert!(cast_vote(&mut p, ids(&["A"]), 100, key(2), key(9), 0).is_ok());
    assert!(cast_vote(&mut p, ids(&["B"]), 200, key(3), key(9), 0).is_ok());
    assert_eq!(tallies(&p), vec![1, 1, 0]);
}

#[test]
fn cast_vote_too_many_approvals_rejected() {
    let mut p = proposal_abc(100, 200, 50);
    let r = cast_vote(&mut p, ids(&["A", "B", "C", "D"]), 150, key(2), key(9), 0);
    assert_eq!(r.unwrap_err(), VotingError::TooManyCandidateVotes);
    assert_eq!(tallies(&p), vec![0, 0, 0]);
}

#[test]
fn cast_vote_duplicate_ballot_rejected_without_tally_change() {
    let mut p = proposal_abc(100, 200, 50);
    let r = cast_vote(&mut p, ids(&["A", "A"]), 150, key(2), key(9), 0);
    assert_eq!(r.unwrap_err(), VotingError::DuplicateCandidates);
    assert_eq!(tallies(&p), vec![0, 0, 0]);
}

#[test]
fn cast_vote_unknown_id_rejected_whole() {
    let mut p = proposal_abc(100, 200, 50);
    let r = cast_vote(&mut p, ids(&["A", "Z"]), 150, key(2), key(9), 0);
    assert_eq!(r.unwrap_err(), VotingError::InvalidCandidateId);
    assert_eq!(tallies(&p), vec![0, 0, 0]);
}

#[test]
fn cast_vote_receipt_keeps_ballot_order() {
    let mut p = proposal_abc(100, 200, 50);
    let v = cast_vote(&mut p, ids(&["C", "A"]), 150, key(2), key(9), 0).unwrap();
    let receipt: Vec<String> = v.candidates.iter().map(|c| c.id.clone()).collect();
    assert_eq!(receipt, ids(&["C", "A"]));
}

#[test]
fn rejected_ballot_then_corrected_replay_matches_fresh_attempt() {
    let mut tried = proposal_abc(100, 200, 50);
    let rejected = cast_vote(&mut tried, ids(&["A", "Z"]), 150, key(2), key(9), 0);
    assert!(rejected.is_err());
    let after_rejection = cast_vote(&mut tried, ids(&["A", "B"]), 150, key(2), key(9), 0).unwrap();

    let mut fresh = proposal_abc(100, 200, 50);
    let first_attempt = cast_vote(&mut fresh, ids(&["A", "B"]), 150, key(2), key(9), 0).unwrap();

    assert_eq!(tallies(&tried), tallies(&fresh));
    let a: Vec<String> = after_rejection.candidates.iter().map(|c| c.id.clone()).collect();
    let b: Vec<String> = first_attempt.candidates.iter().map(|c| c.id.clone()).collect();
    assert_eq!(a, b);
    assert_eq!(after_rejection.voter, first_attempt.voter);
}

#[test]
fn rejected_creation_then_corrected_replay_succeeds() {
    let bad = create_proposal("t".to_string(), String::new(), ids(&["A", "A"]), 100, 200, 50, key(1), 0);
    assert_eq!(bad.unwrap_err(), VotingError::DuplicateCandidates);
    let good = create_proposal("t".to_string(), String::new(), ids(&["A", "B"]), 100, 200, 50, key(1), 0);
    assert!(good.is_ok());
}
