pub mod cast_vote;
pub mod create_proposal;
