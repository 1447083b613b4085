//! Submission validation, id assignment, and the weight conversion.

use voting_contract::contract::VotingContract;
use voting_contract::tally::weight_of_balance;
use voting_contract::types::{
    AccountId, GovernorError, VoteType, MAX_DURATION, ONE_MINUTE,
};

fn fresh() -> VotingContract {
    VotingContract::new(AccountId(1000))
}

fn submit(
    c: &mut VotingContract,
    amount: u128,
    duration: u64,
    now: u64,
) -> Result<(), GovernorError> {
    c.propose(
        AccountId(1),
        AccountId(2),
        AccountId(3),
        String::from("title"),
        String::from("description"),
        amount,
        duration,
        now,
    )
}

#[test]
fn new_contract_is_empty() {
    let c = fresh();
    assert_eq!(c.get_proposals_size(), 0);
    assert!(c.get_proposal(0).is_none());
    assert!(c.get_proposal_vote(0, 5, 5).is_none());
}

#[test]
fn zero_amount_is_rejected_and_no_id_is_consumed() {
    let mut c = fresh();
    assert_eq!(submit(&mut c, 0, 10, 0), Err(GovernorError::AmountShouldNotBeZero));
    assert_eq!(c.get_proposals_size(), 0);
    assert!(c.get_proposal(0).is_none());
}

#[test]
fn zero_amount_is_reported_before_a_bad_duration() {
    let mut c = fresh();
    assert_eq!(submit(&mut c, 0, 0, 0), Err(GovernorError::AmountShouldNotBeZero));
    assert_eq!(c.get_proposals_size(), 0);
}

#[test]
fn zero_duration_is_rejected() {
    let mut c = fresh();
    assert_eq!(submit(&mut c, 100, 0, 0), Err(GovernorError::DurationError));
    assert_eq!(c.get_proposals_size(), 0);
}

#[test]
fn overlong_duration_is_rejected() {
    let mut c = fresh();
    assert_eq!(submit(&mut c, 100, MAX_DURATION + 1, 0), Err(GovernorError::DurationError));
    // The bound is on the minute count: one minute over the hour is refused.
    assert_eq!(submit(&mut c, 100, 61, 0), Err(GovernorError::DurationError));
    assert_eq!(submit(&mut c, 100, u64::MAX, 0), Err(GovernorError::DurationError));
    assert_eq!(c.get_proposals_size(), 0);
}

#[test]
fn a_failing_submission_is_accepted_even_at_the_end_of_time() {
    let mut c = fresh();
    // Validation fails before anything is allocated or computed, so the
    // machine limits of the storing path do not bar these calls.
    assert_eq!(submit(&mut c, 0, 1, u64::MAX), Err(GovernorError::AmountShouldNotBeZero));
    assert_eq!(submit(&mut c, 100, 0, u64::MAX), Err(GovernorError::DurationError));
    assert_eq!(c.get_proposals_size(), 0);
}

#[test]
fn longest_allowed_duration_is_accepted() {
    let mut c = fresh();
    assert_eq!(submit(&mut c, 100, MAX_DURATION, 0), Ok(()));
    let p = c.get_proposal(0).unwrap();
    assert_eq!(p.vote_end, MAX_DURATION * ONE_MINUTE);
}

#[test]
fn successful_submissions_get_sequential_ids() {
    let mut c = fresh();
    for expected in 0..3u32 {
        assert_eq!(c.get_proposals_size(), expected);
        let r = c.propose(
            AccountId(1),
            AccountId(2),
            AccountId(3),
            format!("title {}", expected),
            String::from("d"),
            100 + expected as u128,
            10,
            expected as u64,
        );
        assert_eq!(r, Ok(()));
        assert_eq!(c.get_proposals_size(), expected + 1);
    }
    for id in 0..3u32 {
        let p = c.get_proposal(id).unwrap();
        assert_eq!(p.title, format!("title {}", id));
        assert_eq!(p.amount, 100 + id as u128);
        assert_eq!(p.vote_start, id as u64);
        assert!(!p.executed);
    }
    assert!(c.get_proposal(3).is_none());
}

#[test]
fn a_failed_submission_does_not_break_the_id_sequence() {
    let mut c = fresh();
    assert_eq!(submit(&mut c, 100, 10, 0), Ok(()));
    assert_eq!(submit(&mut c, 0, 10, 0), Err(GovernorError::AmountShouldNotBeZero));
    assert_eq!(submit(&mut c, 200, 10, 0), Ok(()));
    assert_eq!(c.get_proposals_size(), 2);
    assert_eq!(c.get_proposal(1).unwrap().amount, 200);
}

#[test]
fn weight_keeps_only_the_low_eight_bits() {
    assert_eq!(weight_of_balance(0), 0);
    assert_eq!(weight_of_balance(1), 1);
    assert_eq!(weight_of_balance(255), 255);
    assert_eq!(weight_of_balance(256), 0);
    assert_eq!(weight_of_balance(300), 44);
    assert_eq!(weight_of_balance(u128::MAX), 255);
}

#[test]
fn vote_type_has_two_distinct_sides() {
    assert_ne!(VoteType::For, VoteType::Against);
    assert_eq!(VoteType::For, VoteType::For);
}
