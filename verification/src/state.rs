//! The mathematical model of the stored governance state and the exact
//! transition each operation performs on it.
//!
//! The executable contract in [`crate::contract`] promises that each call's
//! result and new state equal what these functions compute, so every rule of
//! the lifecycle — validation order, timing gate, tally comparison, and the
//! all-or-nothing coupling of transfer and `executed` flag — is written down
//! once, here.

use vstd::prelude::*;

use crate::tally::spec_weight;
use crate::types::{
    AccountId, Balance, GovernorError, PendingTransfer, Proposal, ProposalId, ProposalVote,
    Timestamp, MAX_DURATION, ONE_MINUTE,
};

verus! {

/// Model of everything the contract persists: the proposal records and their
/// vote records in id order, the next-id counter, and the oracle's address.
#[verifier::ext_equal]
pub struct GovState {
    pub proposals: Seq<Proposal>,
    pub votes: Seq<ProposalVote>,
    pub next_id: ProposalId,
    pub token: AccountId,
}

impl GovState {
    /// Well-formedness: ids are dense, so both tables hold exactly the
    /// records of ids `0 .. next_id`.
    pub open spec fn wf(self) -> bool {
        &&& self.proposals.len() == self.next_id
        &&& self.votes.len() == self.next_id
    }

    /// Whether `proposal_id` has been allocated.
    pub open spec fn has_proposal(self, proposal_id: ProposalId) -> bool {
        (proposal_id as int) < self.proposals.len()
    }
}

/// The validation a submission must pass, in the order it is checked:
/// a zero amount is reported before a bad duration.
pub open spec fn spec_submit_error(amount: Balance, duration: u64) -> Option<GovernorError> {
    if amount == 0 {
        Some(GovernorError::AmountShouldNotBeZero)
    } else if duration == 0 || duration > MAX_DURATION {
        Some(GovernorError::DurationError)
    } else {
        None
    }
}

/// The record a valid submission stores: the voting window opens at `now`
/// and runs for `duration` minutes of chain time; `executed` starts false.
pub open spec fn spec_new_proposal(
    for_address: AccountId,
    against_address: AccountId,
    to: AccountId,
    title: String,
    description: String,
    amount: Balance,
    duration: u64,
    now: Timestamp,
) -> Proposal {
    Proposal {
        for_address,
        against_address,
        to,
        title,
        description,
        amount,
        vote_start: now,
        vote_end: (now + duration * ONE_MINUTE) as u64,
        executed: false,
    }
}

/// An empty vote record, stored alongside each new proposal so that later
/// tally reads always find one.
pub open spec fn spec_empty_vote() -> ProposalVote {
    ProposalVote { against_votes: 0, for_votes: 0 }
}

/// The full effect of a submission: either a validation error and the state
/// unchanged, or the new proposal and an empty vote record appended under the
/// freshly allocated id, with the counter advanced by one.
pub open spec fn spec_submit(
    s: GovState,
    for_address: AccountId,
    against_address: AccountId,
    to: AccountId,
    title: String,
    description: String,
    amount: Balance,
    duration: u64,
    now: Timestamp,
) -> (GovState, Result<(), GovernorError>) {
    match spec_submit_error(amount, duration) {
        Some(e) => (s, Err(e)),
        None => (
            GovState {
                proposals: s.proposals.push(
                    spec_new_proposal(
                        for_address,
                        against_address,
                        to,
                        title,
                        description,
                        amount,
                        duration,
                        now,
                    ),
                ),
                votes: s.votes.push(spec_empty_vote()),
                next_id: (s.next_id + 1) as u32,
                ..s
            },
            Ok(()),
        ),
    }
}

/// The gates a finalization passes, in order, and the transfer it asks for
/// when all of them hold: lookup, the once-only execution check, the timing
/// gate, then the tally — acceptance needs the "for" weight to strictly
/// exceed the "against" weight, so a tie rejects.
pub open spec fn spec_execute_check(
    s: GovState,
    proposal_id: ProposalId,
    now: Timestamp,
    for_balance: Balance,
    against_balance: Balance,
) -> Result<PendingTransfer, GovernorError> {
    if !s.has_proposal(proposal_id) {
        Err(GovernorError::ProposalNotFound)
    } else {
        let p = s.proposals[proposal_id as int];
        if p.executed {
            Err(GovernorError::ProposalAlreadyExecuted)
        } else if now < p.vote_end {
            Err(GovernorError::VotePeriodNotEnded)
        } else if spec_weight(against_balance) >= spec_weight(for_balance) {
            Err(GovernorError::ProposalNotAccepted)
        } else {
            Ok(PendingTransfer { to: p.to, amount: p.amount })
        }
    }
}

/// `p` with its payment released.
pub open spec fn spec_mark_executed(p: Proposal) -> Proposal {
    Proposal { executed: true, ..p }
}

/// The full effect of a finalization, given the outcome of the one transfer
/// the ledger was asked to perform when every gate passed: on a failed gate
/// or a failed transfer the state is unchanged; only a successful transfer
/// marks the proposal executed.
pub open spec fn spec_execute(
    s: GovState,
    proposal_id: ProposalId,
    now: Timestamp,
    for_balance: Balance,
    against_balance: Balance,
    transfer_succeeded: bool,
) -> (GovState, Result<(), GovernorError>) {
    match spec_execute_check(s, proposal_id, now, for_balance, against_balance) {
        Err(e) => (s, Err(e)),
        Ok(_) => if transfer_succeeded {
            (
                GovState {
                    proposals: s.proposals.update(
                        proposal_id as int,
                        spec_mark_executed(s.proposals[proposal_id as int]),
                    ),
                    ..s
                },
                Ok(()),
            )
        } else {
            (s, Err(GovernorError::TransferError))
        },
    }
}

/// What a tally read returns: nothing for an unallocated id, otherwise a
/// fresh snapshot of the two truncated balances — never the stored record,
/// and never a state change.
pub open spec fn spec_peek_tally(
    s: GovState,
    proposal_id: ProposalId,
    for_balance: Balance,
    against_balance: Balance,
) -> Option<ProposalVote> {
    if !s.has_proposal(proposal_id) {
        None
    } else {
        Some(
            ProposalVote {
                against_votes: spec_weight(against_balance),
                for_votes: spec_weight(for_balance),
            },
        )
    }
}

} // verus!
