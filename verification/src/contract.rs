//! The governance contract: the stored state and its public operations.
//!
//! The hosting ledger owns the clock, the token-balance oracle and the value
//! transfer. Each operation here takes the readings it needs as plain
//! arguments — the current time, the two sampled balances, the reported
//! outcome of the one requested transfer — and its contract ties the result
//! and the new state to the transition functions of [`crate::state`]. The
//! host's loop is: read the environment, call [`VotingContract::prepare_execution`]
//! to learn whether a transfer is owed, perform it, and hand the outcome to
//! [`VotingContract::execute`].

use vstd::prelude::*;

use crate::state::{
    spec_execute, spec_execute_check, spec_mark_executed, spec_peek_tally, spec_submit,
    spec_submit_error, GovState,
};
use crate::tally::weight_of_balance;
use crate::types::{
    AccountId, Balance, GovernorError, PendingTransfer, Proposal, ProposalId, ProposalVote,
    Timestamp, MAX_DURATION, ONE_MINUTE,
};

verus! {

/// The persisted contract state: both tables in id order, the next-id
/// counter, and the address of the governance token whose balances the
/// oracle reports.
pub struct VotingContract {
    pub proposal_votes: Vec<ProposalVote>,
    pub proposals: Vec<Proposal>,
    pub next_proposal_id: u32,
    pub governance_token: AccountId,
}

impl View for VotingContract {
    type V = GovState;

    open spec fn view(&self) -> GovState {
        GovState {
            proposals: self.proposals@,
            votes: self.proposal_votes@,
            next_id: self.next_proposal_id,
            token: self.governance_token,
        }
    }
}

impl VotingContract {
    /// Well-formedness of the stored state; established by [`VotingContract::new`]
    /// and preserved by every operation.
    pub open spec fn wf(self) -> bool {
        self@.wf()
    }

    /// A fresh contract: both tables empty, the counter at zero, the oracle
    /// address stored.
    pub fn new(token_address: AccountId) -> (s: Self)
        ensures
            s.wf(),
            s@.proposals == Seq::<Proposal>::empty(),
            s@.votes == Seq::<ProposalVote>::empty(),
            s@.next_id == 0u32,
            s@.token == token_address,
    {
        VotingContract {
            proposal_votes: Vec::new(),
            proposals: Vec::new(),
            next_proposal_id: 0,
            governance_token: token_address,
        }
    }

    /// Allocates the next proposal id: strictly increasing by one per call,
    /// never reused.
    fn next_proposal_id(&mut self) -> (id: ProposalId)
        requires
            old(self)@.next_id < u32::MAX,
        ensures
            id == old(self)@.next_id,
            final(self)@ == (GovState { next_id: (old(self)@.next_id + 1) as u32, ..old(self)@ }),
    {
        let id = self.next_proposal_id;
        self.next_proposal_id = self.next_proposal_id + 1;
        id
    }

    /// Registers a funding proposal.
    ///
    /// A zero `amount` is rejected with `AmountShouldNotBeZero`; a zero
    /// `duration`, or one over [`crate::types::MAX_DURATION`], with
    /// `DurationError`; in that order, with nothing stored. Otherwise the
    /// record is stored under the next id together with an empty vote record:
    /// its window runs from `now` for `duration` minutes, its payment is not
    /// yet released, and no value moves. The id is not returned; callers
    /// discover it through [`VotingContract::get_proposals_size`].
    ///
    /// `now` is the host's clock reading for this call. The conditional
    /// requires is a machine limit on the storing path alone: when the
    /// submission validates, the id space and the timestamp range must not
    /// have run out; a failing submission is accepted from any state.
    pub fn propose(
        &mut self,
        for_address: AccountId,
        against_address: AccountId,
        to: AccountId,
        title: String,
        description: String,
        amount: Balance,
        duration: u64,
        now: Timestamp,
    ) -> (r: Result<(), GovernorError>)
        requires
            old(self).wf(),
            spec_submit_error(amount, duration) is None ==> old(self)@.next_id < u32::MAX
                && now + duration * ONE_MINUTE <= u64::MAX,
        ensures
            final(self).wf(),
            ({
                let (s2, r2) = spec_submit(
                    old(self)@,
                    for_address,
                    against_address,
                    to,
                    title,
                    description,
                    amount,
                    duration,
                    now,
                );
                final(self)@ == s2 && r == r2
            }),
    {
        if amount == 0 {
            return Err(GovernorError::AmountShouldNotBeZero);
        }
        if duration == 0 || duration > MAX_DURATION {
            return Err(GovernorError::DurationError);
        }

        let proposal = Proposal {
            for_address,
            against_address,
            to,
            title,
            description,
            amount,
            vote_start: now,
            vote_end: now + duration * ONE_MINUTE,
            executed: false,
        };

        // The freshly allocated id is exactly the push index, so both
        // records land under it.
        let id = self.next_proposal_id();
        proof {
            assert(id as int == self.proposals@.len());
        }
        self.proposals.push(proposal);
        self.proposal_votes.push(ProposalVote { against_votes: 0, for_votes: 0 });

        Ok(())
    }

    /// The decision half of finalization: runs every gate — lookup, the
    /// once-only execution check, the timing gate against `now`, the tally
    /// of the two sampled balances — without touching the state, and returns
    /// the exact transfer (the proposal's `amount` to its `to` address) the
    /// host must now attempt, or the error [`VotingContract::execute`] will
    /// report for the same readings.
    pub fn prepare_execution(
        &self,
        proposal_id: ProposalId,
        now: Timestamp,
        for_balance: Balance,
        against_balance: Balance,
    ) -> (r: Result<PendingTransfer, GovernorError>)
        requires
            self.wf(),
        ensures
            r == spec_execute_check(self@, proposal_id, now, for_balance, against_balance),
    {
        if !((proposal_id as usize) < self.proposals.len()) {
            return Err(GovernorError::ProposalNotFound);
        }
        let p = &self.proposals[proposal_id as usize];
        if p.executed {
            return Err(GovernorError::ProposalAlreadyExecuted);
        }
        if now < p.vote_end {
            return Err(GovernorError::VotePeriodNotEnded);
        }
        let for_votes = weight_of_balance(for_balance);
        let against_votes = weight_of_balance(against_balance);
        if against_votes >= for_votes {
            return Err(GovernorError::ProposalNotAccepted);
        }
        Ok(PendingTransfer { to: p.to, amount: p.amount })
    }

    /// Finalizes a proposal, given the host's clock reading, the two oracle
    /// balances, and the outcome of the transfer the host attempted for the
    /// request [`VotingContract::prepare_execution`] returned on the same
    /// readings.
    ///
    /// Every gate failure — unknown id, already executed, window still open,
    /// tally not strictly in favour — and a failed transfer leave the whole
    /// state unchanged, so the call can be retried later against fresh
    /// balances. Only when every gate passes and the transfer succeeded is
    /// the proposal marked executed; nothing else changes, and the vote
    /// record written at submission is never overwritten.
    pub fn execute(
        &mut self,
        proposal_id: ProposalId,
        now: Timestamp,
        for_balance: Balance,
        against_balance: Balance,
        transfer_succeeded: bool,
    ) -> (r: Result<(), GovernorError>)
        requires
            old(self).wf(),
        ensures
            final(self).wf(),
            ({
                let (s2, r2) = spec_execute(
                    old(self)@,
                    proposal_id,
                    now,
                    for_balance,
                    against_balance,
                    transfer_succeeded,
                );
                final(self)@ == s2 && r == r2
            }),
    {
        if !((proposal_id as usize) < self.proposals.len()) {
            return Err(GovernorError::ProposalNotFound);
        }
        let idx = proposal_id as usize;
        if self.proposals[idx].executed {
            return Err(GovernorError::ProposalAlreadyExecuted);
        }
        if now < self.proposals[idx].vote_end {
            return Err(GovernorError::VotePeriodNotEnded);
        }
        let for_votes = weight_of_balance(for_balance);
        let against_votes = weight_of_balance(against_balance);
        if against_votes >= for_votes {
            return Err(GovernorError::ProposalNotAccepted);
        }
        if !transfer_succeeded {
            return Err(GovernorError::TransferError);
        }

        let mut p = self.proposals.remove(idx);
        p.executed = true;
        self.proposals.insert(idx, p);
        proof {
            assert(self.proposals@ =~= old(self).proposals@.update(
                proposal_id as int,
                spec_mark_executed(old(self).proposals@[proposal_id as int]),
            ));
            assert(self@ =~= spec_execute(
                old(self)@,
                proposal_id,
                now,
                for_balance,
                against_balance,
                transfer_succeeded,
            ).0);
        }
        Ok(())
    }

    /// A fresh tally for `proposal_id` from the two sampled balances, or
    /// `None` for an unallocated id. Read-only: it neither checks timing or
    /// execution state nor touches any stored record — the stored vote
    /// record only backs the lookup, both of its fields are recomputed.
    pub fn get_proposal_vote(
        &self,
        proposal_id: ProposalId,
        for_balance: Balance,
        against_balance: Balance,
    ) -> (r: Option<ProposalVote>)
        requires
            self.wf(),
        ensures
            r == spec_peek_tally(self@, proposal_id, for_balance, against_balance),
    {
        if (proposal_id as usize) < self.proposals.len() {
            let for_votes = weight_of_balance(for_balance);
            let against_votes = weight_of_balance(against_balance);
            Some(ProposalVote { against_votes, for_votes })
        } else {
            None
        }
    }

    /// The stored record under `proposal_id`, or `None` for an unallocated id.
    pub fn get_proposal(&self, proposal_id: u32) -> (r: Option<Proposal>)
        ensures
            match r {
                Some(p) => self@.has_proposal(proposal_id) && p == self@.proposals[
                    proposal_id as int
                ],
                None => !self@.has_proposal(proposal_id),
            },
    {
        if (proposal_id as usize) < self.proposals.len() {
            let p = &self.proposals[proposal_id as usize];
            let record = Proposal {
                for_address: p.for_address,
                against_address: p.against_address,
                to: p.to,
                title: p.title.clone(),
                description: p.description.clone(),
                amount: p.amount,
                vote_start: p.vote_start,
                vote_end: p.vote_end,
                executed: p.executed,
            };
            proof {
                assert(record =~= self@.proposals[proposal_id as int]);
            }
            Some(record)
        } else {
            None
        }
    }

    /// How many ids have been allocated so far — one past the newest id,
    /// whether or not the newest records were ever accepted.
    pub fn get_proposals_size(&self) -> (n: ProposalId)
        ensures
            n == self@.next_id,
    {
        self.next_proposal_id
    }
}

} // verus!
