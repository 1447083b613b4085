//! Laws of the governance lifecycle, proved once over the transition
//! functions of [`crate::state`] that the operations' own contracts are
//! stated with.

use vstd::prelude::*;

use crate::state::{
    spec_execute, spec_execute_check, spec_new_proposal, spec_submit, spec_submit_error, GovState,
};
use crate::tally::spec_weight;
use crate::types::{
    AccountId, Balance, GovernorError, PendingTransfer, Proposal, Timestamp, ONE_MINUTE,
};

verus! {

/// Law: ids are assigned densely with no gaps or reuse. Two submissions in a
/// row that both pass validation both succeed; their records land under the
/// consecutive ids `s.next_id` and `s.next_id + 1`, the counter advances by
/// one per call, and no earlier record — including the first call's — is
/// touched by the second.
pub proof fn lemma_submission_ids_sequential(
    s: GovState,
    for_address1: AccountId,
    against_address1: AccountId,
    to1: AccountId,
    title1: String,
    description1: String,
    amount1: Balance,
    duration1: u64,
    now1: Timestamp,
    for_address2: AccountId,
    against_address2: AccountId,
    to2: AccountId,
    title2: String,
    description2: String,
    amount2: Balance,
    duration2: u64,
    now2: Timestamp,
)
    requires
        s.wf(),
        s.next_id + 2 <= u32::MAX,
        spec_submit_error(amount1, duration1) is None,
        spec_submit_error(amount2, duration2) is None,
    ensures
        ({
            let (s1, r1) = spec_submit(
                s,
                for_address1,
                against_address1,
                to1,
                title1,
                description1,
                amount1,
                duration1,
                now1,
            );
            let (s2, r2) = spec_submit(
                s1,
                for_address2,
                against_address2,
                to2,
                title2,
                description2,
                amount2,
                duration2,
                now2,
            );
            &&& r1 == Ok::<(), GovernorError>(())
            &&& r2 == Ok::<(), GovernorError>(())
            &&& s1.wf() && s2.wf()
            &&& s1.next_id == s.next_id + 1
            &&& s2.next_id == s.next_id + 2
            &&& s1.proposals[s.next_id as int] == spec_new_proposal(
                for_address1,
                against_address1,
                to1,
                title1,
                description1,
                amount1,
                duration1,
                now1,
            )
            &&& s2.proposals[s.next_id + 1] == spec_new_proposal(
                for_address2,
                against_address2,
                to2,
                title2,
                description2,
                amount2,
                duration2,
                now2,
            )
            &&& s2.proposals[s.next_id as int] == s1.proposals[s.next_id as int]
            &&& forall|i: int|
                0 <= i < s.proposals.len() ==> s2.proposals[i] == s.proposals[i]
        }),
{
}

/// Law: a failed operation changes nothing. Whatever error a submission or a
/// finalization reports — and a finalization whose transfer failed reports
/// `TransferError` — the state it leaves behind is exactly the state it
/// found, so no id is consumed and no proposal is marked executed.
pub proof fn lemma_failure_changes_nothing(
    s: GovState,
    for_address: AccountId,
    against_address: AccountId,
    to: AccountId,
    title: String,
    description: String,
    amount: Balance,
    duration: u64,
    now: Timestamp,
    proposal_id: u32,
    for_balance: Balance,
    against_balance: Balance,
    transfer_succeeded: bool,
)
    ensures
        ({
            let (s1, r1) = spec_submit(
                s,
                for_address,
                against_address,
                to,
                title,
                description,
                amount,
                duration,
                now,
            );
            r1 is Err ==> s1 == s
        }),
        ({
            let (s2, r2) = spec_execute(
                s,
                proposal_id,
                now,
                for_balance,
                against_balance,
                transfer_succeeded,
            );
            r2 is Err ==> s2 == s
        }),
{
}

/// Law: once a proposal is executed it stays executed — every later
/// finalization attempt, whatever the clock, the balances or the transfer
/// outcome, fails with `ProposalAlreadyExecuted` and changes nothing.
pub proof fn lemma_executed_is_final(
    s: GovState,
    proposal_id: u32,
    now: Timestamp,
    for_balance: Balance,
    against_balance: Balance,
    transfer_succeeded: bool,
)
    requires
        s.has_proposal(proposal_id),
        s.proposals[proposal_id as int].executed,
    ensures
        spec_execute(s, proposal_id, now, for_balance, against_balance, transfer_succeeded)
            == (s, Err::<(), GovernorError>(GovernorError::ProposalAlreadyExecuted)),
{
}

/// Law: a rejected finalization is re-evaluated, not short-circuited. After
/// an attempt fails with `ProposalNotAccepted` the state is unchanged, and a
/// later attempt on the same proposal is judged afresh: with the window still
/// closed and weights now strictly in favour, it asks for exactly the
/// proposal's payment.
pub proof fn lemma_rejection_permits_retry(
    s: GovState,
    proposal_id: u32,
    now1: Timestamp,
    for_balance1: Balance,
    against_balance1: Balance,
    now2: Timestamp,
    for_balance2: Balance,
    against_balance2: Balance,
    transfer_succeeded1: bool,
)
    requires
        spec_execute_check(s, proposal_id, now1, for_balance1, against_balance1)
            == Err::<PendingTransfer, GovernorError>(GovernorError::ProposalNotAccepted),
        now2 >= s.proposals[proposal_id as int].vote_end,
        spec_weight(for_balance2) > spec_weight(against_balance2),
    ensures
        spec_execute(s, proposal_id, now1, for_balance1, against_balance1, transfer_succeeded1).0
            == s,
        spec_execute_check(s, proposal_id, now2, for_balance2, against_balance2)
            == Ok::<PendingTransfer, GovernorError>(
            PendingTransfer {
                to: s.proposals[proposal_id as int].to,
                amount: s.proposals[proposal_id as int].amount,
            },
        ),
{
}

/// Law: the transfer and the `executed` flag are all-or-nothing. When every
/// gate passes, the requested transfer is exactly the proposal's `amount` to
/// its `to` address; a successful transfer marks precisely that proposal
/// executed and changes nothing else, while a failed one reports
/// `TransferError` and leaves the state exactly as it was.
pub proof fn lemma_transfer_is_atomic(
    s: GovState,
    proposal_id: u32,
    now: Timestamp,
    for_balance: Balance,
    against_balance: Balance,
)
    requires
        s.wf(),
        spec_execute_check(s, proposal_id, now, for_balance, against_balance) is Ok,
    ensures
        spec_execute_check(s, proposal_id, now, for_balance, against_balance)
            == Ok::<PendingTransfer, GovernorError>(
            PendingTransfer {
                to: s.proposals[proposal_id as int].to,
                amount: s.proposals[proposal_id as int].amount,
            },
        ),
        ({
            let (s_ok, r_ok) = spec_execute(s, proposal_id, now, for_balance, against_balance, true);
            &&& r_ok == Ok::<(), GovernorError>(())
            &&& s_ok.proposals[proposal_id as int].executed
            &&& s_ok.proposals[proposal_id as int]
                == (Proposal { executed: true, ..s.proposals[proposal_id as int] })
            &&& forall|i: int|
                0 <= i < s.proposals.len() && i != proposal_id as int ==> s_ok.proposals[i]
                    == s.proposals[i]
            &&& s_ok.votes == s.votes
            &&& s_ok.next_id == s.next_id
            &&& s_ok.token == s.token
        }),
        spec_execute(s, proposal_id, now, for_balance, against_balance, false)
            == (s, Err::<(), GovernorError>(GovernorError::TransferError)),
{
}

/// Law: a proposal becomes executed only through a finalization whose
/// transfer succeeded. If a not-yet-executed proposal is executed after some
/// attempt, that attempt passed every gate, was handed a successful transfer
/// outcome, and returned success.
pub proof fn lemma_executed_only_after_transfer(
    s: GovState,
    proposal_id: u32,
    now: Timestamp,
    for_balance: Balance,
    against_balance: Balance,
    transfer_succeeded: bool,
)
    requires
        s.has_proposal(proposal_id),
        !s.proposals[proposal_id as int].executed,
        spec_execute(s, proposal_id, now, for_balance, against_balance, transfer_succeeded)
            .0.proposals[proposal_id as int].executed,
    ensures
        transfer_succeeded,
        spec_execute_check(s, proposal_id, now, for_balance, against_balance) is Ok,
        spec_execute(s, proposal_id, now, for_balance, against_balance, transfer_succeeded).1
            == Ok::<(), GovernorError>(()),
{
}

/// Law: the voting window a submission stores is exactly `duration` minutes
/// of chain time starting at the submission's clock reading.
pub proof fn lemma_vote_window(
    for_address: AccountId,
    against_address: AccountId,
    to: AccountId,
    title: String,
    description: String,
    amount: Balance,
    duration: u64,
    now: Timestamp,
)
    requires
        now + duration * ONE_MINUTE <= u64::MAX,
    ensures
        ({
            let p = spec_new_proposal(
                for_address,
                against_address,
                to,
                title,
                description,
                amount,
                duration,
                now,
            );
            &&& p.vote_start == now
            &&& p.vote_end == now + duration * ONE_MINUTE
            &&& !p.executed
            &&& p.amount == amount
            &&& p.to == to
        }),
{
}

} // verus!
