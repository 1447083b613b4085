//! Shared types, errors and timing constants of the governance engine.

use vstd::prelude::*;

verus! {

/// Identifier of a proposal: densely assigned starting at 0, never reused.
pub type ProposalId = u32;

/// Chain time, in the ledger's own time units: milliseconds, so that
/// [`ONE_MINUTE`] is 60 000 units.
pub type Timestamp = u64;

/// A token or native-value amount, as the ledger reports it.
pub type Balance = u128;

/// One minute of chain time.
pub const ONE_MINUTE: u64 = 60 * 1000;

/// Largest `duration` argument `propose` accepts. The argument counts
/// minutes and is scaled by [`ONE_MINUTE`] when the window is computed, so
/// the longest voting window is one hour of chain time.
pub const MAX_DURATION: u64 = 60;

/// An account on the hosting ledger, reduced to a plain numeric handle:
/// the engine only stores and hands back addresses, it never looks inside one.
#[derive(Clone, Copy, Debug, PartialEq, Eq, Hash, Structural)]
pub struct AccountId(pub u64);

/// The two sides a sampled balance can count for.
#[derive(Clone, Copy, Debug, PartialEq, Eq, Structural)]
pub enum VoteType {
    Against,
    For,
}

/// Every failure a governance operation can report.
///
/// `VotePeriodEnded` is a reserved taxonomy entry: no operation produces it.
#[derive(Clone, Copy, Debug, PartialEq, Eq, Structural)]
pub enum GovernorError {
    AmountShouldNotBeZero,
    DurationError,
    ProposalNotFound,
    ProposalAlreadyExecuted,
    VotePeriodEnded,
    VotePeriodNotEnded,
    TransferError,
    ProposalNotAccepted,
}

/// A stored funding proposal.
///
/// Invariants kept by the engine: `amount > 0`, `vote_end == vote_start +
/// duration * ONE_MINUTE` for the accepted `duration`, and `executed` flips
/// to `true` at most once and never back.
#[verifier::ext_equal]
#[derive(Debug, PartialEq, Eq)]
pub struct Proposal {
    /// Address whose token balance counts as the "for" weight.
    pub for_address: AccountId,
    /// Address whose token balance counts as the "against" weight.
    pub against_address: AccountId,
    /// Beneficiary of the one-time payment if the proposal is accepted.
    pub to: AccountId,
    pub title: String,
    pub description: String,
    /// Value to transfer on acceptance; always positive.
    pub amount: Balance,
    pub vote_start: Timestamp,
    pub vote_end: Timestamp,
    /// Whether the payment has been released; set only after a transfer succeeded.
    pub executed: bool,
}

/// A derived, never-persisted vote snapshot: the truncated balances of the
/// two designated addresses at read time.
#[derive(Clone, Copy, Debug, PartialEq, Eq, Structural)]
pub struct ProposalVote {
    pub against_votes: u8,
    pub for_votes: u8,
}

/// The one payment a passed finalization asks the ledger to perform.
#[derive(Clone, Copy, Debug, PartialEq, Eq, Structural)]
pub struct PendingTransfer {
    pub to: AccountId,
    pub amount: Balance,
}

} // verus!
