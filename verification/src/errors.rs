//! Error conditions reported by the governance state machine.

use vstd::prelude::*;

verus! {

/// Every way a governance operation can be refused.
#[derive(Clone, Copy, Debug, PartialEq, Eq, Structural)]
pub enum GovError {
    /// `initialize` was called on a contract that already has an admin.
    AlreadyInitialized,
    /// An operation that needs an initialized contract ran before `initialize`.
    NotInitialized,
    /// The caller is neither the proposer nor the admin.
    Unauthorized,
    /// The operation is reserved to the admin.
    AdminOnly,
    /// A voting period of zero seconds was given.
    InvalidDuration,
    /// A basis-point value above 10 000, a negative supply snapshot,
    /// or a non-positive disputed amount was given.
    InvalidParameter,
    /// The proposer or voter holds too few governance tokens.
    InsufficientVotingPower,
    /// The payload does not match the proposal type.
    InvalidProposalType,
    /// No proposal carries the given id.
    ProposalNotFound,
    /// The proposal is not in the `Active` status.
    ProposalNotActive,
    /// The voting window of the proposal has not opened yet.
    VotingNotStarted,
    /// The voting window is closed (or, for finalization, still open).
    VotingClosed,
    /// The voter already voted on this proposal.
    AlreadyVoted,
    /// Only a `Queued` proposal can be executed.
    ProposalNotPassed,
    /// The timelock of the proposal has not elapsed.
    TimelockNotElapsed,
    /// The proposal was already executed.
    ProposalAlreadyExecuted,
    /// The proposal was already cancelled.
    ProposalAlreadyCancelled,
    /// A stake must be a positive amount of tokens.
    InsufficientStake,
    /// The caller has no stake to withdraw.
    NoStakeToWithdraw,
    /// The withdrawal cooldown was just started or has not elapsed.
    StakeCooldownActive,
    /// The address to slash holds no stake.
    NotArbitrator,
    /// The slash would take more than the stake.
    SlashExceedsStake,
    /// No jury pool carries the given id.
    JuryPoolNotFound,
    /// The jury pool already has a resolution.
    JuryPoolAlreadyResolved,
    /// The jury pool has no resolution yet.
    JuryPoolNotResolved,
    /// The jury voting window has not opened yet.
    JuryVotingNotStarted,
    /// The jury voting window is closed (or, for resolution, still open).
    JuryVotingClosed,
    /// The juror already voted in this pool.
    JuryAlreadyVoted,
    /// The juror's locked stake is below the configured minimum.
    JuryInsufficientLockedTokens,
    /// Too few locked tokens took part in the jury vote.
    JuryQuorumNotReached,
}

} // verus!
