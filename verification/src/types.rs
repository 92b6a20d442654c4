//! Data of the governance contract: configuration, proposals, jury pools.

use vstd::prelude::*;

verus! {

/// An account or contract on the ledger, identified by a number.
pub type Address = u64;

/// Parameters of the proposal life cycle.
#[derive(Clone, Copy, Debug, PartialEq, Eq, Structural)]
pub struct GovConfig {
    /// Governance token whose balance is voting power.
    pub token: Address,
    /// Minimum balance needed to create a proposal.
    pub proposal_threshold: i128,
    /// Seconds the vote stays open.
    pub voting_period: u64,
    /// Seconds between creation and the opening of the vote.
    pub voting_delay: u64,
    /// Seconds between the end of the vote and execution.
    pub timelock_delay: u64,
    /// Quorum, in basis points of the supply snapshot.
    pub quorum_bps: u32,
    /// Share of FOR votes needed, in basis points of all votes cast.
    pub approval_threshold_bps: u32,
}

/// The kind of action a proposal asks for.
#[derive(Clone, Copy, Debug, PartialEq, Eq, Structural)]
pub enum ProposalType {
    ParameterChange,
    ContractUpgrade,
    FundAllocation,
    TextProposal,
}

/// A named protocol parameter and its proposed value.
#[derive(Debug)]
pub struct ParameterPayload {
    pub key: String,
    pub value: i128,
}

/// The code hash a contract upgrade should install.
#[derive(Clone, Copy, Debug, PartialEq, Eq)]
pub struct UpgradePayload {
    pub wasm_hash: [u8; 32],
}

/// A treasury payment: `amount` of `token` sent to `recipient`.
#[derive(Clone, Copy, Debug, PartialEq, Eq, Structural)]
pub struct FundPayload {
    pub recipient: Address,
    pub token: Address,
    pub amount: i128,
}

/// Execution data of a proposal; its variant must match the proposal type.
#[derive(Debug)]
pub enum ProposalPayload {
    Parameter(ParameterPayload),
    Upgrade(UpgradePayload),
    Fund(FundPayload),
    Text,
}

/// Where a proposal stands in its life cycle.
#[derive(Clone, Copy, Debug, PartialEq, Eq, Structural)]
pub enum ProposalStatus {
    Active,
    Passed,
    Queued,
    Defeated,
    Executed,
    Cancelled,
}

/// A governance proposal and its tally.
#[derive(Debug)]
pub struct Proposal {
    pub id: u64,
    pub proposal_type: ProposalType,
    pub proposer: Address,
    pub title: String,
    pub description: String,
    pub payload: ProposalPayload,
    pub status: ProposalStatus,
    pub vote_start: u64,
    pub vote_end: u64,
    pub executable_at: u64,
    pub votes_for: i128,
    pub votes_against: i128,
    pub total_supply_snapshot: i128,
    pub created_at: u64,
    pub executed_at: Option<u64>,
}

impl Clone for ParameterPayload {
    fn clone(&self) -> (r: Self)
        ensures
            r == *self,
    {
        ParameterPayload { key: self.key.clone(), value: self.value }
    }
}

impl Clone for ProposalPayload {
    fn clone(&self) -> (r: Self)
        ensures
            r == *self,
    {
        match self {
            ProposalPayload::Parameter(p) => ProposalPayload::Parameter(p.clone()),
            ProposalPayload::Upgrade(u) => ProposalPayload::Upgrade(*u),
            ProposalPayload::Fund(f) => ProposalPayload::Fund(*f),
            ProposalPayload::Text => ProposalPayload::Text,
        }
    }
}

impl Clone for Proposal {
    fn clone(&self) -> (r: Self)
        ensures
            r == *self,
    {
        Proposal {
            id: self.id,
            proposal_type: self.proposal_type,
            proposer: self.proposer,
            title: self.title.clone(),
            description: self.description.clone(),
            payload: self.payload.clone(),
            status: self.status,
            vote_start: self.vote_start,
            vote_end: self.vote_end,
            executable_at: self.executable_at,
            votes_for: self.votes_for,
            votes_against: self.votes_against,
            total_supply_snapshot: self.total_supply_snapshot,
            created_at: self.created_at,
            executed_at: self.executed_at,
        }
    }
}

/// Parameters of jury voting on disputed milestones.
#[derive(Clone, Copy, Debug, PartialEq, Eq, Structural)]
pub struct JuryPoolConfig {
    /// Seconds a jury pool stays open for votes.
    pub voting_period: u64,
    /// Minimum locked stake a juror needs.
    pub min_locked_tokens: i128,
    /// Quorum, in basis points of the disputed amount.
    pub quorum_bps: u32,
}

/// Outcome of a jury pool.
#[derive(Clone, Copy, Debug, PartialEq, Eq, Structural)]
pub enum JuryResolution {
    Pending,
    ClientWins,
    FreelancerWins,
}

/// A jury vote on one disputed milestone.
#[derive(Clone, Copy, Debug, PartialEq, Eq, Structural)]
pub struct JuryPool {
    pub pool_id: u64,
    pub milestone_id: u64,
    pub escrow_id: u64,
    pub client: Address,
    pub freelancer: Address,
    pub disputed_amount: i128,
    pub token: Address,
    pub voting_start: u64,
    pub voting_end: u64,
    pub weight_for_client: i128,
    pub weight_for_freelancer: i128,
    pub total_locked_tokens: i128,
    pub resolution: JuryResolution,
    pub resolved_at: Option<u64>,
    pub created_at: u64,
}

/// A token movement that an operation asks its host to carry out.
#[derive(Clone, Copy, Debug, PartialEq, Eq, Structural)]
pub enum TokenTransfer {
    /// `from` pays `amount` of `token` into the governance contract.
    Deposit { token: Address, from: Address, amount: i128 },
    /// The governance contract pays `amount` of `token` to `to`.
    Payout { token: Address, to: Address, amount: i128 },
}

} // verus!
