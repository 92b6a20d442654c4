//! The governance contract: proposals voted on by token holders, an
//! arbitrator stake registry, and jury pools for disputed milestones.
//!
//! The contract's host supplies what lies outside the contract's own state:
//! the current ledger time (`now`), token balances used as voting power,
//! and the authentication of callers. Token movements an operation decides
//! on are returned as [`TokenTransfer`] values for the host to carry out.

use std::collections::HashMap;
use std::collections::HashSet;
use vstd::prelude::*;
use vstd::std_specs::iter::IteratorSpec;
use crate::errors::GovError;
use crate::model::{
    cancel_proposal_spec, cast_jury_vote_spec, cast_vote_spec, create_jury_pool_spec,
    create_proposal_spec, distribute_jury_funds_spec, evaluation_overflows, execute_proposal_spec,
    finalize_proposal_spec, has_voted_in, initialize_jury_config_spec, initialize_spec,
    jury_config_or_default, payload_matches, pool_wf, proposal_passes,
    proposal_wf, resolve_jury_pool_spec, slash_arbitrator_spec, stake_arbitrator_spec, stake_of,
    update_config_spec, withdraw_stake_spec, GovView,
    DEFAULT_JURY_QUORUM_BPS, DEFAULT_JURY_VOTING_PERIOD, DEFAULT_MIN_LOCKED_TOKENS, MAX_BPS,
    MIN_STAKE, SLASH_PERCENT, WITHDRAW_COOLDOWN,
};
use crate::types::{
    Address, GovConfig, JuryPool, JuryPoolConfig, JuryResolution, Proposal, ProposalPayload,
    ProposalStatus, ProposalType, TokenTransfer,
};

verus! {

broadcast use vstd::std_specs::hash::group_hash_axioms;

/// The product of two non-negative numbers is non-negative.
pub proof fn lemma_nonneg_product(a: int, b: int)
    ensures
        a >= 0 && b >= 0 ==> a * b >= 0,
{
    if a >= 0 && b >= 0 {
        assert(a * b >= 0) by (nonlinear_arith)
            requires
                a >= 0,
                b >= 0,
        ;
    }
}

/// Whether a proposal reached quorum and the approval threshold:
/// `votes_for + votes_against >= total_supply_snapshot * quorum_bps / 10_000`
/// and `votes_for >= (votes_for + votes_against) * approval_threshold_bps / 10_000`.
pub fn evaluate(proposal: &Proposal, config: &GovConfig) -> (passes: bool)
    requires
        !evaluation_overflows(*proposal, *config),
    ensures
        passes == proposal_passes(*proposal, *config),
        proposal.votes_for >= 0 && proposal.votes_against >= 0 && proposal.total_supply_snapshot
            >= 0 ==> passes == (proposal.votes_for + proposal.votes_against
            >= proposal.total_supply_snapshot * config.quorum_bps / 10_000 && proposal.votes_for
            >= (proposal.votes_for + proposal.votes_against) * config.approval_threshold_bps
            / 10_000),
{
    proof {
        lemma_nonneg_product(proposal.total_supply_snapshot as int, config.quorum_bps as int);
        lemma_nonneg_product(
            proposal.votes_for + proposal.votes_against,
            config.approval_threshold_bps as int,
        );
    }
    let total_votes = proposal.votes_for + proposal.votes_against;
    let quorum_required = proposal.total_supply_snapshot * config.quorum_bps as i128 / 10_000;
    if total_votes < quorum_required {
        return false;
    }
    proof {
        if total_votes == 0 {
            assert(total_votes * (config.approval_threshold_bps as int) == 0);
        }
    }
    let threshold_required = total_votes * config.approval_threshold_bps as i128 / 10_000;
    proposal.votes_for >= threshold_required
}

/// Whether `payload` is the kind of execution data `proposal_type` needs.
pub fn payload_matches_type(proposal_type: ProposalType, payload: &ProposalPayload) -> (ok: bool)
    ensures
        ok == payload_matches(proposal_type, *payload),
{
    match (proposal_type, payload) {
        (ProposalType::ParameterChange, ProposalPayload::Parameter(_)) => true,
        (ProposalType::ContractUpgrade, ProposalPayload::Upgrade(_)) => true,
        (ProposalType::FundAllocation, ProposalPayload::Fund(_)) => true,
        (ProposalType::TextProposal, ProposalPayload::Text) => true,
        _ => false,
    }
}

/// Whether the pair `(id, voter)` occurs in `votes`.
fn vote_recorded(votes: &Vec<(u64, Address)>, id: u64, voter: Address) -> (found: bool)
    ensures
        found == has_voted_in(votes@, id, voter),
{
    let mut i: usize = 0;
    while i < votes.len()
        invariant
            i <= votes.len(),
            forall|j: int| 0 <= j < i ==> votes@[j] != (id, voter),
        decreases votes.len() - i,
    {
        if votes[i].0 == id && votes[i].1 == voter {
            assert(votes@[i as int] == (id, voter));
            return true;
        }
        i = i + 1;
    }
    false
}

/// State of the governance contract.
pub struct GovernanceContract {
    admin: Option<Address>,
    config: Option<GovConfig>,
    proposals: Vec<Proposal>,
    voted: Vec<(u64, Address)>,
    stakes: HashMap<Address, i128>,
    arbitrators: HashSet<Address>,
    cooldowns: HashMap<Address, u64>,
    jury_config: Option<JuryPoolConfig>,
    jury_pool_counter: u64,
    jury_pools: Vec<JuryPool>,
    jury_voted: Vec<(u64, Address)>,
}

impl View for GovernanceContract {
    type V = GovView;

    closed spec fn view(&self) -> GovView {
        GovView {
            admin: self.admin,
            config: self.config,
            proposals: self.proposals@,
            voted: self.voted@,
            stakes: self.stakes@,
            arbitrators: self.arbitrators@,
            cooldowns: self.cooldowns@,
            jury_config: self.jury_config,
            jury_pool_counter: self.jury_pool_counter,
            jury_pools: self.jury_pools@,
            jury_voted: self.jury_voted@,
        }
    }
}

/// The stored form of a governance contract, as its host keeps it between
/// calls.
pub struct GovernanceParts {
    pub admin: Option<Address>,
    pub config: Option<GovConfig>,
    pub proposals: Vec<Proposal>,
    pub voted: Vec<(u64, Address)>,
    pub stakes: HashMap<Address, i128>,
    pub arbitrators: HashSet<Address>,
    pub cooldowns: HashMap<Address, u64>,
    pub jury_config: Option<JuryPoolConfig>,
    pub jury_pool_counter: u64,
    pub jury_pools: Vec<JuryPool>,
    pub jury_voted: Vec<(u64, Address)>,
}

impl View for GovernanceParts {
    type V = GovView;

    open spec fn view(&self) -> GovView {
        GovView {
            admin: self.admin,
            config: self.config,
            proposals: self.proposals@,
            voted: self.voted@,
            stakes: self.stakes@,
            arbitrators: self.arbitrators@,
            cooldowns: self.cooldowns@,
            jury_config: self.jury_config,
            jury_pool_counter: self.jury_pool_counter,
            jury_pools: self.jury_pools@,
            jury_voted: self.jury_voted@,
        }
    }
}

/// Whether every recorded stake is positive.
fn stakes_positive(stakes: &HashMap<Address, i128>) -> (ok: bool)
    ensures
        ok == forall|a: Address| #[trigger] stakes@.contains_key(a) ==> stakes@[a] > 0,
{
    let ghost entries = IteratorSpec::remaining(&stakes.iter());
    for entry in it: stakes.iter()
        invariant
            it.seq() == entries,
            forall|j: int| 0 <= j < it.index() ==> *(#[trigger] entries[j]).1 > 0,
    {
        if *entry.1 <= 0 {
            assert(stakes@.contains_key(*entries[it.index() as int].0));
            return false;
        }
    }
    assert forall|a: Address| #[trigger] stakes@.contains_key(a) implies stakes@[a] > 0 by {
        assert(entries.contains((&a, &stakes@[a])));
        let k = choose|k: int| 0 <= k < entries.len() && entries[k] == (&a, &stakes@[a]);
        assert(*entries[k].1 > 0);
    }
    true
}

/// Whether a stored proposal is consistent.
fn proposal_consistent(p: &Proposal) -> (ok: bool)
    ensures
        ok == proposal_wf(*p),
{
    p.votes_for >= 0 && p.votes_against >= 0 && p.total_supply_snapshot >= 0 && p.vote_start
        <= p.vote_end && p.vote_end <= p.executable_at && (p.status == ProposalStatus::Executed)
        == p.executed_at.is_some()
}

/// Whether a stored jury pool is consistent.
fn pool_consistent(p: &JuryPool) -> (ok: bool)
    ensures
        ok == pool_wf(*p),
{
    let sum_matches = match p.weight_for_client.checked_add(p.weight_for_freelancer) {
        Some(sum) => sum == p.total_locked_tokens,
        None => false,
    };
    p.disputed_amount > 0 && p.voting_start <= p.voting_end && sum_matches && (p.resolution
        == JuryResolution::Pending) == p.resolved_at.is_none()
}

impl GovernanceContract {
    /// The state invariant.
    pub open spec fn wf(&self) -> bool {
        self@.wf()
    }

    /// A contract that has not been initialized.
    pub fn new() -> (c: Self)
        ensures
            c@ == GovView::empty(),
            c.wf(),
    {
        let c = GovernanceContract {
            admin: None,
            config: None,
            proposals: Vec::new(),
            voted: Vec::new(),
            stakes: HashMap::new(),
            arbitrators: HashSet::new(),
            cooldowns: HashMap::new(),
            jury_config: None,
            jury_pool_counter: 0,
            jury_pools: Vec::new(),
            jury_voted: Vec::new(),
        };
        assert(c@ =~= GovView::empty());
        c
    }

    /// Sets the admin and the proposal parameters. Fails if already
    /// initialized, if `voting_period` is zero, or if a basis-point value
    /// exceeds 10 000.
    pub fn initialize(
        &mut self,
        admin: Address,
        token: Address,
        proposal_threshold: i128,
        voting_delay: u64,
        voting_period: u64,
        timelock_delay: u64,
        quorum_bps: u32,
        approval_threshold_bps: u32,
    ) -> (r: Result<(), GovError>)
        requires
            old(self).wf(),
        ensures
            final(self).wf(),
            initialize_spec(
                old(self)@,
                admin,
                token,
                proposal_threshold,
                voting_delay,
                voting_period,
                timelock_delay,
                quorum_bps,
                approval_threshold_bps,
            ) == Some((final(self)@, r)),
    {
        if self.admin.is_some() {
            return Err(GovError::AlreadyInitialized);
        }
        if voting_period == 0 {
            return Err(GovError::InvalidDuration);
        }
        if quorum_bps > MAX_BPS || approval_threshold_bps > MAX_BPS {
            return Err(GovError::InvalidParameter);
        }
        let config = GovConfig {
            token,
            proposal_threshold,
            voting_period,
            voting_delay,
            timelock_delay,
            quorum_bps,
            approval_threshold_bps,
        };
        self.admin = Some(admin);
        self.config = Some(config);
        Ok(())
    }

    /// Opens a proposal and returns its id. `proposer_power` is the
    /// proposer's governance-token balance and `now` the ledger time.
    pub fn create_proposal(
        &mut self,
        proposer: Address,
        title: String,
        description: String,
        proposal_type: ProposalType,
        payload: ProposalPayload,
        supply_snapshot: i128,
        now: u64,
        proposer_power: i128,
    ) -> (r: Result<u64, GovError>)
        requires
            old(self).wf(),
            create_proposal_spec(
                old(self)@,
                proposer,
                title,
                description,
                proposal_type,
                payload,
                supply_snapshot,
                now,
                proposer_power,
            ) is Some,
        ensures
            final(self).wf(),
            create_proposal_spec(
                old(self)@,
                proposer,
                title,
                description,
                proposal_type,
                payload,
                supply_snapshot,
                now,
                proposer_power,
            ) == Some((final(self)@, r)),
    {
        let config = match self.config {
            Some(c) => c,
            None => {
                return Err(GovError::NotInitialized);
            },
        };
        if proposer_power < config.proposal_threshold {
            return Err(GovError::InsufficientVotingPower);
        }
        if !payload_matches_type(proposal_type, &payload) {
            return Err(GovError::InvalidProposalType);
        }
        let vote_start = now + config.voting_delay;
        let vote_end = vote_start + config.voting_period;
        let executable_at = vote_end + config.timelock_delay;
        if supply_snapshot < 0 {
            return Err(GovError::InvalidParameter);
        }
        let id = self.proposals.len() as u64;
        let proposal = Proposal {
            id,
            proposal_type,
            proposer,
            title,
            description,
            payload,
            status: ProposalStatus::Active,
            vote_start,
            vote_end,
            executable_at,
            votes_for: 0,
            votes_against: 0,
            total_supply_snapshot: supply_snapshot,
            created_at: now,
            executed_at: None,
        };
        self.proposals.push(proposal);
        Ok(id)
    }

    /// Adds `voting_power`, the voter's token balance at `now`, to the FOR
    /// side (`support`) or the AGAINST side of an active proposal. Each
    /// address votes at most once per proposal.
    pub fn cast_vote(
        &mut self,
        voter: Address,
        proposal_id: u64,
        support: bool,
        now: u64,
        voting_power: i128,
    ) -> (r: Result<(), GovError>)
        requires
            old(self).wf(),
            cast_vote_spec(old(self)@, voter, proposal_id, support, now, voting_power) is Some,
        ensures
            final(self).wf(),
            cast_vote_spec(old(self)@, voter, proposal_id, support, now, voting_power) == Some(
                (final(self)@, r),
            ),
    {
        if self.admin.is_none() {
            return Err(GovError::NotInitialized);
        }
        if proposal_id >= self.proposals.len() as u64 {
            return Err(GovError::ProposalNotFound);
        }
        let idx = proposal_id as usize;
        let mut p = self.proposals[idx].clone();
        if p.status != ProposalStatus::Active {
            return Err(GovError::ProposalNotActive);
        }
        if now < p.vote_start {
            return Err(GovError::VotingNotStarted);
        }
        if now > p.vote_end {
            return Err(GovError::VotingClosed);
        }
        if vote_recorded(&self.voted, proposal_id, voter) {
            return Err(GovError::AlreadyVoted);
        }
        if voting_power <= 0 {
            return Err(GovError::InsufficientVotingPower);
        }
        if support {
            p.votes_for = p.votes_for + voting_power;
        } else {
            p.votes_against = p.votes_against + voting_power;
        }
        self.voted.push((proposal_id, voter));
        self.proposals.set(idx, p);
        Ok(())
    }
    /// After the vote closed, moves an active proposal to `Queued` when it
    /// reached quorum and the approval threshold, to `Defeated` otherwise,
    /// and returns the new status.
    pub fn finalize_proposal(&mut self, proposal_id: u64, now: u64) -> (r: Result<
        ProposalStatus,
        GovError,
    >)
        requires
            old(self).wf(),
            finalize_proposal_spec(old(self)@, proposal_id, now) is Some,
        ensures
            final(self).wf(),
            finalize_proposal_spec(old(self)@, proposal_id, now) == Some((final(self)@, r)),
    {
        let config = match self.config {
            Some(c) => c,
            None => {
                return Err(GovError::NotInitialized);
            },
        };
        if proposal_id >= self.proposals.len() as u64 {
            return Err(GovError::ProposalNotFound);
        }
        let idx = proposal_id as usize;
        let mut p = self.proposals[idx].clone();
        if p.status != ProposalStatus::Active {
            return Err(GovError::ProposalNotActive);
        }
        if now <= p.vote_end {
            return Err(GovError::VotingClosed);
        }
        if evaluate(&p, &config) {
            p.status = ProposalStatus::Queued;
        } else {
            p.status = ProposalStatus::Defeated;
        }
        let status = p.status;
        self.proposals.set(idx, p);
        Ok(status)
    }

    /// After the timelock, marks a queued proposal executed at `now`. A
    /// fund allocation returns the treasury payment to carry out.
    pub fn execute_proposal(&mut self, proposal_id: u64, now: u64) -> (r: Result<
        Option<TokenTransfer>,
        GovError,
    >)
        requires
            old(self).wf(),
        ensures
            final(self).wf(),
            execute_proposal_spec(old(self)@, proposal_id, now) == Some((final(self)@, r)),
    {
        if self.admin.is_none() {
            return Err(GovError::NotInitialized);
        }
        if proposal_id >= self.proposals.len() as u64 {
            return Err(GovError::ProposalNotFound);
        }
        let idx = proposal_id as usize;
        let mut p = self.proposals[idx].clone();
        if p.status != ProposalStatus::Queued {
            return Err(GovError::ProposalNotPassed);
        }
        if now < p.executable_at {
            return Err(GovError::TimelockNotElapsed);
        }
        let transfer = match &p.payload {
            ProposalPayload::Fund(f) => Some(
                TokenTransfer::Payout { token: f.token, to: f.recipient, amount: f.amount },
            ),
            _ => None,
        };
        p.status = ProposalStatus::Executed;
        p.executed_at = Some(now);
        self.proposals.set(idx, p);
        Ok(transfer)
    }

    /// The proposer or the admin cancels a proposal that is neither
    /// executed nor already cancelled.
    pub fn cancel_proposal(&mut self, caller: Address, proposal_id: u64) -> (r: Result<
        (),
        GovError,
    >)
        requires
            old(self).wf(),
        ensures
            final(self).wf(),
            cancel_proposal_spec(old(self)@, caller, proposal_id) == Some((final(self)@, r)),
    {
        let admin = match self.admin {
            Some(a) => a,
            None => {
                return Err(GovError::NotInitialized);
            },
        };
        if proposal_id >= self.proposals.len() as u64 {
            return Err(GovError::ProposalNotFound);
        }
        let idx = proposal_id as usize;
        let mut p = self.proposals[idx].clone();
        if caller != p.proposer && caller != admin {
            return Err(GovError::Unauthorized);
        }
        if p.status == ProposalStatus::Executed {
            return Err(GovError::ProposalAlreadyExecuted);
        }
        if p.status == ProposalStatus::Cancelled {
            return Err(GovError::ProposalAlreadyCancelled);
        }
        p.status = ProposalStatus::Cancelled;
        self.proposals.set(idx, p);
        Ok(())
    }

    /// The admin replaces the proposal parameters; the same bounds as in
    /// `initialize` apply.
    pub fn update_config(&mut self, caller: Address, new_config: GovConfig) -> (r: Result<
        (),
        GovError,
    >)
        requires
            old(self).wf(),
        ensures
            final(self).wf(),
            update_config_spec(old(self)@, caller, new_config) == Some((final(self)@, r)),
    {
        let admin = match self.admin {
            Some(a) => a,
            None => {
                return Err(GovError::NotInitialized);
            },
        };
        if caller != admin {
            return Err(GovError::AdminOnly);
        }
        if new_config.voting_period == 0 {
            return Err(GovError::InvalidDuration);
        }
        if new_config.quorum_bps > MAX_BPS || new_config.approval_threshold_bps > MAX_BPS {
            return Err(GovError::InvalidParameter);
        }
        self.config = Some(new_config);
        Ok(())
    }

    /// The proposal with id `proposal_id`.
    pub fn get_proposal(&self, proposal_id: u64) -> (r: Result<Proposal, GovError>)
        requires
            self.wf(),
        ensures
            !self@.initialized() ==> r == Err::<Proposal, GovError>(GovError::NotInitialized),
            self@.initialized() && proposal_id >= self@.proposals.len() ==> r == Err::<
                Proposal,
                GovError,
            >(GovError::ProposalNotFound),
            self@.initialized() && proposal_id < self@.proposals.len() ==> r == Ok::<
                Proposal,
                GovError,
            >(self@.proposals[proposal_id as int]),
    {
        if self.admin.is_none() {
            return Err(GovError::NotInitialized);
        }
        if proposal_id >= self.proposals.len() as u64 {
            return Err(GovError::ProposalNotFound);
        }
        Ok(self.proposals[proposal_id as usize].clone())
    }

    /// The proposal parameters in force.
    pub fn get_config(&self) -> (r: Result<GovConfig, GovError>)
        requires
            self.wf(),
        ensures
            r == (match self@.config {
                Some(c) => Ok(c),
                None => Err(GovError::NotInitialized),
            }),
    {
        match self.config {
            Some(c) => Ok(c),
            None => Err(GovError::NotInitialized),
        }
    }

    /// Number of proposals created so far.
    pub fn proposal_count(&self) -> (n: u64)
        requires
            self.wf(),
        ensures
            n == self@.proposals.len(),
    {
        proof {
            if self@.proposals.len() > 0 {
                let last = self@.proposals.len() - 1;
                assert(self@.proposals[last].id == last);
            }
        }
        self.proposals.len() as u64
    }

    /// Whether `voter` voted on proposal `proposal_id`.
    pub fn has_voted(&self, proposal_id: u64, voter: Address) -> (r: bool)
        ensures
            r == has_voted_in(self@.voted, proposal_id, voter),
            r == self@.voted.contains((proposal_id, voter)),
    {
        vote_recorded(&self.voted, proposal_id, voter)
    }
    /// Stake currently locked by `a`; zero when it has none.
    fn stake_lookup(&self, a: Address) -> (stake: i128)
        ensures
            stake == stake_of(self@, a),
    {
        match self.stakes.get(&a) {
            Some(v) => *v,
            None => 0,
        }
    }

    /// Locks `amount` more governance tokens of `caller` and returns the
    /// deposit to carry out. A single stake of at least `MIN_STAKE` puts the
    /// caller on the arbitrator whitelist.
    pub fn stake_arbitrator(&mut self, caller: Address, amount: i128) -> (r: Result<
        TokenTransfer,
        GovError,
    >)
        requires
            old(self).wf(),
            stake_arbitrator_spec(old(self)@, caller, amount) is Some,
        ensures
            final(self).wf(),
            stake_arbitrator_spec(old(self)@, caller, amount) == Some((final(self)@, r)),
    {
        let config = match self.config {
            Some(c) => c,
            None => {
                return Err(GovError::NotInitialized);
            },
        };
        if amount <= 0 {
            return Err(GovError::InsufficientStake);
        }
        let transfer = TokenTransfer::Deposit { token: config.token, from: caller, amount };
        let prev_stake = self.stake_lookup(caller);
        let new_stake = prev_stake + amount;
        self.stakes.insert(caller, new_stake);
        if amount >= MIN_STAKE {
            self.arbitrators.insert(caller);
        }
        proof {
            assert(self@.stakes =~= old(self)@.stakes.insert(caller, new_stake));
        }
        Ok(transfer)
    }

    /// Withdraws the whole stake of `caller`. The first call starts a
    /// cooldown of `WITHDRAW_COOLDOWN` seconds from `now` and reports
    /// `StakeCooldownActive`; once it has elapsed, the stake, the whitelist
    /// entry and the cooldown are cleared and the payout is returned.
    pub fn withdraw_stake(&mut self, caller: Address, now: u64) -> (r: Result<
        TokenTransfer,
        GovError,
    >)
        requires
            old(self).wf(),
            withdraw_stake_spec(old(self)@, caller, now) is Some,
        ensures
            final(self).wf(),
            withdraw_stake_spec(old(self)@, caller, now) == Some((final(self)@, r)),
    {
        let config = match self.config {
            Some(c) => c,
            None => {
                return Err(GovError::NotInitialized);
            },
        };
        let stake = self.stake_lookup(caller);
        if stake <= 0 {
            return Err(GovError::NoStakeToWithdraw);
        }
        match self.cooldowns.get(&caller) {
            None => {
                let expires = now + WITHDRAW_COOLDOWN;
                self.cooldowns.insert(caller, expires);
                return Err(GovError::StakeCooldownActive);
            },
            Some(expires) => {
                if now < *expires {
                    return Err(GovError::StakeCooldownActive);
                }
            },
        }
        let transfer = TokenTransfer::Payout { token: config.token, to: caller, amount: stake };
        self.stakes.remove(&caller);
        self.arbitrators.remove(&caller);
        self.cooldowns.remove(&caller);
        Ok(transfer)
    }

    /// The admin slashes `SLASH_PERCENT` of the stake of `arbitrator` and
    /// returns the payment of the slashed tokens to `recipient`. When less
    /// than `MIN_STAKE` remains, the stake and the whitelist entry are
    /// cleared.
    pub fn slash_arbitrator(&mut self, caller: Address, arbitrator: Address, recipient: Address) -> (r:
        Result<TokenTransfer, GovError>)
        requires
            old(self).wf(),
            slash_arbitrator_spec(old(self)@, caller, arbitrator, recipient) is Some,
        ensures
            final(self).wf(),
            slash_arbitrator_spec(old(self)@, caller, arbitrator, recipient) == Some(
                (final(self)@, r),
            ),
    {
        let admin = match self.admin {
            Some(a) => a,
            None => {
                return Err(GovError::NotInitialized);
            },
        };
        if caller != admin {
            return Err(GovError::AdminOnly);
        }
        let stake = self.stake_lookup(arbitrator);
        if stake <= 0 {
            return Err(GovError::NotArbitrator);
        }
        let slash_amount = stake * SLASH_PERCENT / 100;
        if slash_amount > stake {
            return Err(GovError::SlashExceedsStake);
        }
        let remaining = stake - slash_amount;
        let token = match self.config {
            Some(c) => c.token,
            None => {
                return Err(GovError::NotInitialized);
            },
        };
        let transfer = TokenTransfer::Payout { token, to: recipient, amount: slash_amount };
        if remaining < MIN_STAKE {
            self.arbitrators.remove(&arbitrator);
            self.stakes.remove(&arbitrator);
        } else {
            self.stakes.insert(arbitrator, remaining);
        }
        Ok(transfer)
    }

    /// Whether `address` is on the arbitrator whitelist.
    pub fn is_arbitrator(&self, address: Address) -> (r: bool)
        ensures
            r == self@.arbitrators.contains(address),
    {
        self.arbitrators.contains(&address)
    }

    /// Stake locked by `address`; zero when it has none.
    pub fn get_stake(&self, address: Address) -> (r: i128)
        ensures
            r == stake_of(self@, address),
            r == (if self@.stakes.contains_key(address) {
                self@.stakes[address]
            } else {
                0
            }),
    {
        self.stake_lookup(address)
    }

    /// When the pending withdrawal of `address` may complete, if one was
    /// requested.
    pub fn get_withdraw_cooldown(&self, address: Address) -> (r: Option<u64>)
        ensures
            r == (if self@.cooldowns.contains_key(address) {
                Some(self@.cooldowns[address])
            } else {
                None
            }),
    {
        match self.cooldowns.get(&address) {
            Some(t) => Some(*t),
            None => None,
        }
    }
    /// The jury parameters in force: the configured ones, or the defaults.
    pub fn get_jury_config(&self) -> (c: JuryPoolConfig)
        ensures
            c == jury_config_or_default(self@.jury_config),
            c == (match self@.jury_config {
                Some(c) => c,
                None => JuryPoolConfig {
                    voting_period: 604_800,
                    min_locked_tokens: 100,
                    quorum_bps: 500,
                },
            }),
    {
        match self.jury_config {
            Some(c) => c,
            None => JuryPoolConfig {
                voting_period: DEFAULT_JURY_VOTING_PERIOD,
                min_locked_tokens: DEFAULT_MIN_LOCKED_TOKENS,
                quorum_bps: DEFAULT_JURY_QUORUM_BPS,
            },
        }
    }

    /// The admin sets the jury parameters; pools already created keep their
    /// ids.
    pub fn initialize_jury_config(
        &mut self,
        caller: Address,
        voting_period: u64,
        min_locked_tokens: i128,
        quorum_bps: u32,
    ) -> (r: Result<(), GovError>)
        requires
            old(self).wf(),
        ensures
            final(self).wf(),
            initialize_jury_config_spec(
                old(self)@,
                caller,
                voting_period,
                min_locked_tokens,
                quorum_bps,
            ) == Some((final(self)@, r)),
    {
        let admin = match self.admin {
            Some(a) => a,
            None => {
                return Err(GovError::NotInitialized);
            },
        };
        if caller != admin {
            return Err(GovError::AdminOnly);
        }
        if voting_period == 0 {
            return Err(GovError::InvalidDuration);
        }
        if quorum_bps > MAX_BPS {
            return Err(GovError::InvalidParameter);
        }
        self.jury_config = Some(JuryPoolConfig { voting_period, min_locked_tokens, quorum_bps });
        Ok(())
    }

    /// Opens a jury vote at `now` on a disputed milestone and returns the
    /// pool id.
    pub fn create_jury_pool(
        &mut self,
        escrow_id: u64,
        milestone_id: u64,
        client: Address,
        freelancer: Address,
        disputed_amount: i128,
        token: Address,
        now: u64,
    ) -> (r: Result<u64, GovError>)
        requires
            old(self).wf(),
            create_jury_pool_spec(
                old(self)@,
                escrow_id,
                milestone_id,
                client,
                freelancer,
                disputed_amount,
                token,
                now,
            ) is Some,
        ensures
            final(self).wf(),
            create_jury_pool_spec(
                old(self)@,
                escrow_id,
                milestone_id,
                client,
                freelancer,
                disputed_amount,
                token,
                now,
            ) == Some((final(self)@, r)),
    {
        if self.admin.is_none() {
            return Err(GovError::NotInitialized);
        }
        if disputed_amount <= 0 {
            return Err(GovError::InvalidParameter);
        }
        let config = self.get_jury_config();
        let voting_end = now + config.voting_period;
        let pool_id = self.jury_pool_counter;
        self.jury_pool_counter = pool_id + 1;
        let pool = JuryPool {
            pool_id,
            milestone_id,
            escrow_id,
            client,
            freelancer,
            disputed_amount,
            token,
            voting_start: now,
            voting_end,
            weight_for_client: 0,
            weight_for_freelancer: 0,
            total_locked_tokens: 0,
            resolution: JuryResolution::Pending,
            resolved_at: None,
            created_at: now,
        };
        self.jury_pools.push(pool);
        Ok(pool_id)
    }

    /// A juror adds its locked stake to the client's side (`for_client`) or
    /// the freelancer's side of an open jury pool. Each address votes at
    /// most once per pool.
    pub fn cast_jury_vote(&mut self, voter: Address, pool_id: u64, for_client: bool, now: u64) -> (r:
        Result<(), GovError>)
        requires
            old(self).wf(),
            cast_jury_vote_spec(old(self)@, voter, pool_id, for_client, now) is Some,
        ensures
            final(self).wf(),
            cast_jury_vote_spec(old(self)@, voter, pool_id, for_client, now) == Some(
                (final(self)@, r),
            ),
    {
        if self.admin.is_none() {
            return Err(GovError::NotInitialized);
        }
        if pool_id >= self.jury_pools.len() as u64 {
            return Err(GovError::JuryPoolNotFound);
        }
        let idx = pool_id as usize;
        let mut pool = self.jury_pools[idx];
        if pool.resolution != JuryResolution::Pending {
            return Err(GovError::JuryPoolAlreadyResolved);
        }
        if now < pool.voting_start {
            return Err(GovError::JuryVotingNotStarted);
        }
        if now > pool.voting_end {
            return Err(GovError::JuryVotingClosed);
        }
        if vote_recorded(&self.jury_voted, pool_id, voter) {
            return Err(GovError::JuryAlreadyVoted);
        }
        let locked_tokens = self.stake_lookup(voter);
        let config = self.get_jury_config();
        if locked_tokens < config.min_locked_tokens {
            return Err(GovError::JuryInsufficientLockedTokens);
        }
        if for_client {
            pool.weight_for_client = pool.weight_for_client + locked_tokens;
        } else {
            pool.weight_for_freelancer = pool.weight_for_freelancer + locked_tokens;
        }
        pool.total_locked_tokens = pool.total_locked_tokens + locked_tokens;
        self.jury_voted.push((pool_id, voter));
        self.jury_pools.set(idx, pool);
        Ok(())
    }

    /// After the vote closed, resolves a pool that reached quorum: the
    /// client wins with strictly more weight, the freelancer otherwise
    /// (ties included). Returns whether the client won; a resolved pool
    /// reports its recorded result.
    pub fn resolve_jury_pool(&mut self, pool_id: u64, now: u64) -> (r: Result<bool, GovError>)
        requires
            old(self).wf(),
            resolve_jury_pool_spec(old(self)@, pool_id, now) is Some,
        ensures
            final(self).wf(),
            resolve_jury_pool_spec(old(self)@, pool_id, now) == Some((final(self)@, r)),
    {
        if self.admin.is_none() {
            return Err(GovError::NotInitialized);
        }
        if pool_id >= self.jury_pools.len() as u64 {
            return Err(GovError::JuryPoolNotFound);
        }
        let idx = pool_id as usize;
        let mut pool = self.jury_pools[idx];
        if pool.resolution != JuryResolution::Pending {
            return Ok(pool.resolution == JuryResolution::ClientWins);
        }
        if now <= pool.voting_end {
            return Err(GovError::JuryVotingClosed);
        }
        let config = self.get_jury_config();
        let min_participation = pool.disputed_amount * config.quorum_bps as i128 / 10_000;
        if pool.total_locked_tokens < min_participation {
            return Err(GovError::JuryQuorumNotReached);
        }
        let client_wins = pool.weight_for_client > pool.weight_for_freelancer;
        pool.resolution =
            if client_wins {
                JuryResolution::ClientWins
            } else {
                JuryResolution::FreelancerWins
            };
        pool.resolved_at = Some(now);
        self.jury_pools.set(idx, pool);
        Ok(client_wins)
    }

    /// The payment of the disputed amount to the winner of a resolved pool.
    pub fn distribute_jury_funds(&self, pool_id: u64) -> (r: Result<TokenTransfer, GovError>)
        requires
            self.wf(),
        ensures
            distribute_jury_funds_spec(self@, pool_id) == Some((self@, r)),
    {
        if self.admin.is_none() {
            return Err(GovError::NotInitialized);
        }
        if pool_id >= self.jury_pools.len() as u64 {
            return Err(GovError::JuryPoolNotFound);
        }
        let pool = self.jury_pools[pool_id as usize];
        let recipient = match pool.resolution {
            JuryResolution::ClientWins => pool.client,
            JuryResolution::FreelancerWins => pool.freelancer,
            JuryResolution::Pending => {
                return Err(GovError::JuryPoolNotResolved);
            },
        };
        Ok(TokenTransfer::Payout { token: pool.token, to: recipient, amount: pool.disputed_amount })
    }

    /// The jury pool with id `pool_id`.
    pub fn get_jury_pool(&self, pool_id: u64) -> (r: Result<JuryPool, GovError>)
        requires
            self.wf(),
        ensures
            !self@.initialized() ==> r == Err::<JuryPool, GovError>(GovError::NotInitialized),
            self@.initialized() && pool_id >= self@.jury_pools.len() ==> r == Err::<
                JuryPool,
                GovError,
            >(GovError::JuryPoolNotFound),
            self@.initialized() && pool_id < self@.jury_pools.len() ==> r == Ok::<
                JuryPool,
                GovError,
            >(self@.jury_pools[pool_id as int]),
    {
        if self.admin.is_none() {
            return Err(GovError::NotInitialized);
        }
        if pool_id >= self.jury_pools.len() as u64 {
            return Err(GovError::JuryPoolNotFound);
        }
        Ok(self.jury_pools[pool_id as usize])
    }

    /// Number of jury pools created so far.
    pub fn jury_pool_count(&self) -> (n: u64)
        ensures
            n == self@.jury_pool_counter,
    {
        self.jury_pool_counter
    }

    /// Whether `voter` voted in jury pool `pool_id`.
    pub fn has_jury_voted(&self, pool_id: u64, voter: Address) -> (r: bool)
        ensures
            r == has_voted_in(self@.jury_voted, pool_id, voter),
            r == self@.jury_voted.contains((pool_id, voter)),
    {
        vote_recorded(&self.jury_voted, pool_id, voter)
    }
    /// Takes the contract apart into its stored form.
    pub fn into_parts(self) -> (p: GovernanceParts)
        ensures
            p@ == self@,
    {
        GovernanceParts {
            admin: self.admin,
            config: self.config,
            proposals: self.proposals,
            voted: self.voted,
            stakes: self.stakes,
            arbitrators: self.arbitrators,
            cooldowns: self.cooldowns,
            jury_config: self.jury_config,
            jury_pool_counter: self.jury_pool_counter,
            jury_pools: self.jury_pools,
            jury_voted: self.jury_voted,
        }
    }

    /// Rebuilds a contract from its stored form; `None` when the parts
    /// break the state invariant.
    pub fn from_parts(p: GovernanceParts) -> (r: Option<Self>)
        ensures
            r is Some <==> p@.wf(),
            r matches Some(c) ==> c@ == p@ && c.wf(),
    {
        if p.admin.is_some() != p.config.is_some() {
            return None;
        }
        if p.admin.is_none() && p.proposals.len() != 0 {
            return None;
        }
        let mut i: usize = 0;
        while i < p.proposals.len()
            invariant
                i <= p.proposals.len(),
                forall|j: int| 0 <= j < i ==> #[trigger] p.proposals@[j].id == j,
                forall|j: int| 0 <= j < i ==> proposal_wf(#[trigger] p.proposals@[j]),
            decreases p.proposals.len() - i,
        {
            if p.proposals[i].id != i as u64 || !proposal_consistent(&p.proposals[i]) {
                return None;
            }
            i = i + 1;
        }
        if p.jury_pool_counter != p.jury_pools.len() as u64 {
            return None;
        }
        let mut k: usize = 0;
        while k < p.jury_pools.len()
            invariant
                k <= p.jury_pools.len(),
                forall|j: int| 0 <= j < k ==> #[trigger] p.jury_pools@[j].pool_id == j,
                forall|j: int| 0 <= j < k ==> pool_wf(#[trigger] p.jury_pools@[j]),
            decreases p.jury_pools.len() - k,
        {
            if p.jury_pools[k].pool_id != k as u64 || !pool_consistent(&p.jury_pools[k]) {
                return None;
            }
            k = k + 1;
        }
        if !stakes_positive(&p.stakes) {
            proof {
                let a = choose|a: Address| p.stakes@.contains_key(a) && p.stakes@[a] <= 0;
                assert(p@.stakes.contains_key(a));
            }
            return None;
        }
        let c = GovernanceContract {
            admin: p.admin,
            config: p.config,
            proposals: p.proposals,
            voted: p.voted,
            stakes: p.stakes,
            arbitrators: p.arbitrators,
            cooldowns: p.cooldowns,
            jury_config: p.jury_config,
            jury_pool_counter: p.jury_pool_counter,
            jury_pools: p.jury_pools,
            jury_voted: p.jury_voted,
        };
        Some(c)
    }
}

} // verus!
