//! Mathematical model of the governance state and of each operation on it.
//!
//! Every operation is a function from a state and its arguments to either
//! `None`, when the operation aborts on arithmetic overflow, or the next
//! state together with the value the operation returns.

use vstd::prelude::*;
use crate::errors::GovError;
use crate::types::{
    Address, GovConfig, JuryPool, JuryPoolConfig, JuryResolution, Proposal, ProposalPayload,
    ProposalStatus, ProposalType, TokenTransfer,
};

verus! {

/// Minimum single stake that puts an address on the arbitrator whitelist.
pub const MIN_STAKE: i128 = 1_000;

/// Seconds a stake stays locked after a withdrawal was requested (7 days).
pub const WITHDRAW_COOLDOWN: u64 = 604_800;

/// Percentage of a stake taken by a slash.
pub const SLASH_PERCENT: i128 = 10;

/// Jury voting period used when no jury configuration was set (7 days).
pub const DEFAULT_JURY_VOTING_PERIOD: u64 = 604_800;

/// Minimum locked stake of a juror when no jury configuration was set.
pub const DEFAULT_MIN_LOCKED_TOKENS: i128 = 100;

/// Jury quorum, in basis points of the disputed amount, when no jury
/// configuration was set.
pub const DEFAULT_JURY_QUORUM_BPS: u32 = 500;

/// Largest basis-point value: 100 %.
pub const MAX_BPS: u32 = 10_000;

/// The abstract state of a governance contract.
pub struct GovView {
    /// The admin; `Some` exactly when the contract is initialized.
    pub admin: Option<Address>,
    /// The proposal life-cycle parameters.
    pub config: Option<GovConfig>,
    /// All proposals; the proposal with id `i` is at index `i`.
    pub proposals: Seq<Proposal>,
    /// The recorded `(proposal id, voter)` pairs.
    pub voted: Seq<(u64, Address)>,
    /// Locked stake of each staker.
    pub stakes: Map<Address, i128>,
    /// The arbitrator whitelist.
    pub arbitrators: Set<Address>,
    /// When each pending withdrawal may complete.
    pub cooldowns: Map<Address, u64>,
    /// Jury parameters, if the admin set them.
    pub jury_config: Option<JuryPoolConfig>,
    /// Number of jury pools created; also the id the next one receives.
    pub jury_pool_counter: u64,
    /// All jury pools; the pool with id `i` is at index `i`.
    pub jury_pools: Seq<JuryPool>,
    /// The recorded `(pool id, juror)` pairs.
    pub jury_voted: Seq<(u64, Address)>,
}

/// What an operation yields: `None` when it aborts on overflow, else the
/// next state and the returned value.
pub type Outcome<T> = Option<(GovView, Result<T, GovError>)>;

/// Signed division rounding toward zero, as Rust's `/` does.
pub open spec fn trunc_div(a: int, b: int) -> int {
    if a >= 0 {
        a / b
    } else {
        -((-a) / b)
    }
}

/// Whether `x` fits in an `i128`.
pub open spec fn fits_i128(x: int) -> bool {
    i128::MIN <= x <= i128::MAX
}

/// Whether `x` fits in a `u64`.
pub open spec fn fits_u64(x: int) -> bool {
    0 <= x <= u64::MAX
}

/// Invariant of a stored proposal.
pub open spec fn proposal_wf(p: Proposal) -> bool {
    &&& p.votes_for >= 0
    &&& p.votes_against >= 0
    &&& p.total_supply_snapshot >= 0
    &&& p.vote_start <= p.vote_end <= p.executable_at
    &&& (p.status == ProposalStatus::Executed <==> p.executed_at is Some)
}

/// Invariant of a stored jury pool.
pub open spec fn pool_wf(p: JuryPool) -> bool {
    &&& p.disputed_amount > 0
    &&& p.voting_start <= p.voting_end
    &&& p.total_locked_tokens == p.weight_for_client + p.weight_for_freelancer
    &&& (p.resolution == JuryResolution::Pending <==> p.resolved_at is None)
}

/// The jury parameters in force: the configured ones, or the defaults.
pub open spec fn jury_config_or_default(c: Option<JuryPoolConfig>) -> JuryPoolConfig {
    match c {
        Some(c) => c,
        None => JuryPoolConfig {
            voting_period: DEFAULT_JURY_VOTING_PERIOD,
            min_locked_tokens: DEFAULT_MIN_LOCKED_TOKENS,
            quorum_bps: DEFAULT_JURY_QUORUM_BPS,
        },
    }
}

/// Whether a payload fits the proposal type.
pub open spec fn payload_matches(t: ProposalType, p: ProposalPayload) -> bool {
    match (t, p) {
        (ProposalType::ParameterChange, ProposalPayload::Parameter(_)) => true,
        (ProposalType::ContractUpgrade, ProposalPayload::Upgrade(_)) => true,
        (ProposalType::FundAllocation, ProposalPayload::Fund(_)) => true,
        (ProposalType::TextProposal, ProposalPayload::Text) => true,
        _ => false,
    }
}

/// Votes needed for quorum: `total_supply_snapshot * quorum_bps / 10_000`.
pub open spec fn quorum_required(p: Proposal, c: GovConfig) -> int {
    trunc_div(p.total_supply_snapshot * c.quorum_bps, 10_000)
}

/// FOR votes needed: `(votes_for + votes_against) * approval_threshold_bps / 10_000`.
pub open spec fn approval_required(p: Proposal, c: GovConfig) -> int {
    trunc_div((p.votes_for + p.votes_against) * c.approval_threshold_bps, 10_000)
}

/// Whether a proposal reached quorum and the approval threshold.
pub open spec fn proposal_passes(p: Proposal, c: GovConfig) -> bool {
    &&& p.votes_for + p.votes_against >= quorum_required(p, c)
    &&& p.votes_for >= approval_required(p, c)
}

/// Whether evaluating a proposal overflows `i128` on the way.
pub open spec fn evaluation_overflows(p: Proposal, c: GovConfig) -> bool {
    let total = p.votes_for + p.votes_against;
    ||| !fits_i128(total)
    ||| !fits_i128(p.total_supply_snapshot * c.quorum_bps)
    ||| (total >= quorum_required(p, c) && total != 0 && !fits_i128(
        total * c.approval_threshold_bps,
    ))
}

/// Whether `voter` has a recorded vote on proposal `id`.
pub open spec fn has_voted_in(voted: Seq<(u64, Address)>, id: u64, voter: Address) -> bool {
    voted.contains((id, voter))
}

/// Stake of `a`; zero when it has none.
pub open spec fn stake_of(s: GovView, a: Address) -> i128 {
    if s.stakes.contains_key(a) {
        s.stakes[a]
    } else {
        0
    }
}

impl GovView {
    /// The governance state invariant.
    pub open spec fn wf(self) -> bool {
        &&& (self.admin is Some <==> self.config is Some)
        &&& (self.admin is None ==> self.proposals.len() == 0)
        &&& forall|i: int| 0 <= i < self.proposals.len() ==> #[trigger] self.proposals[i].id == i
        &&& forall|i: int|
            0 <= i < self.proposals.len() ==> proposal_wf(#[trigger] self.proposals[i])
        &&& forall|a: Address| #[trigger] self.stakes.contains_key(a) ==> self.stakes[a] > 0
        &&& self.jury_pool_counter == self.jury_pools.len()
        &&& forall|i: int|
            0 <= i < self.jury_pools.len() ==> #[trigger] self.jury_pools[i].pool_id == i
        &&& forall|i: int| 0 <= i < self.jury_pools.len() ==> pool_wf(#[trigger] self.jury_pools[i])
    }

    /// Whether `initialize` has run.
    pub open spec fn initialized(self) -> bool {
        self.admin is Some
    }

    /// The state before `initialize`.
    pub open spec fn empty() -> GovView {
        GovView {
            admin: None,
            config: None,
            proposals: Seq::empty(),
            voted: Seq::empty(),
            stakes: Map::empty(),
            arbitrators: Set::empty(),
            cooldowns: Map::empty(),
            jury_config: None,
            jury_pool_counter: 0,
            jury_pools: Seq::empty(),
            jury_voted: Seq::empty(),
        }
    }
}

/// `initialize`: set the admin and the proposal parameters, once.
pub open spec fn initialize_spec(
    s: GovView,
    admin: Address,
    token: Address,
    proposal_threshold: i128,
    voting_delay: u64,
    voting_period: u64,
    timelock_delay: u64,
    quorum_bps: u32,
    approval_threshold_bps: u32,
) -> Outcome<()> {
    if s.initialized() {
        Some((s, Err(GovError::AlreadyInitialized)))
    } else if voting_period == 0 {
        Some((s, Err(GovError::InvalidDuration)))
    } else if quorum_bps > MAX_BPS || approval_threshold_bps > MAX_BPS {
        Some((s, Err(GovError::InvalidParameter)))
    } else {
        let config = GovConfig {
            token,
            proposal_threshold,
            voting_period,
            voting_delay,
            timelock_delay,
            quorum_bps,
            approval_threshold_bps,
        };
        Some((GovView { admin: Some(admin), config: Some(config), ..s }, Ok(())))
    }
}

/// `create_proposal`: open a proposal, given the proposer's token balance
/// `power` and the current time `now`.
pub open spec fn create_proposal_spec(
    s: GovView,
    proposer: Address,
    title: String,
    description: String,
    proposal_type: ProposalType,
    payload: ProposalPayload,
    supply_snapshot: i128,
    now: u64,
    power: i128,
) -> Outcome<u64> {
    if !s.initialized() {
        Some((s, Err(GovError::NotInitialized)))
    } else {
        let c = s.config.unwrap();
        if power < c.proposal_threshold {
            Some((s, Err(GovError::InsufficientVotingPower)))
        } else if !payload_matches(proposal_type, payload) {
            Some((s, Err(GovError::InvalidProposalType)))
        } else if !fits_u64(now + c.voting_delay + c.voting_period + c.timelock_delay) {
            None
        } else if supply_snapshot < 0 {
            Some((s, Err(GovError::InvalidParameter)))
        } else if s.proposals.len() >= u64::MAX {
            None
        } else {
            let id = s.proposals.len() as u64;
            let vote_start = (now + c.voting_delay) as u64;
            let vote_end = (vote_start + c.voting_period) as u64;
            let p = Proposal {
                id,
                proposal_type,
                proposer,
                title,
                description,
                payload,
                status: ProposalStatus::Active,
                vote_start,
                vote_end,
                executable_at: (vote_end + c.timelock_delay) as u64,
                votes_for: 0,
                votes_against: 0,
                total_supply_snapshot: supply_snapshot,
                created_at: now,
                executed_at: None,
            };
            Some((GovView { proposals: s.proposals.push(p), ..s }, Ok(id)))
        }
    }
}

/// `cast_vote`: add the voter's token balance `power` to one side.
pub open spec fn cast_vote_spec(
    s: GovView,
    voter: Address,
    id: u64,
    support: bool,
    now: u64,
    power: i128,
) -> Outcome<()> {
    if !s.initialized() {
        Some((s, Err(GovError::NotInitialized)))
    } else if id >= s.proposals.len() {
        Some((s, Err(GovError::ProposalNotFound)))
    } else {
        let p = s.proposals[id as int];
        if p.status != ProposalStatus::Active {
            Some((s, Err(GovError::ProposalNotActive)))
        } else if now < p.vote_start {
            Some((s, Err(GovError::VotingNotStarted)))
        } else if now > p.vote_end {
            Some((s, Err(GovError::VotingClosed)))
        } else if has_voted_in(s.voted, id, voter) {
            Some((s, Err(GovError::AlreadyVoted)))
        } else if power <= 0 {
            Some((s, Err(GovError::InsufficientVotingPower)))
        } else if support && !fits_i128(p.votes_for + power) {
            None
        } else if !support && !fits_i128(p.votes_against + power) {
            None
        } else {
            let q = if support {
                Proposal { votes_for: (p.votes_for + power) as i128, ..p }
            } else {
                Proposal { votes_against: (p.votes_against + power) as i128, ..p }
            };
            Some(
                (
                    GovView {
                        proposals: s.proposals.update(id as int, q),
                        voted: s.voted.push((id, voter)),
                        ..s
                    },
                    Ok(()),
                ),
            )
        }
    }
}

/// `finalize_proposal`: after the vote, queue or defeat the proposal.
pub open spec fn finalize_proposal_spec(s: GovView, id: u64, now: u64) -> Outcome<ProposalStatus> {
    if !s.initialized() {
        Some((s, Err(GovError::NotInitialized)))
    } else if id >= s.proposals.len() {
        Some((s, Err(GovError::ProposalNotFound)))
    } else {
        let p = s.proposals[id as int];
        let c = s.config.unwrap();
        if p.status != ProposalStatus::Active {
            Some((s, Err(GovError::ProposalNotActive)))
        } else if now <= p.vote_end {
            Some((s, Err(GovError::VotingClosed)))
        } else if evaluation_overflows(p, c) {
            None
        } else {
            let status = if proposal_passes(p, c) {
                ProposalStatus::Queued
            } else {
                ProposalStatus::Defeated
            };
            Some(
                (
                    GovView {
                        proposals: s.proposals.update(id as int, Proposal { status, ..p }),
                        ..s
                    },
                    Ok(status),
                ),
            )
        }
    }
}

/// The transfer that executing a proposal's payload asks for.
pub open spec fn payload_transfer(payload: ProposalPayload) -> Option<TokenTransfer> {
    match payload {
        ProposalPayload::Fund(f) => Some(
            TokenTransfer::Payout { token: f.token, to: f.recipient, amount: f.amount },
        ),
        _ => None,
    }
}

/// `execute_proposal`: after the timelock, mark a queued proposal executed.
pub open spec fn execute_proposal_spec(s: GovView, id: u64, now: u64) -> Outcome<
    Option<TokenTransfer>,
> {
    if !s.initialized() {
        Some((s, Err(GovError::NotInitialized)))
    } else if id >= s.proposals.len() {
        Some((s, Err(GovError::ProposalNotFound)))
    } else {
        let p = s.proposals[id as int];
        if p.status != ProposalStatus::Queued {
            Some((s, Err(GovError::ProposalNotPassed)))
        } else if now < p.executable_at {
            Some((s, Err(GovError::TimelockNotElapsed)))
        } else {
            let q = Proposal { status: ProposalStatus::Executed, executed_at: Some(now), ..p };
            Some(
                (
                    GovView { proposals: s.proposals.update(id as int, q), ..s },
                    Ok(payload_transfer(p.payload)),
                ),
            )
        }
    }
}

/// `cancel_proposal`: the proposer or the admin cancels a proposal.
pub open spec fn cancel_proposal_spec(s: GovView, caller: Address, id: u64) -> Outcome<()> {
    if !s.initialized() {
        Some((s, Err(GovError::NotInitialized)))
    } else if id >= s.proposals.len() {
        Some((s, Err(GovError::ProposalNotFound)))
    } else {
        let p = s.proposals[id as int];
        if caller != p.proposer && caller != s.admin.unwrap() {
            Some((s, Err(GovError::Unauthorized)))
        } else if p.status == ProposalStatus::Executed {
            Some((s, Err(GovError::ProposalAlreadyExecuted)))
        } else if p.status == ProposalStatus::Cancelled {
            Some((s, Err(GovError::ProposalAlreadyCancelled)))
        } else {
            let q = Proposal { status: ProposalStatus::Cancelled, ..p };
            Some((GovView { proposals: s.proposals.update(id as int, q), ..s }, Ok(())))
        }
    }
}

/// `update_config`: the admin replaces the proposal parameters.
pub open spec fn update_config_spec(s: GovView, caller: Address, new_config: GovConfig) -> Outcome<
    (),
> {
    if !s.initialized() {
        Some((s, Err(GovError::NotInitialized)))
    } else if caller != s.admin.unwrap() {
        Some((s, Err(GovError::AdminOnly)))
    } else if new_config.voting_period == 0 {
        Some((s, Err(GovError::InvalidDuration)))
    } else if new_config.quorum_bps > MAX_BPS || new_config.approval_threshold_bps > MAX_BPS {
        Some((s, Err(GovError::InvalidParameter)))
    } else {
        Some((GovView { config: Some(new_config), ..s }, Ok(())))
    }
}

/// `stake_arbitrator`: lock `amount` more tokens; a single stake of at
/// least `MIN_STAKE` whitelists the staker.
pub open spec fn stake_arbitrator_spec(s: GovView, caller: Address, amount: i128) -> Outcome<
    TokenTransfer,
> {
    if !s.initialized() {
        Some((s, Err(GovError::NotInitialized)))
    } else if amount <= 0 {
        Some((s, Err(GovError::InsufficientStake)))
    } else if !fits_i128(stake_of(s, caller) + amount) {
        None
    } else {
        let t = TokenTransfer::Deposit { token: s.config.unwrap().token, from: caller, amount };
        let arbitrators = if amount >= MIN_STAKE {
            s.arbitrators.insert(caller)
        } else {
            s.arbitrators
        };
        Some(
            (
                GovView {
                    stakes: s.stakes.insert(caller, (stake_of(s, caller) + amount) as i128),
                    arbitrators,
                    ..s
                },
                Ok(t),
            ),
        )
    }
}

/// `withdraw_stake`: the first call starts the cooldown; a call after it
/// elapsed returns the whole stake and clears the staker's records.
pub open spec fn withdraw_stake_spec(s: GovView, caller: Address, now: u64) -> Outcome<
    TokenTransfer,
> {
    if !s.initialized() {
        Some((s, Err(GovError::NotInitialized)))
    } else if stake_of(s, caller) <= 0 {
        Some((s, Err(GovError::NoStakeToWithdraw)))
    } else if !s.cooldowns.contains_key(caller) {
        if !fits_u64(now + WITHDRAW_COOLDOWN) {
            None
        } else {
            Some(
                (
                    GovView {
                        cooldowns: s.cooldowns.insert(caller, (now + WITHDRAW_COOLDOWN) as u64),
                        ..s
                    },
                    Err(GovError::StakeCooldownActive),
                ),
            )
        }
    } else if now < s.cooldowns[caller] {
        Some((s, Err(GovError::StakeCooldownActive)))
    } else {
        let t = TokenTransfer::Payout {
            token: s.config.unwrap().token,
            to: caller,
            amount: stake_of(s, caller),
        };
        Some(
            (
                GovView {
                    stakes: s.stakes.remove(caller),
                    arbitrators: s.arbitrators.remove(caller),
                    cooldowns: s.cooldowns.remove(caller),
                    ..s
                },
                Ok(t),
            ),
        )
    }
}

/// The part of a stake that a slash takes: `stake * SLASH_PERCENT / 100`.
pub open spec fn slash_amount(stake: int) -> int {
    trunc_div(stake * SLASH_PERCENT, 100)
}

/// `slash_arbitrator`: the admin sends `SLASH_PERCENT` of a stake to
/// `recipient`; a remainder below `MIN_STAKE` is cleared with the whitelist
/// entry.
pub open spec fn slash_arbitrator_spec(
    s: GovView,
    caller: Address,
    arbitrator: Address,
    recipient: Address,
) -> Outcome<TokenTransfer> {
    let stake = stake_of(s, arbitrator);
    if !s.initialized() {
        Some((s, Err(GovError::NotInitialized)))
    } else if caller != s.admin.unwrap() {
        Some((s, Err(GovError::AdminOnly)))
    } else if stake <= 0 {
        Some((s, Err(GovError::NotArbitrator)))
    } else if !fits_i128(stake * SLASH_PERCENT) {
        None
    } else if slash_amount(stake as int) > stake {
        Some((s, Err(GovError::SlashExceedsStake)))
    } else {
        let amount = slash_amount(stake as int) as i128;
        let remaining = (stake - amount) as i128;
        let t = TokenTransfer::Payout { token: s.config.unwrap().token, to: recipient, amount };
        let next = if remaining < MIN_STAKE {
            GovView {
                arbitrators: s.arbitrators.remove(arbitrator),
                stakes: s.stakes.remove(arbitrator),
                ..s
            }
        } else {
            GovView { stakes: s.stakes.insert(arbitrator, remaining), ..s }
        };
        Some((next, Ok(t)))
    }
}

/// `initialize_jury_config`: the admin sets the jury parameters; pools
/// already created keep their ids.
pub open spec fn initialize_jury_config_spec(
    s: GovView,
    caller: Address,
    voting_period: u64,
    min_locked_tokens: i128,
    quorum_bps: u32,
) -> Outcome<()> {
    if !s.initialized() {
        Some((s, Err(GovError::NotInitialized)))
    } else if caller != s.admin.unwrap() {
        Some((s, Err(GovError::AdminOnly)))
    } else if voting_period == 0 {
        Some((s, Err(GovError::InvalidDuration)))
    } else if quorum_bps > MAX_BPS {
        Some((s, Err(GovError::InvalidParameter)))
    } else {
        let c = JuryPoolConfig { voting_period, min_locked_tokens, quorum_bps };
        Some((GovView { jury_config: Some(c), ..s }, Ok(())))
    }
}

/// `create_jury_pool`: open a jury vote on a disputed milestone at `now`.
pub open spec fn create_jury_pool_spec(
    s: GovView,
    escrow_id: u64,
    milestone_id: u64,
    client: Address,
    freelancer: Address,
    disputed_amount: i128,
    token: Address,
    now: u64,
) -> Outcome<u64> {
    let c = jury_config_or_default(s.jury_config);
    if !s.initialized() {
        Some((s, Err(GovError::NotInitialized)))
    } else if disputed_amount <= 0 {
        Some((s, Err(GovError::InvalidParameter)))
    } else if !fits_u64(now + c.voting_period) || s.jury_pool_counter == u64::MAX {
        None
    } else {
        let id = s.jury_pool_counter;
        let pool = JuryPool {
            pool_id: id,
            milestone_id,
            escrow_id,
            client,
            freelancer,
            disputed_amount,
            token,
            voting_start: now,
            voting_end: (now + c.voting_period) as u64,
            weight_for_client: 0,
            weight_for_freelancer: 0,
            total_locked_tokens: 0,
            resolution: JuryResolution::Pending,
            resolved_at: None,
            created_at: now,
        };
        Some(
            (
                GovView {
                    jury_pool_counter: (id + 1) as u64,
                    jury_pools: s.jury_pools.push(pool),
                    ..s
                },
                Ok(id),
            ),
        )
    }
}

/// `cast_jury_vote`: a juror adds its locked stake to one side.
pub open spec fn cast_jury_vote_spec(
    s: GovView,
    voter: Address,
    pool_id: u64,
    for_client: bool,
    now: u64,
) -> Outcome<()> {
    if !s.initialized() {
        Some((s, Err(GovError::NotInitialized)))
    } else if pool_id >= s.jury_pools.len() {
        Some((s, Err(GovError::JuryPoolNotFound)))
    } else {
        let p = s.jury_pools[pool_id as int];
        let locked = stake_of(s, voter);
        if p.resolution != JuryResolution::Pending {
            Some((s, Err(GovError::JuryPoolAlreadyResolved)))
        } else if now < p.voting_start {
            Some((s, Err(GovError::JuryVotingNotStarted)))
        } else if now > p.voting_end {
            Some((s, Err(GovError::JuryVotingClosed)))
        } else if has_voted_in(s.jury_voted, pool_id, voter) {
            Some((s, Err(GovError::JuryAlreadyVoted)))
        } else if locked < jury_config_or_default(s.jury_config).min_locked_tokens {
            Some((s, Err(GovError::JuryInsufficientLockedTokens)))
        } else if for_client && !fits_i128(p.weight_for_client + locked) {
            None
        } else if !for_client && !fits_i128(p.weight_for_freelancer + locked) {
            None
        } else if !fits_i128(p.total_locked_tokens + locked) {
            None
        } else {
            let q0 = if for_client {
                JuryPool { weight_for_client: (p.weight_for_client + locked) as i128, ..p }
            } else {
                JuryPool { weight_for_freelancer: (p.weight_for_freelancer + locked) as i128, ..p }
            };
            let q = JuryPool { total_locked_tokens: (p.total_locked_tokens + locked) as i128, ..q0 };
            Some(
                (
                    GovView {
                        jury_pools: s.jury_pools.update(pool_id as int, q),
                        jury_voted: s.jury_voted.push((pool_id, voter)),
                        ..s
                    },
                    Ok(()),
                ),
            )
        }
    }
}

/// Locked tokens a jury pool needs: `disputed_amount * quorum_bps / 10_000`.
pub open spec fn jury_quorum_required(p: JuryPool, c: JuryPoolConfig) -> int {
    trunc_div(p.disputed_amount * c.quorum_bps, 10_000)
}

/// `resolve_jury_pool`: after the vote, the client wins with strictly more
/// weight, the freelancer otherwise; a resolved pool reports its result.
pub open spec fn resolve_jury_pool_spec(s: GovView, pool_id: u64, now: u64) -> Outcome<bool> {
    if !s.initialized() {
        Some((s, Err(GovError::NotInitialized)))
    } else if pool_id >= s.jury_pools.len() {
        Some((s, Err(GovError::JuryPoolNotFound)))
    } else {
        let p = s.jury_pools[pool_id as int];
        let c = jury_config_or_default(s.jury_config);
        if p.resolution != JuryResolution::Pending {
            Some((s, Ok(p.resolution == JuryResolution::ClientWins)))
        } else if now <= p.voting_end {
            Some((s, Err(GovError::JuryVotingClosed)))
        } else if !fits_i128(p.disputed_amount * c.quorum_bps) {
            None
        } else if p.total_locked_tokens < jury_quorum_required(p, c) {
            Some((s, Err(GovError::JuryQuorumNotReached)))
        } else {
            let client_wins = p.weight_for_client > p.weight_for_freelancer;
            let resolution = if client_wins {
                JuryResolution::ClientWins
            } else {
                JuryResolution::FreelancerWins
            };
            let q = JuryPool { resolution, resolved_at: Some(now), ..p };
            Some(
                (GovView { jury_pools: s.jury_pools.update(pool_id as int, q), ..s }, Ok(client_wins)),
            )
        }
    }
}

/// `distribute_jury_funds`: pay the disputed amount to the winner of a
/// resolved pool.
pub open spec fn distribute_jury_funds_spec(s: GovView, pool_id: u64) -> Outcome<TokenTransfer> {
    if !s.initialized() {
        Some((s, Err(GovError::NotInitialized)))
    } else if pool_id >= s.jury_pools.len() {
        Some((s, Err(GovError::JuryPoolNotFound)))
    } else {
        let p = s.jury_pools[pool_id as int];
        if p.resolution == JuryResolution::Pending {
            Some((s, Err(GovError::JuryPoolNotResolved)))
        } else {
            let to = if p.resolution == JuryResolution::ClientWins {
                p.client
            } else {
                p.freelancer
            };
            Some((s, Ok(TokenTransfer::Payout { token: p.token, to, amount: p.disputed_amount })))
        }
    }
}

} // verus!
