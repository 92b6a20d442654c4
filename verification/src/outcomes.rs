//! What each governance operation yields, stated directly over its inputs:
//! when it succeeds, what it then records and returns, and which inputs it
//! refuses with which error.

use vstd::prelude::*;
use crate::errors::GovError;
use crate::governance::lemma_nonneg_product;
use crate::model::{
    cancel_proposal_spec, cast_jury_vote_spec, cast_vote_spec, create_jury_pool_spec,
    create_proposal_spec, distribute_jury_funds_spec, execute_proposal_spec,
    finalize_proposal_spec, initialize_jury_config_spec, initialize_spec, resolve_jury_pool_spec,
    slash_arbitrator_spec, stake_arbitrator_spec, update_config_spec, withdraw_stake_spec,
    GovView,
};
use crate::types::{
    Address, GovConfig, JuryPool, JuryPoolConfig, JuryResolution, Proposal, ProposalPayload,
    ProposalStatus, ProposalType, TokenTransfer,
};

verus! {

/// After the vote, an active proposal is queued exactly when its FOR and
/// AGAINST votes together reach `total_supply_snapshot * quorum_bps / 10_000`
/// and its FOR votes reach
/// `(votes_for + votes_against) * approval_threshold_bps / 10_000`; it is
/// defeated otherwise.
pub proof fn law_finalize_applies_quorum_and_approval(s: GovView, id: u64, now: u64)
    requires
        s.wf(),
        s.admin is Some,
        id < s.proposals.len(),
        s.proposals[id as int].status == ProposalStatus::Active,
        now > s.proposals[id as int].vote_end,
        s.proposals[id as int].votes_for + s.proposals[id as int].votes_against <= i128::MAX,
        s.proposals[id as int].total_supply_snapshot * s.config.unwrap().quorum_bps
            <= i128::MAX,
        (s.proposals[id as int].votes_for + s.proposals[id as int].votes_against)
            * s.config.unwrap().approval_threshold_bps <= i128::MAX,
    ensures
        ({
            let p = s.proposals[id as int];
            let c = s.config.unwrap();
            let total = p.votes_for + p.votes_against;
            let passes = total >= p.total_supply_snapshot * c.quorum_bps / 10_000 && p.votes_for
                >= total * c.approval_threshold_bps / 10_000;
            let status = if passes {
                ProposalStatus::Queued
            } else {
                ProposalStatus::Defeated
            };
            finalize_proposal_spec(s, id, now) matches Some((t, r)) && r == Ok::<
                ProposalStatus,
                GovError,
            >(status) && t.proposals.len() == s.proposals.len() && t.proposals[id as int].status
                == status && t.proposals[id as int].votes_for == p.votes_for
                && t.proposals[id as int].votes_against == p.votes_against
        }),
{
    let p = s.proposals[id as int];
    let c = s.config.unwrap();
    lemma_nonneg_product(p.total_supply_snapshot as int, c.quorum_bps as int);
    lemma_nonneg_product(p.votes_for + p.votes_against, c.approval_threshold_bps as int);
}

/// Any address, the proposer included, may vote once on an active
/// proposal inside its window: with positive power and no earlier vote of
/// its own, the vote is accepted, recorded, and adds the power to the chosen
/// side only.
pub proof fn law_admissible_vote_is_counted(
    s: GovView,
    voter: Address,
    id: u64,
    support: bool,
    now: u64,
    power: i128,
)
    requires
        s.admin is Some,
        id < s.proposals.len(),
        s.proposals[id as int].status == ProposalStatus::Active,
        s.proposals[id as int].vote_start <= now <= s.proposals[id as int].vote_end,
        !s.voted.contains((id, voter)),
        power > 0,
        support ==> s.proposals[id as int].votes_for + power <= i128::MAX,
        !support ==> s.proposals[id as int].votes_against + power <= i128::MAX,
    ensures
        ({
            let p = s.proposals[id as int];
            cast_vote_spec(s, voter, id, support, now, power) matches Some((t, r)) && r == Ok::<
                (),
                GovError,
            >(()) && t.proposals.len() == s.proposals.len() && t.proposals[id as int].votes_for
                == p.votes_for + (if support {
                power as int
            } else {
                0
            }) && t.proposals[id as int].votes_against == p.votes_against + (if support {
                0
            } else {
                power as int
            }) && t.proposals[id as int].status == ProposalStatus::Active && t.voted.contains(
                (id, voter),
            ) && (forall|j: int|
                0 <= j < s.proposals.len() && j != id ==> t.proposals[j] == s.proposals[j])
        }),
{
    let t = cast_vote_spec(s, voter, id, support, now, power).unwrap().0;
    assert(t.voted[t.voted.len() - 1] == (id, voter));
}

/// The proposer or the admin cancels any proposal that is neither executed
/// nor already cancelled, whatever stage it is in (queued included).
pub proof fn law_cancel_by_proposer_or_admin(s: GovView, caller: Address, id: u64)
    requires
        s.admin is Some,
        id < s.proposals.len(),
        caller == s.proposals[id as int].proposer || s.admin == Some(caller),
        s.proposals[id as int].status != ProposalStatus::Executed,
        s.proposals[id as int].status != ProposalStatus::Cancelled,
    ensures
        cancel_proposal_spec(s, caller, id) matches Some((t, r)) && r == Ok::<(), GovError>(())
            && t.proposals.len() == s.proposals.len() && t.proposals[id as int].status
            == ProposalStatus::Cancelled,
{
}

/// Anyone other than the proposer and the admin is refused, and nothing
/// changes.
pub proof fn law_cancel_by_others_refused(s: GovView, caller: Address, id: u64)
    requires
        s.admin is Some,
        id < s.proposals.len(),
        caller != s.proposals[id as int].proposer,
        s.admin != Some(caller),
    ensures
        cancel_proposal_spec(s, caller, id) == Some(
            (s, Err::<(), GovError>(GovError::Unauthorized)),
        ),
{
}

/// In an open jury pool, a first vote is refused exactly when the juror's
/// locked stake is below the minimum of the jury configuration in force
/// (the one the admin set, else 100); otherwise the stake is added to the
/// chosen side and to the total.
pub proof fn law_jury_vote_needs_configured_minimum(
    s: GovView,
    voter: Address,
    pool_id: u64,
    for_client: bool,
    now: u64,
)
    requires
        s.admin is Some,
        pool_id < s.jury_pools.len(),
        s.jury_pools[pool_id as int].resolution == JuryResolution::Pending,
        s.jury_pools[pool_id as int].voting_start <= now <= s.jury_pools[pool_id as int].voting_end,
        !s.jury_voted.contains((pool_id, voter)),
    ensures
        ({
            let p = s.jury_pools[pool_id as int];
            let locked: int = if s.stakes.contains_key(voter) {
                s.stakes[voter] as int
            } else {
                0
            };
            let min: int = match s.jury_config {
                Some(c) => c.min_locked_tokens as int,
                None => 100,
            };
            &&& locked < min ==> cast_jury_vote_spec(s, voter, pool_id, for_client, now) == Some(
                (s, Err::<(), GovError>(GovError::JuryInsufficientLockedTokens)),
            )
            &&& (locked >= min && p.weight_for_client + locked <= i128::MAX
                && p.weight_for_freelancer + locked <= i128::MAX && p.total_locked_tokens + locked
                <= i128::MAX && p.weight_for_client + locked >= i128::MIN
                && p.weight_for_freelancer + locked >= i128::MIN && p.total_locked_tokens + locked
                >= i128::MIN) ==> (cast_jury_vote_spec(s, voter, pool_id, for_client, now) matches Some(
                (t, r),
            ) && r == Ok::<(), GovError>(()) && t.jury_pools[pool_id as int].weight_for_client
                == p.weight_for_client + (if for_client {
                locked
            } else {
                0
            }) && t.jury_pools[pool_id as int].weight_for_freelancer == p.weight_for_freelancer + (
            if for_client {
                0
            } else {
                locked
            }) && t.jury_pools[pool_id as int].total_locked_tokens == p.total_locked_tokens + locked
                && t.jury_voted.contains((pool_id, voter)))
        }),
{
    if let Some((t, r)) = cast_jury_vote_spec(s, voter, pool_id, for_client, now) {
        if r is Ok {
            assert(t.jury_voted[t.jury_voted.len() - 1] == (pool_id, voter));
        }
    }
}

/// A pending jury pool whose vote closed is resolved only if its locked
/// total reaches `disputed_amount * quorum_bps / 10_000`, with the quorum of
/// the jury configuration in force (the one the admin set, else 500); it is
/// refused with `JuryQuorumNotReached` and left unchanged otherwise. When
/// resolved, the client wins exactly when it has strictly more weight.
pub proof fn law_jury_quorum_is_configured_share(s: GovView, pool_id: u64, now: u64)
    requires
        s.wf(),
        s.admin is Some,
        pool_id < s.jury_pools.len(),
        s.jury_pools[pool_id as int].resolution == JuryResolution::Pending,
        now > s.jury_pools[pool_id as int].voting_end,
        s.jury_pools[pool_id as int].disputed_amount * (match s.jury_config {
            Some(c) => c.quorum_bps as int,
            None => 500,
        }) <= i128::MAX,
    ensures
        ({
            let p = s.jury_pools[pool_id as int];
            let quorum_bps: int = match s.jury_config {
                Some(c) => c.quorum_bps as int,
                None => 500,
            };
            let required = p.disputed_amount * quorum_bps / 10_000;
            let client_wins = p.weight_for_client > p.weight_for_freelancer;
            &&& p.total_locked_tokens < required ==> resolve_jury_pool_spec(s, pool_id, now)
                == Some((s, Err::<bool, GovError>(GovError::JuryQuorumNotReached)))
            &&& p.total_locked_tokens >= required ==> (resolve_jury_pool_spec(
                s,
                pool_id,
                now,
            ) matches Some((t, r)) && r == Ok::<bool, GovError>(client_wins)
                && t.jury_pools[pool_id as int].resolution == (if client_wins {
                JuryResolution::ClientWins
            } else {
                JuryResolution::FreelancerWins
            }) && t.jury_pools[pool_id as int].resolved_at == Some(now))
        }),
{
    let p = s.jury_pools[pool_id as int];
    let quorum_bps: int = match s.jury_config {
        Some(c) => c.quorum_bps as int,
        None => 500,
    };
    lemma_nonneg_product(p.disputed_amount as int, quorum_bps);
}

/// `initialize` succeeds once, on an uninitialized contract, with a
/// non-zero voting period and basis points of at most 10 000; it records
/// the admin and exactly the given parameters. Each other case is refused
/// with its error and changes nothing.
pub proof fn law_initialize_outcome(
    s: GovView,
    admin: Address,
    token: Address,
    proposal_threshold: i128,
    voting_delay: u64,
    voting_period: u64,
    timelock_delay: u64,
    quorum_bps: u32,
    approval_threshold_bps: u32,
)
    ensures
        ({
            let r = initialize_spec(
                s,
                admin,
                token,
                proposal_threshold,
                voting_delay,
                voting_period,
                timelock_delay,
                quorum_bps,
                approval_threshold_bps,
            );
            &&& s.admin is Some ==> r == Some((s, Err::<(), GovError>(GovError::AlreadyInitialized)))
            &&& s.admin is None && voting_period == 0 ==> r == Some(
                (s, Err::<(), GovError>(GovError::InvalidDuration)),
            )
            &&& s.admin is None && voting_period > 0 && (quorum_bps > 10_000
                || approval_threshold_bps > 10_000) ==> r == Some(
                (s, Err::<(), GovError>(GovError::InvalidParameter)),
            )
            &&& s.admin is None && voting_period > 0 && quorum_bps <= 10_000
                && approval_threshold_bps <= 10_000 ==> (r matches Some((t, res)) && res == Ok::<
                (),
                GovError,
            >(()) && t.admin == Some(admin) && t.config == Some(
                GovConfig {
                    token,
                    proposal_threshold,
                    voting_period,
                    voting_delay,
                    timelock_delay,
                    quorum_bps,
                    approval_threshold_bps,
                },
            ) && t.proposals == s.proposals && t.stakes == s.stakes && t.jury_pools
                == s.jury_pools)
        }),
{
}

/// A proposal is created when the contract is initialized, the proposer's
/// power reaches the threshold, the payload fits the type, and the snapshot
/// is not negative. It gets the next id and the schedule
/// `vote_start = now + voting_delay`, `vote_end = vote_start + voting_period`,
/// `executable_at = vote_end + timelock_delay`, and starts active with no
/// votes. Each refused case gives its error and changes nothing.
pub proof fn law_create_proposal_outcome(
    s: GovView,
    proposer: Address,
    title: String,
    description: String,
    proposal_type: ProposalType,
    payload: ProposalPayload,
    supply_snapshot: i128,
    now: u64,
    power: i128,
)
    requires
        s.wf(),
        s.admin is Some ==> now + s.config.unwrap().voting_delay + s.config.unwrap().voting_period
            + s.config.unwrap().timelock_delay <= u64::MAX,
        s.proposals.len() < u64::MAX,
    ensures
        ({
            let r = create_proposal_spec(
                s,
                proposer,
                title,
                description,
                proposal_type,
                payload,
                supply_snapshot,
                now,
                power,
            );
            let c = s.config.unwrap();
            let fits = match (proposal_type, payload) {
                (ProposalType::ParameterChange, ProposalPayload::Parameter(_)) => true,
                (ProposalType::ContractUpgrade, ProposalPayload::Upgrade(_)) => true,
                (ProposalType::FundAllocation, ProposalPayload::Fund(_)) => true,
                (ProposalType::TextProposal, ProposalPayload::Text) => true,
                _ => false,
            };
            &&& s.admin is None ==> r == Some((s, Err::<u64, GovError>(GovError::NotInitialized)))
            &&& s.admin is Some && power < c.proposal_threshold ==> r == Some(
                (s, Err::<u64, GovError>(GovError::InsufficientVotingPower)),
            )
            &&& s.admin is Some && power >= c.proposal_threshold && !fits ==> r == Some(
                (s, Err::<u64, GovError>(GovError::InvalidProposalType)),
            )
            &&& s.admin is Some && power >= c.proposal_threshold && fits && supply_snapshot < 0
                ==> r == Some((s, Err::<u64, GovError>(GovError::InvalidParameter)))
            &&& s.admin is Some && power >= c.proposal_threshold && fits && supply_snapshot >= 0
                ==> (r matches Some((t, res)) && res == Ok::<u64, GovError>(
                s.proposals.len() as u64,
            ) && t.proposals == s.proposals.push(
                Proposal {
                    id: s.proposals.len() as u64,
                    proposal_type,
                    proposer,
                    title,
                    description,
                    payload,
                    status: ProposalStatus::Active,
                    vote_start: (now + c.voting_delay) as u64,
                    vote_end: (now + c.voting_delay + c.voting_period) as u64,
                    executable_at: (now + c.voting_delay + c.voting_period
                        + c.timelock_delay) as u64,
                    votes_for: 0,
                    votes_against: 0,
                    total_supply_snapshot: supply_snapshot,
                    created_at: now,
                    executed_at: None,
                },
            ) && t.voted == s.voted && t.config == s.config)
        }),
{
}

/// A vote is refused, with nothing changed, on a missing proposal, on one
/// that is not active, before its window, after it, by a recorded voter,
/// or with no positive power, in that order.
pub proof fn law_vote_refusals(
    s: GovView,
    voter: Address,
    id: u64,
    support: bool,
    now: u64,
    power: i128,
)
    requires
        s.admin is Some,
    ensures
        ({
            let r = cast_vote_spec(s, voter, id, support, now, power);
            let p = s.proposals[id as int];
            &&& id >= s.proposals.len() ==> r == Some(
                (s, Err::<(), GovError>(GovError::ProposalNotFound)),
            )
            &&& id < s.proposals.len() && p.status != ProposalStatus::Active ==> r == Some(
                (s, Err::<(), GovError>(GovError::ProposalNotActive)),
            )
            &&& id < s.proposals.len() && p.status == ProposalStatus::Active && now < p.vote_start
                ==> r == Some((s, Err::<(), GovError>(GovError::VotingNotStarted)))
            &&& id < s.proposals.len() && p.status == ProposalStatus::Active && now >= p.vote_start
                && now > p.vote_end ==> r == Some(
                (s, Err::<(), GovError>(GovError::VotingClosed)),
            )
            &&& id < s.proposals.len() && p.status == ProposalStatus::Active && p.vote_start <= now
                <= p.vote_end && s.voted.contains((id, voter)) ==> r == Some(
                (s, Err::<(), GovError>(GovError::AlreadyVoted)),
            )
            &&& id < s.proposals.len() && p.status == ProposalStatus::Active && p.vote_start <= now
                <= p.vote_end && !s.voted.contains((id, voter)) && power <= 0 ==> r == Some(
                (s, Err::<(), GovError>(GovError::InsufficientVotingPower)),
            )
        }),
{
}

/// Finalization is refused, with nothing changed, on a missing proposal,
/// on one that is not active, and while its vote is still open
/// (`now <= vote_end`).
pub proof fn law_finalize_refusals(s: GovView, id: u64, now: u64)
    requires
        s.admin is Some,
    ensures
        ({
            let r = finalize_proposal_spec(s, id, now);
            let p = s.proposals[id as int];
            &&& id >= s.proposals.len() ==> r == Some(
                (s, Err::<ProposalStatus, GovError>(GovError::ProposalNotFound)),
            )
            &&& id < s.proposals.len() && p.status != ProposalStatus::Active ==> r == Some(
                (s, Err::<ProposalStatus, GovError>(GovError::ProposalNotActive)),
            )
            &&& id < s.proposals.len() && p.status == ProposalStatus::Active && now <= p.vote_end
                ==> r == Some((s, Err::<ProposalStatus, GovError>(GovError::VotingClosed)))
        }),
{
}

/// A queued proposal is executed once its timelock has elapsed
/// (`now >= executable_at`): it becomes executed at `now`, and a fund
/// allocation asks for exactly its payment. A proposal that is not queued,
/// or whose timelock has not elapsed, is refused and nothing changes.
pub proof fn law_execute_outcome(s: GovView, id: u64, now: u64)
    requires
        s.admin is Some,
        id < s.proposals.len(),
    ensures
        ({
            let r = execute_proposal_spec(s, id, now);
            let p = s.proposals[id as int];
            let transfer = match p.payload {
                ProposalPayload::Fund(f) => Some(
                    TokenTransfer::Payout { token: f.token, to: f.recipient, amount: f.amount },
                ),
                _ => None,
            };
            &&& p.status != ProposalStatus::Queued ==> r == Some(
                (s, Err::<Option<TokenTransfer>, GovError>(GovError::ProposalNotPassed)),
            )
            &&& p.status == ProposalStatus::Queued && now < p.executable_at ==> r == Some(
                (s, Err::<Option<TokenTransfer>, GovError>(GovError::TimelockNotElapsed)),
            )
            &&& p.status == ProposalStatus::Queued && now >= p.executable_at ==> (r matches Some(
                (t, res),
            ) && res == Ok::<Option<TokenTransfer>, GovError>(transfer) && t.proposals.len()
                == s.proposals.len() && t.proposals[id as int].status == ProposalStatus::Executed
                && t.proposals[id as int].executed_at == Some(now)
                && t.proposals[id as int].payload == p.payload)
        }),
{
}

/// The admin replaces the configuration with any one that has a non-zero
/// voting period and basis points of at most 10 000; anyone else is refused
/// with `AdminOnly`, and invalid parameters with their error.
pub proof fn law_update_config_outcome(s: GovView, caller: Address, new_config: GovConfig)
    requires
        s.admin is Some,
    ensures
        ({
            let r = update_config_spec(s, caller, new_config);
            let valid = new_config.voting_period > 0 && new_config.quorum_bps <= 10_000
                && new_config.approval_threshold_bps <= 10_000;
            &&& s.admin != Some(caller) ==> r == Some(
                (s, Err::<(), GovError>(GovError::AdminOnly)),
            )
            &&& s.admin == Some(caller) && new_config.voting_period == 0 ==> r == Some(
                (s, Err::<(), GovError>(GovError::InvalidDuration)),
            )
            &&& s.admin == Some(caller) && new_config.voting_period > 0 && !valid ==> r == Some(
                (s, Err::<(), GovError>(GovError::InvalidParameter)),
            )
            &&& s.admin == Some(caller) && valid ==> (r matches Some((t, res)) && res == Ok::<
                (),
                GovError,
            >(()) && t.config == Some(new_config) && t.admin == s.admin && t.proposals
                == s.proposals)
        }),
{
}

/// A positive stake is added to what the caller had locked (zero if
/// nothing), the caller pays exactly that amount of the governance token in,
/// and a single stake of at least 1 000 whitelists the caller; no other
/// staker changes. A stake that is not positive is refused.
pub proof fn law_stake_outcome(s: GovView, caller: Address, amount: i128)
    requires
        s.admin is Some,
        (if s.stakes.contains_key(caller) {
            s.stakes[caller] as int
        } else {
            0
        }) + amount <= i128::MAX,
    ensures
        ({
            let r = stake_arbitrator_spec(s, caller, amount);
            let before: int = if s.stakes.contains_key(caller) {
                s.stakes[caller] as int
            } else {
                0
            };
            &&& amount <= 0 ==> r == Some(
                (s, Err::<TokenTransfer, GovError>(GovError::InsufficientStake)),
            )
            &&& amount > 0 ==> (r matches Some((t, res)) && res == Ok::<TokenTransfer, GovError>(
                TokenTransfer::Deposit { token: s.config.unwrap().token, from: caller, amount },
            ) && t.stakes.contains_key(caller) && t.stakes[caller] == before + amount && (forall|
                x: Address,
            |
                x != caller ==> (#[trigger] t.stakes.contains_key(x) == s.stakes.contains_key(x)
                    && (s.stakes.contains_key(x) ==> t.stakes[x] == s.stakes[x]))) && (
            t.arbitrators.contains(caller) <==> (amount >= 1_000 || s.arbitrators.contains(
                caller,
            ))) && (forall|x: Address|
                x != caller ==> (#[trigger] t.arbitrators.contains(x) == s.arbitrators.contains(
                    x,
                ))))
        }),
{
}

/// Withdrawing needs a stake. The first request sets the cooldown to
/// `now + 604 800` and is reported as `StakeCooldownActive`; before the
/// cooldown elapses the request is refused unchanged; once `now` reaches it,
/// the whole stake is paid back and the stake, whitelist entry and cooldown
/// of the caller are cleared.
pub proof fn law_withdraw_outcome(s: GovView, caller: Address, now: u64)
    requires
        s.wf(),
        s.admin is Some,
        now + 604_800 <= u64::MAX,
    ensures
        ({
            let r = withdraw_stake_spec(s, caller, now);
            let staked = s.stakes.contains_key(caller);
            &&& !staked ==> r == Some(
                (s, Err::<TokenTransfer, GovError>(GovError::NoStakeToWithdraw)),
            )
            &&& staked && !s.cooldowns.contains_key(caller) ==> (r matches Some((t, res)) && res
                == Err::<TokenTransfer, GovError>(GovError::StakeCooldownActive) && t.cooldowns
                == s.cooldowns.insert(caller, (now + 604_800) as u64) && t.stakes == s.stakes
                && t.arbitrators == s.arbitrators)
            &&& staked && s.cooldowns.contains_key(caller) && now < s.cooldowns[caller] ==> r
                == Some((s, Err::<TokenTransfer, GovError>(GovError::StakeCooldownActive)))
            &&& staked && s.cooldowns.contains_key(caller) && now >= s.cooldowns[caller] ==> (
            r matches Some((t, res)) && res == Ok::<TokenTransfer, GovError>(
                TokenTransfer::Payout {
                    token: s.config.unwrap().token,
                    to: caller,
                    amount: s.stakes[caller],
                },
            ) && t.stakes == s.stakes.remove(caller) && t.arbitrators == s.arbitrators.remove(
                caller,
            ) && t.cooldowns == s.cooldowns.remove(caller))
        }),
{
}

/// The admin slashes a positive stake by `stake * 10 / 100`, paid to the
/// recipient. A remainder of at least 1 000 stays locked; a smaller one is
/// cleared together with the whitelist entry. Anyone else is refused with
/// `AdminOnly`, and an address without stake with `NotArbitrator`.
pub proof fn law_slash_outcome(s: GovView, caller: Address, arbitrator: Address, recipient: Address)
    requires
        s.wf(),
        s.admin is Some,
        s.stakes.contains_key(arbitrator) ==> s.stakes[arbitrator] * 10 <= i128::MAX,
    ensures
        ({
            let r = slash_arbitrator_spec(s, caller, arbitrator, recipient);
            let stake = s.stakes[arbitrator];
            let amount = stake * 10 / 100;
            &&& s.admin != Some(caller) ==> r == Some(
                (s, Err::<TokenTransfer, GovError>(GovError::AdminOnly)),
            )
            &&& s.admin == Some(caller) && !s.stakes.contains_key(arbitrator) ==> r == Some(
                (s, Err::<TokenTransfer, GovError>(GovError::NotArbitrator)),
            )
            &&& s.admin == Some(caller) && s.stakes.contains_key(arbitrator) ==> (r matches Some(
                (t, res),
            ) && res == Ok::<TokenTransfer, GovError>(
                TokenTransfer::Payout {
                    token: s.config.unwrap().token,
                    to: recipient,
                    amount: amount as i128,
                },
            ) && (stake - amount >= 1_000 ==> t.stakes == s.stakes.insert(
                arbitrator,
                (stake - amount) as i128,
            ) && t.arbitrators == s.arbitrators) && (stake - amount < 1_000 ==> t.stakes
                == s.stakes.remove(arbitrator) && t.arbitrators == s.arbitrators.remove(
                arbitrator,
            )))
        }),
{
    if s.stakes.contains_key(arbitrator) {
        let stake = s.stakes[arbitrator] as int;
        assert(0 <= stake * 10 / 100 <= stake) by (nonlinear_arith)
            requires
                stake > 0,
        ;
    }
}

/// The admin sets any jury parameters with a non-zero period and a quorum
/// of at most 10 000 basis points; existing pools and the pool count are
/// untouched. Anyone else is refused with `AdminOnly`.
pub proof fn law_initialize_jury_config_outcome(
    s: GovView,
    caller: Address,
    voting_period: u64,
    min_locked_tokens: i128,
    quorum_bps: u32,
)
    requires
        s.admin is Some,
    ensures
        ({
            let r = initialize_jury_config_spec(
                s,
                caller,
                voting_period,
                min_locked_tokens,
                quorum_bps,
            );
            &&& s.admin != Some(caller) ==> r == Some(
                (s, Err::<(), GovError>(GovError::AdminOnly)),
            )
            &&& s.admin == Some(caller) && voting_period == 0 ==> r == Some(
                (s, Err::<(), GovError>(GovError::InvalidDuration)),
            )
            &&& s.admin == Some(caller) && voting_period > 0 && quorum_bps > 10_000 ==> r == Some(
                (s, Err::<(), GovError>(GovError::InvalidParameter)),
            )
            &&& s.admin == Some(caller) && voting_period > 0 && quorum_bps <= 10_000 ==> (
            r matches Some((t, res)) && res == Ok::<(), GovError>(()) && t.jury_config == Some(
                JuryPoolConfig { voting_period, min_locked_tokens, quorum_bps },
            ) && t.jury_pools == s.jury_pools && t.jury_pool_counter == s.jury_pool_counter)
        }),
{
}

/// A jury pool with a positive disputed amount gets the next id, opens at
/// `now` for the voting period in force (the configured one, else
/// 604 800 s) with no votes, and leaves existing pools as they were. A
/// disputed amount that is not positive is refused.
pub proof fn law_create_jury_pool_outcome(
    s: GovView,
    escrow_id: u64,
    milestone_id: u64,
    client: Address,
    freelancer: Address,
    disputed_amount: i128,
    token: Address,
    now: u64,
)
    requires
        s.wf(),
        s.admin is Some,
        s.jury_pool_counter < u64::MAX,
        now + (match s.jury_config {
            Some(c) => c.voting_period as int,
            None => 604_800,
        }) <= u64::MAX,
    ensures
        ({
            let r = create_jury_pool_spec(
                s,
                escrow_id,
                milestone_id,
                client,
                freelancer,
                disputed_amount,
                token,
                now,
            );
            let period: int = match s.jury_config {
                Some(c) => c.voting_period as int,
                None => 604_800,
            };
            &&& disputed_amount <= 0 ==> r == Some(
                (s, Err::<u64, GovError>(GovError::InvalidParameter)),
            )
            &&& disputed_amount > 0 ==> (r matches Some((t, res)) && res == Ok::<u64, GovError>(
                s.jury_pools.len() as u64,
            ) && t.jury_pool_counter == s.jury_pool_counter + 1 && t.jury_pools
                == s.jury_pools.push(
                JuryPool {
                    pool_id: s.jury_pools.len() as u64,
                    milestone_id,
                    escrow_id,
                    client,
                    freelancer,
                    disputed_amount,
                    token,
                    voting_start: now,
                    voting_end: (now + period) as u64,
                    weight_for_client: 0,
                    weight_for_freelancer: 0,
                    total_locked_tokens: 0,
                    resolution: JuryResolution::Pending,
                    resolved_at: None,
                    created_at: now,
                },
            ))
        }),
{
}

/// A jury vote is refused, with nothing changed, on a missing pool, on a
/// resolved one, before its window, after it, and by a juror who already
/// voted in it, in that order.
pub proof fn law_jury_vote_refusals(
    s: GovView,
    voter: Address,
    pool_id: u64,
    for_client: bool,
    now: u64,
)
    requires
        s.admin is Some,
    ensures
        ({
            let r = cast_jury_vote_spec(s, voter, pool_id, for_client, now);
            let p = s.jury_pools[pool_id as int];
            &&& pool_id >= s.jury_pools.len() ==> r == Some(
                (s, Err::<(), GovError>(GovError::JuryPoolNotFound)),
            )
            &&& pool_id < s.jury_pools.len() && p.resolution != JuryResolution::Pending ==> r
                == Some((s, Err::<(), GovError>(GovError::JuryPoolAlreadyResolved)))
            &&& pool_id < s.jury_pools.len() && p.resolution == JuryResolution::Pending && now
                < p.voting_start ==> r == Some(
                (s, Err::<(), GovError>(GovError::JuryVotingNotStarted)),
            )
            &&& pool_id < s.jury_pools.len() && p.resolution == JuryResolution::Pending && now
                >= p.voting_start && now > p.voting_end ==> r == Some(
                (s, Err::<(), GovError>(GovError::JuryVotingClosed)),
            )
            &&& pool_id < s.jury_pools.len() && p.resolution == JuryResolution::Pending
                && p.voting_start <= now <= p.voting_end && s.jury_voted.contains((pool_id, voter))
                ==> r == Some((s, Err::<(), GovError>(GovError::JuryAlreadyVoted)))
        }),
{
}

/// A resolved pool reports whether the client won and changes nothing; a
/// pending pool whose vote is still open (`now <= voting_end`) is refused.
pub proof fn law_resolve_refusals_and_replay(s: GovView, pool_id: u64, now: u64)
    requires
        s.admin is Some,
        pool_id < s.jury_pools.len(),
    ensures
        ({
            let r = resolve_jury_pool_spec(s, pool_id, now);
            let p = s.jury_pools[pool_id as int];
            &&& p.resolution != JuryResolution::Pending ==> r == Some(
                (s, Ok::<bool, GovError>(p.resolution == JuryResolution::ClientWins)),
            )
            &&& p.resolution == JuryResolution::Pending && now <= p.voting_end ==> r == Some(
                (s, Err::<bool, GovError>(GovError::JuryVotingClosed)),
            )
        }),
{
}

/// Distribution pays the disputed amount of the pool's token to the client
/// when the client won and to the freelancer when the freelancer won, and
/// changes nothing; a pending pool is refused.
pub proof fn law_distribute_outcome(s: GovView, pool_id: u64)
    requires
        s.admin is Some,
        pool_id < s.jury_pools.len(),
    ensures
        ({
            let r = distribute_jury_funds_spec(s, pool_id);
            let p = s.jury_pools[pool_id as int];
            &&& p.resolution == JuryResolution::Pending ==> r == Some(
                (s, Err::<TokenTransfer, GovError>(GovError::JuryPoolNotResolved)),
            )
            &&& p.resolution == JuryResolution::ClientWins ==> r == Some(
                (
                    s,
                    Ok::<TokenTransfer, GovError>(
                        TokenTransfer::Payout {
                            token: p.token,
                            to: p.client,
                            amount: p.disputed_amount,
                        },
                    ),
                ),
            )
            &&& p.resolution == JuryResolution::FreelancerWins ==> r == Some(
                (
                    s,
                    Ok::<TokenTransfer, GovError>(
                        TokenTransfer::Payout {
                            token: p.token,
                            to: p.freelancer,
                            amount: p.disputed_amount,
                        },
                    ),
                ),
            )
        }),
{
}

/// Before `initialize`, every operation that needs an initialized contract
/// is refused with `NotInitialized` and changes nothing.
pub proof fn law_uninitialized_refuses(
    s: GovView,
    a: Address,
    b: Address,
    id: u64,
    flag: bool,
    now: u64,
    amount: i128,
    config: GovConfig,
)
    requires
        s.admin is None,
    ensures
        cast_vote_spec(s, a, id, flag, now, amount) == Some(
            (s, Err::<(), GovError>(GovError::NotInitialized)),
        ),
        finalize_proposal_spec(s, id, now) == Some(
            (s, Err::<ProposalStatus, GovError>(GovError::NotInitialized)),
        ),
        execute_proposal_spec(s, id, now) == Some(
            (s, Err::<Option<TokenTransfer>, GovError>(GovError::NotInitialized)),
        ),
        cancel_proposal_spec(s, a, id) == Some((s, Err::<(), GovError>(GovError::NotInitialized))),
        update_config_spec(s, a, config) == Some(
            (s, Err::<(), GovError>(GovError::NotInitialized)),
        ),
        stake_arbitrator_spec(s, a, amount) == Some(
            (s, Err::<TokenTransfer, GovError>(GovError::NotInitialized)),
        ),
        withdraw_stake_spec(s, a, now) == Some(
            (s, Err::<TokenTransfer, GovError>(GovError::NotInitialized)),
        ),
        slash_arbitrator_spec(s, a, b, b) == Some(
            (s, Err::<TokenTransfer, GovError>(GovError::NotInitialized)),
        ),
        initialize_jury_config_spec(s, a, now, amount, 0) == Some(
            (s, Err::<(), GovError>(GovError::NotInitialized)),
        ),
        create_jury_pool_spec(s, id, id, a, b, amount, a, now) == Some(
            (s, Err::<u64, GovError>(GovError::NotInitialized)),
        ),
        cast_jury_vote_spec(s, a, id, flag, now) == Some(
            (s, Err::<(), GovError>(GovError::NotInitialized)),
        ),
        resolve_jury_pool_spec(s, id, now) == Some(
            (s, Err::<bool, GovError>(GovError::NotInitialized)),
        ),
        distribute_jury_funds_spec(s, id) == Some(
            (s, Err::<TokenTransfer, GovError>(GovError::NotInitialized)),
        ),
{
}

} // verus!
