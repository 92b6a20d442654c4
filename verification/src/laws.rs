//! Properties of the governance state machine that span operations.

use vstd::prelude::*;
use crate::auth::{counted_signers, lemma_counted_signers_distinct};
use crate::errors::GovError;
use crate::model::{
    cancel_proposal_spec, cast_jury_vote_spec, cast_vote_spec, create_jury_pool_spec,
    create_proposal_spec, distribute_jury_funds_spec, execute_proposal_spec,
    finalize_proposal_spec, has_voted_in, jury_config_or_default, jury_quorum_required, initialize_jury_config_spec, initialize_spec,
    proposal_passes, resolve_jury_pool_spec, slash_amount, slash_arbitrator_spec,
    stake_arbitrator_spec, stake_of, update_config_spec, withdraw_stake_spec, GovView, Outcome,
    MIN_STAKE,
};
use crate::types::{
    Address, GovConfig, JuryResolution, ProposalPayload, ProposalStatus, ProposalType,
    TokenTransfer,
};

verus! {

/// Any one operation on the governance contract, with its arguments.
pub enum GovAction {
    Initialize {
        admin: Address,
        token: Address,
        proposal_threshold: i128,
        voting_delay: u64,
        voting_period: u64,
        timelock_delay: u64,
        quorum_bps: u32,
        approval_threshold_bps: u32,
    },
    CreateProposal {
        proposer: Address,
        title: String,
        description: String,
        proposal_type: ProposalType,
        payload: ProposalPayload,
        supply_snapshot: i128,
        now: u64,
        power: i128,
    },
    CastVote { voter: Address, proposal_id: u64, support: bool, now: u64, power: i128 },
    FinalizeProposal { proposal_id: u64, now: u64 },
    ExecuteProposal { proposal_id: u64, now: u64 },
    CancelProposal { caller: Address, proposal_id: u64 },
    UpdateConfig { caller: Address, config: GovConfig },
    StakeArbitrator { caller: Address, amount: i128 },
    WithdrawStake { caller: Address, now: u64 },
    SlashArbitrator { caller: Address, arbitrator: Address, recipient: Address },
    InitializeJuryConfig {
        caller: Address,
        voting_period: u64,
        min_locked_tokens: i128,
        quorum_bps: u32,
    },
    CreateJuryPool {
        escrow_id: u64,
        milestone_id: u64,
        client: Address,
        freelancer: Address,
        disputed_amount: i128,
        token: Address,
        now: u64,
    },
    CastJuryVote { voter: Address, pool_id: u64, for_client: bool, now: u64 },
    ResolveJuryPool { pool_id: u64, now: u64 },
    DistributeJuryFunds { pool_id: u64 },
}

/// The state an outcome leaves behind, if the operation completes.
pub open spec fn state_after<T>(o: Outcome<T>) -> Option<GovView> {
    match o {
        Some((t, _)) => Some(t),
        None => None,
    }
}

/// The state after performing `a` on `s`; `None` when `a` aborts.
pub open spec fn next_state(s: GovView, a: GovAction) -> Option<GovView> {
    match a {
        GovAction::Initialize {
            admin,
            token,
            proposal_threshold,
            voting_delay,
            voting_period,
            timelock_delay,
            quorum_bps,
            approval_threshold_bps,
        } => state_after(
            initialize_spec(
                s,
                admin,
                token,
                proposal_threshold,
                voting_delay,
                voting_period,
                timelock_delay,
                quorum_bps,
                approval_threshold_bps,
            ),
        ),
        GovAction::CreateProposal {
            proposer,
            title,
            description,
            proposal_type,
            payload,
            supply_snapshot,
            now,
            power,
        } => state_after(
            create_proposal_spec(
                s,
                proposer,
                title,
                description,
                proposal_type,
                payload,
                supply_snapshot,
                now,
                power,
            ),
        ),
        GovAction::CastVote { voter, proposal_id, support, now, power } => state_after(
            cast_vote_spec(s, voter, proposal_id, support, now, power),
        ),
        GovAction::FinalizeProposal { proposal_id, now } => state_after(
            finalize_proposal_spec(s, proposal_id, now),
        ),
        GovAction::ExecuteProposal { proposal_id, now } => state_after(
            execute_proposal_spec(s, proposal_id, now),
        ),
        GovAction::CancelProposal { caller, proposal_id } => state_after(
            cancel_proposal_spec(s, caller, proposal_id),
        ),
        GovAction::UpdateConfig { caller, config } => state_after(
            update_config_spec(s, caller, config),
        ),
        GovAction::StakeArbitrator { caller, amount } => state_after(
            stake_arbitrator_spec(s, caller, amount),
        ),
        GovAction::WithdrawStake { caller, now } => state_after(
            withdraw_stake_spec(s, caller, now),
        ),
        GovAction::SlashArbitrator { caller, arbitrator, recipient } => state_after(
            slash_arbitrator_spec(s, caller, arbitrator, recipient),
        ),
        GovAction::InitializeJuryConfig { caller, voting_period, min_locked_tokens, quorum_bps } =>
            state_after(
            initialize_jury_config_spec(s, caller, voting_period, min_locked_tokens, quorum_bps),
        ),
        GovAction::CreateJuryPool {
            escrow_id,
            milestone_id,
            client,
            freelancer,
            disputed_amount,
            token,
            now,
        } => state_after(
            create_jury_pool_spec(
                s,
                escrow_id,
                milestone_id,
                client,
                freelancer,
                disputed_amount,
                token,
                now,
            ),
        ),
        GovAction::CastJuryVote { voter, pool_id, for_client, now } => state_after(
            cast_jury_vote_spec(s, voter, pool_id, for_client, now),
        ),
        GovAction::ResolveJuryPool { pool_id, now } => state_after(
            resolve_jury_pool_spec(s, pool_id, now),
        ),
        GovAction::DistributeJuryFunds { pool_id } => state_after(
            distribute_jury_funds_spec(s, pool_id),
        ),
    }
}

/// Every operation keeps the state invariant: proposal ids match their
/// position, tallies and supply snapshots are non-negative, a proposal's
/// schedule is ordered, stakes are positive, and in every jury pool the
/// locked total is the sum of both sides.
pub proof fn lemma_step_preserves_wf(s: GovView, a: GovAction)
    requires
        s.wf(),
        next_state(s, a) is Some,
    ensures
        next_state(s, a).unwrap().wf(),
{
    let t = next_state(s, a).unwrap();
    match a {
        GovAction::CreateProposal { .. } => {
            assert forall|i: int| 0 <= i < t.proposals.len() implies #[trigger] t.proposals[i].id
                == i by {
                if i < s.proposals.len() {
                    assert(t.proposals[i] == s.proposals[i]);
                }
            }
        },
        GovAction::CreateJuryPool { .. } => {
            assert forall|i: int| 0 <= i < t.jury_pools.len() implies #[trigger] t.jury_pools[i].pool_id
                == i by {
                if i < s.jury_pools.len() && i != s.jury_pool_counter {
                    assert(t.jury_pools[i] == s.jury_pools[i]);
                }
            }
        },
        _ => {},
    }
}

/// Every recorded stake is positive, and every operation keeps it so.
pub proof fn lemma_stakes_stay_positive(s: GovView, a: GovAction)
    requires
        s.wf(),
        next_state(s, a) is Some,
    ensures
        forall|x: Address| #[trigger]
            next_state(s, a).unwrap().stakes.contains_key(x) ==> next_state(
                s,
                a,
            ).unwrap().stakes[x] > 0,
{
    lemma_step_preserves_wf(s, a);
}

/// Jury pools are never removed, pool numbering only grows, and no
/// operation lowers either side's weight or the locked total of a pool.
pub proof fn lemma_jury_tallies_only_grow(s: GovView, a: GovAction, i: int)
    requires
        s.wf(),
        next_state(s, a) is Some,
        0 <= i < s.jury_pools.len(),
    ensures
        ({
            let t = next_state(s, a).unwrap();
            &&& i < t.jury_pools.len()
            &&& t.jury_pool_counter >= s.jury_pool_counter
            &&& t.jury_pools[i].pool_id == s.jury_pools[i].pool_id
            &&& t.jury_pools[i].weight_for_client >= s.jury_pools[i].weight_for_client
            &&& t.jury_pools[i].weight_for_freelancer >= s.jury_pools[i].weight_for_freelancer
            &&& t.jury_pools[i].total_locked_tokens >= s.jury_pools[i].total_locked_tokens
        }),
{
    match a {
        GovAction::CastJuryVote { voter, .. } => {
            assert(stake_of(s, voter) >= 0);
        },
        _ => {},
    }
}

/// Proposals are never removed, and what a proposal is (its id, type,
/// proposer, title, description, payload, schedule and supply snapshot)
/// never changes after creation.
pub proof fn lemma_proposals_persist(s: GovView, a: GovAction, i: int)
    requires
        s.wf(),
        next_state(s, a) is Some,
        0 <= i < s.proposals.len(),
    ensures
        ({
            let t = next_state(s, a).unwrap();
            let p = s.proposals[i];
            let q = t.proposals[i];
            &&& i < t.proposals.len()
            &&& q.id == p.id
            &&& q.proposal_type == p.proposal_type
            &&& q.proposer == p.proposer
            &&& q.title == p.title
            &&& q.description == p.description
            &&& q.payload == p.payload
            &&& q.vote_start == p.vote_start
            &&& q.vote_end == p.vote_end
            &&& q.executable_at == p.executable_at
            &&& q.total_supply_snapshot == p.total_supply_snapshot
            &&& q.created_at == p.created_at
        }),
{
    match a {
        GovAction::Initialize { .. } => {},
        GovAction::CreateProposal { .. } => {},
        GovAction::CastVote { .. } => {},
        GovAction::FinalizeProposal { .. } => {},
        GovAction::ExecuteProposal { .. } => {},
        GovAction::CancelProposal { .. } => {},
        GovAction::UpdateConfig { .. } => {},
        GovAction::StakeArbitrator { .. } => {},
        GovAction::WithdrawStake { .. } => {},
        GovAction::SlashArbitrator { .. } => {},
        GovAction::InitializeJuryConfig { .. } => {},
        GovAction::CreateJuryPool { .. } => {},
        GovAction::CastJuryVote { .. } => {},
        GovAction::ResolveJuryPool { .. } => {},
        GovAction::DistributeJuryFunds { .. } => {},
    }
}

/// An executed proposal is final: no operation changes it again.
pub proof fn lemma_executed_is_final(s: GovView, a: GovAction, i: int)
    requires
        s.wf(),
        next_state(s, a) is Some,
        0 <= i < s.proposals.len(),
        s.proposals[i].status == ProposalStatus::Executed,
    ensures
        next_state(s, a).unwrap().proposals[i] == s.proposals[i],
{
    match a {
        GovAction::Initialize { .. } => {},
        GovAction::CreateProposal { .. } => {},
        GovAction::CastVote { .. } => {},
        GovAction::FinalizeProposal { .. } => {},
        GovAction::ExecuteProposal { .. } => {},
        GovAction::CancelProposal { .. } => {},
        GovAction::UpdateConfig { .. } => {},
        GovAction::StakeArbitrator { .. } => {},
        GovAction::WithdrawStake { .. } => {},
        GovAction::SlashArbitrator { .. } => {},
        GovAction::InitializeJuryConfig { .. } => {},
        GovAction::CreateJuryPool { .. } => {},
        GovAction::CastJuryVote { .. } => {},
        GovAction::ResolveJuryPool { .. } => {},
        GovAction::DistributeJuryFunds { .. } => {},
    }
}

/// Vote tallies only grow: no operation lowers the FOR or AGAINST count
/// of a proposal.
pub proof fn lemma_tallies_only_grow(s: GovView, a: GovAction, i: int)
    requires
        s.wf(),
        next_state(s, a) is Some,
        0 <= i < s.proposals.len(),
    ensures
        next_state(s, a).unwrap().proposals[i].votes_for >= s.proposals[i].votes_for,
        next_state(s, a).unwrap().proposals[i].votes_against >= s.proposals[i].votes_against,
{
    match a {
        GovAction::Initialize { .. } => {},
        GovAction::CreateProposal { .. } => {},
        GovAction::CastVote { .. } => {},
        GovAction::FinalizeProposal { .. } => {},
        GovAction::ExecuteProposal { .. } => {},
        GovAction::CancelProposal { .. } => {},
        GovAction::UpdateConfig { .. } => {},
        GovAction::StakeArbitrator { .. } => {},
        GovAction::WithdrawStake { .. } => {},
        GovAction::SlashArbitrator { .. } => {},
        GovAction::InitializeJuryConfig { .. } => {},
        GovAction::CreateJuryPool { .. } => {},
        GovAction::CastJuryVote { .. } => {},
        GovAction::ResolveJuryPool { .. } => {},
        GovAction::DistributeJuryFunds { .. } => {},
    }
}

/// A recorded vote stays recorded, for proposals and for jury pools.
pub proof fn lemma_votes_stay_recorded(s: GovView, a: GovAction, id: u64, voter: Address)
    requires
        s.wf(),
        next_state(s, a) is Some,
    ensures
        has_voted_in(s.voted, id, voter) ==> has_voted_in(
            next_state(s, a).unwrap().voted,
            id,
            voter,
        ),
        has_voted_in(s.jury_voted, id, voter) ==> has_voted_in(
            next_state(s, a).unwrap().jury_voted,
            id,
            voter,
        ),
{
    let t = next_state(s, a).unwrap();
    if has_voted_in(s.voted, id, voter) {
        let k = choose|k: int| 0 <= k < s.voted.len() && s.voted[k] == (id, voter);
        assert(t.voted[k] == (id, voter));
    }
    if has_voted_in(s.jury_voted, id, voter) {
        let k = choose|k: int| 0 <= k < s.jury_voted.len() && s.jury_voted[k] == (id, voter);
        assert(t.jury_voted[k] == (id, voter));
    }
}

/// Each address votes at most once per proposal: an accepted vote is
/// recorded, and a recorded voter's further votes are all refused without
/// touching the state.
pub proof fn lemma_vote_at_most_once(
    s: GovView,
    voter: Address,
    id: u64,
    support: bool,
    now: u64,
    power: i128,
    t: GovView,
)
    requires
        s.wf(),
        cast_vote_spec(s, voter, id, support, now, power) == Some((t, Ok::<(), GovError>(()))),
    ensures
        has_voted_in(t.voted, id, voter),
        forall|support2: bool, now2: u64, power2: i128| #[trigger]
            cast_vote_spec(t, voter, id, support2, now2, power2) matches Some((u, r)) ==> r is Err
                && u == t,
{
    assert(t.voted[t.voted.len() - 1] == (id, voter));
}

/// A vote counts only on an active proposal inside its voting window, and
/// adds the voter's positive power to exactly one side.
pub proof fn lemma_vote_counts_in_window(
    s: GovView,
    voter: Address,
    id: u64,
    support: bool,
    now: u64,
    power: i128,
    t: GovView,
)
    requires
        cast_vote_spec(s, voter, id, support, now, power) == Some((t, Ok::<(), GovError>(()))),
    ensures
        ({
            let p = s.proposals[id as int];
            let q = t.proposals[id as int];
            &&& p.status == ProposalStatus::Active
            &&& p.vote_start <= now <= p.vote_end
            &&& power > 0
            &&& q.votes_for == p.votes_for + (if support {
                power as int
            } else {
                0
            })
            &&& q.votes_against == p.votes_against + (if support {
                0
            } else {
                power as int
            })
        }),
{
}

/// A recorded voter is refused: no vote of it on that proposal succeeds.
pub proof fn lemma_recorded_voter_refused(
    s: GovView,
    voter: Address,
    id: u64,
    support: bool,
    now: u64,
    power: i128,
)
    requires
        has_voted_in(s.voted, id, voter),
    ensures
        cast_vote_spec(s, voter, id, support, now, power) matches Some((u, r)) ==> r is Err && u
            == s,
{
}

/// Each address votes at most once per jury pool.
pub proof fn lemma_jury_vote_at_most_once(
    s: GovView,
    voter: Address,
    pool_id: u64,
    for_client: bool,
    now: u64,
    t: GovView,
)
    requires
        s.wf(),
        cast_jury_vote_spec(s, voter, pool_id, for_client, now) == Some(
            (t, Ok::<(), GovError>(())),
        ),
    ensures
        has_voted_in(t.jury_voted, pool_id, voter),
        forall|for_client2: bool, now2: u64| #[trigger]
            cast_jury_vote_spec(t, voter, pool_id, for_client2, now2) matches Some((u, r)) ==> r is Err
                && u == t,
{
    assert(t.jury_voted[t.jury_voted.len() - 1] == (pool_id, voter));
}

/// A new proposal gets the next id, starts `Active` with empty tallies,
/// and the proposal count grows by one.
pub proof fn lemma_create_proposal_assigns_next_id(
    s: GovView,
    proposer: Address,
    title: String,
    description: String,
    proposal_type: ProposalType,
    payload: ProposalPayload,
    supply_snapshot: i128,
    now: u64,
    power: i128,
    t: GovView,
    id: u64,
)
    requires
        create_proposal_spec(
            s,
            proposer,
            title,
            description,
            proposal_type,
            payload,
            supply_snapshot,
            now,
            power,
        ) == Some((t, Ok::<u64, GovError>(id))),
    ensures
        id == s.proposals.len(),
        t.proposals.len() == s.proposals.len() + 1,
        t.proposals[id as int].status == ProposalStatus::Active,
        t.proposals[id as int].votes_for == 0,
        t.proposals[id as int].votes_against == 0,
        t.proposals[id as int].proposer == proposer,
{
}

/// Finalization queues a proposal exactly when it reached quorum and the
/// approval threshold, and defeats it otherwise.
pub proof fn lemma_finalize_follows_evaluation(
    s: GovView,
    id: u64,
    now: u64,
    t: GovView,
    status: ProposalStatus,
)
    requires
        finalize_proposal_spec(s, id, now) == Some((t, Ok::<ProposalStatus, GovError>(status))),
    ensures
        status == ProposalStatus::Queued <==> proposal_passes(
            s.proposals[id as int],
            s.config.unwrap(),
        ),
        status == ProposalStatus::Queued || status == ProposalStatus::Defeated,
        t.proposals[id as int].status == status,
        now > s.proposals[id as int].vote_end,
{
}

/// Only a queued proposal whose timelock elapsed is executed; a fund
/// allocation then pays exactly its payload.
pub proof fn lemma_execute_requires_queue_and_timelock(
    s: GovView,
    id: u64,
    now: u64,
    t: GovView,
    transfer: Option<TokenTransfer>,
)
    requires
        execute_proposal_spec(s, id, now) == Some(
            (t, Ok::<Option<TokenTransfer>, GovError>(transfer)),
        ),
    ensures
        s.proposals[id as int].status == ProposalStatus::Queued,
        now >= s.proposals[id as int].executable_at,
        t.proposals[id as int].status == ProposalStatus::Executed,
        t.proposals[id as int].executed_at == Some(now),
        match s.proposals[id as int].payload {
            ProposalPayload::Fund(f) => transfer == Some(
                TokenTransfer::Payout { token: f.token, to: f.recipient, amount: f.amount },
            ),
            _ => transfer is None,
        },
{
}

/// Only the proposer or the admin can cancel a proposal.
pub proof fn lemma_cancel_only_by_proposer_or_admin(s: GovView, caller: Address, id: u64, t: GovView)
    requires
        cancel_proposal_spec(s, caller, id) == Some((t, Ok::<(), GovError>(()))),
    ensures
        caller == s.proposals[id as int].proposer || s.admin == Some(caller),
        t.proposals[id as int].status == ProposalStatus::Cancelled,
{
}

/// Stakes accumulate: a stake adds its amount to what the staker had
/// locked, and the deposit asked for is exactly that amount.
pub proof fn lemma_stake_accumulates(
    s: GovView,
    caller: Address,
    amount: i128,
    t: GovView,
    transfer: TokenTransfer,
)
    requires
        stake_arbitrator_spec(s, caller, amount) == Some(
            (t, Ok::<TokenTransfer, GovError>(transfer)),
        ),
    ensures
        stake_of(t, caller) == stake_of(s, caller) + amount,
        transfer == (TokenTransfer::Deposit {
            token: s.config.unwrap().token,
            from: caller,
            amount,
        }),
        amount >= MIN_STAKE ==> t.arbitrators.contains(caller),
{
}

/// A completed withdrawal pays back the whole stake and leaves none.
pub proof fn lemma_withdraw_returns_whole_stake(
    s: GovView,
    caller: Address,
    now: u64,
    t: GovView,
    transfer: TokenTransfer,
)
    requires
        withdraw_stake_spec(s, caller, now) == Some((t, Ok::<TokenTransfer, GovError>(transfer))),
    ensures
        transfer == (TokenTransfer::Payout {
            token: s.config.unwrap().token,
            to: caller,
            amount: stake_of(s, caller),
        }),
        stake_of(t, caller) == 0,
        !t.arbitrators.contains(caller),
        s.cooldowns.contains_key(caller) && now >= s.cooldowns[caller],
{
}

/// A slash takes `SLASH_PERCENT` of a positive stake, rounded down: never
/// more than the stake, so `SlashExceedsStake` cannot occur.
pub proof fn lemma_slash_within_stake(stake: int)
    requires
        stake > 0,
    ensures
        0 <= slash_amount(stake) <= stake,
        slash_amount(stake) == stake * 10 / 100,
{
}

/// A successful slash pays the slashed part to the recipient and keeps
/// the rest locked, unless less than `MIN_STAKE` would remain.
pub proof fn lemma_slash_splits_stake(
    s: GovView,
    caller: Address,
    arbitrator: Address,
    recipient: Address,
    t: GovView,
    transfer: TokenTransfer,
)
    requires
        slash_arbitrator_spec(s, caller, arbitrator, recipient) == Some(
            (t, Ok::<TokenTransfer, GovError>(transfer)),
        ),
    ensures
        s.admin == Some(caller),
        transfer matches TokenTransfer::Payout { to, amount, .. } && to == recipient && 0 <= amount
            <= stake_of(s, arbitrator) && (stake_of(t, arbitrator) == 0 || stake_of(t, arbitrator)
            + amount == stake_of(s, arbitrator)),
{
    lemma_slash_within_stake(stake_of(s, arbitrator) as int);
}

/// Once resolved, a jury pool keeps its resolution and resolving again
/// reports the same winner without changing anything.
pub proof fn lemma_resolve_is_idempotent(s: GovView, pool_id: u64, now: u64, now2: u64, t: GovView, client_wins: bool)
    requires
        resolve_jury_pool_spec(s, pool_id, now) == Some((t, Ok::<bool, GovError>(client_wins))),
    ensures
        resolve_jury_pool_spec(t, pool_id, now2) == Some((t, Ok::<bool, GovError>(client_wins))),
{
}

/// A pending jury pool is resolved only after its vote closed and with
/// quorum; the client wins exactly when strictly more weight was cast for
/// it, and a tie goes to the freelancer.
pub proof fn lemma_client_wins_on_strict_majority(
    s: GovView,
    pool_id: u64,
    now: u64,
    t: GovView,
    client_wins: bool,
)
    requires
        s.jury_pools[pool_id as int].resolution == JuryResolution::Pending,
        resolve_jury_pool_spec(s, pool_id, now) == Some((t, Ok::<bool, GovError>(client_wins))),
    ensures
        client_wins == (s.jury_pools[pool_id as int].weight_for_client
            > s.jury_pools[pool_id as int].weight_for_freelancer),
        s.jury_pools[pool_id as int].total_locked_tokens >= jury_quorum_required(
            s.jury_pools[pool_id as int],
            jury_config_or_default(s.jury_config),
        ),
        now > s.jury_pools[pool_id as int].voting_end,
        t.jury_pools[pool_id as int].resolution == (if client_wins {
            JuryResolution::ClientWins
        } else {
            JuryResolution::FreelancerWins
        }),
{
}

/// A jury resolution is final: no operation changes a resolved pool.
pub proof fn lemma_jury_resolution_is_final(s: GovView, a: GovAction, i: int)
    requires
        s.wf(),
        next_state(s, a) is Some,
        0 <= i < s.jury_pools.len(),
        s.jury_pools[i].resolution != JuryResolution::Pending,
    ensures
        next_state(s, a).unwrap().jury_pools[i] == s.jury_pools[i],
{
    match a {
        GovAction::Initialize { .. } => {},
        GovAction::CreateProposal { .. } => {},
        GovAction::CastVote { .. } => {},
        GovAction::FinalizeProposal { .. } => {},
        GovAction::ExecuteProposal { .. } => {},
        GovAction::CancelProposal { .. } => {},
        GovAction::UpdateConfig { .. } => {},
        GovAction::StakeArbitrator { .. } => {},
        GovAction::WithdrawStake { .. } => {},
        GovAction::SlashArbitrator { .. } => {},
        GovAction::InitializeJuryConfig { .. } => {},
        GovAction::CreateJuryPool { .. } => {},
        GovAction::CastJuryVote { .. } => {},
        GovAction::ResolveJuryPool { .. } => {},
        GovAction::DistributeJuryFunds { .. } => {},
    }
}

/// The disputed amount goes to the winner of the pool.
pub proof fn lemma_distribution_pays_winner(s: GovView, pool_id: u64, transfer: TokenTransfer)
    requires
        distribute_jury_funds_spec(s, pool_id) == Some((s, Ok::<TokenTransfer, GovError>(transfer))),
    ensures
        ({
            let p = s.jury_pools[pool_id as int];
            transfer == (TokenTransfer::Payout {
                token: p.token,
                to: if p.resolution == JuryResolution::ClientWins {
                    p.client
                } else {
                    p.freelancer
                },
                amount: p.disputed_amount,
            }) && p.resolution != JuryResolution::Pending
        }),
{
}

/// When the admin threshold is met, exactly `threshold` distinct admins
/// among the signers are asked to authorize.
pub proof fn lemma_admin_threshold_counts_distinct_admins(
    admins: Seq<Address>,
    signers: Seq<Address>,
    threshold: u32,
)
    requires
        threshold > 0,
        counted_signers(admins, signers, signers.len()).len() >= threshold,
    ensures
        ({
            let authorizers = counted_signers(admins, signers, signers.len()).take(
                threshold as int,
            );
            &&& authorizers.len() == threshold
            &&& authorizers.no_duplicates()
            &&& forall|k: int|
                0 <= k < authorizers.len() ==> admins.contains(#[trigger] authorizers[k])
                    && signers.contains(authorizers[k])
        }),
{
    let all = counted_signers(admins, signers, signers.len());
    lemma_counted_signers_distinct(admins, signers, signers.len());
    let authorizers = all.take(threshold as int);
    assert forall|k: int|
        0 <= k < authorizers.len() implies admins.contains(#[trigger] authorizers[k])
        && signers.contains(authorizers[k]) by {
        assert(all.contains(all[k]));
    }
    assert forall|x: int, y: int|
        0 <= x < authorizers.len() && 0 <= y < authorizers.len() && x != y implies authorizers[x]
        != authorizers[y] by {
        assert(all[x] != all[y]);
    }
}

} // verus!
