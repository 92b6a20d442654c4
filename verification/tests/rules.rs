use stellar_trust::auth::require_admin_threshold;
use stellar_trust::errors::GovError;
use stellar_trust::escrow_errors::EscrowError;
use stellar_trust::governance::{evaluate, GovernanceContract, GovernanceParts};
use stellar_trust::model::{MIN_STAKE, WITHDRAW_COOLDOWN};
use stellar_trust::types::{
    GovConfig, JuryResolution, Proposal, ProposalPayload, ProposalStatus, ProposalType,
    TokenTransfer,
};

const ADMIN: u64 = 1;
const TOKEN: u64 = 2;
const ALICE: u64 = 10;
const BOB: u64 = 11;
const CAROL: u64 = 12;

fn config(quorum_bps: u32, approval_threshold_bps: u32) -> GovConfig {
    GovConfig {
        token: TOKEN,
        proposal_threshold: 100,
        voting_period: 3_600,
        voting_delay: 60,
        timelock_delay: 7_200,
        quorum_bps,
        approval_threshold_bps,
    }
}

fn tally(votes_for: i128, votes_against: i128, supply: i128) -> Proposal {
    Proposal {
        id: 0,
        proposal_type: ProposalType::TextProposal,
        proposer: ALICE,
        title: String::from("T"),
        description: String::from("D"),
        payload: ProposalPayload::Text,
        status: ProposalStatus::Active,
        vote_start: 60,
        vote_end: 3_660,
        executable_at: 10_860,
        votes_for,
        votes_against,
        total_supply_snapshot: supply,
        created_at: 0,
        executed_at: None,
    }
}

fn initialized() -> GovernanceContract {
    let mut g = GovernanceContract::new();
    g.initialize(ADMIN, TOKEN, 100, 60, 3_600, 7_200, 400, 5_100).unwrap();
    g
}

/// A contract with one text proposal by ALICE, created at time 0.
fn with_proposal() -> GovernanceContract {
    let mut g = initialized();
    let id = g
        .create_proposal(ALICE, String::from("T"), String::from("D"), ProposalType::TextProposal, ProposalPayload::Text, 10_000, 0, 100)
        .unwrap();
    assert_eq!(id, 0);
    g
}

// Quorum and approval formulas

#[test]
fn test_evaluate_quorum_boundary() {
    // supply 10_000 at 4% needs 400 votes
    assert!(!evaluate(&tally(399, 0, 10_000), &config(400, 5_100)));
    assert!(evaluate(&tally(400, 0, 10_000), &config(400, 5_100)));
}

#[test]
fn test_evaluate_approval_boundary() {
    // 51% of 100 votes cast is 51
    assert!(evaluate(&tally(51, 49, 0), &config(0, 5_100)));
    assert!(!evaluate(&tally(50, 50, 0), &config(0, 5_100)));
    // 51% of 99 votes is 50.49, rounded down to 50
    assert!(evaluate(&tally(50, 49, 0), &config(0, 5_100)));
}

#[test]
fn test_evaluate_no_votes_with_zero_quorum_passes() {
    // quorum 0 >= 0 and approval 0 >= 0 both hold
    assert!(evaluate(&tally(0, 0, 0), &config(400, 5_100)));
    assert!(evaluate(&tally(0, 0, 10_000), &config(0, 5_100)));
    // a positive quorum still needs votes
    assert!(!evaluate(&tally(0, 0, 10_000), &config(400, 5_100)));
}

// Errors of the proposal life cycle

#[test]
fn test_operations_before_initialize_fail() {
    let mut g = GovernanceContract::new();
    assert_eq!(g.proposal_count(), 0);
    assert_eq!(
        g.create_proposal(ALICE, String::from("T"), String::from("D"), ProposalType::TextProposal, ProposalPayload::Text, 0, 0, 1_000),
        Err(GovError::NotInitialized)
    );
    assert_eq!(g.get_config(), Err(GovError::NotInitialized));
    assert_eq!(g.stake_arbitrator(ALICE, 1_000), Err(GovError::NotInitialized));
}

#[test]
fn test_initialize_validates_parameters() {
    let mut g = GovernanceContract::new();
    assert_eq!(g.initialize(ADMIN, TOKEN, 100, 60, 0, 7_200, 400, 5_100), Err(GovError::InvalidDuration));
    assert_eq!(g.initialize(ADMIN, TOKEN, 100, 60, 3_600, 7_200, 10_001, 5_100), Err(GovError::InvalidParameter));
    assert_eq!(g.initialize(ADMIN, TOKEN, 100, 60, 3_600, 7_200, 400, 10_001), Err(GovError::InvalidParameter));
    assert_eq!(g.initialize(ADMIN, TOKEN, 100, 60, 3_600, 7_200, 10_000, 10_000), Ok(()));
    assert_eq!(g.initialize(ADMIN, TOKEN, 100, 60, 3_600, 7_200, 400, 5_100), Err(GovError::AlreadyInitialized));
}

#[test]
fn test_create_proposal_schedule_and_errors() {
    let mut g = initialized();
    assert_eq!(
        g.create_proposal(ALICE, String::from("T"), String::from("D"), ProposalType::TextProposal, ProposalPayload::Text, -1, 500, 100),
        Err(GovError::InvalidParameter)
    );
    assert_eq!(
        g.create_proposal(ALICE, String::from("T"), String::from("D"), ProposalType::ContractUpgrade, ProposalPayload::Text, 0, 500, 100),
        Err(GovError::InvalidProposalType)
    );
    assert_eq!(
        g.create_proposal(ALICE, String::from("T"), String::from("D"), ProposalType::TextProposal, ProposalPayload::Text, 0, 500, 99),
        Err(GovError::InsufficientVotingPower)
    );
    let id = g
        .create_proposal(ALICE, String::from("T"), String::from("D"), ProposalType::TextProposal, ProposalPayload::Text, 0, 500, 100)
        .unwrap();
    let p = g.get_proposal(id).unwrap();
    assert_eq!(p.vote_start, 560);
    assert_eq!(p.vote_end, 4_160);
    assert_eq!(p.executable_at, 11_360);
    assert_eq!(p.created_at, 500);
    assert_eq!(p.id, id);
    assert_eq!(g.get_proposal(id + 1).unwrap_err(), GovError::ProposalNotFound);
}

#[test]
fn test_vote_errors_in_order() {
    let mut g = with_proposal();
    assert_eq!(g.cast_vote(BOB, 7, true, 100, 10), Err(GovError::ProposalNotFound));
    assert_eq!(g.cast_vote(BOB, 0, true, 59, 10), Err(GovError::VotingNotStarted));
    assert_eq!(g.cast_vote(BOB, 0, true, 3_661, 10), Err(GovError::VotingClosed));
    assert_eq!(g.cast_vote(BOB, 0, true, 60, 0), Err(GovError::InsufficientVotingPower));
    // the window is inclusive at both ends
    assert_eq!(g.cast_vote(BOB, 0, true, 60, 10), Ok(()));
    assert_eq!(g.cast_vote(CAROL, 0, false, 3_660, 7), Ok(()));
    assert_eq!(g.cast_vote(BOB, 0, false, 100, 10), Err(GovError::AlreadyVoted));
    let p = g.get_proposal(0).unwrap();
    assert_eq!((p.votes_for, p.votes_against), (10, 7));
    assert!(!g.has_voted(0, ALICE));
}

#[test]
fn test_finalize_and_execute_errors() {
    let mut g = with_proposal();
    assert_eq!(g.finalize_proposal(0, 3_660), Err(GovError::VotingClosed));
    assert_eq!(g.execute_proposal(0, 20_000), Err(GovError::ProposalNotPassed));
    // no votes: defeated
    assert_eq!(g.finalize_proposal(0, 3_661), Ok(ProposalStatus::Defeated));
    assert_eq!(g.finalize_proposal(0, 3_662), Err(GovError::ProposalNotActive));
    assert_eq!(g.cast_vote(BOB, 0, true, 100, 10), Err(GovError::ProposalNotActive));
}

#[test]
fn test_timelock_boundary_and_executed_is_final() {
    let mut g = with_proposal();
    g.cast_vote(BOB, 0, true, 100, 1_000).unwrap();
    assert_eq!(g.finalize_proposal(0, 3_661), Ok(ProposalStatus::Queued));
    assert_eq!(g.execute_proposal(0, 10_859), Err(GovError::TimelockNotElapsed));
    assert_eq!(g.execute_proposal(0, 10_860), Ok(None));
    let p = g.get_proposal(0).unwrap();
    assert_eq!(p.status, ProposalStatus::Executed);
    assert_eq!(p.executed_at, Some(10_860));
    assert_eq!(g.execute_proposal(0, 10_861), Err(GovError::ProposalNotPassed));
    assert_eq!(g.cancel_proposal(ALICE, 0), Err(GovError::ProposalAlreadyExecuted));
    assert_eq!(g.get_proposal(0).unwrap().status, ProposalStatus::Executed);
}

#[test]
fn test_cancel_errors() {
    let mut g = with_proposal();
    assert_eq!(g.cancel_proposal(BOB, 0), Err(GovError::Unauthorized));
    assert_eq!(g.cancel_proposal(BOB, 3), Err(GovError::ProposalNotFound));
    assert_eq!(g.cancel_proposal(ADMIN, 0), Ok(()));
    assert_eq!(g.cancel_proposal(ADMIN, 0), Err(GovError::ProposalAlreadyCancelled));
}

#[test]
fn test_update_config_errors() {
    let mut g = initialized();
    assert_eq!(g.update_config(BOB, config(400, 5_100)), Err(GovError::AdminOnly));
    let mut c = config(400, 5_100);
    c.voting_period = 0;
    assert_eq!(g.update_config(ADMIN, c), Err(GovError::InvalidDuration));
    assert_eq!(g.update_config(ADMIN, config(400, 10_001)), Err(GovError::InvalidParameter));
    assert_eq!(g.update_config(ADMIN, config(700, 6_000)), Ok(()));
    assert_eq!(g.get_config(), Ok(config(700, 6_000)));
}

// Arbitrator stakes

#[test]
fn test_stakes_accumulate() {
    let mut g = initialized();
    assert_eq!(g.stake_arbitrator(ALICE, 0), Err(GovError::InsufficientStake));
    assert_eq!(
        g.stake_arbitrator(ALICE, 600),
        Ok(TokenTransfer::Deposit { token: TOKEN, from: ALICE, amount: 600 })
    );
    g.stake_arbitrator(ALICE, 500).unwrap();
    assert_eq!(g.get_stake(ALICE), 1_100);
    assert!(!g.is_arbitrator(ALICE));
    g.stake_arbitrator(ALICE, MIN_STAKE).unwrap();
    assert_eq!(g.get_stake(ALICE), 2_100);
    assert!(g.is_arbitrator(ALICE));
    assert_eq!(g.get_stake(BOB), 0);
}

#[test]
fn test_withdraw_after_cooldown() {
    let mut g = initialized();
    assert_eq!(g.withdraw_stake(ALICE, 0), Err(GovError::NoStakeToWithdraw));
    g.stake_arbitrator(ALICE, 1_500).unwrap();
    assert_eq!(g.withdraw_stake(ALICE, 1_000), Err(GovError::StakeCooldownActive));
    assert_eq!(
        g.withdraw_stake(ALICE, 1_000 + WITHDRAW_COOLDOWN - 1),
        Err(GovError::StakeCooldownActive)
    );
    assert_eq!(
        g.withdraw_stake(ALICE, 1_000 + WITHDRAW_COOLDOWN),
        Ok(TokenTransfer::Payout { token: TOKEN, to: ALICE, amount: 1_500 })
    );
    assert_eq!(g.get_stake(ALICE), 0);
    assert!(!g.is_arbitrator(ALICE));
    assert_eq!(g.withdraw_stake(ALICE, 2_000_000), Err(GovError::NoStakeToWithdraw));
}

#[test]
fn test_slash_takes_ten_percent() {
    let mut g = initialized();
    g.stake_arbitrator(ALICE, 2_000).unwrap();
    assert_eq!(g.slash_arbitrator(BOB, ALICE, CAROL), Err(GovError::AdminOnly));
    assert_eq!(g.slash_arbitrator(ADMIN, BOB, CAROL), Err(GovError::NotArbitrator));
    assert_eq!(
        g.slash_arbitrator(ADMIN, ALICE, CAROL),
        Ok(TokenTransfer::Payout { token: TOKEN, to: CAROL, amount: 200 })
    );
    assert_eq!(g.get_stake(ALICE), 1_800);
    assert!(g.is_arbitrator(ALICE));
}

#[test]
fn test_slash_below_minimum_clears_arbitrator() {
    let mut g = initialized();
    g.stake_arbitrator(ALICE, 1_005).unwrap();
    assert_eq!(
        g.slash_arbitrator(ADMIN, ALICE, CAROL),
        Ok(TokenTransfer::Payout { token: TOKEN, to: CAROL, amount: 100 })
    );
    assert_eq!(g.get_stake(ALICE), 0);
    assert!(!g.is_arbitrator(ALICE));
}

// Jury pools

#[test]
fn test_jury_defaults_and_errors() {
    let mut g = initialized();
    let c = g.get_jury_config();
    assert_eq!((c.voting_period, c.min_locked_tokens, c.quorum_bps), (604_800, 100, 500));
    assert_eq!(g.initialize_jury_config(BOB, 10, 1, 1), Err(GovError::AdminOnly));
    assert_eq!(g.initialize_jury_config(ADMIN, 0, 1, 1), Err(GovError::InvalidDuration));
    assert_eq!(g.initialize_jury_config(ADMIN, 10, 1, 10_001), Err(GovError::InvalidParameter));
    assert_eq!(g.create_jury_pool(1, 2, ALICE, BOB, 0, TOKEN, 100), Err(GovError::InvalidParameter));
    let id = g.create_jury_pool(1, 2, ALICE, BOB, 1_000, TOKEN, 100).unwrap();
    let pool = g.get_jury_pool(id).unwrap();
    assert_eq!(pool.voting_end, 604_900);
    assert_eq!(pool.resolution, JuryResolution::Pending);
    assert_eq!(g.get_jury_pool(9), Err(GovError::JuryPoolNotFound));
    assert_eq!(g.cast_jury_vote(CAROL, 9, true, 100), Err(GovError::JuryPoolNotFound));
    assert_eq!(g.cast_jury_vote(CAROL, id, true, 99), Err(GovError::JuryVotingNotStarted));
    assert_eq!(g.cast_jury_vote(CAROL, id, true, 604_901), Err(GovError::JuryVotingClosed));
    assert_eq!(g.cast_jury_vote(CAROL, id, true, 200), Err(GovError::JuryInsufficientLockedTokens));
    g.stake_arbitrator(CAROL, 100).unwrap();
    assert_eq!(g.cast_jury_vote(CAROL, id, true, 200), Ok(()));
    assert_eq!(g.cast_jury_vote(CAROL, id, false, 300), Err(GovError::JuryAlreadyVoted));
    assert_eq!(g.distribute_jury_funds(id), Err(GovError::JuryPoolNotResolved));
    assert_eq!(g.resolve_jury_pool(9, 700_000), Err(GovError::JuryPoolNotFound));
    assert_eq!(g.resolve_jury_pool(id, 604_900), Err(GovError::JuryVotingClosed));
    assert_eq!(g.resolve_jury_pool(id, 604_901), Ok(true));
    assert_eq!(g.cast_jury_vote(BOB, id, false, 300), Err(GovError::JuryPoolAlreadyResolved));
}

#[test]
fn test_jury_tie_goes_to_freelancer_and_resolution_is_final() {
    let mut g = initialized();
    let id = g.create_jury_pool(1, 2, ALICE, BOB, 1_000, TOKEN, 0).unwrap();
    g.stake_arbitrator(CAROL, 300).unwrap();
    g.stake_arbitrator(ADMIN, 300).unwrap();
    g.cast_jury_vote(CAROL, id, true, 10).unwrap();
    g.cast_jury_vote(ADMIN, id, false, 10).unwrap();
    assert_eq!(g.resolve_jury_pool(id, 604_801), Ok(false));
    let pool = g.get_jury_pool(id).unwrap();
    assert_eq!(pool.resolution, JuryResolution::FreelancerWins);
    assert_eq!(pool.resolved_at, Some(604_801));
    assert_eq!(pool.total_locked_tokens, pool.weight_for_client + pool.weight_for_freelancer);
    // resolving again reports the same result
    assert_eq!(g.resolve_jury_pool(id, 999_999), Ok(false));
    assert_eq!(g.get_jury_pool(id).unwrap().resolved_at, Some(604_801));
    assert_eq!(
        g.distribute_jury_funds(id),
        Ok(TokenTransfer::Payout { token: TOKEN, to: BOB, amount: 1_000 })
    );
}

#[test]
fn test_jury_quorum_is_share_of_disputed_amount() {
    let mut g = initialized();
    // default quorum: 5% of 2_000 = 100
    let id = g.create_jury_pool(1, 2, ALICE, BOB, 2_000, TOKEN, 0).unwrap();
    assert_eq!(g.resolve_jury_pool(id, 604_801), Err(GovError::JuryQuorumNotReached));
    let id2 = g.create_jury_pool(1, 3, ALICE, BOB, 2_000, TOKEN, 0).unwrap();
    g.stake_arbitrator(CAROL, 100).unwrap();
    g.cast_jury_vote(CAROL, id2, true, 5).unwrap();
    assert_eq!(g.resolve_jury_pool(id2, 604_801), Ok(true));
}

#[test]
fn test_jury_config_keeps_pool_numbering() {
    let mut g = initialized();
    assert_eq!(g.create_jury_pool(1, 0, ALICE, BOB, 1_000, TOKEN, 0), Ok(0));
    assert_eq!(g.create_jury_pool(2, 0, ALICE, BOB, 1_000, TOKEN, 0), Ok(1));
    assert_eq!(g.jury_pool_count(), 2);
    g.initialize_jury_config(ADMIN, 100, 1, 0).unwrap();
    assert_eq!(g.jury_pool_count(), 2);
    assert_eq!(g.create_jury_pool(3, 0, ALICE, BOB, 5, TOKEN, 0), Ok(2));
    assert_eq!(g.get_jury_pool(0).unwrap().escrow_id, 1);
    assert_eq!(g.get_jury_pool(1).unwrap().escrow_id, 2);
    assert_eq!(g.get_jury_pool(2).unwrap().escrow_id, 3);
    assert_eq!(g.get_jury_pool(2).unwrap().voting_end, 100);
}

// Admin threshold

#[test]
fn test_admin_threshold_zero_refused() {
    let r = require_admin_threshold(&vec![1, 2], 0, &vec![1, 2]);
    assert_eq!(r.outcome, Err(()));
    assert!(r.authorizers.is_empty());
}

#[test]
fn test_admin_threshold_counts_distinct_admins() {
    let admins = vec![1, 2, 3];
    // 9 is no admin, the second 1 is a repeat
    let r = require_admin_threshold(&admins, 2, &vec![9, 1, 1, 3, 2]);
    assert_eq!(r.outcome, Ok(()));
    assert_eq!(r.authorizers, vec![1, 3]);
    let r = require_admin_threshold(&admins, 3, &vec![9, 1, 1, 3]);
    assert_eq!(r.outcome, Err(()));
    assert_eq!(r.authorizers, vec![1, 3]);
}

// Escrow error codes

#[test]
fn test_escrow_error_codes() {
    assert_eq!(EscrowError::AlreadyInitialized.code(), 1);
    assert_eq!(EscrowError::ClientOnly.code(), 5);
    assert_eq!(EscrowError::ReentrancyBlocked.code(), 22);
    assert_eq!(EscrowError::StringTooLong.code(), 55);
    assert_eq!(EscrowError::from_code(6), None);
    assert_eq!(EscrowError::from_code(41), Some(EscrowError::SlashAlreadyApplied));
    for code in 0..70u32 {
        if let Some(e) = EscrowError::from_code(code) {
            assert_eq!(e.code(), code);
        }
    }
    assert_eq!(EscrowError::from_code(EscrowError::InvalidTimelock.code()), Some(EscrowError::InvalidTimelock));
}

// Stored form

#[test]
fn test_parts_roundtrip_and_corrupt_parts_refused() {
    let mut g = with_proposal();
    g.cast_vote(BOB, 0, true, 100, 10).unwrap();
    g.stake_arbitrator(CAROL, 2_000).unwrap();
    let parts = g.into_parts();
    assert_eq!(parts.proposals.len(), 1);
    assert_eq!(parts.voted, vec![(0, BOB)]);
    assert_eq!(parts.stakes.get(&CAROL), Some(&2_000));
    let g = GovernanceContract::from_parts(parts).unwrap();
    assert!(g.has_voted(0, BOB));
    assert_eq!(g.get_stake(CAROL), 2_000);

    let mut parts: GovernanceParts = g.into_parts();
    parts.proposals[0].id = 5;
    assert!(GovernanceContract::from_parts(parts).is_none());

    let mut parts = with_proposal().into_parts();
    parts.config = None;
    assert!(GovernanceContract::from_parts(parts).is_none());

    let mut parts = with_proposal().into_parts();
    parts.stakes.insert(BOB, -5);
    assert!(GovernanceContract::from_parts(parts).is_none());

    let mut parts = with_proposal().into_parts();
    parts.jury_pool_counter = 3;
    assert!(GovernanceContract::from_parts(parts).is_none());
}

#[test]
fn test_withdraw_cooldown_visible() {
    let mut g = initialized();
    g.stake_arbitrator(ALICE, 1_500).unwrap();
    assert_eq!(g.get_withdraw_cooldown(ALICE), None);
    assert_eq!(g.withdraw_stake(ALICE, 10), Err(GovError::StakeCooldownActive));
    assert_eq!(g.get_withdraw_cooldown(ALICE), Some(10 + WITHDRAW_COOLDOWN));
}
