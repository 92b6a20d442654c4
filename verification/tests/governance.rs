use std::collections::HashMap;

use stellar_trust::errors::GovError;
use stellar_trust::governance::GovernanceContract;
use stellar_trust::types::{
    Address, FundPayload, ParameterPayload, ProposalPayload, ProposalStatus, ProposalType,
    TokenTransfer,
};

// Helpers

const VOTING_DELAY: u64 = 60;
const VOTING_PERIOD: u64 = 3_600;
const TIMELOCK_DELAY: u64 = 7_200;
const QUORUM_BPS: u32 = 400; // 4%
const APPROVAL_BPS: u32 = 5_100; // 51%
const THRESHOLD: i128 = 100;

/// The address of the governance contract itself.
const CONTRACT: Address = 0;

/// A governance contract together with a ledger clock and token balances.
struct World {
    gov: GovernanceContract,
    now: u64,
    balances: HashMap<(Address, Address), i128>,
    next_address: Address,
}

impl World {
    fn generate(&mut self) -> Address {
        self.next_address += 1;
        self.next_address
    }

    fn balance(&self, token: Address, holder: Address) -> i128 {
        *self.balances.get(&(token, holder)).unwrap_or(&0)
    }

    fn mint(&mut self, token: Address, to: Address, amount: i128) {
        *self.balances.entry((token, to)).or_insert(0) += amount;
    }

    fn move_tokens(&mut self, token: Address, from: Address, to: Address, amount: i128) {
        assert!(amount >= 0);
        let have = self.balance(token, from);
        assert!(have >= amount, "insufficient balance");
        self.balances.insert((token, from), have - amount);
        self.mint(token, to, amount);
    }

    fn apply(&mut self, transfer: TokenTransfer) {
        match transfer {
            TokenTransfer::Deposit { token, from, amount } => {
                self.move_tokens(token, from, CONTRACT, amount)
            }
            TokenTransfer::Payout { token, to, amount } => {
                self.move_tokens(token, CONTRACT, to, amount)
            }
        }
    }

    fn advance(&mut self, seconds: u64) {
        self.now += seconds;
    }

    fn token(&self) -> Address {
        self.gov.get_config().unwrap().token
    }

    fn try_create_proposal(
        &mut self,
        proposer: Address,
        title: &str,
        description: &str,
        proposal_type: ProposalType,
        payload: ProposalPayload,
        supply_snapshot: i128,
    ) -> Result<u64, GovError> {
        let power = self.balance(self.token(), proposer);
        self.gov.create_proposal(
            proposer,
            String::from(title),
            String::from(description),
            proposal_type,
            payload,
            supply_snapshot,
            self.now,
            power,
        )
    }

    fn create_text(&mut self, proposer: Address) -> u64 {
        self.try_create_proposal(
            proposer,
            "T",
            "D",
            ProposalType::TextProposal,
            ProposalPayload::Text,
            10_000,
        )
        .unwrap()
    }

    fn try_cast_vote(&mut self, voter: Address, id: u64, support: bool) -> Result<(), GovError> {
        let power = self.balance(self.token(), voter);
        self.gov.cast_vote(voter, id, support, self.now, power)
    }

    fn cast_vote(&mut self, voter: Address, id: u64, support: bool) {
        self.try_cast_vote(voter, id, support).unwrap()
    }

    fn try_finalize(&mut self, id: u64) -> Result<ProposalStatus, GovError> {
        self.gov.finalize_proposal(id, self.now)
    }

    fn try_execute(&mut self, id: u64) -> Result<(), GovError> {
        let transfer = self.gov.execute_proposal(id, self.now)?;
        if let Some(t) = transfer {
            self.apply(t);
        }
        Ok(())
    }

    fn stake_arbitrator(&mut self, caller: Address, amount: i128) {
        let t = self.gov.stake_arbitrator(caller, amount).unwrap();
        self.apply(t);
    }

    fn try_cast_jury_vote(&mut self, voter: Address, pool_id: u64, for_client: bool) -> Result<(), GovError> {
        self.gov.cast_jury_vote(voter, pool_id, for_client, self.now)
    }

    fn cast_jury_vote(&mut self, voter: Address, pool_id: u64, for_client: bool) {
        self.try_cast_jury_vote(voter, pool_id, for_client).unwrap()
    }

    fn try_resolve(&mut self, pool_id: u64) -> Result<bool, GovError> {
        self.gov.resolve_jury_pool(pool_id, self.now)
    }

    fn try_distribute(&mut self, pool_id: u64) -> Result<(), GovError> {
        let t = self.gov.distribute_jury_funds(pool_id)?;
        self.apply(t);
        Ok(())
    }

    fn create_jury_pool(
        &mut self,
        escrow_id: u64,
        milestone_id: u64,
        client: Address,
        freelancer: Address,
        disputed_amount: i128,
        token: Address,
    ) -> u64 {
        self.gov
            .create_jury_pool(escrow_id, milestone_id, client, freelancer, disputed_amount, token, self.now)
            .unwrap()
    }
}

fn setup() -> (World, Address, Address, Address) {
    let mut w = World {
        gov: GovernanceContract::new(),
        now: 0,
        balances: HashMap::new(),
        next_address: CONTRACT,
    };
    let admin = w.generate();
    let token_admin = w.generate();
    let token = w.generate();
    w.gov
        .initialize(
            admin,
            token,
            THRESHOLD,
            VOTING_DELAY,
            VOTING_PERIOD,
            TIMELOCK_DELAY,
            QUORUM_BPS,
            APPROVAL_BPS,
        )
        .unwrap();
    (w, admin, token_admin, token)
}

// Initialization

#[test]
fn test_initialize_stores_config() {
    let (w, _admin, _ta, token) = setup();
    let config = w.gov.get_config().unwrap();
    assert_eq!(config.token, token);
    assert_eq!(config.quorum_bps, QUORUM_BPS);
    assert_eq!(config.approval_threshold_bps, APPROVAL_BPS);
    assert_eq!(config.voting_period, VOTING_PERIOD);
    assert_eq!(config.timelock_delay, TIMELOCK_DELAY);
}

#[test]
fn test_double_initialize_fails() {
    let (mut w, admin, _ta, token) = setup();
    let result = w.gov.initialize(
        admin,
        token,
        THRESHOLD,
        VOTING_DELAY,
        VOTING_PERIOD,
        TIMELOCK_DELAY,
        QUORUM_BPS,
        APPROVAL_BPS,
    );
    assert!(result.is_err());
}

// Proposal creation

#[test]
fn test_create_text_proposal() {
    let (mut w, _admin, _ta, token) = setup();
    let proposer = w.generate();
    w.mint(token, proposer, THRESHOLD);

    let id = w
        .try_create_proposal(
            proposer,
            "Test proposal",
            "A signal-only proposal",
            ProposalType::TextProposal,
            ProposalPayload::Text,
            10_000i128,
        )
        .unwrap();

    assert_eq!(id, 0);
    assert_eq!(w.gov.proposal_count(), 1);

    let p = w.gov.get_proposal(id).unwrap();
    assert_eq!(p.status, ProposalStatus::Active);
    assert_eq!(p.votes_for, 0);
    assert_eq!(p.votes_against, 0);
}

#[test]
fn test_create_proposal_insufficient_tokens_fails() {
    let (mut w, _admin, _ta, _token) = setup();
    let proposer = w.generate(); // no tokens minted

    let result = w.try_create_proposal(
        proposer,
        "Fail",
        "No tokens",
        ProposalType::TextProposal,
        ProposalPayload::Text,
        10_000i128,
    );
    assert!(result.is_err());
}

#[test]
fn test_create_proposal_mismatched_payload_fails() {
    let (mut w, _admin, _ta, token) = setup();
    let proposer = w.generate();
    w.mint(token, proposer, THRESHOLD);

    // ParameterChange type but Text payload
    let result = w.try_create_proposal(
        proposer,
        "Bad",
        "Mismatch",
        ProposalType::ParameterChange,
        ProposalPayload::Text,
        10_000i128,
    );
    assert!(result.is_err());
}

// Voting

#[test]
fn test_cast_vote_for() {
    let (mut w, _admin, _ta, token) = setup();
    let proposer = w.generate();
    let voter = w.generate();
    w.mint(token, proposer, THRESHOLD);
    w.mint(token, voter, 1_000);

    let id = w.create_text(proposer);

    w.advance(VOTING_DELAY + 1);
    w.cast_vote(voter, id, true);

    let p = w.gov.get_proposal(id).unwrap();
    assert_eq!(p.votes_for, 1_000);
    assert_eq!(p.votes_against, 0);
    assert!(w.gov.has_voted(id, voter));
}

#[test]
fn test_cast_vote_against() {
    let (mut w, _admin, _ta, token) = setup();
    let proposer = w.generate();
    let voter = w.generate();
    w.mint(token, proposer, THRESHOLD);
    w.mint(token, voter, 500);

    let id = w.create_text(proposer);

    w.advance(VOTING_DELAY + 1);
    w.cast_vote(voter, id, false);

    let p = w.gov.get_proposal(id).unwrap();
    assert_eq!(p.votes_against, 500);
}

#[test]
fn test_double_vote_fails() {
    let (mut w, _admin, _ta, token) = setup();
    let proposer = w.generate();
    let voter = w.generate();
    w.mint(token, proposer, THRESHOLD);
    w.mint(token, voter, 1_000);

    let id = w.create_text(proposer);

    w.advance(VOTING_DELAY + 1);
    w.cast_vote(voter, id, true);

    let result = w.try_cast_vote(voter, id, false);
    assert!(result.is_err());
}

#[test]
fn test_vote_before_delay_fails() {
    let (mut w, _admin, _ta, token) = setup();
    let proposer = w.generate();
    let voter = w.generate();
    w.mint(token, proposer, THRESHOLD);
    w.mint(token, voter, 1_000);

    let id = w.create_text(proposer);

    // Don't advance past voting_delay
    let result = w.try_cast_vote(voter, id, true);
    assert!(result.is_err());
}

#[test]
fn test_vote_after_period_fails() {
    let (mut w, _admin, _ta, token) = setup();
    let proposer = w.generate();
    let voter = w.generate();
    w.mint(token, proposer, THRESHOLD);
    w.mint(token, voter, 1_000);

    let id = w.create_text(proposer);

    w.advance(VOTING_DELAY + VOTING_PERIOD + 1);
    let result = w.try_cast_vote(voter, id, true);
    assert!(result.is_err());
}

// Finalization

#[test]
fn test_finalize_passes_with_quorum_and_majority() {
    let (mut w, _admin, _ta, token) = setup();
    let proposer = w.generate();
    let voter = w.generate();

    // Mint enough for quorum: supply = 10_000, quorum = 4% = 400
    w.mint(token, proposer, THRESHOLD);
    w.mint(token, voter, 10_000);

    let id = w.create_text(proposer);

    w.advance(VOTING_DELAY + 1);
    w.cast_vote(voter, id, true);

    w.advance(VOTING_PERIOD);
    let status = w.try_finalize(id).unwrap();
    assert_eq!(status, ProposalStatus::Queued);
}

#[test]
fn test_finalize_defeated_when_quorum_not_met() {
    let (mut w, _admin, _ta, token) = setup();
    let proposer = w.generate();
    let voter = w.generate();

    // Supply = 100_000, quorum = 4% = 4_000, voter only has 100
    w.mint(token, proposer, THRESHOLD);
    w.mint(token, voter, 100);
    // Mint rest to someone else so supply is large
    let whale = w.generate();
    w.mint(token, whale, 99_800);

    let id = w.create_text(proposer);

    w.advance(VOTING_DELAY + 1);
    w.cast_vote(voter, id, true);

    w.advance(VOTING_PERIOD);
    let status = w.try_finalize(id).unwrap();
    assert_eq!(status, ProposalStatus::Defeated);
}

#[test]
fn test_finalize_before_vote_end_fails() {
    let (mut w, _admin, _ta, token) = setup();
    let proposer = w.generate();
    w.mint(token, proposer, THRESHOLD);

    let id = w.create_text(proposer);

    w.advance(VOTING_DELAY + 1);
    let result = w.try_finalize(id);
    assert!(result.is_err());
}

// Timelock

#[test]
fn test_execute_before_timelock_fails() {
    let (mut w, _admin, _ta, token) = setup();
    let proposer = w.generate();
    let voter = w.generate();
    w.mint(token, proposer, THRESHOLD);
    w.mint(token, voter, 10_000);

    let id = w.create_text(proposer);

    w.advance(VOTING_DELAY + 1);
    w.cast_vote(voter, id, true);
    w.advance(VOTING_PERIOD);
    w.try_finalize(id).unwrap();

    // Don't advance past timelock
    let result = w.try_execute(id);
    assert!(result.is_err());
}

#[test]
fn test_execute_text_proposal_after_timelock() {
    let (mut w, _admin, _ta, token) = setup();
    let proposer = w.generate();
    let voter = w.generate();
    w.mint(token, proposer, THRESHOLD);
    w.mint(token, voter, 10_000);

    let id = w.create_text(proposer);

    w.advance(VOTING_DELAY + 1);
    w.cast_vote(voter, id, true);
    w.advance(VOTING_PERIOD);
    w.try_finalize(id).unwrap();
    w.advance(TIMELOCK_DELAY + 1);

    w.try_execute(id).unwrap();
    let p = w.gov.get_proposal(id).unwrap();
    assert_eq!(p.status, ProposalStatus::Executed);
    assert!(p.executed_at.is_some());
}

#[test]
fn test_execute_fund_allocation_transfers_tokens() {
    let (mut w, _admin, _ta, token) = setup();
    let proposer = w.generate();
    let voter = w.generate();
    let recipient = w.generate();

    w.mint(token, proposer, THRESHOLD);
    w.mint(token, voter, 10_000);
    // Fund the governance treasury
    w.mint(token, CONTRACT, 5_000);

    let payload = ProposalPayload::Fund(FundPayload { recipient, token, amount: 1_000 });

    let id = w
        .try_create_proposal(
            proposer,
            "Fund",
            "Allocate",
            ProposalType::FundAllocation,
            payload,
            10_000i128,
        )
        .unwrap();

    w.advance(VOTING_DELAY + 1);
    w.cast_vote(voter, id, true);
    w.advance(VOTING_PERIOD);
    w.try_finalize(id).unwrap();
    w.advance(TIMELOCK_DELAY + 1);
    w.try_execute(id).unwrap();

    let balance = w.balance(token, recipient);
    assert_eq!(balance, 1_000);
}

// Cancellation

#[test]
fn test_proposer_can_cancel() {
    let (mut w, _admin, _ta, token) = setup();
    let proposer = w.generate();
    w.mint(token, proposer, THRESHOLD);

    let id = w.create_text(proposer);

    w.gov.cancel_proposal(proposer, id).unwrap();
    let p = w.gov.get_proposal(id).unwrap();
    assert_eq!(p.status, ProposalStatus::Cancelled);
}

#[test]
fn test_admin_can_cancel() {
    let (mut w, admin, _ta, token) = setup();
    let proposer = w.generate();
    w.mint(token, proposer, THRESHOLD);

    let id = w.create_text(proposer);

    w.gov.cancel_proposal(admin, id).unwrap();
    let p = w.gov.get_proposal(id).unwrap();
    assert_eq!(p.status, ProposalStatus::Cancelled);
}

#[test]
fn test_stranger_cannot_cancel() {
    let (mut w, _admin, _ta, token) = setup();
    let proposer = w.generate();
    let stranger = w.generate();
    w.mint(token, proposer, THRESHOLD);

    let id = w.create_text(proposer);

    let result = w.gov.cancel_proposal(stranger, id);
    assert!(result.is_err());
}

// Quorum not reached: Defeated

#[test]
fn test_governance_quorum_not_reached_defeated() {
    let (mut w, admin, _ta, token) = setup();

    // Raise quorum to 10%
    let mut config = w.gov.get_config().unwrap();
    config.quorum_bps = 1_000;
    w.gov.update_config(admin, config).unwrap();

    let proposer = w.generate();
    let voter = w.generate();
    let whale = w.generate();

    // total supply = 100_000; 10% quorum = 10_000; voter only has 500 (< 10%)
    w.mint(token, proposer, THRESHOLD);
    w.mint(token, voter, 500);
    w.mint(token, whale, 99_400);

    let id = w
        .try_create_proposal(
            proposer,
            "T",
            "D",
            ProposalType::TextProposal,
            ProposalPayload::Text,
            100_000i128,
        )
        .unwrap();

    w.advance(VOTING_DELAY + 1);
    w.cast_vote(voter, id, true);

    w.advance(VOTING_PERIOD);
    let status = w.try_finalize(id).unwrap();
    assert_eq!(status, ProposalStatus::Defeated);

    let p = w.gov.get_proposal(id).unwrap();
    assert_eq!(p.status, ProposalStatus::Defeated);

    // execute_proposal on a Defeated proposal must fail
    let result = w.try_execute(id);
    assert!(result.is_err());
}

// cancel_proposal edge cases

#[test]
fn test_cast_vote_after_cancel_fails() {
    let (mut w, _admin, _ta, token) = setup();
    let proposer = w.generate();
    let voter = w.generate();
    w.mint(token, proposer, THRESHOLD);
    w.mint(token, voter, 1_000);

    let id = w.create_text(proposer);

    w.gov.cancel_proposal(proposer, id).unwrap();
    assert_eq!(w.gov.get_proposal(id).unwrap().status, ProposalStatus::Cancelled);

    w.advance(VOTING_DELAY + 1);
    let result = w.try_cast_vote(voter, id, true);
    assert!(result.is_err());
}

#[test]
fn test_double_cancel_fails() {
    let (mut w, _admin, _ta, token) = setup();
    let proposer = w.generate();
    w.mint(token, proposer, THRESHOLD);

    let id = w.create_text(proposer);

    w.gov.cancel_proposal(proposer, id).unwrap();
    let result = w.gov.cancel_proposal(proposer, id);
    assert!(result.is_err());
}

// Config update

#[test]
fn test_admin_can_update_config() {
    let (mut w, admin, _ta, _token) = setup();
    let mut config = w.gov.get_config().unwrap();
    config.quorum_bps = 1_000; // 10%

    w.gov.update_config(admin, config).unwrap();
    assert_eq!(w.gov.get_config().unwrap().quorum_bps, 1_000);
}

#[test]
fn test_non_admin_cannot_update_config() {
    let (mut w, _admin, _ta, _token) = setup();
    let stranger = w.generate();
    let config = w.gov.get_config().unwrap();

    let result = w.gov.update_config(stranger, config);
    assert!(result.is_err());
}

// Full governance lifecycle

/// End-to-end: create_proposal, cast_vote (for and against),
/// finalize_proposal, execute_proposal, checking every status transition
/// and the ParameterChange payload. Finalization goes from Active straight
/// to Queued.
#[test]
fn test_governance_full_lifecycle() {
    let (mut w, _admin, _ta, token) = setup();

    let proposer = w.generate();
    let voter_for = w.generate();
    let voter_against = w.generate();

    // Supply: proposer=100, for=8_000, against=1_000, total=9_100
    // Quorum required: 9_100 * 4% = 364; total votes 9_000 >= 364
    // Approval: 8_000 / 9_000 is about 88.9% >= 51%
    w.mint(token, proposer, THRESHOLD);
    w.mint(token, voter_for, 8_000);
    w.mint(token, voter_against, 1_000);

    let payload = ProposalPayload::Parameter(ParameterPayload {
        key: String::from("platform_fee_bps"),
        value: 150,
    });

    // 1. create_proposal: status must be Active
    let proposal_id = w
        .try_create_proposal(
            proposer,
            "Lower platform fee",
            "Reduce platform fee to 1.5%",
            ProposalType::ParameterChange,
            payload,
            9_100i128,
        )
        .unwrap();
    assert_eq!(proposal_id, 0);

    let p = w.gov.get_proposal(proposal_id).unwrap();
    assert_eq!(p.status, ProposalStatus::Active);
    assert_eq!(p.votes_for, 0);
    assert_eq!(p.votes_against, 0);

    // 2. cast_vote: advance past voting_delay, then vote for and against
    w.advance(VOTING_DELAY + 1);

    w.cast_vote(voter_for, proposal_id, true);
    w.cast_vote(voter_against, proposal_id, false);

    let p = w.gov.get_proposal(proposal_id).unwrap();
    assert_eq!(p.votes_for, 8_000);
    assert_eq!(p.votes_against, 1_000);
    assert!(w.gov.has_voted(proposal_id, voter_for));
    assert!(w.gov.has_voted(proposal_id, voter_against));

    // 3. finalize_proposal: advance past voting_period; expect Queued
    w.advance(VOTING_PERIOD);

    let status = w.try_finalize(proposal_id).unwrap();
    assert_eq!(status, ProposalStatus::Queued);

    let p = w.gov.get_proposal(proposal_id).unwrap();
    assert_eq!(p.status, ProposalStatus::Queued);

    // 4. execute_proposal: advance past timelock_delay; expect Executed
    w.advance(TIMELOCK_DELAY + 1);

    w.try_execute(proposal_id).unwrap();

    let p = w.gov.get_proposal(proposal_id).unwrap();
    assert_eq!(p.status, ProposalStatus::Executed);
    assert!(p.executed_at.is_some());

    // The ParameterChange payload is intact and readable
    match p.payload {
        ProposalPayload::Parameter(ref pp) => {
            assert_eq!(pp.key, String::from("platform_fee_bps"));
            assert_eq!(pp.value, 150);
        }
        _ => panic!("unexpected payload variant"),
    }
}

// Parameter change proposal

#[test]
fn test_parameter_change_proposal_full_lifecycle() {
    let (mut w, _admin, _ta, token) = setup();
    let proposer = w.generate();
    let voter = w.generate();
    w.mint(token, proposer, THRESHOLD);
    w.mint(token, voter, 10_000);

    let payload = ProposalPayload::Parameter(ParameterPayload {
        key: String::from("platform_fee_bps"),
        value: 200,
    });

    let id = w
        .try_create_proposal(
            proposer,
            "Lower platform fee",
            "Reduce fee from 1.5% to 2%",
            ProposalType::ParameterChange,
            payload,
            10_000i128,
        )
        .unwrap();

    w.advance(VOTING_DELAY + 1);
    w.cast_vote(voter, id, true);
    w.advance(VOTING_PERIOD);
    w.try_finalize(id).unwrap();
    w.advance(TIMELOCK_DELAY + 1);
    w.try_execute(id).unwrap();

    let p = w.gov.get_proposal(id).unwrap();
    assert_eq!(p.status, ProposalStatus::Executed);
}

// Jury voting pools

fn jury_setup() -> (World, Address, Address, Address, Address) {
    let (mut w, admin, _ta, token) = setup();
    w.gov.initialize_jury_config(admin, 604_800u64, 100i128, 500u32).unwrap();
    let client_addr = w.generate();
    let freelancer = w.generate();
    (w, admin, token, client_addr, freelancer)
}

#[test]
fn test_create_jury_pool() {
    let (mut w, _admin, token, client_addr, freelancer) = jury_setup();
    let disputed_amount = 5_000i128;

    // Fund the governance contract with disputed amount
    w.mint(token, CONTRACT, disputed_amount);

    let pool_id = w.create_jury_pool(1u64, 0u64, client_addr, freelancer, disputed_amount, token);

    assert_eq!(pool_id, 0);
    assert_eq!(w.gov.jury_pool_count(), 1);

    let pool = w.gov.get_jury_pool(pool_id).unwrap();
    assert_eq!(pool.escrow_id, 1);
    assert_eq!(pool.milestone_id, 0);
    assert_eq!(pool.disputed_amount, disputed_amount);
    assert_eq!(pool.weight_for_client, 0);
    assert_eq!(pool.weight_for_freelancer, 0);
}

#[test]
fn test_cast_jury_vote_for_client() {
    let (mut w, _admin, token, client_addr, freelancer) = jury_setup();
    let voter = w.generate();

    w.mint(token, CONTRACT, 5_000);

    let pool_id = w.create_jury_pool(1u64, 0u64, client_addr, freelancer, 5_000i128, token);

    // Voter stakes tokens to get voting power
    w.mint(token, voter, 1_000);
    w.stake_arbitrator(voter, 1_000i128);

    // Cast vote for client
    w.cast_jury_vote(voter, pool_id, true);

    let pool = w.gov.get_jury_pool(pool_id).unwrap();
    assert_eq!(pool.weight_for_client, 1_000);
    assert_eq!(pool.weight_for_freelancer, 0);
    assert_eq!(pool.total_locked_tokens, 1_000);
    assert!(w.gov.has_jury_voted(pool_id, voter));
}

#[test]
fn test_cast_jury_vote_for_freelancer() {
    let (mut w, _admin, token, client_addr, freelancer) = jury_setup();
    let voter = w.generate();

    w.mint(token, CONTRACT, 5_000);

    let pool_id = w.create_jury_pool(1u64, 0u64, client_addr, freelancer, 5_000i128, token);

    w.mint(token, voter, 500);
    w.stake_arbitrator(voter, 500i128);

    w.cast_jury_vote(voter, pool_id, false);

    let pool = w.gov.get_jury_pool(pool_id).unwrap();
    assert_eq!(pool.weight_for_client, 0);
    assert_eq!(pool.weight_for_freelancer, 500);
    assert_eq!(pool.total_locked_tokens, 500);
}

#[test]
fn test_jury_double_vote_fails() {
    let (mut w, _admin, token, client_addr, freelancer) = jury_setup();
    let voter = w.generate();

    w.mint(token, CONTRACT, 5_000);

    let pool_id = w.create_jury_pool(1u64, 0u64, client_addr, freelancer, 5_000i128, token);

    w.mint(token, voter, 1_000);
    w.stake_arbitrator(voter, 1_000i128);

    w.cast_jury_vote(voter, pool_id, true);

    let result = w.try_cast_jury_vote(voter, pool_id, false);
    assert!(result.is_err());
}

#[test]
fn test_jury_vote_insufficient_stake_fails() {
    let (mut w, _admin, token, client_addr, freelancer) = jury_setup();
    let voter = w.generate();

    w.mint(token, CONTRACT, 5_000);

    let pool_id = w.create_jury_pool(1u64, 0u64, client_addr, freelancer, 5_000i128, token);

    // Voter has only 50 tokens staked, below minimum of 100
    w.mint(token, voter, 50);
    w.stake_arbitrator(voter, 50i128);

    let result = w.try_cast_jury_vote(voter, pool_id, true);
    assert!(result.is_err());
}

#[test]
fn test_resolve_jury_pool_client_wins() {
    let (mut w, _admin, token, client_addr, freelancer) = jury_setup();
    let voter1 = w.generate();
    let voter2 = w.generate();

    w.mint(token, CONTRACT, 5_000);

    let pool_id = w.create_jury_pool(1u64, 0u64, client_addr, freelancer, 5_000i128, token);

    // voter1: 2000 tokens for client
    w.mint(token, voter1, 2_000);
    w.stake_arbitrator(voter1, 2_000i128);
    w.cast_jury_vote(voter1, pool_id, true);

    // voter2: 500 tokens for freelancer
    w.mint(token, voter2, 500);
    w.stake_arbitrator(voter2, 500i128);
    w.cast_jury_vote(voter2, pool_id, false);

    // Advance past voting period
    w.advance(604_801);

    let client_wins = w.try_resolve(pool_id).unwrap();
    assert!(client_wins);

    let pool = w.gov.get_jury_pool(pool_id).unwrap();
    assert_eq!(pool.weight_for_client, 2_000);
    assert_eq!(pool.weight_for_freelancer, 500);
    assert!(pool.resolved_at.is_some());
}

#[test]
fn test_resolve_jury_pool_freelancer_wins() {
    let (mut w, _admin, token, client_addr, freelancer) = jury_setup();
    let voter1 = w.generate();
    let voter2 = w.generate();

    w.mint(token, CONTRACT, 5_000);

    let pool_id = w.create_jury_pool(1u64, 0u64, client_addr, freelancer, 5_000i128, token);

    // voter1: 800 tokens for client
    w.mint(token, voter1, 800);
    w.stake_arbitrator(voter1, 800i128);
    w.cast_jury_vote(voter1, pool_id, true);

    // voter2: 1500 tokens for freelancer
    w.mint(token, voter2, 1_500);
    w.stake_arbitrator(voter2, 1_500i128);
    w.cast_jury_vote(voter2, pool_id, false);

    w.advance(604_801);

    let client_wins = w.try_resolve(pool_id).unwrap();
    assert!(!client_wins);

    let pool = w.gov.get_jury_pool(pool_id).unwrap();
    assert_eq!(pool.weight_for_client, 800);
    assert_eq!(pool.weight_for_freelancer, 1_500);
}

#[test]
fn test_resolve_before_voting_ends_fails() {
    let (mut w, _admin, token, client_addr, freelancer) = jury_setup();

    w.mint(token, CONTRACT, 5_000);

    let pool_id = w.create_jury_pool(1u64, 0u64, client_addr, freelancer, 5_000i128, token);

    let result = w.try_resolve(pool_id);
    assert!(result.is_err());
}

#[test]
fn test_resolve_jury_pool_quorum_not_reached() {
    let (mut w, _admin, token, client_addr, freelancer) = jury_setup();
    let voter = w.generate();

    w.mint(token, CONTRACT, 10_000);

    let pool_id = w.create_jury_pool(1u64, 0u64, client_addr, freelancer, 10_000i128, token);

    // Only 100 tokens locked, but quorum requires 5% of 10_000 = 500
    w.mint(token, voter, 100);
    w.stake_arbitrator(voter, 100i128);
    w.cast_jury_vote(voter, pool_id, true);

    w.advance(604_801);

    let result = w.try_resolve(pool_id);
    assert!(result.is_err());
}

#[test]
fn test_distribute_jury_funds_client_wins() {
    let (mut w, _admin, token, client_addr, freelancer) = jury_setup();
    let voter = w.generate();

    let disputed_amount = 5_000i128;
    w.mint(token, CONTRACT, disputed_amount);

    let pool_id = w.create_jury_pool(1u64, 0u64, client_addr, freelancer, disputed_amount, token);

    w.mint(token, voter, 1_000);
    w.stake_arbitrator(voter, 1_000i128);
    w.cast_jury_vote(voter, pool_id, true);

    w.advance(604_801);
    w.try_resolve(pool_id).unwrap();

    w.try_distribute(pool_id).unwrap();

    let balance = w.balance(token, client_addr);
    assert_eq!(balance, disputed_amount);
}

#[test]
fn test_distribute_jury_funds_freelancer_wins() {
    let (mut w, _admin, token, client_addr, freelancer) = jury_setup();
    let voter = w.generate();

    let disputed_amount = 5_000i128;
    w.mint(token, CONTRACT, disputed_amount);

    let pool_id = w.create_jury_pool(1u64, 0u64, client_addr, freelancer, disputed_amount, token);

    w.mint(token, voter, 1_000);
    w.stake_arbitrator(voter, 1_000i128);
    w.cast_jury_vote(voter, pool_id, false);

    w.advance(604_801);
    w.try_resolve(pool_id).unwrap();

    w.try_distribute(pool_id).unwrap();

    let balance = w.balance(token, freelancer);
    assert_eq!(balance, disputed_amount);
}

#[test]
fn test_distribute_before_resolution_fails() {
    let (mut w, _admin, token, client_addr, freelancer) = jury_setup();

    w.mint(token, CONTRACT, 5_000);

    let pool_id = w.create_jury_pool(1u64, 0u64, client_addr, freelancer, 5_000i128, token);

    let result = w.try_distribute(pool_id);
    assert!(result.is_err());
}

#[test]
fn test_jury_pool_full_lifecycle() {
    let (mut w, _admin, token, client_addr, freelancer) = jury_setup();
    let voter1 = w.generate();
    let voter2 = w.generate();
    let voter3 = w.generate();

    let disputed_amount = 10_000i128;
    w.mint(token, CONTRACT, disputed_amount);

    // 1. Create jury pool
    let pool_id = w.create_jury_pool(42u64, 3u64, client_addr, freelancer, disputed_amount, token);

    assert_eq!(pool_id, 0);

    // 2. Multiple voters stake and vote
    // voter1: 3000 tokens for client
    w.mint(token, voter1, 3_000);
    w.stake_arbitrator(voter1, 3_000i128);
    w.cast_jury_vote(voter1, pool_id, true);

    // voter2: 2000 tokens for freelancer
    w.mint(token, voter2, 2_000);
    w.stake_arbitrator(voter2, 2_000i128);
    w.cast_jury_vote(voter2, pool_id, false);

    // voter3: 1500 tokens for client
    w.mint(token, voter3, 1_500);
    w.stake_arbitrator(voter3, 1_500i128);
    w.cast_jury_vote(voter3, pool_id, true);

    let pool = w.gov.get_jury_pool(pool_id).unwrap();
    assert_eq!(pool.weight_for_client, 4_500);
    assert_eq!(pool.weight_for_freelancer, 2_000);
    assert_eq!(pool.total_locked_tokens, 6_500);

    // 3. Advance past voting period
    w.advance(604_801);

    // 4. Resolve pool
    let client_wins = w.try_resolve(pool_id).unwrap();
    assert!(client_wins);

    // 5. Distribute funds
    w.try_distribute(pool_id).unwrap();

    let client_balance = w.balance(token, client_addr);
    assert_eq!(client_balance, disputed_amount);

    let freelancer_balance = w.balance(token, freelancer);
    assert_eq!(freelancer_balance, 0);
}
