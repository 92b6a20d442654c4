//! Errors of the escrow contract and their stable numeric codes.
//!
//! Every public escrow operation reports failure with an [`EscrowError`].
//! On the ledger an error travels as its `u32` code; some codes are
//! reserved and name no error.

use vstd::prelude::*;

verus! {

/// All possible error conditions returned by the escrow contract.
#[derive(Copy, Clone, Debug, Eq, PartialEq, PartialOrd, Ord, Structural)]
pub enum EscrowError {
    // Initialization
    /// Contract `initialize` was called more than once.
    AlreadyInitialized,
    /// A function that requires initialization was called before `initialize`.
    NotInitialized,

    // Authorization
    /// Caller is not authorized for this operation (not client, freelancer, or a buyer signer).
    Unauthorized,
    /// Operation requires the contract admin address.
    AdminOnly,
    /// Operation requires the escrow client address.
    ClientOnly,

    // Escrow State
    /// Reserved for future use.
    Reserved7,
    /// No escrow exists for the given `escrow_id`.
    EscrowNotFound,
    /// Operation requires the escrow to be in `Active` status.
    EscrowNotActive,
    /// Operation requires the escrow to be in `Disputed` status.
    EscrowNotDisputed,
    /// Reserved for future use.
    Reserved11,
    /// Escrow cannot be cancelled while milestone funds are pending release.
    PendingFunds,

    // Milestone
    /// No milestone exists for the given `milestone_id` within this escrow.
    MilestoneNotFound,
    /// The milestone is not in the required state for this operation.
    InvalidMilestoneState,
    /// The sum of milestone amounts would exceed the escrow's `total_amount`.
    MilestoneAmountExceeds,
    /// Adding this milestone would exceed the maximum allowed milestone count.
    TooManyMilestones,
    /// Milestone amount is zero or negative.
    InvalidMilestoneAmount,

    // Funds
    /// Escrow `total_amount` is zero or negative.
    InvalidEscrowAmount,
    /// Deposited amount does not match the sum of milestone amounts.
    AmountMismatch,

    // Dispute
    /// Reentrant outbound token flow was blocked by the contract guard.
    ReentrancyBlocked,
    /// Dispute timeout has not yet elapsed for this escrow.
    DisputeTimeoutNotReached,
    /// Reserved for future use.
    Reserved24,

    // Deadline
    /// The escrow deadline has already passed.
    DeadlineExpired,

    // Time Lock
    /// Funds are still locked until the lock time expires.
    LockTimeNotExpired,
    /// Cannot extend lock time to the past.
    InvalidLockExtension,
    /// The contract is currently paused.
    ContractPaused,

    // Cancellation
    /// No cancellation request exists for this escrow.
    CancellationNotFound,
    /// A cancellation request already exists for this escrow.
    CancelAlreadyExists,
    /// The cancellation request has already been disputed.
    CancelAlreadyDisputed,
    /// The dispute window for this cancellation is still open.
    CancelPeriodActive,
    /// The dispute deadline for this cancellation has passed.
    CancelDeadlineExpired,
    /// Cancellation is blocked because a dispute was raised against it.
    CancellationDisputed,

    // Slashing
    /// No slash record exists for this escrow.
    SlashNotFound,
    /// The slash has already been disputed.
    SlashAlreadyDisputed,
    /// The dispute deadline for this slash has passed.
    SlashDeadlineExpired,
    /// A SlashRecord already exists for this escrow; duplicate slash rejected.
    SlashAlreadyApplied,

    // Storage Migration
    /// An error occurred during a storage schema migration.
    MigrationFailed,

    // Recurring Payments
    /// No recurring payment config exists for the given `escrow_id`.
    RecurringNotFound,
    /// Recurring schedule parameters are invalid (e.g. `start_time` in the past, no termination condition).
    InvalidRecurring,
    /// No payment is currently due (`now < next_payment_at` or `payments_remaining == 0`).
    NoRecurringDue,
    /// The recurring schedule is paused; call `resume_recurring_schedule` first.
    RecurringPaused,
    /// The recurring schedule has been cancelled; no further payments can be processed.
    RecurringCancelled,

    // Oracle

    // Timelock
    /// The specified timelock duration is invalid.
    InvalidTimelock,
    /// The timelock has not yet expired.
    TimelockNotExpired,

    // Bridge / Cross-Chain
    /// Wrapped token not approved, transfer not found, or bridge not yet finalized.
    BridgeError,

    // Input Validation
    /// A string argument exceeds MAX_STRING_LEN or is empty.
    StringTooLong,

    // Admin Transfer
}

/// The numeric code of an escrow error.
pub open spec fn escrow_error_code(e: EscrowError) -> u32 {
    match e {
        EscrowError::AlreadyInitialized => 1,
        EscrowError::NotInitialized => 2,
        EscrowError::Unauthorized => 3,
        EscrowError::AdminOnly => 4,
        EscrowError::ClientOnly => 5,
        EscrowError::Reserved7 => 7,
        EscrowError::EscrowNotFound => 8,
        EscrowError::EscrowNotActive => 9,
        EscrowError::EscrowNotDisputed => 10,
        EscrowError::Reserved11 => 11,
        EscrowError::PendingFunds => 12,
        EscrowError::MilestoneNotFound => 13,
        EscrowError::InvalidMilestoneState => 14,
        EscrowError::MilestoneAmountExceeds => 15,
        EscrowError::TooManyMilestones => 16,
        EscrowError::InvalidMilestoneAmount => 17,
        EscrowError::InvalidEscrowAmount => 19,
        EscrowError::AmountMismatch => 20,
        EscrowError::ReentrancyBlocked => 22,
        EscrowError::DisputeTimeoutNotReached => 23,
        EscrowError::Reserved24 => 24,
        EscrowError::DeadlineExpired => 26,
        EscrowError::LockTimeNotExpired => 28,
        EscrowError::InvalidLockExtension => 30,
        EscrowError::ContractPaused => 31,
        EscrowError::CancellationNotFound => 32,
        EscrowError::CancelAlreadyExists => 33,
        EscrowError::CancelAlreadyDisputed => 34,
        EscrowError::CancelPeriodActive => 35,
        EscrowError::CancelDeadlineExpired => 36,
        EscrowError::CancellationDisputed => 37,
        EscrowError::SlashNotFound => 38,
        EscrowError::SlashAlreadyDisputed => 39,
        EscrowError::SlashDeadlineExpired => 40,
        EscrowError::SlashAlreadyApplied => 41,
        EscrowError::MigrationFailed => 42,
        EscrowError::RecurringNotFound => 43,
        EscrowError::InvalidRecurring => 44,
        EscrowError::NoRecurringDue => 45,
        EscrowError::RecurringPaused => 46,
        EscrowError::RecurringCancelled => 47,
        EscrowError::InvalidTimelock => 51,
        EscrowError::TimelockNotExpired => 53,
        EscrowError::BridgeError => 54,
        EscrowError::StringTooLong => 55,
    }
}

/// The escrow error carrying code `code`, if any.
pub open spec fn escrow_error_from_code(code: u32) -> Option<EscrowError> {
    match code {
        1 => Some(EscrowError::AlreadyInitialized),
        2 => Some(EscrowError::NotInitialized),
        3 => Some(EscrowError::Unauthorized),
        4 => Some(EscrowError::AdminOnly),
        5 => Some(EscrowError::ClientOnly),
        7 => Some(EscrowError::Reserved7),
        8 => Some(EscrowError::EscrowNotFound),
        9 => Some(EscrowError::EscrowNotActive),
        10 => Some(EscrowError::EscrowNotDisputed),
        11 => Some(EscrowError::Reserved11),
        12 => Some(EscrowError::PendingFunds),
        13 => Some(EscrowError::MilestoneNotFound),
        14 => Some(EscrowError::InvalidMilestoneState),
        15 => Some(EscrowError::MilestoneAmountExceeds),
        16 => Some(EscrowError::TooManyMilestones),
        17 => Some(EscrowError::InvalidMilestoneAmount),
        19 => Some(EscrowError::InvalidEscrowAmount),
        20 => Some(EscrowError::AmountMismatch),
        22 => Some(EscrowError::ReentrancyBlocked),
        23 => Some(EscrowError::DisputeTimeoutNotReached),
        24 => Some(EscrowError::Reserved24),
        26 => Some(EscrowError::DeadlineExpired),
        28 => Some(EscrowError::LockTimeNotExpired),
        30 => Some(EscrowError::InvalidLockExtension),
        31 => Some(EscrowError::ContractPaused),
        32 => Some(EscrowError::CancellationNotFound),
        33 => Some(EscrowError::CancelAlreadyExists),
        34 => Some(EscrowError::CancelAlreadyDisputed),
        35 => Some(EscrowError::CancelPeriodActive),
        36 => Some(EscrowError::CancelDeadlineExpired),
        37 => Some(EscrowError::CancellationDisputed),
        38 => Some(EscrowError::SlashNotFound),
        39 => Some(EscrowError::SlashAlreadyDisputed),
        40 => Some(EscrowError::SlashDeadlineExpired),
        41 => Some(EscrowError::SlashAlreadyApplied),
        42 => Some(EscrowError::MigrationFailed),
        43 => Some(EscrowError::RecurringNotFound),
        44 => Some(EscrowError::InvalidRecurring),
        45 => Some(EscrowError::NoRecurringDue),
        46 => Some(EscrowError::RecurringPaused),
        47 => Some(EscrowError::RecurringCancelled),
        51 => Some(EscrowError::InvalidTimelock),
        53 => Some(EscrowError::TimelockNotExpired),
        54 => Some(EscrowError::BridgeError),
        55 => Some(EscrowError::StringTooLong),
        _ => None,
    }
}

impl EscrowError {
    /// The numeric code under which this error is reported.
    pub fn code(&self) -> (c: u32)
        ensures
            c == escrow_error_code(*self),
    {
        match self {
            EscrowError::AlreadyInitialized => 1,
            EscrowError::NotInitialized => 2,
            EscrowError::Unauthorized => 3,
            EscrowError::AdminOnly => 4,
            EscrowError::ClientOnly => 5,
            EscrowError::Reserved7 => 7,
            EscrowError::EscrowNotFound => 8,
            EscrowError::EscrowNotActive => 9,
            EscrowError::EscrowNotDisputed => 10,
            EscrowError::Reserved11 => 11,
            EscrowError::PendingFunds => 12,
            EscrowError::MilestoneNotFound => 13,
            EscrowError::InvalidMilestoneState => 14,
            EscrowError::MilestoneAmountExceeds => 15,
            EscrowError::TooManyMilestones => 16,
            EscrowError::InvalidMilestoneAmount => 17,
            EscrowError::InvalidEscrowAmount => 19,
            EscrowError::AmountMismatch => 20,
            EscrowError::ReentrancyBlocked => 22,
            EscrowError::DisputeTimeoutNotReached => 23,
            EscrowError::Reserved24 => 24,
            EscrowError::DeadlineExpired => 26,
            EscrowError::LockTimeNotExpired => 28,
            EscrowError::InvalidLockExtension => 30,
            EscrowError::ContractPaused => 31,
            EscrowError::CancellationNotFound => 32,
            EscrowError::CancelAlreadyExists => 33,
            EscrowError::CancelAlreadyDisputed => 34,
            EscrowError::CancelPeriodActive => 35,
            EscrowError::CancelDeadlineExpired => 36,
            EscrowError::CancellationDisputed => 37,
            EscrowError::SlashNotFound => 38,
            EscrowError::SlashAlreadyDisputed => 39,
            EscrowError::SlashDeadlineExpired => 40,
            EscrowError::SlashAlreadyApplied => 41,
            EscrowError::MigrationFailed => 42,
            EscrowError::RecurringNotFound => 43,
            EscrowError::InvalidRecurring => 44,
            EscrowError::NoRecurringDue => 45,
            EscrowError::RecurringPaused => 46,
            EscrowError::RecurringCancelled => 47,
            EscrowError::InvalidTimelock => 51,
            EscrowError::TimelockNotExpired => 53,
            EscrowError::BridgeError => 54,
            EscrowError::StringTooLong => 55,
        }
    }

    /// The error reported under `code`; `None` for an unused or reserved code.
    pub fn from_code(code: u32) -> (e: Option<EscrowError>)
        ensures
            e == escrow_error_from_code(code),
    {
        match code {
            1 => Some(EscrowError::AlreadyInitialized),
            2 => Some(EscrowError::NotInitialized),
            3 => Some(EscrowError::Unauthorized),
            4 => Some(EscrowError::AdminOnly),
            5 => Some(EscrowError::ClientOnly),
            7 => Some(EscrowError::Reserved7),
            8 => Some(EscrowError::EscrowNotFound),
            9 => Some(EscrowError::EscrowNotActive),
            10 => Some(EscrowError::EscrowNotDisputed),
            11 => Some(EscrowError::Reserved11),
            12 => Some(EscrowError::PendingFunds),
            13 => Some(EscrowError::MilestoneNotFound),
            14 => Some(EscrowError::InvalidMilestoneState),
            15 => Some(EscrowError::MilestoneAmountExceeds),
            16 => Some(EscrowError::TooManyMilestones),
            17 => Some(EscrowError::InvalidMilestoneAmount),
            19 => Some(EscrowError::InvalidEscrowAmount),
            20 => Some(EscrowError::AmountMismatch),
            22 => Some(EscrowError::ReentrancyBlocked),
            23 => Some(EscrowError::DisputeTimeoutNotReached),
            24 => Some(EscrowError::Reserved24),
            26 => Some(EscrowError::DeadlineExpired),
            28 => Some(EscrowError::LockTimeNotExpired),
            30 => Some(EscrowError::InvalidLockExtension),
            31 => Some(EscrowError::ContractPaused),
            32 => Some(EscrowError::CancellationNotFound),
            33 => Some(EscrowError::CancelAlreadyExists),
            34 => Some(EscrowError::CancelAlreadyDisputed),
            35 => Some(EscrowError::CancelPeriodActive),
            36 => Some(EscrowError::CancelDeadlineExpired),
            37 => Some(EscrowError::CancellationDisputed),
            38 => Some(EscrowError::SlashNotFound),
            39 => Some(EscrowError::SlashAlreadyDisputed),
            40 => Some(EscrowError::SlashDeadlineExpired),
            41 => Some(EscrowError::SlashAlreadyApplied),
            42 => Some(EscrowError::MigrationFailed),
            43 => Some(EscrowError::RecurringNotFound),
            44 => Some(EscrowError::InvalidRecurring),
            45 => Some(EscrowError::NoRecurringDue),
            46 => Some(EscrowError::RecurringPaused),
            47 => Some(EscrowError::RecurringCancelled),
            51 => Some(EscrowError::InvalidTimelock),
            53 => Some(EscrowError::TimelockNotExpired),
            54 => Some(EscrowError::BridgeError),
            55 => Some(EscrowError::StringTooLong),
            _ => None,
        }
    }
}

/// Decoding a code gives back the error that has it, and a code that
/// decodes is the code of what it decodes to: no two errors share a code.
pub proof fn lemma_escrow_error_code_roundtrip(e: EscrowError, code: u32)
    ensures
        escrow_error_from_code(escrow_error_code(e)) == Some(e),
        escrow_error_from_code(code) matches Some(d) ==> escrow_error_code(d) == code,
{
}

} // verus!
