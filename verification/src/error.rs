//! The errors that every operation of the contract can answer with.
use vstd::prelude::*;

verus! {

/// Failures of the storage and parsing layer.
#[derive(Clone, Debug, PartialEq)]
pub enum StdError {
    /// A record that was looked up is not stored.
    NotFound { kind: String },
    /// A failure described by a message.
    GenericErr { msg: String },
    /// Bytes that do not parse as the expected message.
    ParseErr { target_type: String, msg: String },
    /// An arithmetic operation left the range of its type.
    Overflow { source: OverflowError },
}

/// The arithmetic operation that overflowed.
#[derive(Clone, Copy, Debug, PartialEq, Eq, Structural)]
pub enum OverflowOperation {
    Add,
    Sub,
    Mul,
}

/// An arithmetic operation left the range of its integer type.
#[derive(Clone, Copy, Debug, PartialEq, Eq, Structural)]
pub struct OverflowError {
    pub operation: OverflowOperation,
}

/// A division by zero.
#[derive(Clone, Copy, Debug, PartialEq, Eq, Structural)]
pub struct DivideByZeroError {}

/// Why the funds attached to a message were refused.
#[derive(Clone, Debug, PartialEq)]
pub enum PaymentError {
    MissingDenom(String),
    ExtraDenom(String),
    MultipleDenoms {},
    NoFunds {},
    NonPayable {},
}

/// Every way an operation of the contract can fail.
#[derive(Clone, Debug, PartialEq)]
pub enum ContractError {
    Std(StdError),
    Overflow(OverflowError),
    DivideByZero(DivideByZeroError),
    Payment(PaymentError),
    Unauthorized {},
    InvalidInput { error: String },
    JobNotFound {},
    ProposalNotFound {},
    EscrowNotFound {},
    InsufficientFunds { expected: String, actual: String },
    InvalidFunds {},
    JobStatusError { msg: String },
    EscrowAlreadyExists { job_id: u64 },
    EscrowNotFunded { job_id: u64 },
    PaymentError { msg: String },
    RatingError { msg: String },
    InvalidDeadline {},
    JobExpired {},
    DisputePeriodActive {},
    ContractPaused {},
    PlatformFeeTooHigh { max: u64 },
    RatingAlreadySubmitted {},
    CannotRateOwnWork {},
    EscrowAmountTooLow { min: String },
    MilestoneNotFound {},
    MilestonesNotCompleted {},
    ReentrancyAttack {},
    RateLimitExceeded { action: String, limit: u64 },
    AccessDenied {},
    DisputeAlreadyExists {},
    InvalidEscrowStateTransition {},
    MilestoneAlreadyCompleted {},
    CannotModifyCompletedJob {},
    ProposalDeadlineExceeded {},
    EmergencyStop {},
    InvalidSignature {},
    NonceAlreadyUsed {},
    NotImplemented {},
    Cw20Error { msg: String },
    TokenTransferFailed {},
}

/// A storage-layer error with its texts as character sequences.
pub enum StdErrorView {
    NotFound { kind: Seq<char> },
    GenericErr { msg: Seq<char> },
    ParseErr { target_type: Seq<char>, msg: Seq<char> },
    Overflow { source: OverflowError },
}

/// A payment error with its texts as character sequences.
pub enum PaymentErrorView {
    MissingDenom(Seq<char>),
    ExtraDenom(Seq<char>),
    MultipleDenoms,
    NoFunds,
    NonPayable,
}

/// A contract error with its texts as character sequences.
pub enum ErrorView {
    Std(StdErrorView),
    Overflow(OverflowError),
    DivideByZero(DivideByZeroError),
    Payment(PaymentErrorView),
    Unauthorized,
    InvalidInput(Seq<char>),
    JobNotFound,
    ProposalNotFound,
    EscrowNotFound,
    InsufficientFunds { expected: Seq<char>, actual: Seq<char> },
    InvalidFunds,
    JobStatusError(Seq<char>),
    EscrowAlreadyExists { job_id: u64 },
    EscrowNotFunded { job_id: u64 },
    PaymentError(Seq<char>),
    RatingError(Seq<char>),
    InvalidDeadline,
    JobExpired,
    DisputePeriodActive,
    ContractPaused,
    PlatformFeeTooHigh { max: u64 },
    RatingAlreadySubmitted,
    CannotRateOwnWork,
    EscrowAmountTooLow { min: Seq<char> },
    MilestoneNotFound,
    MilestonesNotCompleted,
    ReentrancyAttack,
    RateLimitExceeded { action: Seq<char>, limit: u64 },
    AccessDenied,
    DisputeAlreadyExists,
    InvalidEscrowStateTransition,
    MilestoneAlreadyCompleted,
    CannotModifyCompletedJob,
    ProposalDeadlineExceeded,
    EmergencyStop,
    InvalidSignature,
    NonceAlreadyUsed,
    NotImplemented,
    Cw20Error(Seq<char>),
    TokenTransferFailed,
}

impl View for StdError {
    type V = StdErrorView;

    open spec fn view(&self) -> StdErrorView {
        match self {
            StdError::NotFound { kind } => StdErrorView::NotFound { kind: kind@ },
            StdError::GenericErr { msg } => StdErrorView::GenericErr { msg: msg@ },
            StdError::ParseErr { target_type, msg } => StdErrorView::ParseErr {
                target_type: target_type@,
                msg: msg@,
            },
            StdError::Overflow { source } => StdErrorView::Overflow { source: *source },
        }
    }
}

impl View for PaymentError {
    type V = PaymentErrorView;

    open spec fn view(&self) -> PaymentErrorView {
        match self {
            PaymentError::MissingDenom(d) => PaymentErrorView::MissingDenom(d@),
            PaymentError::ExtraDenom(d) => PaymentErrorView::ExtraDenom(d@),
            PaymentError::MultipleDenoms {  } => PaymentErrorView::MultipleDenoms,
            PaymentError::NoFunds {  } => PaymentErrorView::NoFunds,
            PaymentError::NonPayable {  } => PaymentErrorView::NonPayable,
        }
    }
}

impl View for ContractError {
    type V = ErrorView;

    open spec fn view(&self) -> ErrorView {
        match self {
            ContractError::Std(e) => ErrorView::Std(e@),
            ContractError::Overflow(e) => ErrorView::Overflow(*e),
            ContractError::DivideByZero(e) => ErrorView::DivideByZero(*e),
            ContractError::Payment(e) => ErrorView::Payment(e@),
            ContractError::Unauthorized {  } => ErrorView::Unauthorized,
            ContractError::InvalidInput { error } => ErrorView::InvalidInput(error@),
            ContractError::JobNotFound {  } => ErrorView::JobNotFound,
            ContractError::ProposalNotFound {  } => ErrorView::ProposalNotFound,
            ContractError::EscrowNotFound {  } => ErrorView::EscrowNotFound,
            ContractError::InsufficientFunds { expected, actual } => ErrorView::InsufficientFunds {
                expected: expected@,
                actual: actual@,
            },
            ContractError::InvalidFunds {  } => ErrorView::InvalidFunds,
            ContractError::JobStatusError { msg } => ErrorView::JobStatusError(msg@),
            ContractError::EscrowAlreadyExists { job_id } => ErrorView::EscrowAlreadyExists { job_id: *job_id },
            ContractError::EscrowNotFunded { job_id } => ErrorView::EscrowNotFunded { job_id: *job_id },
            ContractError::PaymentError { msg } => ErrorView::PaymentError(msg@),
            ContractError::RatingError { msg } => ErrorView::RatingError(msg@),
            ContractError::InvalidDeadline {  } => ErrorView::InvalidDeadline,
            ContractError::JobExpired {  } => ErrorView::JobExpired,
            ContractError::DisputePeriodActive {  } => ErrorView::DisputePeriodActive,
            ContractError::ContractPaused {  } => ErrorView::ContractPaused,
            ContractError::PlatformFeeTooHigh { max } => ErrorView::PlatformFeeTooHigh { max: *max },
            ContractError::RatingAlreadySubmitted {  } => ErrorView::RatingAlreadySubmitted,
            ContractError::CannotRateOwnWork {  } => ErrorView::CannotRateOwnWork,
            ContractError::EscrowAmountTooLow { min } => ErrorView::EscrowAmountTooLow { min: min@ },
            ContractError::MilestoneNotFound {  } => ErrorView::MilestoneNotFound,
            ContractError::MilestonesNotCompleted {  } => ErrorView::MilestonesNotCompleted,
            ContractError::ReentrancyAttack {  } => ErrorView::ReentrancyAttack,
            ContractError::RateLimitExceeded { action, limit } => ErrorView::RateLimitExceeded {
                action: action@,
                limit: *limit,
            },
            ContractError::AccessDenied {  } => ErrorView::AccessDenied,
            ContractError::DisputeAlreadyExists {  } => ErrorView::DisputeAlreadyExists,
            ContractError::InvalidEscrowStateTransition {  } => ErrorView::InvalidEscrowStateTransition,
            ContractError::MilestoneAlreadyCompleted {  } => ErrorView::MilestoneAlreadyCompleted,
            ContractError::CannotModifyCompletedJob {  } => ErrorView::CannotModifyCompletedJob,
            ContractError::ProposalDeadlineExceeded {  } => ErrorView::ProposalDeadlineExceeded,
            ContractError::EmergencyStop {  } => ErrorView::EmergencyStop,
            ContractError::InvalidSignature {  } => ErrorView::InvalidSignature,
            ContractError::NonceAlreadyUsed {  } => ErrorView::NonceAlreadyUsed,
            ContractError::NotImplemented {  } => ErrorView::NotImplemented,
            ContractError::Cw20Error { msg } => ErrorView::Cw20Error(msg@),
            ContractError::TokenTransferFailed {  } => ErrorView::TokenTransferFailed,
        }
    }
}

/// The error for a record of the given kind that is not stored.
pub fn not_found(kind: &str) -> (e: ContractError)
    ensures
        e@ == ErrorView::Std(StdErrorView::NotFound { kind: kind@ }),
{
    ContractError::Std(StdError::NotFound { kind: String::from_str(kind) })
}

/// An `InvalidInput` error with the given message.
pub fn invalid_input(msg: &str) -> (e: ContractError)
    ensures
        e@ == ErrorView::InvalidInput(msg@),
{
    ContractError::InvalidInput { error: String::from_str(msg) }
}

/// The error of an addition that left the range of its type, as the storage layer reports it.
pub fn std_overflow_add() -> (e: ContractError)
    ensures
        e@ == ErrorView::Std(StdErrorView::Overflow { source: OverflowError { operation: OverflowOperation::Add } }),
{
    ContractError::Std(StdError::Overflow { source: OverflowError { operation: OverflowOperation::Add } })
}

/// The error of an arithmetic operation that left the range of its type.
pub fn overflow(operation: OverflowOperation) -> (e: ContractError)
    ensures
        e@ == ErrorView::Overflow(OverflowError { operation }),
{
    ContractError::Overflow(OverflowError { operation })
}

} // verus!
