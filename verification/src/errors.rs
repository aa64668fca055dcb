use vstd::prelude::*;

verus! {

/// Why an operation was rejected.
///
/// Every failure is a synchronous, pre-commit rejection: an operation that
/// returns one of these has changed nothing. The variants group into
/// validation errors (bad field lengths, ranges, or counts), authorization
/// errors (the caller is not the admin or the author), state conflicts
/// (wrong paper status, duplicate funding or vote record), temporal errors
/// (deadline passed), arithmetic errors (a checked addition would
/// overflow), the global pause switch, and an empty escrow on claim.
#[derive(Clone, Copy, Debug, PartialEq, Eq, Structural)]
pub enum ResearchError {
    /// The title is empty or longer than the allowed maximum.
    InvalidTitle,
    /// The abstract is empty or longer than the allowed maximum.
    InvalidAbstract,
    /// The content reference hash is empty or longer than the allowed maximum.
    InvalidIPFSHash,
    /// The author list is empty or holds more entries than allowed.
    InvalidAuthors,
    /// The funding goal is below the registry's minimum.
    FundingGoalTooLow,
    /// The funding period is zero or longer than the allowed maximum.
    InvalidFundingPeriod,
    /// The caller is not entitled to this operation.
    Unauthorized,
    /// The paper has not been published.
    PaperNotPublished,
    /// The paper's funding deadline has passed.
    FundingDeadlinePassed,
    /// The amount is zero.
    InvalidAmount,
    /// The paper's status does not admit the requested transition.
    InvalidPaperStatus,
    /// The paper has not reached its funding goal.
    NotFullyFunded,
    /// The paper's escrow balance is empty.
    NoFundsToClaim,
    /// The global kill switch is active.
    ProgramPaused,
    /// The supplied fee rate exceeds the allowed maximum.
    FeeTooHigh,
    /// A funding or vote record for this (paper, identity) pair already exists.
    DuplicateRecord,
    /// A checked addition would overflow.
    ArithmeticOverflow,
}

} // verus!
