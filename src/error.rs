use vstd::prelude::*;

verus! {

/// Failures that an entry point reports instead of changing any state.
#[derive(Clone, Copy, Debug, PartialEq, Eq, Structural)]
pub enum Error {
    InvalidTimeRange,
    InvalidAmount,
    InvalidApprovalThreshold,
    ProposalExpired,
    ProposalNotFound,
    ProposalAlreadyExecuted,
    AlreadyApproved,
    StreamNotFound,
    Unauthorized,
    AlreadyCancelled,
    StreamEnded,
    StreamPaused,
    InsufficientBalance,
    StreamIsSoulbound,
    /// The stream's release rate truncates to zero, so a top-up cannot be
    /// turned into extra duration.
    ZeroFlowRate,
}

} // verus!
