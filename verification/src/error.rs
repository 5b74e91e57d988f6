//! The ways an operation on a stream is refused.

use vstd::prelude::*;

verus! {

/// Why an operation was refused. A refusal changes nothing: no record is
/// produced, no transfer is asked for, no event is raised.
#[derive(Clone, Copy, Debug, PartialEq, Eq, Structural)]
pub enum StreamError {
    /// The configuration has been written before.
    AlreadyInitialised,
    /// No record is stored under the requested identifier.
    StreamNotFound,
    /// The caller does not control the account that the entry point demands.
    Unauthorized,
    /// The deposit is zero or negative.
    InvalidDeposit,
    /// The rate is zero or negative.
    InvalidRate,
    /// Sender and recipient are the same account.
    SameParty,
    /// The start is not before the end.
    InvalidTimeRange,
    /// The cliff lies outside the window from start to end.
    InvalidCliff,
    /// The deposit does not cover the rate over the whole window.
    InsufficientDeposit,
    /// Only an active stream can be paused.
    NotActive,
    /// Only a paused stream can be resumed.
    NotPaused,
    /// Only an active or paused stream can be cancelled.
    NotCancellable,
    /// A completed stream pays nothing more.
    AlreadyCompleted,
    /// A paused stream pays nothing until it is resumed.
    WithdrawWhilePaused,
    /// Nothing has accrued beyond what was already withdrawn.
    NothingToWithdraw,
}

impl StreamError {
    /// The text of each refusal.
    pub open spec fn message_text(self) -> Seq<char> {
        match self {
            StreamError::AlreadyInitialised => "already initialised"@,
            StreamError::StreamNotFound => "stream not found"@,
            StreamError::Unauthorized => "caller is not authorised"@,
            StreamError::InvalidDeposit => "deposit_amount must be positive"@,
            StreamError::InvalidRate => "rate_per_second must be positive"@,
            StreamError::SameParty => "sender and recipient must be different"@,
            StreamError::InvalidTimeRange => "start_time must be before end_time"@,
            StreamError::InvalidCliff => "cliff_time must be within [start_time, end_time]"@,
            StreamError::InsufficientDeposit => "deposit_amount must cover total streamable amount"@,
            StreamError::NotActive => "stream is not active"@,
            StreamError::NotPaused => "stream is not paused"@,
            StreamError::NotCancellable => "stream must be active or paused to cancel"@,
            StreamError::AlreadyCompleted => "stream already completed"@,
            StreamError::WithdrawWhilePaused => "cannot withdraw from paused stream"@,
            StreamError::NothingToWithdraw => "nothing to withdraw"@,
        }
    }

    /// The text a host reports for this refusal.
    pub fn message(&self) -> (text: &'static str)
        ensures
            text@ == self.message_text(),
    {
        match self {
            StreamError::AlreadyInitialised => "already initialised",
            StreamError::StreamNotFound => "stream not found",
            StreamError::Unauthorized => "caller is not authorised",
            StreamError::InvalidDeposit => "deposit_amount must be positive",
            StreamError::InvalidRate => "rate_per_second must be positive",
            StreamError::SameParty => "sender and recipient must be different",
            StreamError::InvalidTimeRange => "start_time must be before end_time",
            StreamError::InvalidCliff => "cliff_time must be within [start_time, end_time]",
            StreamError::InsufficientDeposit => "deposit_amount must cover total streamable amount",
            StreamError::NotActive => "stream is not active",
            StreamError::NotPaused => "stream is not paused",
            StreamError::NotCancellable => "stream must be active or paused to cancel",
            StreamError::AlreadyCompleted => "stream already completed",
            StreamError::WithdrawWhilePaused => "cannot withdraw from paused stream",
            StreamError::NothingToWithdraw => "nothing to withdraw",
        }
    }
}

} // verus!
