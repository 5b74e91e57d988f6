//! The entry points of the streaming contract.
//!
//! Every entry point is a function from what the host has read (the stored
//! configuration and record, the clock, and the account whose control the
//! caller has proved) to what the host must do next. Nothing is stored and
//! nothing moves unless the entry point returns `Ok`.
//!
//! Pausing, resuming and cancelling are open to the stream's sender and to
//! the admin, through one entry point each: a proof of control is checked
//! against exactly one account and is never retried against another.

use vstd::prelude::*;
use crate::error::StreamError;
use crate::stream::{AccountId, Config, Outcome, Stream};

verus! {

/// The streaming contract.
pub struct FluxoraStream;

/// `result` if the caller controls the account that is required, and a
/// refusal otherwise, whatever `result` is.
pub open spec fn guarded(
    required: AccountId,
    caller: AccountId,
    result: Result<Outcome, StreamError>,
) -> Result<Outcome, StreamError> {
    if caller == required {
        result
    } else {
        Err(StreamError::Unauthorized)
    }
}

impl FluxoraStream {
    /// What initialising gives: the new configuration where none is stored,
    /// a refusal where one is.
    pub open spec fn init_result(
        stored: Option<Config>,
        token: AccountId,
        admin: AccountId,
    ) -> Result<Config, StreamError> {
        match stored {
            Some(_) => Err(StreamError::AlreadyInitialised),
            None => Ok(Config { token, admin }),
        }
    }

    /// Initialises the contract with the asset it streams and its admin.
    /// Succeeds once: with a configuration already stored it is refused, and
    /// the host keeps what it has.
    pub fn init(stored: Option<Config>, token: AccountId, admin: AccountId) -> (r: Result<
        Config,
        StreamError,
    >)
        ensures
            r == Self::init_result(stored, token, admin),
    {
        match stored {
            Some(_) => Err(StreamError::AlreadyInitialised),
            None => Ok(Config { token, admin }),
        }
    }

    /// Creates a stream under `stream_id`. The caller must be the sender.
    ///
    /// On success the host first carries out the transfer of the deposit into
    /// holding, and only then takes the identifier into use and stores the
    /// record: a failed transfer leaves nothing behind.
    pub fn create_stream(
        stream_id: u64,
        caller: AccountId,
        sender: AccountId,
        recipient: AccountId,
        deposit_amount: i128,
        rate_per_second: i128,
        start_time: u64,
        cliff_time: u64,
        end_time: u64,
    ) -> (r: Result<Outcome, StreamError>)
        ensures
            r == guarded(
                sender,
                caller,
                Stream::open_result(
                    stream_id,
                    sender,
                    recipient,
                    deposit_amount,
                    rate_per_second,
                    start_time,
                    cliff_time,
                    end_time,
                ),
            ),
            r is Ok ==> r->Ok_0.stream.wf(),
    {
        if caller != sender {
            return Err(StreamError::Unauthorized);
        }
        Stream::open(
            stream_id,
            sender,
            recipient,
            deposit_amount,
            rate_per_second,
            start_time,
            cliff_time,
            end_time,
        )
    }

    /// Pauses an active stream on behalf of its sender.
    pub fn pause_stream(stream: &Stream, caller: AccountId) -> (r: Result<Outcome, StreamError>)
        ensures
            r == guarded(stream.sender, caller, stream.pause_result()),
    {
        if caller != stream.sender {
            return Err(StreamError::Unauthorized);
        }
        stream.pause()
    }

    /// Pauses an active stream on behalf of the admin.
    pub fn pause_stream_as_admin(config: &Config, stream: &Stream, caller: AccountId) -> (r: Result<
        Outcome,
        StreamError,
    >)
        ensures
            r == guarded(config.admin, caller, stream.pause_result()),
    {
        if caller != config.admin {
            return Err(StreamError::Unauthorized);
        }
        stream.pause()
    }

    /// Resumes a paused stream on behalf of its sender.
    pub fn resume_stream(stream: &Stream, caller: AccountId) -> (r: Result<Outcome, StreamError>)
        ensures
            r == guarded(stream.sender, caller, stream.resume_result()),
    {
        if caller != stream.sender {
            return Err(StreamError::Unauthorized);
        }
        stream.resume()
    }

    /// Resumes a paused stream on behalf of the admin.
    pub fn resume_stream_as_admin(config: &Config, stream: &Stream, caller: AccountId) -> (r:
        Result<Outcome, StreamError>)
        ensures
            r == guarded(config.admin, caller, stream.resume_result()),
    {
        if caller != config.admin {
            return Err(StreamError::Unauthorized);
        }
        stream.resume()
    }

    /// Cancels a stream at `now` on behalf of its sender, refunding what has
    /// not accrued. From `now` on the stream accrues nothing more.
    pub fn cancel_stream(stream: &Stream, caller: AccountId, now: u64) -> (r: Result<
        Outcome,
        StreamError,
    >)
        requires
            stream.wf(),
        ensures
            r == guarded(stream.sender, caller, stream.cancel_result(now)),
            r is Ok ==> r->Ok_0.stream.wf(),
    {
        if caller != stream.sender {
            return Err(StreamError::Unauthorized);
        }
        stream.cancel(now)
    }

    /// Cancels a stream at `now` on behalf of the admin. The refund goes to
    /// the sender all the same.
    pub fn cancel_stream_as_admin(
        config: &Config,
        stream: &Stream,
        caller: AccountId,
        now: u64,
    ) -> (r: Result<Outcome, StreamError>)
        requires
            stream.wf(),
        ensures
            r == guarded(config.admin, caller, stream.cancel_result(now)),
            r is Ok ==> r->Ok_0.stream.wf(),
    {
        if caller != config.admin {
            return Err(StreamError::Unauthorized);
        }
        stream.cancel(now)
    }

    /// Pays the recipient, at `now`, everything accrued and not yet
    /// withdrawn; on a cancelled stream, everything that had accrued when it
    /// was cancelled. The caller must be the recipient.
    pub fn withdraw(stream: &Stream, caller: AccountId, now: u64) -> (r: Result<
        Outcome,
        StreamError,
    >)
        requires
            stream.wf(),
        ensures
            r == guarded(stream.recipient, caller, stream.withdraw_result(now)),
            r is Ok ==> r->Ok_0.stream.wf(),
    {
        if caller != stream.recipient {
            return Err(StreamError::Unauthorized);
        }
        stream.withdraw(now)
    }

    /// The amount accrued to the recipient of `stream` at `now`. On a
    /// stream that was cancelled it is the amount fixed at the cancellation.
    pub fn calculate_accrued(stream: &Stream, now: u64) -> (amount: i128)
        ensures
            amount == stream.accrued_at(now),
    {
        stream.accrued(now)
    }

    /// The record that the host found under an identifier, or the refusal
    /// that it found none.
    pub fn get_stream_state(stored: Option<Stream>) -> (r: Result<Stream, StreamError>)
        ensures
            r == match stored {
                Some(stream) => Ok::<Stream, StreamError>(stream),
                None => Err(StreamError::StreamNotFound),
            },
    {
        match stored {
            Some(stream) => Ok(stream),
            None => Err(StreamError::StreamNotFound),
        }
    }
}

} // verus!
