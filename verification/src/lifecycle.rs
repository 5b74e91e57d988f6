//! The lifecycle of a stream: opening, pausing, resuming, cancelling and
//! withdrawing, as transitions on one record.
//!
//! Each transition has a spec function that gives its result and an
//! executable method that computes exactly that. Who may ask for a transition
//! is decided elsewhere: these methods speak of the record alone.

use vstd::prelude::*;
use crate::error::StreamError;
use crate::stream::{AccountId, Outcome, Party, Stream, StreamEvent, StreamStatus, Transfer};

verus! {

/// The first rule that the parameters of a new stream break, if any. The
/// rules are tried in the order in which they are listed here.
pub open spec fn opening_error(
    sender: AccountId,
    recipient: AccountId,
    deposit_amount: i128,
    rate_per_second: i128,
    start_time: u64,
    cliff_time: u64,
    end_time: u64,
) -> Option<StreamError> {
    if deposit_amount <= 0 {
        Some(StreamError::InvalidDeposit)
    } else if rate_per_second <= 0 {
        Some(StreamError::InvalidRate)
    } else if sender == recipient {
        Some(StreamError::SameParty)
    } else if start_time >= end_time {
        Some(StreamError::InvalidTimeRange)
    } else if cliff_time < start_time || cliff_time > end_time {
        Some(StreamError::InvalidCliff)
    } else if deposit_amount < rate_per_second * (end_time - start_time) {
        Some(StreamError::InsufficientDeposit)
    } else {
        None
    }
}

/// The record of a stream that has just been opened.
pub open spec fn opened_stream(
    stream_id: u64,
    sender: AccountId,
    recipient: AccountId,
    deposit_amount: i128,
    rate_per_second: i128,
    start_time: u64,
    cliff_time: u64,
    end_time: u64,
) -> Stream {
    Stream {
        stream_id,
        sender,
        recipient,
        deposit_amount,
        rate_per_second,
        start_time,
        cliff_time,
        end_time,
        withdrawn_amount: 0,
        status: StreamStatus::Active,
        cancelled_at: None,
    }
}

impl Stream {
    /// The record with another status and everything else as it was.
    pub open spec fn with_status(self, status: StreamStatus) -> Stream {
        Stream { status, ..self }
    }

    /// What opening a stream gives: the active record with nothing
    /// withdrawn, the deposit moving from the sender into holding, and the
    /// notice of creation; or the first rule broken.
    pub open spec fn open_result(
        stream_id: u64,
        sender: AccountId,
        recipient: AccountId,
        deposit_amount: i128,
        rate_per_second: i128,
        start_time: u64,
        cliff_time: u64,
        end_time: u64,
    ) -> Result<Outcome, StreamError> {
        match opening_error(
            sender,
            recipient,
            deposit_amount,
            rate_per_second,
            start_time,
            cliff_time,
            end_time,
        ) {
            Some(e) => Err(e),
            None => Ok(
                Outcome {
                    stream: opened_stream(
                        stream_id,
                        sender,
                        recipient,
                        deposit_amount,
                        rate_per_second,
                        start_time,
                        cliff_time,
                        end_time,
                    ),
                    transfer: Some(
                        Transfer {
                            from: Party::Account(sender),
                            to: Party::Holding,
                            amount: deposit_amount,
                        },
                    ),
                    event: StreamEvent::Created(stream_id, deposit_amount),
                },
            ),
        }
    }

    /// What pausing gives: an active stream becomes paused and no value
    /// moves; any other stream is refused.
    pub open spec fn pause_result(self) -> Result<Outcome, StreamError> {
        if self.status == StreamStatus::Active {
            Ok(
                Outcome {
                    stream: self.with_status(StreamStatus::Paused),
                    transfer: None,
                    event: StreamEvent::Paused(self.stream_id),
                },
            )
        } else {
            Err(StreamError::NotActive)
        }
    }

    /// What resuming gives: a paused stream becomes active and no value
    /// moves; any other stream is refused.
    pub open spec fn resume_result(self) -> Result<Outcome, StreamError> {
        if self.status == StreamStatus::Paused {
            Ok(
                Outcome {
                    stream: self.with_status(StreamStatus::Active),
                    transfer: None,
                    event: StreamEvent::Resumed(self.stream_id),
                },
            )
        } else {
            Err(StreamError::NotPaused)
        }
    }

    /// The record of a stream cancelled at `now`: cancelled, with `now` as
    /// the time at which its accrual stopped, and everything else as it was.
    pub open spec fn cancelled_stream(self, now: u64) -> Stream {
        Stream { status: StreamStatus::Cancelled, cancelled_at: Some(now), ..self }
    }

    /// What cancelling at `now` gives: an active or paused stream becomes
    /// cancelled and stops accruing, and what the schedule has not given by
    /// `now` goes back to the sender, with no transfer at all where that is
    /// nothing. What has accrued and was not withdrawn stays in holding for
    /// the recipient, and nothing more is ever added to it. The refund never
    /// reaches into what the recipient has already withdrawn.
    pub open spec fn cancel_result(self, now: u64) -> Result<Outcome, StreamError> {
        if self.status == StreamStatus::Active || self.status == StreamStatus::Paused {
            Ok(
                Outcome {
                    stream: self.cancelled_stream(now),
                    transfer: if self.unstreamed_at(now) > 0 {
                        Some(
                            Transfer {
                                from: Party::Holding,
                                to: Party::Account(self.sender),
                                amount: self.unstreamed_at(now) as i128,
                            },
                        )
                    } else {
                        None
                    },
                    event: StreamEvent::Cancelled(self.stream_id),
                },
            )
        } else {
            Err(StreamError::NotCancellable)
        }
    }

    /// The record after everything accrued at `now` has been withdrawn: the
    /// withdrawn amount is the accrued amount, and the stream is completed
    /// once that reaches the deposit. On a cancelled stream the accrued
    /// amount is the one fixed at the cancellation.
    pub open spec fn after_withdrawal(self, now: u64) -> Stream {
        Stream {
            withdrawn_amount: self.accrued_at(now) as i128,
            status: if self.accrued_at(now) >= self.deposit_amount {
                StreamStatus::Completed
            } else {
                self.status
            },
            ..self
        }
    }

    /// What withdrawing at `now` gives: everything accrued and not yet
    /// withdrawn goes to the recipient. A completed or a paused stream is
    /// refused, and so is a withdrawal of nothing. A cancelled stream pays
    /// what had accrued when it was cancelled, at whatever time it is asked.
    pub open spec fn withdraw_result(self, now: u64) -> Result<Outcome, StreamError> {
        if self.status == StreamStatus::Completed {
            Err(StreamError::AlreadyCompleted)
        } else if self.status == StreamStatus::Paused {
            Err(StreamError::WithdrawWhilePaused)
        } else if self.withdrawable_at(now) <= 0 {
            Err(StreamError::NothingToWithdraw)
        } else {
            Ok(
                Outcome {
                    stream: self.after_withdrawal(now),
                    transfer: Some(
                        Transfer {
                            from: Party::Holding,
                            to: Party::Account(self.recipient),
                            amount: self.withdrawable_at(now) as i128,
                        },
                    ),
                    event: StreamEvent::Withdrew(self.stream_id, self.withdrawable_at(now) as i128),
                },
            )
        }
    }

    /// Opens a stream under `stream_id` after checking its parameters.
    pub fn open(
        stream_id: u64,
        sender: AccountId,
        recipient: AccountId,
        deposit_amount: i128,
        rate_per_second: i128,
        start_time: u64,
        cliff_time: u64,
        end_time: u64,
    ) -> (r: Result<Outcome, StreamError>)
        ensures
            r == Self::open_result(
                stream_id,
                sender,
                recipient,
                deposit_amount,
                rate_per_second,
                start_time,
                cliff_time,
                end_time,
            ),
            r is Ok ==> r->Ok_0.stream.wf(),
    {
        if deposit_amount <= 0 {
            return Err(StreamError::InvalidDeposit);
        }
        if rate_per_second <= 0 {
            return Err(StreamError::InvalidRate);
        }
        if sender == recipient {
            return Err(StreamError::SameParty);
        }
        if start_time >= end_time {
            return Err(StreamError::InvalidTimeRange);
        }
        if cliff_time < start_time || cliff_time > end_time {
            return Err(StreamError::InvalidCliff);
        }
        let duration: u64 = end_time - start_time;
        let covered: bool = match rate_per_second.checked_mul(duration as i128) {
            Some(total) => deposit_amount >= total,
            None => false,
        };
        if !covered {
            return Err(StreamError::InsufficientDeposit);
        }
        Ok(
            Outcome {
                stream: Stream {
                    stream_id,
                    sender,
                    recipient,
                    deposit_amount,
                    rate_per_second,
                    start_time,
                    cliff_time,
                    end_time,
                    withdrawn_amount: 0,
                    status: StreamStatus::Active,
                    cancelled_at: None,
                },
                transfer: Some(
                    Transfer { from: Party::Account(sender), to: Party::Holding, amount: deposit_amount },
                ),
                event: StreamEvent::Created(stream_id, deposit_amount),
            },
        )
    }

    /// Pauses an active stream.
    pub fn pause(&self) -> (r: Result<Outcome, StreamError>)
        ensures
            r == self.pause_result(),
    {
        match self.status {
            StreamStatus::Active => Ok(
                Outcome {
                    stream: self.status_set(StreamStatus::Paused),
                    transfer: None,
                    event: StreamEvent::Paused(self.stream_id),
                },
            ),
            _ => Err(StreamError::NotActive),
        }
    }

    /// Resumes a paused stream.
    pub fn resume(&self) -> (r: Result<Outcome, StreamError>)
        ensures
            r == self.resume_result(),
    {
        match self.status {
            StreamStatus::Paused => Ok(
                Outcome {
                    stream: self.status_set(StreamStatus::Active),
                    transfer: None,
                    event: StreamEvent::Resumed(self.stream_id),
                },
            ),
            _ => Err(StreamError::NotPaused),
        }
    }

    /// Cancels an active or paused stream at `now`.
    pub fn cancel(&self, now: u64) -> (r: Result<Outcome, StreamError>)
        requires
            self.wf(),
        ensures
            r == self.cancel_result(now),
            r is Ok ==> r->Ok_0.stream.wf(),
    {
        match self.status {
            StreamStatus::Active | StreamStatus::Paused => {
                let accrued: i128 = self.scheduled(now);
                let given: i128 = if accrued > self.withdrawn_amount {
                    accrued
                } else {
                    self.withdrawn_amount
                };
                let unstreamed: i128 = self.deposit_amount - given;
                let transfer: Option<Transfer> = if unstreamed > 0 {
                    Some(
                        Transfer {
                            from: Party::Holding,
                            to: Party::Account(self.sender),
                            amount: unstreamed,
                        },
                    )
                } else {
                    None
                };
                Ok(
                    Outcome {
                        stream: Stream {
                            stream_id: self.stream_id,
                            sender: self.sender,
                            recipient: self.recipient,
                            deposit_amount: self.deposit_amount,
                            rate_per_second: self.rate_per_second,
                            start_time: self.start_time,
                            cliff_time: self.cliff_time,
                            end_time: self.end_time,
                            withdrawn_amount: self.withdrawn_amount,
                            status: StreamStatus::Cancelled,
                            cancelled_at: Some(now),
                        },
                        transfer,
                        event: StreamEvent::Cancelled(self.stream_id),
                    },
                )
            },
            _ => Err(StreamError::NotCancellable),
        }
    }

    /// Withdraws at `now` everything accrued and not yet withdrawn.
    pub fn withdraw(&self, now: u64) -> (r: Result<Outcome, StreamError>)
        requires
            self.wf(),
        ensures
            r == self.withdraw_result(now),
            r is Ok ==> r->Ok_0.stream.wf(),
    {
        match self.status {
            StreamStatus::Completed => {
                return Err(StreamError::AlreadyCompleted);
            },
            StreamStatus::Paused => {
                return Err(StreamError::WithdrawWhilePaused);
            },
            _ => {},
        }
        let accrued: i128 = self.accrued(now);
        proof {
            crate::accrual::lemma_accrued_bounded(
                self.start_time,
                self.cliff_time,
                self.end_time,
                self.rate_per_second,
                self.deposit_amount,
                match self.cancelled_at {
                    Some(stopped) => stopped,
                    None => now,
                },
            );
        }
        let withdrawable: i128 = accrued - self.withdrawn_amount;
        if withdrawable <= 0 {
            return Err(StreamError::NothingToWithdraw);
        }
        let status: StreamStatus = if accrued >= self.deposit_amount {
            StreamStatus::Completed
        } else {
            self.status
        };
        Ok(
            Outcome {
                stream: Stream {
                    stream_id: self.stream_id,
                    sender: self.sender,
                    recipient: self.recipient,
                    deposit_amount: self.deposit_amount,
                    rate_per_second: self.rate_per_second,
                    start_time: self.start_time,
                    cliff_time: self.cliff_time,
                    end_time: self.end_time,
                    withdrawn_amount: accrued,
                    status,
                    cancelled_at: self.cancelled_at,
                },
                transfer: Some(
                    Transfer {
                        from: Party::Holding,
                        to: Party::Account(self.recipient),
                        amount: withdrawable,
                    },
                ),
                event: StreamEvent::Withdrew(self.stream_id, withdrawable),
            },
        )
    }

    /// The record with another status and everything else as it was.
    fn status_set(&self, status: StreamStatus) -> (s: Stream)
        ensures
            s == self.with_status(status),
    {
        Stream {
            stream_id: self.stream_id,
            sender: self.sender,
            recipient: self.recipient,
            deposit_amount: self.deposit_amount,
            rate_per_second: self.rate_per_second,
            start_time: self.start_time,
            cliff_time: self.cliff_time,
            end_time: self.end_time,
            withdrawn_amount: self.withdrawn_amount,
            status,
            cancelled_at: self.cancelled_at,
        }
    }
}

} // verus!
