//! What holds of the lifecycle as a whole, proved from the transitions.

use vstd::prelude::*;
use crate::accrual::{int_max, lemma_accrual_monotonic};
use crate::contract::guarded;
use crate::error::StreamError;
use crate::stream::{AccountId, Config, Outcome, Party, Stream, StreamStatus, Transfer};

verus! {

/// Whether a status is final.
pub open spec fn is_final(status: StreamStatus) -> bool {
    status == StreamStatus::Completed || status == StreamStatus::Cancelled
}

/// Whether two records tell of the same agreement: the same identifier,
/// parties and schedule.
pub open spec fn same_agreement(a: Stream, b: Stream) -> bool {
    &&& a.stream_id == b.stream_id
    &&& a.sender == b.sender
    &&& a.recipient == b.recipient
    &&& a.deposit_amount == b.deposit_amount
    &&& a.rate_per_second == b.rate_per_second
    &&& a.start_time == b.start_time
    &&& a.cliff_time == b.cliff_time
    &&& a.end_time == b.end_time
}

/// A stream that is opened and cancelled before anything has accrued, that
/// is no later than its start or before its cliff, returns the whole deposit
/// to the sender and leaves the recipient nothing to withdraw, then or at
/// any later time.
pub proof fn lemma_cancel_before_accrual_refunds_deposit(
    stream_id: u64,
    sender: AccountId,
    recipient: AccountId,
    deposit_amount: i128,
    rate_per_second: i128,
    start_time: u64,
    cliff_time: u64,
    end_time: u64,
    now: u64,
    later: u64,
)
    requires
        Stream::open_result(
            stream_id,
            sender,
            recipient,
            deposit_amount,
            rate_per_second,
            start_time,
            cliff_time,
            end_time,
        ) is Ok,
        now <= start_time || now < cliff_time,
    ensures
        ({
            let opened = Stream::open_result(
                stream_id,
                sender,
                recipient,
                deposit_amount,
                rate_per_second,
                start_time,
                cliff_time,
                end_time,
            )->Ok_0.stream;
            let cancelled = opened.cancel_result(now);
            &&& cancelled is Ok
            &&& cancelled->Ok_0.stream.status == StreamStatus::Cancelled
            &&& cancelled->Ok_0.transfer == Some(
                Transfer {
                    from: Party::Holding,
                    to: Party::Account(sender),
                    amount: deposit_amount,
                },
            )
            &&& cancelled->Ok_0.stream.accrued_at(later) == 0
            &&& cancelled->Ok_0.stream.withdrawable_at(later) == 0
            &&& cancelled->Ok_0.stream.withdraw_result(later) == Err::<Outcome, StreamError>(
                StreamError::NothingToWithdraw,
            )
        }),
{
    if now >= cliff_time {
        assert((now - start_time) * rate_per_second == 0) by (nonlinear_arith)
            requires
                now == start_time,
        ;
    }
}

/// A withdrawal keeps the record's invariant for all time to come: the
/// withdrawn amount has grown to what had accrued, and from then on it lies
/// between zero and the accrued amount, which lies within the deposit.
pub proof fn lemma_withdrawal_keeps_invariant(stream: Stream, now: u64, later: u64)
    requires
        stream.wf(),
        stream.withdraw_result(now) is Ok,
        now <= later,
    ensures
        ({
            let after = stream.withdraw_result(now)->Ok_0.stream;
            &&& after.wf()
            &&& same_agreement(stream, after)
            &&& after.cancelled_at == stream.cancelled_at
            &&& stream.withdrawn_amount < after.withdrawn_amount
            &&& after.withdrawn_amount == stream.accrued_at(now)
            &&& 0 <= after.withdrawn_amount <= after.accrued_at(later) <= after.deposit_amount
            &&& after.status == StreamStatus::Completed <==> after.withdrawn_amount
                >= after.deposit_amount
        }),
{
    lemma_accrued_within_deposit(stream, now);
    lemma_accrued_within_deposit(stream, later);
    if stream.cancelled_at is None {
        lemma_accrual_monotonic(
            stream.start_time,
            stream.cliff_time,
            stream.end_time,
            stream.rate_per_second,
            stream.deposit_amount,
            now,
            later,
        );
    }
}

/// What has accrued on a valid record lies between zero and the deposit,
/// cancelled or not, at every time.
pub proof fn lemma_accrued_within_deposit(stream: Stream, now: u64)
    requires
        stream.wf(),
    ensures
        0 <= stream.accrued_at(now) <= stream.deposit_amount,
        0 <= stream.scheduled_at(now) <= stream.deposit_amount,
{
}

/// What a withdrawal pays and what it leaves withdrawn add up: the payment
/// is the growth of the withdrawn amount, and a second withdrawal at the
/// same time finds nothing, or finds the stream completed.
pub proof fn lemma_withdrawal_pays_the_difference(stream: Stream, now: u64)
    requires
        stream.wf(),
        stream.withdraw_result(now) is Ok,
    ensures
        ({
            let outcome = stream.withdraw_result(now)->Ok_0;
            &&& outcome.transfer is Some
            &&& outcome.transfer->Some_0.from == Party::Holding
            &&& outcome.transfer->Some_0.to == Party::Account(stream.recipient)
            &&& outcome.transfer->Some_0.amount == outcome.stream.withdrawn_amount
                - stream.withdrawn_amount
            &&& outcome.transfer->Some_0.amount > 0
            &&& outcome.stream.withdraw_result(now) is Err
        }),
{
    lemma_accrued_within_deposit(stream, now);
}

/// Cancelling splits the deposit in two: what the schedule has given by
/// then stays for the recipient, the rest goes back to the sender, and a
/// transfer is asked for exactly when that rest is more than nothing. Where
/// the withdrawn amount is within what has accrued, as it is whenever the
/// clock has not gone back behind the last withdrawal, the refund is the
/// deposit less the accrued amount; in no case does it reach into what was
/// withdrawn. The record keeps the time of the cancellation and its
/// withdrawn amount.
pub proof fn lemma_cancel_splits_deposit(stream: Stream, now: u64)
    requires
        stream.wf(),
        stream.cancel_result(now) is Ok,
    ensures
        ({
            let outcome = stream.cancel_result(now)->Ok_0;
            let refund = stream.unstreamed_at(now);
            &&& 0 <= refund <= stream.deposit_amount - stream.withdrawn_amount
            &&& stream.withdrawn_amount <= stream.accrued_at(now) ==> refund
                == stream.deposit_amount - stream.accrued_at(now)
            &&& outcome.stream.wf()
            &&& same_agreement(stream, outcome.stream)
            &&& outcome.stream.status == StreamStatus::Cancelled
            &&& outcome.stream.cancelled_at == Some(now)
            &&& outcome.stream.withdrawn_amount == stream.withdrawn_amount
            &&& refund == 0 ==> outcome.transfer is None
            &&& refund > 0 ==> outcome.transfer == Some(
                Transfer {
                    from: Party::Holding,
                    to: Party::Account(stream.sender),
                    amount: refund as i128,
                },
            )
        }),
{
    lemma_accrued_within_deposit(stream, now);
}

/// A cancellation stops accrual for good. Whatever the clock reads
/// afterwards, the cancelled stream has accrued what it had at the time of
/// the cancellation, and a withdrawal pays exactly that less what was
/// withdrawn before, or is refused where that is nothing. After such a
/// withdrawal the stream is completed only if the amount fixed at the
/// cancellation had reached the deposit; otherwise it stays cancelled. No
/// further withdrawal, at any time, pays anything.
pub proof fn lemma_cancelled_stream_pays_what_had_accrued(
    stream: Stream,
    cancelled_time: u64,
    now: u64,
    again: u64,
)
    requires
        stream.wf(),
        stream.cancel_result(cancelled_time) is Ok,
    ensures
        ({
            let cancelled = stream.cancel_result(cancelled_time)->Ok_0.stream;
            let fixed = stream.accrued_at(cancelled_time);
            let claim = fixed - stream.withdrawn_amount;
            &&& cancelled.accrued_at(now) == fixed
            &&& cancelled.withdrawable_at(now) == claim
            &&& claim <= 0 ==> cancelled.withdraw_result(now) == Err::<Outcome, StreamError>(
                StreamError::NothingToWithdraw,
            )
            &&& claim > 0 ==> {
                let paid = cancelled.withdraw_result(now);
                &&& paid is Ok
                &&& paid->Ok_0.transfer == Some(
                    Transfer {
                        from: Party::Holding,
                        to: Party::Account(stream.recipient),
                        amount: claim as i128,
                    },
                )
                &&& paid->Ok_0.stream.withdrawn_amount == fixed
                &&& paid->Ok_0.stream.cancelled_at == Some(cancelled_time)
                &&& fixed >= stream.deposit_amount ==> paid->Ok_0.stream.status
                    == StreamStatus::Completed
                &&& fixed < stream.deposit_amount ==> paid->Ok_0.stream.status
                    == StreamStatus::Cancelled
                &&& paid->Ok_0.stream.withdraw_result(again) is Err
            }
        }),
{
    lemma_accrued_within_deposit(stream, cancelled_time);
}

/// Cancelling never lets more than the deposit leave holding. The refund,
/// what the recipient had withdrawn before the cancellation, and what a
/// withdrawal pays after it, at whatever time, add up to exactly the
/// deposit; before that withdrawal, and where there is none to make, the
/// refund and what was withdrawn stay within the deposit.
pub proof fn lemma_cancel_conserves_deposit(stream: Stream, cancelled_time: u64, now: u64)
    requires
        stream.wf(),
        stream.cancel_result(cancelled_time) is Ok,
    ensures
        ({
            let cancelled = stream.cancel_result(cancelled_time)->Ok_0;
            let refund: int = match cancelled.transfer {
                Some(transfer) => transfer.amount as int,
                None => 0,
            };
            let payout: int = match cancelled.stream.withdraw_result(now) {
                Ok(paid) => paid.transfer->Some_0.amount as int,
                Err(_) => 0,
            };
            &&& refund == stream.unstreamed_at(cancelled_time)
            &&& payout == int_max(
                stream.accrued_at(cancelled_time) - stream.withdrawn_amount,
                0,
            )
            &&& 0 <= refund
            &&& 0 <= payout
            &&& refund + stream.withdrawn_amount <= stream.deposit_amount
            &&& refund + stream.withdrawn_amount + payout == stream.deposit_amount
            &&& cancelled.stream.withdraw_result(now) is Ok ==> refund
                + cancelled.stream.withdraw_result(now)->Ok_0.stream.withdrawn_amount
                == stream.deposit_amount
        }),
{
    lemma_accrued_within_deposit(stream, cancelled_time);
}

/// A stream that has just been opened meets its invariant at every time:
/// nothing is withdrawn, and what has accrued lies within the deposit.
pub proof fn lemma_opened_stream_meets_invariant(
    stream_id: u64,
    sender: AccountId,
    recipient: AccountId,
    deposit_amount: i128,
    rate_per_second: i128,
    start_time: u64,
    cliff_time: u64,
    end_time: u64,
    now: u64,
)
    requires
        Stream::open_result(
            stream_id,
            sender,
            recipient,
            deposit_amount,
            rate_per_second,
            start_time,
            cliff_time,
            end_time,
        ) is Ok,
    ensures
        ({
            let opened = Stream::open_result(
                stream_id,
                sender,
                recipient,
                deposit_amount,
                rate_per_second,
                start_time,
                cliff_time,
                end_time,
            )->Ok_0.stream;
            &&& opened.wf()
            &&& opened.status == StreamStatus::Active
            &&& opened.cancelled_at is None
            &&& opened.sender != opened.recipient
            &&& opened.rate_per_second > 0
            &&& opened.deposit_amount > 0
            &&& 0 == opened.withdrawn_amount <= opened.accrued_at(now) <= opened.deposit_amount
        }),
{
    lemma_accrual_monotonic(
        start_time,
        cliff_time,
        end_time,
        rate_per_second,
        deposit_amount,
        now,
        now,
    );
}

/// No transition rewrites the agreement or takes back a withdrawal: the
/// record that comes out of pausing, resuming, cancelling or withdrawing
/// has the identifier, parties and schedule it had, a withdrawn amount no
/// smaller than before, and its invariant intact.
pub proof fn lemma_transitions_keep_agreement(stream: Stream, now: u64)
    requires
        stream.wf(),
    ensures
        stream.pause_result() is Ok ==> {
            &&& same_agreement(stream, stream.pause_result()->Ok_0.stream)
            &&& stream.pause_result()->Ok_0.stream.withdrawn_amount == stream.withdrawn_amount
            &&& stream.pause_result()->Ok_0.stream.wf()
        },
        stream.resume_result() is Ok ==> {
            &&& same_agreement(stream, stream.resume_result()->Ok_0.stream)
            &&& stream.resume_result()->Ok_0.stream.withdrawn_amount == stream.withdrawn_amount
            &&& stream.resume_result()->Ok_0.stream.wf()
        },
        stream.cancel_result(now) is Ok ==> {
            &&& same_agreement(stream, stream.cancel_result(now)->Ok_0.stream)
            &&& stream.cancel_result(now)->Ok_0.stream.withdrawn_amount == stream.withdrawn_amount
            &&& stream.cancel_result(now)->Ok_0.stream.wf()
        },
        stream.withdraw_result(now) is Ok ==> {
            &&& same_agreement(stream, stream.withdraw_result(now)->Ok_0.stream)
            &&& stream.withdraw_result(now)->Ok_0.stream.withdrawn_amount
                > stream.withdrawn_amount
            &&& stream.withdraw_result(now)->Ok_0.stream.wf()
        },
{
    lemma_accrued_within_deposit(stream, now);
}

/// A stream in a final state can be neither paused, resumed nor cancelled,
/// at any time.
pub proof fn lemma_final_states_are_closed(stream: Stream, now: u64)
    requires
        is_final(stream.status),
    ensures
        stream.pause_result() == Err::<Outcome, StreamError>(StreamError::NotActive),
        stream.resume_result() == Err::<Outcome, StreamError>(StreamError::NotPaused),
        stream.cancel_result(now) == Err::<Outcome, StreamError>(StreamError::NotCancellable),
{
}

/// Pausing blocks the claim and not the clock: a paused stream refuses a
/// withdrawal, and once resumed it pays, at the same moment, all that has
/// accrued and was not withdrawn, exactly as if it had never been paused.
pub proof fn lemma_pause_blocks_claim_not_clock(stream: Stream, now: u64)
    requires
        stream.wf(),
        stream.status == StreamStatus::Active,
    ensures
        ({
            let paused = stream.pause_result()->Ok_0.stream;
            let resumed = paused.resume_result()->Ok_0.stream;
            &&& stream.pause_result() is Ok
            &&& paused.withdraw_result(now) == Err::<Outcome, StreamError>(
                StreamError::WithdrawWhilePaused,
            )
            &&& paused.accrued_at(now) == stream.accrued_at(now)
            &&& paused.resume_result() is Ok
            &&& resumed == stream
        }),
{
}

/// The sender's entry point and the admin's apply the same rules: each
/// refuses a caller who does not control its own account, and each gives the
/// account that it is for exactly what the transition gives.
pub proof fn lemma_sender_and_admin_paths_agree(
    config: Config,
    stream: Stream,
    caller: AccountId,
    result: Result<Outcome, StreamError>,
)
    ensures
        guarded(stream.sender, stream.sender, result) == result,
        guarded(config.admin, config.admin, result) == result,
        caller != stream.sender ==> guarded(stream.sender, caller, result) == Err::<
            Outcome,
            StreamError,
        >(StreamError::Unauthorized),
        caller != config.admin ==> guarded(config.admin, caller, result) == Err::<
            Outcome,
            StreamError,
        >(StreamError::Unauthorized),
{
}

} // verus!
