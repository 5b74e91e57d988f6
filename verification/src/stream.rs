//! The stream record and the values that travel with it.

use vstd::prelude::*;
use vstd::bytes::{
    lemma_auto_spec_u128_to_from_le_bytes, lemma_auto_spec_u64_to_from_le_bytes,
    spec_u128_from_le_bytes, spec_u128_to_le_bytes, spec_u64_from_le_bytes,
    spec_u64_to_le_bytes, u128_from_le_bytes, u64_from_le_bytes,
};
use vstd::slice::slice_subrange;
use crate::accrual::{accrued_amount, calculate_accrued_amount, int_max, valid_schedule};

verus! {

/// The number of characters in the text of an address.
pub const ADDRESS_TEXT_LEN: usize = 56;

/// An account, by the text of its address: 56 characters, held as four
/// words, the first three of sixteen characters each and the last of eight.
/// Two accounts are the same exactly when their texts are.
#[derive(Clone, Copy, Debug, PartialEq, Eq, Hash, Structural)]
pub struct AccountId {
    /// Characters 0 to 15, the first in the lowest byte.
    pub w0: u128,
    /// Characters 16 to 31.
    pub w1: u128,
    /// Characters 32 to 47.
    pub w2: u128,
    /// Characters 48 to 55.
    pub w3: u64,
}

impl AccountId {
    /// The account whose address reads `text`, for a text of 56 characters.
    pub open spec fn of_text(text: Seq<u8>) -> AccountId {
        AccountId {
            w0: spec_u128_from_le_bytes(text.subrange(0, 16)),
            w1: spec_u128_from_le_bytes(text.subrange(16, 32)),
            w2: spec_u128_from_le_bytes(text.subrange(32, 48)),
            w3: spec_u64_from_le_bytes(text.subrange(48, 56)),
        }
    }

    /// The account whose address reads `text`, or nothing where `text` has
    /// not the length of an address.
    pub fn from_text(text: &[u8]) -> (id: Option<AccountId>)
        ensures
            text@.len() == ADDRESS_TEXT_LEN ==> id == Some(Self::of_text(text@)),
            text@.len() != ADDRESS_TEXT_LEN ==> id is None,
    {
        if text.len() != ADDRESS_TEXT_LEN {
            return None;
        }
        let w0: u128 = u128_from_le_bytes(slice_subrange(text, 0, 16));
        let w1: u128 = u128_from_le_bytes(slice_subrange(text, 16, 32));
        let w2: u128 = u128_from_le_bytes(slice_subrange(text, 32, 48));
        let w3: u64 = u64_from_le_bytes(slice_subrange(text, 48, 56));
        Some(AccountId { w0, w1, w2, w3 })
    }

    /// Texts and accounts go one to one: two texts that give the same
    /// account are the same text.
    pub proof fn lemma_text_identifies_account(a: Seq<u8>, b: Seq<u8>)
        requires
            a.len() == ADDRESS_TEXT_LEN,
            b.len() == ADDRESS_TEXT_LEN,
            Self::of_text(a) == Self::of_text(b),
        ensures
            a == b,
    {
        lemma_auto_spec_u128_to_from_le_bytes();
        lemma_auto_spec_u64_to_from_le_bytes();
        assert(a.subrange(0, 16) == b.subrange(0, 16)) by {
            assert(spec_u128_to_le_bytes(spec_u128_from_le_bytes(a.subrange(0, 16)))
                == a.subrange(0, 16));
            assert(spec_u128_to_le_bytes(spec_u128_from_le_bytes(b.subrange(0, 16)))
                == b.subrange(0, 16));
        }
        assert(a.subrange(16, 32) == b.subrange(16, 32)) by {
            assert(spec_u128_to_le_bytes(spec_u128_from_le_bytes(a.subrange(16, 32)))
                == a.subrange(16, 32));
            assert(spec_u128_to_le_bytes(spec_u128_from_le_bytes(b.subrange(16, 32)))
                == b.subrange(16, 32));
        }
        assert(a.subrange(32, 48) == b.subrange(32, 48)) by {
            assert(spec_u128_to_le_bytes(spec_u128_from_le_bytes(a.subrange(32, 48)))
                == a.subrange(32, 48));
            assert(spec_u128_to_le_bytes(spec_u128_from_le_bytes(b.subrange(32, 48)))
                == b.subrange(32, 48));
        }
        assert(a.subrange(48, 56) == b.subrange(48, 56)) by {
            assert(spec_u64_to_le_bytes(spec_u64_from_le_bytes(a.subrange(48, 56)))
                == a.subrange(48, 56));
            assert(spec_u64_to_le_bytes(spec_u64_from_le_bytes(b.subrange(48, 56)))
                == b.subrange(48, 56));
        }
        assert forall|i: int| 0 <= i < 56 implies a[i] == b[i] by {
            if i < 16 {
                assert(a[i] == a.subrange(0, 16)[i]);
                assert(b[i] == b.subrange(0, 16)[i]);
            } else if i < 32 {
                assert(a[i] == a.subrange(16, 32)[i - 16]);
                assert(b[i] == b.subrange(16, 32)[i - 16]);
            } else if i < 48 {
                assert(a[i] == a.subrange(32, 48)[i - 32]);
                assert(b[i] == b.subrange(32, 48)[i - 32]);
            } else {
                assert(a[i] == a.subrange(48, 56)[i - 48]);
                assert(b[i] == b.subrange(48, 56)[i - 48]);
            }
        }
        assert(a =~= b);
    }
}

/// Where a stream stands in its life. `Completed` and `Cancelled` are final.
#[derive(Clone, Copy, Debug, PartialEq, Eq, Structural)]
pub enum StreamStatus {
    Active,
    Paused,
    Completed,
    Cancelled,
}

/// The notice raised after a successful operation, with the stream's
/// identifier and, where value moved with it, the amount.
#[derive(Clone, Copy, Debug, PartialEq, Eq, Structural)]
pub enum StreamEvent {
    Created(u64, i128),
    Paused(u64),
    Resumed(u64),
    Cancelled(u64),
    Withdrew(u64, i128),
}

/// The contract's configuration, written once.
#[derive(Clone, Copy, Debug, PartialEq, Eq, Structural)]
pub struct Config {
    /// The asset that every stream moves.
    pub token: AccountId,
    /// The account that may act on any stream through the admin entry points.
    pub admin: AccountId,
}

/// The slots under which the host keeps the contract's state: the two
/// halves of the configuration, the number of streams created so far, and
/// one record for each stream.
#[derive(Clone, Copy, Debug, PartialEq, Eq, Structural)]
pub enum DataKey {
    Admin,
    Token,
    StreamCount,
    Stream(u64),
}

/// One end of a transfer.
#[derive(Clone, Copy, Debug, PartialEq, Eq, Structural)]
pub enum Party {
    /// The balance where deposits rest until they are paid out or refunded.
    Holding,
    /// An account outside the contract.
    Account(AccountId),
}

/// An instruction to move `amount` of the configured asset.
#[derive(Clone, Copy, Debug, PartialEq, Eq, Structural)]
pub struct Transfer {
    pub from: Party,
    pub to: Party,
    pub amount: i128,
}

/// One streaming agreement and its progress.
#[derive(Clone, Copy, Debug, PartialEq, Eq, Structural)]
pub struct Stream {
    pub stream_id: u64,
    pub sender: AccountId,
    pub recipient: AccountId,
    pub deposit_amount: i128,
    pub rate_per_second: i128,
    pub start_time: u64,
    pub cliff_time: u64,
    pub end_time: u64,
    pub withdrawn_amount: i128,
    pub status: StreamStatus,
    /// The time at which the stream was cancelled, if it ever was. Accrual
    /// stops there for good: no later reading of the clock adds to it.
    pub cancelled_at: Option<u64>,
}

/// What a successful operation hands to the host: the record to store, the
/// transfer to carry out, if any, and the event to raise.
#[derive(Clone, Copy, Debug, PartialEq, Eq, Structural)]
pub struct Outcome {
    pub stream: Stream,
    pub transfer: Option<Transfer>,
    pub event: StreamEvent,
}

impl Stream {
    /// The record's invariant: a valid schedule, a withdrawn amount between
    /// zero and the deposit, and a time of cancellation exactly on the
    /// records that were cancelled: never on an active or paused one, always
    /// on a cancelled one. A completed one may have been cancelled before.
    pub open spec fn wf(&self) -> bool {
        &&& valid_schedule(
            self.start_time,
            self.cliff_time,
            self.end_time,
            self.rate_per_second,
            self.deposit_amount,
        )
        &&& 0 <= self.withdrawn_amount <= self.deposit_amount
        &&& (self.status == StreamStatus::Active || self.status == StreamStatus::Paused)
            ==> self.cancelled_at is None
        &&& self.status == StreamStatus::Cancelled ==> self.cancelled_at is Some
    }

    /// What the schedule alone gives at `now`, cancelled or not.
    pub open spec fn scheduled_at(&self, now: u64) -> int {
        accrued_amount(
            self.start_time,
            self.cliff_time,
            self.end_time,
            self.rate_per_second,
            self.deposit_amount,
            now,
        )
    }

    /// The amount accrued to the recipient at `now`: what the schedule gives
    /// at `now`, or, once the stream was cancelled, what it gave at the time
    /// of the cancellation, whatever `now` is.
    pub open spec fn accrued_at(&self, now: u64) -> int {
        match self.cancelled_at {
            Some(stopped) => self.scheduled_at(stopped),
            None => self.scheduled_at(now),
        }
    }

    /// What the recipient can claim at `now`: the accrued amount less what
    /// was withdrawn before.
    pub open spec fn withdrawable_at(&self, now: u64) -> int {
        self.accrued_at(now) - self.withdrawn_amount
    }

    /// What returns to the sender if the stream is cancelled at `now`: the
    /// deposit less what the schedule gives at `now`. What the recipient has
    /// already withdrawn is never returned: should the clock read earlier
    /// than a withdrawal that was made, the withdrawn amount counts as given.
    pub open spec fn unstreamed_at(&self, now: u64) -> int {
        self.deposit_amount - int_max(self.scheduled_at(now), self.withdrawn_amount as int)
    }

    /// The slot under which the host keeps this record.
    pub fn storage_key(&self) -> (key: DataKey)
        ensures
            key == DataKey::Stream(self.stream_id),
    {
        DataKey::Stream(self.stream_id)
    }

    /// Whether the record meets its invariant.
    pub fn is_well_formed(&self) -> (ok: bool)
        ensures
            ok == self.wf(),
    {
        if self.start_time >= self.end_time || self.cliff_time < self.start_time
            || self.cliff_time > self.end_time || self.rate_per_second < 0 {
            return false;
        }
        if self.withdrawn_amount < 0 || self.withdrawn_amount > self.deposit_amount {
            return false;
        }
        let stopped: bool = self.cancelled_at.is_some();
        match self.status {
            StreamStatus::Active | StreamStatus::Paused => {
                if stopped {
                    return false;
                }
            },
            StreamStatus::Cancelled => {
                if !stopped {
                    return false;
                }
            },
            StreamStatus::Completed => {},
        }
        let duration: u64 = self.end_time - self.start_time;
        match self.rate_per_second.checked_mul(duration as i128) {
            Some(total) => self.deposit_amount >= total,
            None => false,
        }
    }

    /// What the schedule alone gives at `now`, cancelled or not.
    pub fn scheduled(&self, now: u64) -> (amount: i128)
        ensures
            amount == self.scheduled_at(now),
    {
        calculate_accrued_amount(
            self.start_time,
            self.cliff_time,
            self.end_time,
            self.rate_per_second,
            self.deposit_amount,
            now,
        )
    }

    /// The amount accrued to the recipient at `now`, which stands still from
    /// the time of a cancellation on.
    pub fn accrued(&self, now: u64) -> (amount: i128)
        ensures
            amount == self.accrued_at(now),
    {
        match self.cancelled_at {
            Some(stopped) => self.scheduled(stopped),
            None => self.scheduled(now),
        }
    }
}

} // verus!
