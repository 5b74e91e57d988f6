//! Time-based value streaming: a sender's deposit is released to a recipient
//! over a schedule, with a cliff, pause and resume, cancellation with a
//! pro-rata refund, and incremental withdrawal.
//!
//! The crate holds the accrual arithmetic and the lifecycle rules. Storage,
//! the clock, token transfers and capability checks belong to the host: every
//! operation takes the values the host has read and returns the record to
//! store together with the transfer and the event to carry out.

pub mod accrual;
pub mod error;
pub mod stream;
pub mod lifecycle;
pub mod contract;
pub mod laws;
