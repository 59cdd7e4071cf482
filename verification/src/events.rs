use vstd::prelude::*;

verus! {

/// Emitted when a new stream is created.
#[derive(Clone, Copy, Debug, PartialEq, Eq)]
pub struct StreamCreatedEvent {
    pub stream_id: u64,
    pub sender: u64,
    pub recipient: u64,
    /// Net rate per second after protocol fee deduction.
    pub rate_per_second: i128,
    pub token_address: u64,
    /// Net deposited amount after protocol fee deduction.
    pub deposited_amount: i128,
    pub start_time: u64,
}

/// Emitted when a sender tops up an active stream.
#[derive(Clone, Copy, Debug, PartialEq, Eq)]
pub struct StreamToppedUpEvent {
    pub stream_id: u64,
    pub sender: u64,
    /// Net top-up amount credited to the stream (after protocol fee).
    pub amount: i128,
    /// Total deposited amount on the stream after this top-up.
    pub new_deposited_amount: i128,
}

/// Emitted when the recipient withdraws accrued tokens.
#[derive(Clone, Copy, Debug, PartialEq, Eq)]
pub struct TokensWithdrawnEvent {
    pub stream_id: u64,
    pub recipient: u64,
    pub amount: i128,
    pub timestamp: u64,
}

/// Emitted when a sender cancels an active stream.
#[derive(Clone, Copy, Debug, PartialEq, Eq)]
pub struct StreamCancelledEvent {
    pub stream_id: u64,
    pub sender: u64,
    pub recipient: u64,
    /// Total amount withdrawn by the recipient up to cancellation.
    pub amount_withdrawn: i128,
    /// Unspent amount (deposited - withdrawn) returned to the sender.
    pub refunded_amount: i128,
}

/// Emitted when a protocol fee is collected during create or top-up.
#[derive(Clone, Copy, Debug, PartialEq, Eq)]
pub struct FeeCollectedEvent {
    pub stream_id: u64,
    pub treasury: u64,
    pub fee_amount: i128,
    pub token: u64,
}

/// One entry of the domain event log, handed to the external event bus.
///
/// Each variant carries the stream ID it concerns, so a consumer can filter
/// by `(event kind, stream_id)`.
#[derive(Clone, Copy, Debug, PartialEq, Eq)]
pub enum Event {
    StreamCreated(StreamCreatedEvent),
    StreamToppedUp(StreamToppedUpEvent),
    TokensWithdrawn(TokensWithdrawnEvent),
    StreamCancelled(StreamCancelledEvent),
    FeeCollected(FeeCollectedEvent),
}

impl Event {
    /// Whether this entry records a protocol fee collection.
    pub open spec fn is_fee_collection(self) -> bool {
        self is FeeCollected
    }
}

} // verus!
