use vstd::prelude::*;

verus! {

/// Exhaustive error surface of the streaming engine.
///
/// Every failure of an operation is one of these explicit, recoverable
/// outcomes; the engine never fails silently and never panics.
#[derive(Clone, Copy, Debug, PartialEq, Eq)]
pub enum StreamError {
    /// Amount is zero, negative, or nothing is claimable right now.
    InvalidAmount,
    /// No stream exists for the supplied ID.
    StreamNotFound,
    /// Caller is not authorised to perform this action on the stream.
    Unauthorized,
    /// Operation requires an active stream, but the stream is inactive.
    StreamInactive,
    /// `initialize` has already been called; cannot re-initialize.
    AlreadyInitialized,
    /// Caller is not the protocol admin.
    NotAdmin,
    /// Supplied fee rate exceeds the protocol maximum.
    InvalidFeeRate,
    /// Protocol config has not been initialized yet.
    NotInitialized,
    /// Duration supplied to `create_stream` is zero.
    InvalidDuration,
}

} // verus!
