use vstd::prelude::*;

verus! {

/// Centralized storage key strategy.
///
/// All persisted state is addressed exclusively through this tagged union,
/// so there are no ad-hoc keys and no two key classes can collide.
#[derive(Clone, Copy, Debug, PartialEq, Eq)]
pub enum DataKey {
    /// Global monotonic counter for assigning stream IDs.
    StreamCounter,
    /// Individual stream record, keyed by its unique ID.
    Stream(u64),
    /// Protocol-level fee configuration (singleton).
    ProtocolConfig,
}

/// State of a payment stream.
///
/// Principals (the funding account, the claiming account, and the asset)
/// are plain numeric identifiers; the engine only ever compares them.
#[derive(Clone, Copy, Debug, PartialEq, Eq)]
pub struct Stream {
    /// Account that created and funds this stream.
    pub sender: u64,
    /// Account entitled to withdraw from this stream.
    pub recipient: u64,
    /// Token being streamed.
    pub token_address: u64,
    /// Net tokens dripped per second (after fee deduction).
    pub rate_per_second: i128,
    /// Cumulative net tokens credited to this stream (after fee deduction).
    pub deposited_amount: i128,
    /// Cumulative amount already withdrawn by the recipient.
    pub withdrawn_amount: i128,
    /// Timestamp at stream creation, in seconds.
    pub start_time: u64,
    /// Timestamp of the last state mutation, in seconds.
    pub last_update_time: u64,
    /// `false` once fully withdrawn or cancelled; never becomes `true` again.
    pub is_active: bool,
}

impl Stream {
    /// Accounting invariant, held at all times: the recipient can never have
    /// withdrawn more than was deposited, and the rate is never negative.
    pub open spec fn wf(self) -> bool {
        &&& 0 <= self.withdrawn_amount <= self.deposited_amount
        &&& self.rate_per_second >= 0
    }

    /// Unspent balance: deposited minus withdrawn.
    pub open spec fn remaining(self) -> int {
        self.deposited_amount - self.withdrawn_amount
    }

    /// Seconds since the last state mutation, floored at zero should the
    /// clock ever move backwards.
    pub open spec fn elapsed(self, now: u64) -> int {
        if now >= self.last_update_time {
            now - self.last_update_time
        } else {
            0
        }
    }

    /// Tokens accrued since the last update, saturating at the largest
    /// representable amount instead of overflowing.
    pub open spec fn streamed(self, now: u64) -> int {
        if self.elapsed(now) * self.rate_per_second > i128::MAX {
            i128::MAX as int
        } else {
            self.elapsed(now) * self.rate_per_second
        }
    }

    /// Tokens the recipient may withdraw right now: time-accrued tokens,
    /// capped by the unspent balance.
    pub open spec fn claimable(self, now: u64) -> int {
        if self.streamed(now) > self.remaining() {
            self.remaining()
        } else {
            self.streamed(now)
        }
    }

    /// The record after a successful withdrawal at time `now`: the claimable
    /// amount moves into `withdrawn_amount`, and the stream deactivates once
    /// fully drained.
    pub open spec fn after_withdraw(self, now: u64) -> Stream {
        Stream {
            withdrawn_amount: (self.withdrawn_amount + self.claimable(now)) as i128,
            last_update_time: now,
            is_active: if self.withdrawn_amount + self.claimable(now) >= self.deposited_amount {
                false
            } else {
                self.is_active
            },
            ..self
        }
    }

    /// The record after a successful top-up of `net` tokens at time `now`:
    /// only the deposited amount and the update timestamp change.
    pub open spec fn after_top_up(self, net: int, now: u64) -> Stream {
        Stream {
            deposited_amount: (self.deposited_amount + net) as i128,
            last_update_time: now,
            ..self
        }
    }

    /// The record after a successful cancellation at time `now`: the stream
    /// deactivates and keeps its accounting fields as a historical record.
    pub open spec fn after_cancel(self, now: u64) -> Stream {
        Stream { is_active: false, last_update_time: now, ..self }
    }
}

/// Protocol-wide fee configuration (singleton).
#[derive(Clone, Copy, Debug, PartialEq, Eq)]
pub struct ProtocolConfig {
    /// Account with authority to update this configuration.
    pub admin: u64,
    /// Account that receives protocol fees.
    pub treasury: u64,
    /// Fee in basis points (1 bps = 0.01%).
    pub fee_rate_bps: u32,
}

impl ProtocolConfig {
    /// The fee rate never exceeds the protocol maximum of 1 000 bps (10%).
    pub open spec fn wf(self) -> bool {
        self.fee_rate_bps <= 1000
    }
}

/// One instruction handed to the external token service: move `amount` of
/// `token` from account `from` to account `to`.
///
/// The engine only issues these; the host executes them. The host must fail
/// the whole enclosing operation if a transfer cannot be performed.
#[derive(Clone, Copy, Debug, PartialEq, Eq)]
pub struct TokenTransfer {
    pub token: u64,
    pub from: u64,
    pub to: u64,
    pub amount: i128,
}

} // verus!
