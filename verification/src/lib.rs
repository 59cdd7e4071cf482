//! A token payment-streaming ledger.
//!
//! A sender deposits tokens that drip to a recipient at a fixed per-second
//! rate, claimable incrementally over time, with support for top-ups, early
//! cancellation with refund of the unspent balance, and a protocol-wide
//! percentage fee taken at deposit time.
//!
//! The engine is self-contained over explicit state: the caller's identity
//! arrives as an already-authenticated principal id (authentication itself
//! is the host's duty), the current chain time arrives as a parameter, and
//! outbound effects (token transfers and domain events) are appended to
//! logs for the host to execute within the same atomic transaction.

use vstd::prelude::*;

use vstd::arithmetic::div_mod::{
    lemma_div_by_multiple, lemma_div_is_ordered, lemma_div_nonincreasing, lemma_div_pos_is_pos,
    lemma_fundamental_div_mod, lemma_hoist_over_denominator, lemma_mod_division_less_than_divisor,
};
use vstd::arithmetic::mul::{lemma_mul_is_commutative, lemma_mul_inequality, lemma_mul_nonnegative};

pub mod errors;
pub mod events;
pub mod laws;
pub mod storage;
pub mod types;

use crate::errors::StreamError;
use crate::events::{
    Event, FeeCollectedEvent, StreamCancelledEvent, StreamCreatedEvent, StreamToppedUpEvent,
    TokensWithdrawnEvent,
};
use crate::storage::{
    config_exists, load_config, load_stream, next_stream_id, save_config, save_stream,
    try_load_config, try_load_stream, Store,
};
use crate::types::{ProtocolConfig, Stream, TokenTransfer};

verus! {

/// Maximum allowed protocol fee: 1 000 bps = 10%.
pub const MAX_FEE_RATE_BPS: u32 = 1000;

// ─── Fee arithmetic ──────────────────────────────────────────────────────────

/// The protocol fee levied on a deposit of `amount` at `fee_rate_bps`,
/// with truncating division: the fee rounds down, and can round down to
/// zero for small amounts even with a nonzero rate.
pub open spec fn fee_amount(amount: int, fee_rate_bps: int) -> int {
    amount * fee_rate_bps / 10000
}

/// The fee actually charged on a deposit: zero when no config exists or
/// the configured rate is zero, the truncated percentage otherwise.
pub open spec fn charged_fee(config: Option<ProtocolConfig>, amount: int) -> int {
    match config {
        Some(cfg) => if cfg.fee_rate_bps > 0 {
            fee_amount(amount, cfg.fee_rate_bps as int)
        } else {
            0
        },
        None => 0,
    }
}

/// What remains of a deposit once the protocol fee is taken.
pub open spec fn net_amount(config: Option<ProtocolConfig>, amount: int) -> int {
    amount - charged_fee(config, amount)
}

/// The truncated percentage can be computed without the wide product
/// `amount * fee_rate_bps`: split `amount` at the scale divisor, take the
/// fee on each part, and recombine. Also bounds the fee by the amount.
proof fn lemma_fee_split(amount: int, bps: int)
    requires
        amount >= 0,
        0 <= bps <= 10000,
    ensures
        fee_amount(amount, bps) == (amount / 10000) * bps + (amount % 10000) * bps / 10000,
        0 <= fee_amount(amount, bps) <= amount,
{
    let q = amount / 10000;
    let r0 = amount % 10000;
    lemma_fundamental_div_mod(amount, 10000);
    assert(amount * bps == (q * bps) * 10000 + r0 * bps) by (nonlinear_arith)
        requires
            amount == 10000 * q + r0,
    ;
    lemma_hoist_over_denominator(r0 * bps, q * bps, 10000nat);
    lemma_mul_nonnegative(amount, bps);
    lemma_div_pos_is_pos(amount * bps, 10000);
    lemma_mul_inequality(bps, 10000, amount);
    lemma_mul_is_commutative(bps, amount);
    lemma_mul_is_commutative(10000, amount);
    lemma_div_is_ordered(amount * bps, amount * 10000, 10000);
    lemma_div_by_multiple(amount, 10000);
}

/// A per-second rate spread over at most `i128::MAX / rate` seconds accrues
/// an amount that still fits in the amount type.
proof fn lemma_streamed_fits(elapsed: int, rate: int)
    requires
        0 <= elapsed,
        0 < rate,
        elapsed <= i128::MAX as int / rate,
    ensures
        0 <= elapsed * rate <= i128::MAX as int,
{
    let m = i128::MAX as int;
    lemma_fundamental_div_mod(m, rate);
    lemma_mod_division_less_than_divisor(m, rate);
    lemma_mul_inequality(elapsed, m / rate, rate);
    lemma_mul_is_commutative(m / rate, rate);
    lemma_mul_nonnegative(elapsed, rate);
}

/// Past `i128::MAX / rate` seconds the accrued product no longer fits, so
/// the claimable computation saturates.
proof fn lemma_streamed_saturates(elapsed: int, rate: int)
    requires
        0 <= elapsed,
        0 < rate,
        elapsed > i128::MAX as int / rate,
    ensures
        elapsed * rate > i128::MAX as int,
{
    let m = i128::MAX as int;
    let q = m / rate;
    lemma_fundamental_div_mod(m, rate);
    lemma_mod_division_less_than_divisor(m, rate);
    lemma_mul_inequality(q + 1, elapsed, rate);
    assert((q + 1) * rate == q * rate + rate) by (nonlinear_arith);
    lemma_mul_is_commutative(q, rate);
}

/// The treasury account of a stored config.
pub open spec fn treasury_of(config: Option<ProtocolConfig>) -> u64
    recommends
        config is Some,
{
    match config {
        Some(cfg) => cfg.treasury,
        None => 0,
    }
}

/// The transfer instructions fee collection issues on a deposit: one
/// custody-to-treasury transfer when a positive fee is charged, none
/// otherwise.
pub open spec fn fee_transfers(
    config: Option<ProtocolConfig>,
    custody: u64,
    token_address: u64,
    amount: int,
) -> Seq<TokenTransfer> {
    if charged_fee(config, amount) > 0 {
        seq![
            TokenTransfer {
                token: token_address,
                from: custody,
                to: treasury_of(config),
                amount: charged_fee(config, amount) as i128,
            },
        ]
    } else {
        seq![]
    }
}

/// The events fee collection emits on a deposit: one fee-collected event
/// when a positive fee is charged, none otherwise.
pub open spec fn fee_events(
    config: Option<ProtocolConfig>,
    stream_id: u64,
    token_address: u64,
    amount: int,
) -> Seq<Event> {
    if charged_fee(config, amount) > 0 {
        seq![
            Event::FeeCollected(
                FeeCollectedEvent {
                    stream_id: stream_id,
                    treasury: treasury_of(config),
                    fee_amount: charged_fee(config, amount) as i128,
                    token: token_address,
                },
            ),
        ]
    } else {
        seq![]
    }
}

// ─── Operation outcomes ──────────────────────────────────────────────────────

/// The config record an `initialize` or `update_fee_config` stores.
pub open spec fn config_record(admin: u64, treasury: u64, fee_rate_bps: u32) -> ProtocolConfig {
    ProtocolConfig { admin: admin, treasury: treasury, fee_rate_bps: fee_rate_bps }
}

/// Outcome of `initialize`: fails once a config exists, or when the rate
/// exceeds the cap; succeeds otherwise.
pub open spec fn initialize_result(
    config: Option<ProtocolConfig>,
    fee_rate_bps: u32,
) -> Result<(), StreamError> {
    if config is Some {
        Err(StreamError::AlreadyInitialized)
    } else if fee_rate_bps > MAX_FEE_RATE_BPS {
        Err(StreamError::InvalidFeeRate)
    } else {
        Ok(())
    }
}

/// Outcome of `update_fee_config`: needs an existing config, the stored
/// admin as caller, and a rate within the cap.
pub open spec fn update_fee_config_result(
    config: Option<ProtocolConfig>,
    admin: u64,
    fee_rate_bps: u32,
) -> Result<(), StreamError> {
    match config {
        None => Err(StreamError::NotInitialized),
        Some(cfg) => if cfg.admin != admin {
            Err(StreamError::NotAdmin)
        } else if fee_rate_bps > MAX_FEE_RATE_BPS {
            Err(StreamError::InvalidFeeRate)
        } else {
            Ok(())
        },
    }
}

/// Outcome of `create_stream`: rejects a non-positive amount, then a zero
/// duration; otherwise returns the freshly allocated stream ID.
pub open spec fn create_stream_result(
    store: Store,
    amount: i128,
    duration: u64,
) -> Result<u64, StreamError> {
    if amount <= 0 {
        Err(StreamError::InvalidAmount)
    } else if duration == 0 {
        Err(StreamError::InvalidDuration)
    } else {
        Ok((store.counter + 1) as u64)
    }
}

/// The record a successful `create_stream` persists: the net amount is
/// deposited, and the rate is the net amount spread over the duration with
/// truncating division (the sub-rate remainder is intentionally lost).
pub open spec fn created_stream(
    config: Option<ProtocolConfig>,
    sender: u64,
    recipient: u64,
    token_address: u64,
    amount: i128,
    duration: u64,
    now: u64,
) -> Stream {
    Stream {
        sender: sender,
        recipient: recipient,
        token_address: token_address,
        rate_per_second: (net_amount(config, amount as int) / duration as int) as i128,
        deposited_amount: net_amount(config, amount as int) as i128,
        withdrawn_amount: 0,
        start_time: now,
        last_update_time: now,
        is_active: true,
    }
}

/// Outcome of `top_up_stream`, checked in order: amount validity, record
/// existence, ownership, then active state.
pub open spec fn top_up_result(
    store: Store,
    sender: u64,
    stream_id: u64,
    amount: i128,
) -> Result<(), StreamError> {
    if amount <= 0 {
        Err(StreamError::InvalidAmount)
    } else if !store.has_stream(stream_id) {
        Err(StreamError::StreamNotFound)
    } else if store.stream_at(stream_id).sender != sender {
        Err(StreamError::Unauthorized)
    } else if !store.stream_at(stream_id).is_active {
        Err(StreamError::StreamInactive)
    } else {
        Ok(())
    }
}

/// Outcome of `withdraw`, checked in order: record existence, ownership,
/// active state, then a positive claimable balance.
pub open spec fn withdraw_result(
    store: Store,
    recipient: u64,
    stream_id: u64,
    now: u64,
) -> Result<i128, StreamError> {
    if !store.has_stream(stream_id) {
        Err(StreamError::StreamNotFound)
    } else if store.stream_at(stream_id).recipient != recipient {
        Err(StreamError::Unauthorized)
    } else if !store.stream_at(stream_id).is_active {
        Err(StreamError::StreamInactive)
    } else if store.stream_at(stream_id).claimable(now) <= 0 {
        Err(StreamError::InvalidAmount)
    } else {
        Ok(store.stream_at(stream_id).claimable(now) as i128)
    }
}

/// Outcome of `cancel_stream`, checked in order: record existence,
/// ownership, then active state.
pub open spec fn cancel_stream_result(
    store: Store,
    sender: u64,
    stream_id: u64,
) -> Result<(), StreamError> {
    if !store.has_stream(stream_id) {
        Err(StreamError::StreamNotFound)
    } else if store.stream_at(stream_id).sender != sender {
        Err(StreamError::Unauthorized)
    } else if !store.stream_at(stream_id).is_active {
        Err(StreamError::StreamInactive)
    } else {
        Ok(())
    }
}

// ─── The engine ──────────────────────────────────────────────────────────────

/// The streaming engine: the persistent store plus the two outbound effect
/// logs, all owned exclusively by the engine.
///
/// Every operation executes as one atomic step: it either returns `Ok`,
/// having updated the store and appended its effects, or returns an error
/// and leaves the whole state untouched.
pub struct StreamContract {
    /// The engine's own escrow account, holding deposits between sender
    /// and recipient.
    pub custody: u64,
    /// The persistent key-value state.
    pub store: Store,
    /// Domain events emitted so far, in order, for the external event bus.
    pub events: Vec<Event>,
    /// Transfer instructions issued so far, in order, for the external
    /// token service.
    pub transfers: Vec<TokenTransfer>,
}

impl StreamContract {
    /// Engine invariant: the store is well-formed.
    pub open spec fn wf(self) -> bool {
        self.store.wf()
    }

    /// Whether `other` holds exactly the same state and effect logs.
    pub open spec fn same_state(self, other: StreamContract) -> bool {
        &&& self.custody == other.custody
        &&& self.store.counter == other.store.counter
        &&& self.store.streams@ == other.store.streams@
        &&& self.store.config == other.store.config
        &&& self.events@ == other.events@
        &&& self.transfers@ == other.transfers@
    }

    /// A fresh engine with no streams, no config and empty effect logs,
    /// escrowing funds under the `custody` account.
    pub fn new(custody: u64) -> (c: StreamContract)
        ensures
            c.custody == custody,
            c.store.counter == 0,
            c.store.streams@ == Seq::<Stream>::empty(),
            c.store.config is None,
            c.events@ == Seq::<Event>::empty(),
            c.transfers@ == Seq::<TokenTransfer>::empty(),
            c.wf(),
    {
        StreamContract {
            custody: custody,
            store: Store::new(),
            events: Vec::new(),
            transfers: Vec::new(),
        }
    }

    // ─── Protocol administration ─────────────────────────────────────────

    /// One-time initialization of the protocol fee configuration.
    ///
    /// The caller must already be authenticated as `admin`. A second call
    /// always fails with `AlreadyInitialized`, whatever its arguments.
    pub fn initialize(&mut self, admin: u64, treasury: u64, fee_rate_bps: u32) -> (r: Result<
        (),
        StreamError,
    >)
        requires
            old(self).wf(),
        ensures
            final(self).wf(),
            r == initialize_result(old(self).store.config, fee_rate_bps),
            r is Err ==> final(self).same_state(*old(self)),
            r is Ok ==> final(self).store.config == Some(
                config_record(admin, treasury, fee_rate_bps),
            ),
            final(self).custody == old(self).custody,
            final(self).store.counter == old(self).store.counter,
            final(self).store.streams@ == old(self).store.streams@,
            final(self).events@ == old(self).events@,
            final(self).transfers@ == old(self).transfers@,
    {
        if config_exists(&self.store) {
            return Err(StreamError::AlreadyInitialized);
        }
        if fee_rate_bps > MAX_FEE_RATE_BPS {
            return Err(StreamError::InvalidFeeRate);
        }
        save_config(
            &mut self.store,
            &ProtocolConfig { admin: admin, treasury: treasury, fee_rate_bps: fee_rate_bps },
        );
        Ok(())
    }

    /// Update the treasury account and/or fee rate. Admin-only; the admin
    /// identity itself is immutable.
    ///
    /// The caller must already be authenticated as `admin`.
    pub fn update_fee_config(&mut self, admin: u64, treasury: u64, fee_rate_bps: u32) -> (r:
        Result<(), StreamError>)
        requires
            old(self).wf(),
        ensures
            final(self).wf(),
            r == update_fee_config_result(old(self).store.config, admin, fee_rate_bps),
            r is Err ==> final(self).same_state(*old(self)),
            r is Ok ==> final(self).store.config == Some(
                config_record(admin, treasury, fee_rate_bps),
            ),
            final(self).custody == old(self).custody,
            final(self).store.counter == old(self).store.counter,
            final(self).store.streams@ == old(self).store.streams@,
            final(self).events@ == old(self).events@,
            final(self).transfers@ == old(self).transfers@,
    {
        let config = match load_config(&self.store) {
            Ok(cfg) => cfg,
            Err(e) => {
                return Err(e);
            },
        };
        if config.admin != admin {
            return Err(StreamError::NotAdmin);
        }
        if fee_rate_bps > MAX_FEE_RATE_BPS {
            return Err(StreamError::InvalidFeeRate);
        }
        save_config(
            &mut self.store,
            &ProtocolConfig {
                admin: config.admin,
                treasury: treasury,
                fee_rate_bps: fee_rate_bps,
            },
        );
        Ok(())
    }

    /// Returns the current protocol fee configuration, or `None` if not
    /// yet initialized. Pure read, no authentication.
    pub fn get_fee_config(&self) -> (r: Option<ProtocolConfig>)
        ensures
            r == self.store.config,
    {
        try_load_config(&self.store)
    }

    /// Returns the stream record for `stream_id`, or `None` if it does not
    /// exist. Pure read, no authentication.
    pub fn get_stream(&self, stream_id: u64) -> (r: Option<Stream>)
        ensures
            self.store.has_stream(stream_id) ==> r == Some(self.store.stream_at(stream_id)),
            !self.store.has_stream(stream_id) ==> r is None,
    {
        try_load_stream(&self.store, stream_id)
    }

    // ─── Stream operations ───────────────────────────────────────────────

    /// Create a new payment stream.
    ///
    /// The caller must already be authenticated as `sender`. The gross
    /// `amount` moves from the sender into custody, the protocol fee (if
    /// configured) is deducted, and the stream is recorded with
    /// `rate_per_second = net_amount / duration`, truncating: the sub-rate
    /// remainder is intentionally lost, it is never streamed nor refunded
    /// by this calculation.
    ///
    /// Returns the new stream ID (IDs start at 1 and increase by one per
    /// stream).
    pub fn create_stream(
        &mut self,
        sender: u64,
        recipient: u64,
        token_address: u64,
        amount: i128,
        duration: u64,
        now: u64,
    ) -> (r: Result<u64, StreamError>)
        requires
            old(self).wf(),
            old(self).store.counter < u64::MAX,
        ensures
            final(self).wf(),
            r == create_stream_result(old(self).store, amount, duration),
            r is Err ==> final(self).same_state(*old(self)),
            r is Ok ==> ({
                let stream = created_stream(
                    old(self).store.config,
                    sender,
                    recipient,
                    token_address,
                    amount,
                    duration,
                    now,
                );
                let stream_id = (old(self).store.counter + 1) as u64;
                &&& final(self).store.counter == old(self).store.counter + 1
                &&& final(self).store.streams@ == old(self).store.streams@.push(stream)
                &&& final(self).store.config == old(self).store.config
                &&& final(self).custody == old(self).custody
                &&& final(self).transfers@ == old(self).transfers@.push(
                    (TokenTransfer {
                        token: token_address,
                        from: sender,
                        to: old(self).custody,
                        amount: amount,
                    }),
                ) + fee_transfers(
                    old(self).store.config,
                    old(self).custody,
                    token_address,
                    amount as int,
                )
                &&& final(self).events@ == (old(self).events@ + fee_events(
                    old(self).store.config,
                    stream_id,
                    token_address,
                    amount as int,
                )).push(
                    (Event::StreamCreated(
                        StreamCreatedEvent {
                            stream_id: stream_id,
                            sender: sender,
                            recipient: recipient,
                            rate_per_second: stream.rate_per_second,
                            token_address: token_address,
                            deposited_amount: stream.deposited_amount,
                            start_time: now,
                        },
                    )),
                )
            }),
    {
        if amount <= 0 {
            return Err(StreamError::InvalidAmount);
        }
        if duration == 0 {
            return Err(StreamError::InvalidDuration);
        }
        let stream_id = next_stream_id(&mut self.store);
        let start_time = now;

        // The full gross amount moves from the sender into custody.
        self.transfers.push(
            TokenTransfer { token: token_address, from: sender, to: self.custody, amount: amount },
        );

        let net = self.collect_fee(token_address, amount, stream_id);
        let rate_per_second: i128 = net / (duration as i128);
        proof {
            lemma_div_pos_is_pos(net as int, duration as int);
            lemma_div_nonincreasing(net as int, duration as int);
        }

        let stream = Stream {
            sender: sender,
            recipient: recipient,
            token_address: token_address,
            rate_per_second: rate_per_second,
            deposited_amount: net,
            withdrawn_amount: 0,
            start_time: start_time,
            last_update_time: start_time,
            is_active: true,
        };
        save_stream(&mut self.store, stream_id, &stream);

        self.events.push(
            Event::StreamCreated(
                StreamCreatedEvent {
                    stream_id: stream_id,
                    sender: sender,
                    recipient: recipient,
                    rate_per_second: rate_per_second,
                    token_address: token_address,
                    deposited_amount: net,
                    start_time: start_time,
                },
            ),
        );

        proof {
            let pushed = old(self).store.streams@.push(
                created_stream(
                    old(self).store.config,
                    sender,
                    recipient,
                    token_address,
                    amount,
                    duration,
                    now,
                ),
            );
            assert(self.store.streams@ == pushed);
            assert forall|i: int| 0 <= i < self.store.streams@.len() implies (
            #[trigger] self.store.streams@[i]).wf() by {
                if i < old(self).store.streams@.len() {
                    assert(old(self).store.streams@[i].wf());
                }
            }
        }
        Ok(stream_id)
    }

    /// Machine-limit precondition of `top_up_stream`: when the top-up will
    /// succeed, the new deposited total must still be representable.
    pub open spec fn top_up_fits(self, sender: u64, stream_id: u64, amount: i128) -> bool {
        top_up_result(self.store, sender, stream_id, amount) is Ok ==> self.store.stream_at(
            stream_id,
        ).deposited_amount + net_amount(self.store.config, amount as int) <= i128::MAX
    }

    /// Top up an active stream with additional tokens.
    ///
    /// Only the original sender may top up their own stream; the caller
    /// must already be authenticated as `sender`. The net amount joins the
    /// deposited balance. The rate and the withdrawn amount are untouched,
    /// and tokens already accrued but not yet withdrawn are unaffected,
    /// because claimable amounts are always computed from
    /// `last_update_time` forward.
    pub fn top_up_stream(&mut self, sender: u64, stream_id: u64, amount: i128, now: u64) -> (r:
        Result<(), StreamError>)
        requires
            old(self).wf(),
            old(self).top_up_fits(sender, stream_id, amount),
        ensures
            final(self).wf(),
            r == top_up_result(old(self).store, sender, stream_id, amount),
            r is Err ==> final(self).same_state(*old(self)),
            r is Ok ==> ({
                let s = old(self).store.stream_at(stream_id);
                let net = net_amount(old(self).store.config, amount as int);
                &&& final(self).store.counter == old(self).store.counter
                &&& final(self).store.streams@ == old(self).store.streams@.update(
                    stream_id - 1,
                    s.after_top_up(net, now),
                )
                &&& final(self).store.config == old(self).store.config
                &&& final(self).custody == old(self).custody
                &&& final(self).transfers@ == old(self).transfers@.push(
                    (TokenTransfer {
                        token: s.token_address,
                        from: sender,
                        to: old(self).custody,
                        amount: amount,
                    }),
                ) + fee_transfers(
                    old(self).store.config,
                    old(self).custody,
                    s.token_address,
                    amount as int,
                )
                &&& final(self).events@ == (old(self).events@ + fee_events(
                    old(self).store.config,
                    stream_id,
                    s.token_address,
                    amount as int,
                )).push(
                    (Event::StreamToppedUp(
                        StreamToppedUpEvent {
                            stream_id: stream_id,
                            sender: sender,
                            amount: net as i128,
                            new_deposited_amount: (s.deposited_amount + net) as i128,
                        },
                    )),
                )
            }),
    {
        if amount <= 0 {
            return Err(StreamError::InvalidAmount);
        }
        let mut stream = match load_stream(&self.store, stream_id) {
            Ok(s) => s,
            Err(e) => {
                return Err(e);
            },
        };
        if stream.sender != sender {
            return Err(StreamError::Unauthorized);
        }
        if !stream.is_active {
            return Err(StreamError::StreamInactive);
        }

        // The full gross amount moves from the sender into custody.
        self.transfers.push(
            TokenTransfer {
                token: stream.token_address,
                from: sender,
                to: self.custody,
                amount: amount,
            },
        );

        let net = self.collect_fee(stream.token_address, amount, stream_id);

        stream.deposited_amount = stream.deposited_amount + net;
        stream.last_update_time = now;
        save_stream(&mut self.store, stream_id, &stream);

        self.events.push(
            Event::StreamToppedUp(
                StreamToppedUpEvent {
                    stream_id: stream_id,
                    sender: sender,
                    amount: net,
                    new_deposited_amount: stream.deposited_amount,
                },
            ),
        );

        proof {
            let updated = old(self).store.streams@.update(
                stream_id - 1,
                old(self).store.stream_at(stream_id).after_top_up(
                    net_amount(old(self).store.config, amount as int),
                    now,
                ),
            );
            assert(self.store.streams@ == updated);
            assert forall|i: int| 0 <= i < self.store.streams@.len() implies (
            #[trigger] self.store.streams@[i]).wf() by {
                if i != stream_id - 1 {
                    assert(old(self).store.streams@[i].wf());
                }
            }
        }
        Ok(())
    }

    /// Withdraw all currently claimable tokens from a stream.
    ///
    /// The caller must already be authenticated as `recipient`. The stream
    /// is marked inactive once fully drained. A claimable balance of zero
    /// is a timing condition, not a state error: the call fails with
    /// `InvalidAmount` and can simply be retried later.
    pub fn withdraw(&mut self, recipient: u64, stream_id: u64, now: u64) -> (r: Result<
        i128,
        StreamError,
    >)
        requires
            old(self).wf(),
        ensures
            final(self).wf(),
            r == withdraw_result(old(self).store, recipient, stream_id, now),
            r is Err ==> final(self).same_state(*old(self)),
            r is Ok ==> ({
                let s = old(self).store.stream_at(stream_id);
                let c = s.claimable(now);
                &&& final(self).store.counter == old(self).store.counter
                &&& final(self).store.streams@ == old(self).store.streams@.update(
                    stream_id - 1,
                    s.after_withdraw(now),
                )
                &&& final(self).store.config == old(self).store.config
                &&& final(self).custody == old(self).custody
                &&& final(self).transfers@ == old(self).transfers@.push(
                    (TokenTransfer {
                        token: s.token_address,
                        from: old(self).custody,
                        to: recipient,
                        amount: c as i128,
                    }),
                )
                &&& final(self).events@ == old(self).events@.push(
                    (Event::TokensWithdrawn(
                        TokensWithdrawnEvent {
                            stream_id: stream_id,
                            recipient: recipient,
                            amount: c as i128,
                            timestamp: now,
                        },
                    )),
                )
            }),
    {
        let mut stream = match load_stream(&self.store, stream_id) {
            Ok(s) => s,
            Err(e) => {
                return Err(e);
            },
        };
        if stream.recipient != recipient {
            return Err(StreamError::Unauthorized);
        }
        if !stream.is_active {
            return Err(StreamError::StreamInactive);
        }

        let claimable = Self::calculate_claimable(&stream, now);
        if claimable <= 0 {
            return Err(StreamError::InvalidAmount);
        }

        self.transfers.push(
            TokenTransfer {
                token: stream.token_address,
                from: self.custody,
                to: recipient,
                amount: claimable,
            },
        );

        stream.withdrawn_amount = stream.withdrawn_amount + claimable;
        stream.last_update_time = now;
        if stream.withdrawn_amount >= stream.deposited_amount {
            stream.is_active = false;
        }
        save_stream(&mut self.store, stream_id, &stream);

        self.events.push(
            Event::TokensWithdrawn(
                TokensWithdrawnEvent {
                    stream_id: stream_id,
                    recipient: recipient,
                    amount: claimable,
                    timestamp: now,
                },
            ),
        );

        proof {
            let updated = old(self).store.streams@.update(
                stream_id - 1,
                old(self).store.stream_at(stream_id).after_withdraw(now),
            );
            assert(self.store.streams@ == updated);
            assert forall|i: int| 0 <= i < self.store.streams@.len() implies (
            #[trigger] self.store.streams@[i]).wf() by {
                if i != stream_id - 1 {
                    assert(old(self).store.streams@[i].wf());
                }
            }
        }
        Ok(claimable)
    }

    /// Cancel an active stream.
    ///
    /// Only the stream's original sender may cancel; the caller must
    /// already be authenticated as `sender`. The unspent balance
    /// (deposited minus withdrawn) returns to the sender, and the stream
    /// deactivates permanently, persisting as a closed historical record.
    ///
    /// Deliberately, the refund ignores time already accrued to the
    /// recipient but not yet withdrawn: whichever of `withdraw` and
    /// `cancel_stream` executes first wins that contested balance.
    pub fn cancel_stream(&mut self, sender: u64, stream_id: u64, now: u64) -> (r: Result<
        (),
        StreamError,
    >)
        requires
            old(self).wf(),
        ensures
            final(self).wf(),
            r == cancel_stream_result(old(self).store, sender, stream_id),
            r is Err ==> final(self).same_state(*old(self)),
            r is Ok ==> ({
                let s = old(self).store.stream_at(stream_id);
                let refund = s.remaining();
                &&& final(self).store.counter == old(self).store.counter
                &&& final(self).store.streams@ == old(self).store.streams@.update(
                    stream_id - 1,
                    s.after_cancel(now),
                )
                &&& final(self).store.config == old(self).store.config
                &&& final(self).custody == old(self).custody
                &&& final(self).transfers@ == if refund > 0 {
                    old(self).transfers@.push(
                        (TokenTransfer {
                            token: s.token_address,
                            from: old(self).custody,
                            to: sender,
                            amount: refund as i128,
                        }),
                    )
                } else {
                    old(self).transfers@
                }
                &&& final(self).events@ == old(self).events@.push(
                    (Event::StreamCancelled(
                        StreamCancelledEvent {
                            stream_id: stream_id,
                            sender: sender,
                            recipient: s.recipient,
                            amount_withdrawn: s.withdrawn_amount,
                            refunded_amount: refund as i128,
                        },
                    )),
                )
            }),
    {
        let mut stream = match load_stream(&self.store, stream_id) {
            Ok(s) => s,
            Err(e) => {
                return Err(e);
            },
        };
        if stream.sender != sender {
            return Err(StreamError::Unauthorized);
        }
        if !stream.is_active {
            return Err(StreamError::StreamInactive);
        }

        // Refund the unspent balance to the sender.
        let refunded_amount: i128 = stream.deposited_amount - stream.withdrawn_amount;
        if refunded_amount > 0 {
            self.transfers.push(
                TokenTransfer {
                    token: stream.token_address,
                    from: self.custody,
                    to: sender,
                    amount: refunded_amount,
                },
            );
        }

        stream.is_active = false;
        stream.last_update_time = now;

        let recipient = stream.recipient;
        let amount_withdrawn = stream.withdrawn_amount;
        save_stream(&mut self.store, stream_id, &stream);

        self.events.push(
            Event::StreamCancelled(
                StreamCancelledEvent {
                    stream_id: stream_id,
                    sender: sender,
                    recipient: recipient,
                    amount_withdrawn: amount_withdrawn,
                    refunded_amount: refunded_amount,
                },
            ),
        );

        proof {
            let updated = old(self).store.streams@.update(
                stream_id - 1,
                old(self).store.stream_at(stream_id).after_cancel(now),
            );
            assert(self.store.streams@ == updated);
            assert forall|i: int| 0 <= i < self.store.streams@.len() implies (
            #[trigger] self.store.streams@[i]).wf() by {
                if i != stream_id - 1 {
                    assert(old(self).store.streams@[i].wf());
                }
            }
        }
        Ok(())
    }

    // ─── Internal helpers ────────────────────────────────────────────────

    /// Computes the claimable amount of `stream` at time `now`: tokens
    /// accrued since the last update (saturating at the largest
    /// representable amount instead of overflowing), capped by the unspent
    /// balance.
    fn calculate_claimable(stream: &Stream, now: u64) -> (r: i128)
        requires
            stream.wf(),
        ensures
            r == stream.claimable(now),
            0 <= r <= stream.remaining(),
    {
        // Time must not move backward, but guard defensively.
        let elapsed: u64 = if now >= stream.last_update_time {
            now - stream.last_update_time
        } else {
            0
        };
        let rate: i128 = stream.rate_per_second;
        let streamed: i128 = if rate == 0 {
            0
        } else if (elapsed as i128) > i128::MAX / rate {
            proof {
                lemma_streamed_saturates(elapsed as int, rate as int);
            }
            i128::MAX
        } else {
            proof {
                lemma_streamed_fits(elapsed as int, rate as int);
            }
            (elapsed as i128) * rate
        };
        let remaining: i128 = stream.deposited_amount - stream.withdrawn_amount;
        if streamed > remaining {
            remaining
        } else {
            streamed
        }
    }

    /// Deducts the protocol fee from `amount`, instructs a transfer of the
    /// fee from custody to the treasury, logs a fee-collected event, and
    /// returns the net amount.
    ///
    /// If no protocol config exists, the configured rate is zero, or the
    /// fee truncates to zero, `amount` comes back unchanged and no effect
    /// is issued. Fee is levied on every inbound deposit, never on
    /// withdrawal or refund.
    fn collect_fee(&mut self, token_address: u64, amount: i128, stream_id: u64) -> (net: i128)
        requires
            amount > 0,
            old(self).store.config matches Some(cfg) ==> cfg.wf(),
        ensures
            net == net_amount(old(self).store.config, amount as int),
            0 <= net <= amount,
            final(self).store.counter == old(self).store.counter,
            final(self).store.streams@ == old(self).store.streams@,
            final(self).store.config == old(self).store.config,
            final(self).custody == old(self).custody,
            final(self).transfers@ == old(self).transfers@ + fee_transfers(
                old(self).store.config,
                old(self).custody,
                token_address,
                amount as int,
            ),
            final(self).events@ == old(self).events@ + fee_events(
                old(self).store.config,
                stream_id,
                token_address,
                amount as int,
            ),
    {
        let cfg_opt = try_load_config(&self.store);
        match cfg_opt {
            Some(cfg) => {
                if cfg.fee_rate_bps > 0 {
                    let bps: i128 = cfg.fee_rate_bps as i128;
                    let q: i128 = amount / 10000;
                    let r0: i128 = amount % 10000;
                    proof {
                        assert(q == amount as int / 10000);
                        assert(r0 == amount as int % 10000);
                        assert(0 <= r0 < 10000);
                        lemma_fee_split(amount as int, bps as int);
                        assert(r0 * bps <= 10000 * 1000) by (nonlinear_arith)
                            requires
                                0 <= r0 < 10000,
                                0 <= bps <= 1000,
                        ;
                        lemma_mul_nonnegative(r0 as int, bps as int);
                        lemma_div_pos_is_pos(r0 as int * bps as int, 10000);
                        lemma_mul_nonnegative(q as int, bps as int);
                    }
                    let fee: i128 = q * bps + (r0 * bps) / 10000;
                    if fee > 0 {
                        self.transfers.push(
                            TokenTransfer {
                                token: token_address,
                                from: self.custody,
                                to: cfg.treasury,
                                amount: fee,
                            },
                        );
                        self.events.push(
                            Event::FeeCollected(
                                FeeCollectedEvent {
                                    stream_id: stream_id,
                                    treasury: cfg.treasury,
                                    fee_amount: fee,
                                    token: token_address,
                                },
                            ),
                        );
                        proof {
                            assert(self.transfers@ =~= old(self).transfers@ + fee_transfers(
                                old(self).store.config,
                                old(self).custody,
                                token_address,
                                amount as int,
                            ));
                            assert(self.events@ =~= old(self).events@ + fee_events(
                                old(self).store.config,
                                stream_id,
                                token_address,
                                amount as int,
                            ));
                        }
                    } else {
                        proof {
                            assert(self.transfers@ =~= self.transfers@ + fee_transfers(
                                old(self).store.config,
                                old(self).custody,
                                token_address,
                                amount as int,
                            ));
                            assert(self.events@ =~= self.events@ + fee_events(
                                old(self).store.config,
                                stream_id,
                                token_address,
                                amount as int,
                            ));
                        }
                    }
                    amount - fee
                } else {
                    proof {
                        assert(self.transfers@ =~= self.transfers@ + fee_transfers(
                            old(self).store.config,
                            old(self).custody,
                            token_address,
                            amount as int,
                        ));
                        assert(self.events@ =~= self.events@ + fee_events(
                            old(self).store.config,
                            stream_id,
                            token_address,
                            amount as int,
                        ));
                    }
                    amount
                }
            },
            None => {
                proof {
                    assert(self.transfers@ =~= self.transfers@ + fee_transfers(
                        old(self).store.config,
                        old(self).custody,
                        token_address,
                        amount as int,
                    ));
                    assert(self.events@ =~= self.events@ + fee_events(
                        old(self).store.config,
                        stream_id,
                        token_address,
                        amount as int,
                    ));
                }
                amount
            },
        }
    }
}

} // verus!
