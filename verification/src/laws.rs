//! The guarantees of the streaming engine, stated as theorems.
//!
//! Each proof function here is a law relating the specification functions
//! that the engine's contracts are written in. Together with those
//! contracts they pin down the engine's behaviour across calls.

use vstd::prelude::*;

use vstd::arithmetic::mul::lemma_mul_nonnegative;

use crate::errors::StreamError;
use crate::events::{Event, StreamCancelledEvent, TokensWithdrawnEvent};
use crate::storage::Store;
use crate::types::{ProtocolConfig, Stream};
use crate::{charged_fee, fee_events, initialize_result, withdraw_result};

verus! {

/// The claimable amount is never negative and never exceeds the unspent
/// balance: a withdrawal can never pay out more than was deposited.
pub proof fn lemma_claimable_bounds(s: Stream, now: u64)
    requires
        s.wf(),
    ensures
        0 <= s.claimable(now) <= s.remaining(),
{
    lemma_mul_nonnegative(s.elapsed(now), s.rate_per_second as int);
}

/// Accounting invariant preservation, withdrawal case: a well-formed
/// stream stays well-formed after a withdrawal, so at every point in time
/// `0 <= withdrawn_amount <= deposited_amount`.
pub proof fn lemma_withdraw_preserves_accounting(s: Stream, now: u64)
    requires
        s.wf(),
    ensures
        s.after_withdraw(now).wf(),
{
    lemma_claimable_bounds(s, now);
}

/// Accounting invariant preservation, top-up case: crediting a
/// representable net amount keeps the stream well-formed.
pub proof fn lemma_top_up_preserves_accounting(s: Stream, net: int, now: u64)
    requires
        s.wf(),
        0 <= net,
        s.deposited_amount + net <= i128::MAX,
    ensures
        s.after_top_up(net, now).wf(),
{
}

/// Accounting invariant preservation, cancellation case: deactivation
/// leaves the accounting fields untouched and well-formed.
pub proof fn lemma_cancel_preserves_accounting(s: Stream, now: u64)
    requires
        s.wf(),
    ensures
        s.after_cancel(now).wf(),
{
}

/// Partial withdrawal is exact: while the accrued amount is still below
/// the unspent balance, a withdrawal pays out exactly
/// `elapsed * rate_per_second`, and the stream stays active.
pub proof fn lemma_withdraw_below_remaining_is_exact(s: Stream, now: u64)
    requires
        s.wf(),
        s.streamed(now) < s.remaining(),
    ensures
        s.claimable(now) == s.streamed(now),
        s.is_active ==> s.after_withdraw(now).is_active,
{
}

/// Final withdrawal drains the stream: once the accrued amount reaches
/// the unspent balance, a withdrawal pays out exactly that balance and
/// the stream deactivates.
pub proof fn lemma_withdraw_at_remaining_drains(s: Stream, now: u64)
    requires
        s.wf(),
        s.streamed(now) >= s.remaining(),
    ensures
        s.claimable(now) == s.remaining(),
        !s.after_withdraw(now).is_active,
{
}

/// No double payout: immediately after a withdrawal, with no time
/// elapsed, nothing further is claimable.
pub proof fn lemma_withdraw_resets_claimable(s: Stream, now: u64)
    requires
        s.wf(),
    ensures
        s.after_withdraw(now).claimable(now) == 0,
{
    lemma_withdraw_preserves_accounting(s, now);
}

/// No double withdrawal: after a successful withdrawal that leaves the
/// stream active, a second withdrawal with zero elapsed time fails with
/// `InvalidAmount`.
pub proof fn lemma_no_double_withdraw(
    pre: Store,
    post: Store,
    recipient: u64,
    stream_id: u64,
    now: u64,
)
    requires
        pre.wf(),
        withdraw_result(pre, recipient, stream_id, now) is Ok,
        post.streams@ == pre.streams@.update(
            stream_id - 1,
            pre.stream_at(stream_id).after_withdraw(now),
        ),
        pre.stream_at(stream_id).after_withdraw(now).is_active,
    ensures
        withdraw_result(post, recipient, stream_id, now) == Err::<i128, StreamError>(
            StreamError::InvalidAmount,
        ),
{
    lemma_withdraw_resets_claimable(pre.stream_at(stream_id), now);
}

/// A top-up never alters the rate, the withdrawn amount, the parties, the
/// start time or the active flag: only the deposited amount and the last
/// update time change.
pub proof fn lemma_top_up_only_deposits(s: Stream, net: int, now: u64)
    ensures
        s.after_top_up(net, now).rate_per_second == s.rate_per_second,
        s.after_top_up(net, now).withdrawn_amount == s.withdrawn_amount,
        s.after_top_up(net, now).sender == s.sender,
        s.after_top_up(net, now).recipient == s.recipient,
        s.after_top_up(net, now).token_address == s.token_address,
        s.after_top_up(net, now).start_time == s.start_time,
        s.after_top_up(net, now).is_active == s.is_active,
        s.after_top_up(net, now).deposited_amount == (s.deposited_amount + net) as i128,
        s.after_top_up(net, now).last_update_time == now,
{
}

/// Initialization is strictly one-time: once any configuration is stored,
/// every later `initialize` call fails with `AlreadyInitialized`, whatever
/// its arguments.
pub proof fn lemma_initialize_is_one_time(config: Option<ProtocolConfig>, fee_rate_bps: u32)
    requires
        config is Some,
    ensures
        initialize_result(config, fee_rate_bps) == Err::<(), StreamError>(
            StreamError::AlreadyInitialized,
        ),
{
}

/// The cancellation refund is the whole unspent balance: together with
/// the recipient's past withdrawals it accounts for every deposited
/// token, and it contains even the slice that had already accrued to the
/// recipient but was not withdrawn — that contested slice goes to
/// whichever of withdraw and cancel acts first.
pub proof fn lemma_cancel_refund_ignores_accrual(s: Stream, now: u64)
    requires
        s.wf(),
    ensures
        s.withdrawn_amount + s.remaining() == s.deposited_amount,
        s.claimable(now) <= s.remaining(),
{
    lemma_claimable_bounds(s, now);
}

/// Deactivation is terminal: no transition ever turns an inactive stream
/// active again.
pub proof fn lemma_deactivation_is_terminal(s: Stream, net: int, now: u64)
    requires
        !s.is_active,
    ensures
        !s.after_withdraw(now).is_active,
        !s.after_top_up(net, now).is_active,
        !s.after_cancel(now).is_active,
{
}

/// The update timestamp never moves backwards while chain time does not:
/// every transition stamps the current time onto the record.
pub proof fn lemma_update_time_is_monotone(s: Stream, net: int, now: u64)
    requires
        now >= s.last_update_time,
    ensures
        s.after_withdraw(now).last_update_time >= s.last_update_time,
        s.after_top_up(net, now).last_update_time >= s.last_update_time,
        s.after_cancel(now).last_update_time >= s.last_update_time,
{
}

/// The protocol fee is levied only on inbound deposits. The events that
/// `withdraw` and `cancel_stream` append are never fee collections, while
/// the deposit paths (`create_stream`, `top_up_stream`) append exactly one
/// fee collection when a positive fee is charged and none otherwise.
pub proof fn lemma_fee_only_on_deposits(
    config: Option<ProtocolConfig>,
    stream_id: u64,
    token_address: u64,
    amount: int,
    withdrawal: TokensWithdrawnEvent,
    cancellation: StreamCancelledEvent,
)
    ensures
        !Event::TokensWithdrawn(withdrawal).is_fee_collection(),
        !Event::StreamCancelled(cancellation).is_fee_collection(),
        forall|i: int|
            0 <= i < fee_events(config, stream_id, token_address, amount).len() ==> (
            #[trigger] fee_events(config, stream_id, token_address, amount)[i]).is_fee_collection(),
        fee_events(config, stream_id, token_address, amount).len() == if charged_fee(
            config,
            amount,
        ) > 0 {
            1int
        } else {
            0int
        },
{
}

} // verus!
