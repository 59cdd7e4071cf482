use stream_contract::errors::StreamError;
use stream_contract::events::Event;
use stream_contract::types::TokenTransfer;
use stream_contract::StreamContract;

// ─── Test principals ─────────────────────────────────────────────────────────

const CUSTODY: u64 = 999;
const ADMIN: u64 = 1;
const TREASURY: u64 = 2;
const NEW_TREASURY: u64 = 3;
const SENDER: u64 = 10;
const RECIPIENT: u64 = 11;
const ATTACKER: u64 = 12;
const TOKEN: u64 = 50;

// ─── Test helpers ─────────────────────────────────────────────────────────────

/// Net token balance of `who`, replayed from the issued transfer
/// instructions (everyone starts at zero).
fn balance(transfers: &[TokenTransfer], who: u64) -> i128 {
    let mut total: i128 = 0;
    for t in transfers.iter() {
        if t.to == who {
            total += t.amount;
        }
        if t.from == who {
            total -= t.amount;
        }
    }
    total
}

/// The first fee-collected event in the log, if any.
fn find_fee_event(events: &[Event]) -> Option<Event> {
    for e in events.iter() {
        if matches!(e, Event::FeeCollected(_)) {
            return Some(*e);
        }
    }
    None
}

// ─── Protocol initialization ──────────────────────────────────────────────────

#[test]
fn test_initialize_stores_config() {
    let mut c = StreamContract::new(CUSTODY);

    c.initialize(ADMIN, TREASURY, 250).unwrap();

    let cfg = c.get_fee_config().unwrap();
    assert_eq!(cfg.admin, ADMIN);
    assert_eq!(cfg.treasury, TREASURY);
    assert_eq!(cfg.fee_rate_bps, 250);
}

#[test]
fn test_initialize_rejects_second_call() {
    let mut c = StreamContract::new(CUSTODY);

    c.initialize(ADMIN, TREASURY, 100).unwrap();
    let result = c.initialize(ADMIN, TREASURY, 100);
    assert_eq!(result, Err(StreamError::AlreadyInitialized));
}

#[test]
fn test_initialize_rejects_invalid_fee_rate() {
    let mut c = StreamContract::new(CUSTODY);

    // 1 001 bps exceeds the 1 000 bps cap.
    let result = c.initialize(ADMIN, TREASURY, 1001);
    assert_eq!(result, Err(StreamError::InvalidFeeRate));
}

#[test]
fn test_update_fee_config_by_admin() {
    let mut c = StreamContract::new(CUSTODY);

    c.initialize(ADMIN, TREASURY, 500).unwrap();
    c.update_fee_config(ADMIN, NEW_TREASURY, 300).unwrap();

    let cfg = c.get_fee_config().unwrap();
    assert_eq!(cfg.treasury, NEW_TREASURY);
    assert_eq!(cfg.fee_rate_bps, 300);
}

#[test]
fn test_update_fee_config_rejects_non_admin() {
    let mut c = StreamContract::new(CUSTODY);

    c.initialize(ADMIN, TREASURY, 500).unwrap();
    let result = c.update_fee_config(ATTACKER, TREASURY, 100);
    assert_eq!(result, Err(StreamError::NotAdmin));
}

#[test]
fn test_update_fee_config_rejects_invalid_fee_rate() {
    let mut c = StreamContract::new(CUSTODY);

    c.initialize(ADMIN, TREASURY, 500).unwrap();
    let result = c.update_fee_config(ADMIN, TREASURY, 1001);
    assert_eq!(result, Err(StreamError::InvalidFeeRate));
}

// ─── create_stream ────────────────────────────────────────────────────────────

#[test]
fn test_create_stream_persists_state() {
    let mut c = StreamContract::new(CUSTODY);

    let stream_id = c.create_stream(SENDER, RECIPIENT, TOKEN, 500, 100, 0).unwrap();
    assert_eq!(stream_id, 1);

    let s = c.get_stream(stream_id).unwrap();
    assert_eq!(s.sender, SENDER);
    assert_eq!(s.recipient, RECIPIENT);
    assert_eq!(s.token_address, TOKEN);
    assert_eq!(s.rate_per_second, 5); // 500 / 100
    assert_eq!(s.deposited_amount, 500);
    assert_eq!(s.withdrawn_amount, 0);
    assert!(s.is_active);
}

#[test]
fn test_create_multiple_streams_increments_id() {
    let mut c = StreamContract::new(CUSTODY);

    let id1 = c.create_stream(SENDER, RECIPIENT, TOKEN, 500, 100, 0).unwrap();
    let id2 = c.create_stream(SENDER, ATTACKER, TOKEN, 500, 100, 0).unwrap();
    assert_eq!(id1, 1);
    assert_eq!(id2, 2);
}

#[test]
fn test_create_stream_rejects_zero_amount() {
    let mut c = StreamContract::new(CUSTODY);

    let result = c.create_stream(SENDER, RECIPIENT, TOKEN, 0, 100, 0);
    assert_eq!(result, Err(StreamError::InvalidAmount));
}

#[test]
fn test_create_stream_rejects_negative_amount() {
    let mut c = StreamContract::new(CUSTODY);

    let result = c.create_stream(SENDER, RECIPIENT, TOKEN, -1, 100, 0);
    assert_eq!(result, Err(StreamError::InvalidAmount));
}

#[test]
fn test_create_stream_rejects_zero_duration() {
    let mut c = StreamContract::new(CUSTODY);

    let result = c.create_stream(SENDER, RECIPIENT, TOKEN, 500, 0, 0);
    assert_eq!(result, Err(StreamError::InvalidDuration));
}

#[test]
fn test_create_stream_emits_event() {
    let mut c = StreamContract::new(CUSTODY);

    let stream_id = c.create_stream(SENDER, RECIPIENT, TOKEN, 500, 100, 0).unwrap();

    let mut found: Option<Event> = None;
    for e in c.events.iter() {
        if matches!(e, Event::StreamCreated(_)) {
            found = Some(*e);
        }
    }
    match found.expect("stream_created event not found") {
        Event::StreamCreated(payload) => {
            assert_eq!(payload.stream_id, stream_id);
            assert_eq!(payload.sender, SENDER);
            assert_eq!(payload.recipient, RECIPIENT);
            assert_eq!(payload.deposited_amount, 500);
            assert_eq!(payload.rate_per_second, 5);
        }
        _ => unreachable!(),
    }
}

// ─── top_up_stream ────────────────────────────────────────────────────────────

#[test]
fn test_top_up_increases_deposited_amount() {
    let mut c = StreamContract::new(CUSTODY);

    let id = c.create_stream(SENDER, RECIPIENT, TOKEN, 10_000, 100, 0).unwrap();
    c.top_up_stream(SENDER, id, 5_000, 0).unwrap();

    let s = c.get_stream(id).unwrap();
    assert_eq!(s.deposited_amount, 15_000);
}

#[test]
fn test_top_up_rejects_zero_amount() {
    let mut c = StreamContract::new(CUSTODY);

    let id = c.create_stream(SENDER, RECIPIENT, TOKEN, 10_000, 100, 0).unwrap();

    assert_eq!(c.top_up_stream(SENDER, id, 0, 0), Err(StreamError::InvalidAmount));
}

#[test]
fn test_top_up_rejects_negative_amount() {
    let mut c = StreamContract::new(CUSTODY);

    let id = c.create_stream(SENDER, RECIPIENT, TOKEN, 10_000, 100, 0).unwrap();

    assert_eq!(c.top_up_stream(SENDER, id, -50, 0), Err(StreamError::InvalidAmount));
}

#[test]
fn test_top_up_rejects_nonexistent_stream() {
    let mut c = StreamContract::new(CUSTODY);

    assert_eq!(c.top_up_stream(SENDER, 999, 1_000, 0), Err(StreamError::StreamNotFound));
}

#[test]
fn test_top_up_rejects_unauthorized_sender() {
    let mut c = StreamContract::new(CUSTODY);

    let id = c.create_stream(SENDER, RECIPIENT, TOKEN, 10_000, 100, 0).unwrap();

    assert_eq!(c.top_up_stream(ATTACKER, id, 1_000, 0), Err(StreamError::Unauthorized));
}

#[test]
fn test_top_up_rejects_inactive_stream() {
    let mut c = StreamContract::new(CUSTODY);

    let id = c.create_stream(SENDER, RECIPIENT, TOKEN, 10_000, 100, 0).unwrap();
    c.cancel_stream(SENDER, id, 0).unwrap();

    assert_eq!(c.top_up_stream(SENDER, id, 1_000, 0), Err(StreamError::StreamInactive));
}

#[test]
fn test_top_up_emits_event() {
    let mut c = StreamContract::new(CUSTODY);

    let id = c.create_stream(SENDER, RECIPIENT, TOKEN, 10_000, 100, 0).unwrap();
    c.top_up_stream(SENDER, id, 5_000, 0).unwrap();

    let mut found: Option<Event> = None;
    for e in c.events.iter() {
        if matches!(e, Event::StreamToppedUp(_)) {
            found = Some(*e);
        }
    }
    match found.expect("stream_topped_up event not found") {
        Event::StreamToppedUp(payload) => {
            assert_eq!(payload.stream_id, id);
            assert_eq!(payload.amount, 5_000);
            assert_eq!(payload.new_deposited_amount, 15_000);
        }
        _ => unreachable!(),
    }
}

// ─── withdraw ────────────────────────────────────────────────────────────────

#[test]
fn test_withdraw_transfers_tokens_to_recipient() {
    let mut c = StreamContract::new(CUSTODY);

    let id = c.create_stream(SENDER, RECIPIENT, TOKEN, 500, 100, 0).unwrap();

    // After the full 100-second duration the whole deposit has accrued.
    let before: i128 = balance(&c.transfers, RECIPIENT);
    let claimed = c.withdraw(RECIPIENT, id, 100).unwrap();
    let after: i128 = balance(&c.transfers, RECIPIENT);

    assert_eq!(claimed, 500);
    assert_eq!(after - before, 500);

    let s = c.get_stream(id).unwrap();
    assert_eq!(s.withdrawn_amount, 500);
    assert!(!s.is_active); // fully drained
}

#[test]
fn test_withdraw_rejects_non_recipient() {
    let mut c = StreamContract::new(CUSTODY);

    let id = c.create_stream(SENDER, RECIPIENT, TOKEN, 500, 100, 0).unwrap();

    assert_eq!(c.withdraw(ATTACKER, id, 100), Err(StreamError::Unauthorized));
}

#[test]
fn test_withdraw_rejects_missing_stream() {
    let mut c = StreamContract::new(CUSTODY);

    assert_eq!(c.withdraw(RECIPIENT, 999, 0), Err(StreamError::StreamNotFound));
}

#[test]
fn test_withdraw_rejects_inactive_stream() {
    let mut c = StreamContract::new(CUSTODY);

    let id = c.create_stream(SENDER, RECIPIENT, TOKEN, 500, 100, 0).unwrap();
    c.cancel_stream(SENDER, id, 0).unwrap();

    assert_eq!(c.withdraw(RECIPIENT, id, 100), Err(StreamError::StreamInactive));
}

#[test]
fn test_withdraw_emits_event() {
    let mut c = StreamContract::new(CUSTODY);

    let id = c.create_stream(SENDER, RECIPIENT, TOKEN, 500, 100, 0).unwrap();
    c.withdraw(RECIPIENT, id, 100).unwrap();

    let mut found: Option<Event> = None;
    for e in c.events.iter() {
        if matches!(e, Event::TokensWithdrawn(_)) {
            found = Some(*e);
        }
    }
    match found.expect("tokens_withdrawn event not found") {
        Event::TokensWithdrawn(payload) => {
            assert_eq!(payload.stream_id, id);
            assert_eq!(payload.recipient, RECIPIENT);
            assert_eq!(payload.amount, 500);
        }
        _ => unreachable!(),
    }
}

// ─── cancel_stream ────────────────────────────────────────────────────────────

#[test]
fn test_cancel_stream_refunds_unspent_balance() {
    let mut c = StreamContract::new(CUSTODY);

    let id = c.create_stream(SENDER, RECIPIENT, TOKEN, 500, 100, 0).unwrap();
    let sender_balance_before: i128 = balance(&c.transfers, SENDER);

    c.cancel_stream(SENDER, id, 0).unwrap();

    // Full 500 should be refunded since nothing was withdrawn.
    assert_eq!(balance(&c.transfers, SENDER) - sender_balance_before, 500);

    let s = c.get_stream(id).unwrap();
    assert!(!s.is_active);
}

#[test]
fn test_cancel_stream_rejects_non_sender() {
    let mut c = StreamContract::new(CUSTODY);

    let id = c.create_stream(SENDER, RECIPIENT, TOKEN, 500, 100, 0).unwrap();

    assert_eq!(c.cancel_stream(ATTACKER, id, 0), Err(StreamError::Unauthorized));
}

#[test]
fn test_cancel_stream_rejects_missing_stream() {
    let mut c = StreamContract::new(CUSTODY);

    assert_eq!(c.cancel_stream(SENDER, 999, 0), Err(StreamError::StreamNotFound));
}

#[test]
fn test_cancel_stream_rejects_already_inactive() {
    let mut c = StreamContract::new(CUSTODY);

    let id = c.create_stream(SENDER, RECIPIENT, TOKEN, 500, 100, 0).unwrap();
    c.cancel_stream(SENDER, id, 0).unwrap();

    assert_eq!(c.cancel_stream(SENDER, id, 0), Err(StreamError::StreamInactive));
}

#[test]
fn test_cancel_stream_emits_event_with_refund_amount() {
    let mut c = StreamContract::new(CUSTODY);

    let id = c.create_stream(SENDER, RECIPIENT, TOKEN, 500, 100, 0).unwrap();
    c.cancel_stream(SENDER, id, 0).unwrap();

    let mut found: Option<Event> = None;
    for e in c.events.iter() {
        if matches!(e, Event::StreamCancelled(_)) {
            found = Some(*e);
        }
    }
    match found.expect("stream_cancelled event not found") {
        Event::StreamCancelled(payload) => {
            assert_eq!(payload.stream_id, id);
            assert_eq!(payload.sender, SENDER);
            assert_eq!(payload.recipient, RECIPIENT);
            assert_eq!(payload.amount_withdrawn, 0);
            assert_eq!(payload.refunded_amount, 500);
        }
        _ => unreachable!(),
    }
}

// ─── Protocol fee integration ─────────────────────────────────────────────────

#[test]
fn test_create_stream_with_fee_deduction() {
    let mut c = StreamContract::new(CUSTODY);

    // 2% fee (200 bps). Gross: 500, fee: 10, net: 490.
    c.initialize(ADMIN, TREASURY, 200).unwrap();
    let id = c.create_stream(SENDER, RECIPIENT, TOKEN, 500, 100, 0).unwrap();

    assert_eq!(balance(&c.transfers, TREASURY), 10);
    let s = c.get_stream(id).unwrap();
    assert_eq!(s.deposited_amount, 490);
    assert_eq!(s.rate_per_second, 4); // 490 / 100 = 4 (integer division)
}

#[test]
fn test_top_up_with_fee_deduction() {
    let mut c = StreamContract::new(CUSTODY);

    // 1% fee (100 bps). Create: gross 1 000, fee 10, net 990.
    c.initialize(ADMIN, TREASURY, 100).unwrap();
    let id = c.create_stream(SENDER, RECIPIENT, TOKEN, 1_000, 100, 0).unwrap();
    assert_eq!(balance(&c.transfers, TREASURY), 10);

    // Top up: gross 500, fee 5, net 495. Treasury total: 15.
    c.top_up_stream(SENDER, id, 500, 0).unwrap();
    assert_eq!(balance(&c.transfers, TREASURY), 15);

    let s = c.get_stream(id).unwrap();
    assert_eq!(s.deposited_amount, 990 + 495);
}

#[test]
fn test_fee_collected_event_emitted_on_create() {
    let mut c = StreamContract::new(CUSTODY);

    // 5% fee (500 bps). Gross: 1 000, fee: 50.
    c.initialize(ADMIN, TREASURY, 500).unwrap();
    let id = c.create_stream(SENDER, RECIPIENT, TOKEN, 1_000, 100, 0).unwrap();

    match find_fee_event(&c.events).expect("fee_collected event not found") {
        Event::FeeCollected(payload) => {
            assert_eq!(payload.stream_id, id);
            assert_eq!(payload.treasury, TREASURY);
            assert_eq!(payload.fee_amount, 50);
        }
        _ => unreachable!(),
    }
}

#[test]
fn test_no_fee_event_when_fee_rate_is_zero() {
    let mut c = StreamContract::new(CUSTODY);

    // 0 bps fee: no fee_collected event must be emitted.
    c.initialize(ADMIN, TREASURY, 0).unwrap();
    c.create_stream(SENDER, RECIPIENT, TOKEN, 1_000, 100, 0).unwrap();

    assert!(
        find_fee_event(&c.events).is_none(),
        "fee_collected must not fire when fee rate is 0"
    );
}

#[test]
fn test_no_fee_without_protocol_config() {
    // No `initialize` call: fee collection is a silent no-op.
    let mut c = StreamContract::new(CUSTODY);

    let id = c.create_stream(SENDER, RECIPIENT, TOKEN, 500, 100, 0).unwrap();

    let s = c.get_stream(id).unwrap();
    assert_eq!(s.deposited_amount, 500); // Full amount, no fee deducted.
}
