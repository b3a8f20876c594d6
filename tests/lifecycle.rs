use tx_latency::engine::{
    apply_next, begin_submission, plan_tx, record_receipt, record_sent, settle_polled, submission_failed, FeeChoice,
    TRANSFER_GAS,
};
use tx_latency::fee::{market_fees_for, FeePolicy, BENCHMARK_MULTIPLIER, FEE_FLOOR, GAME_MULTIPLIER, PRIORITY_FEE};
use tx_latency::game::Direction;
use tx_latency::inflight::{InFlight, MOVE_CAP};
use tx_latency::latency::{stats_of, summarize, Sample};
use tx_latency::ledger::{Ledger, LedgerEntry, TxStatus, LEDGER_CAPACITY};
use tx_latency::method::TxMethod;
use tx_latency::nonce::NonceSequencer;
use tx_latency::poller::{classify_receipt, FailReason, Outcome, PollAction, Poller, ReceiptPoll, POLL_ATTEMPTS};

fn pending(nonce: u64) -> LedgerEntry<Direction> {
    LedgerEntry::submitted(nonce, [nonce as u8; 32], TxStatus::Pending, 0, None, Some(Direction::Up))
}

/// Drives a poller against a mock that answers `NotYet` `misses` times and
/// then with `answer`; returns the outcome and the milliseconds waited.
fn poll_mock(misses: u32, answer: ReceiptPoll) -> (Outcome, u64, u32) {
    let mut p = Poller::new(POLL_ATTEMPTS);
    let mut waited: u64 = 0;
    let mut calls: u32 = 0;
    loop {
        let reply = if calls < misses { ReceiptPoll::NotYet } else { answer };
        calls += 1;
        match p.step(reply) {
            PollAction::Wait(ms) => waited += ms,
            PollAction::Settle(o) => return (o, waited, calls),
        }
    }
}

#[test]
fn nonces_are_consecutive_and_unique() {
    let mut seq = NonceSequencer::new(41);
    let mut seen = Vec::new();
    for _ in 0..25 {
        seen.push(seq.next());
    }
    let expected: Vec<u64> = (41..66).collect();
    assert_eq!(seen, expected);
    let mut sorted = seen.clone();
    sorted.dedup();
    assert_eq!(sorted.len(), 25);
    assert_eq!(seq.peek(), 66);
    let more = seq.next_many(3);
    assert_eq!(more, vec![66, 67, 68]);
}

#[test]
fn fee_floor_only_for_zero_baseline() {
    let bench = FeePolicy::new(BENCHMARK_MULTIPLIER);
    assert_eq!(bench.compute(0), FEE_FLOOR);
    assert!(bench.uses_floor(0));
    assert_eq!(bench.compute(7), 21);
    assert!(!bench.uses_floor(7));
    let game = FeePolicy::new(GAME_MULTIPLIER);
    assert_eq!(game.compute(5_000_000_000), 10_000_000_000);
}

#[test]
fn market_max_fee_not_below_priority_fee() {
    let low = market_fees_for(5);
    assert_eq!(low.priority_fee, PRIORITY_FEE);
    assert_eq!(low.max_fee, 2 * PRIORITY_FEE);
    let high = market_fees_for(9_000_000_000);
    assert_eq!(high.max_fee, 9_000_000_000);
    let floor = FeePolicy::new(BENCHMARK_MULTIPLIER).market_fees(0);
    assert_eq!(floor.max_fee, 2 * PRIORITY_FEE);
    assert!(floor.max_fee >= floor.priority_fee);
}

#[test]
fn plan_uses_method_fee_fields() {
    let a = plan_tx(TxMethod::Async, 3, 2, 600);
    assert_eq!(a.nonce, 3);
    assert_eq!(a.value, 2);
    assert_eq!(a.gas, TRANSFER_GAS);
    assert_eq!(a.fee, FeeChoice::Legacy(600));
    let r = plan_tx(TxMethod::Rise, 3, 2, 600);
    assert_eq!(r.fee, FeeChoice::Market(market_fees_for(600)));
}

#[test]
fn ledger_keeps_last_ten_of_twelve() {
    let mut l: Ledger<Direction> = Ledger::new();
    for n in 1..=12u64 {
        l.record(pending(n));
        assert!(l.len() <= LEDGER_CAPACITY);
    }
    let nonces: Vec<u64> = l.snapshot().iter().map(|e| e.nonce).collect();
    assert_eq!(nonces, (3..=12).collect::<Vec<u64>>());
}

#[test]
fn ledger_settles_only_once_and_ignores_evicted() {
    let mut l: Ledger<Direction> = Ledger::new();
    l.record(pending(1));
    assert!(l.update_status(1, TxStatus::Confirmed, Some(40)));
    assert!(!l.update_status(1, TxStatus::Failed, Some(90)));
    assert_eq!(l.snapshot()[0].status, TxStatus::Confirmed);
    assert_eq!(l.snapshot()[0].confirmed_after, Some(40));
    assert!(!l.update_status(99, TxStatus::Failed, None));
    assert!(!l.mark_applied(99));
}

#[test]
fn applied_is_set_at_most_once() {
    let mut l: Ledger<Direction> = Ledger::new();
    l.record(pending(1));
    assert!(!l.mark_applied(1));
    l.update_status(1, TxStatus::Confirmed, Some(10));
    assert!(l.mark_applied(1));
    assert!(l.snapshot()[0].applied);
    assert!(!l.mark_applied(1));
    l.update_status(1, TxStatus::Failed, Some(20));
    assert!(l.snapshot()[0].applied);
}

#[test]
fn untagged_entry_is_never_applied() {
    let mut l: Ledger<Direction> = Ledger::new();
    l.record(LedgerEntry::submitted(4, [0; 32], TxStatus::Confirmed, 0, Some(1), None));
    assert!(!l.mark_applied(4));
    let mut slots = InFlight::new(MOVE_CAP);
    assert_eq!(apply_next(&mut l, &mut slots), None);
}

#[test]
fn in_flight_counter_stays_in_range() {
    let mut c = InFlight::new(2);
    assert!(c.try_acquire());
    assert!(c.try_acquire());
    assert!(!c.try_acquire());
    assert_eq!(c.count(), 2);
    c.release();
    c.release();
    c.release();
    assert_eq!(c.count(), 0);
    assert!(c.has_room());
}

#[test]
fn fifth_move_dropped_at_cap() {
    let mut seq = NonceSequencer::new(10);
    let mut slots = InFlight::new(MOVE_CAP);
    for k in 0..4u64 {
        let planned = begin_submission(&mut seq, &mut slots, TxMethod::Async, Direction::Left.value(), 100)
            .expect("room for the move");
        assert_eq!(planned.nonce, 10 + k);
        assert_eq!(planned.value, 3);
    }
    assert_eq!(slots.count(), 4);
    let fifth = begin_submission(&mut seq, &mut slots, TxMethod::Async, 1, 100);
    assert!(fifth.is_none());
    assert_eq!(slots.count(), 4);
    assert_eq!(seq.peek(), 14);
}

#[test]
fn failed_submission_releases_slot() {
    let mut slots = InFlight::new(MOVE_CAP);
    slots.try_acquire();
    submission_failed(&mut slots);
    assert_eq!(slots.count(), 0);
}

#[test]
fn polled_receipt_after_three_misses() {
    let mut l: Ledger<Direction> = Ledger::new();
    let mut slots = InFlight::new(8);
    let mut seq = NonceSequencer::new(0);
    for _ in 0..5 {
        let planned = begin_submission(&mut seq, &mut slots, TxMethod::Async, 1, 1).unwrap();
        record_sent(&mut l, planned.nonce, [planned.nonce as u8 + 100; 32], 0, Some(Direction::Down));
        let (outcome, waited, calls) = poll_mock(3, ReceiptPoll::Receipt(Some(1)));
        assert_eq!(calls, 4);
        assert!(waited >= 300);
        assert_eq!(outcome, Outcome::Confirmed);
        assert!(settle_polled(&mut l, &mut slots, planned.nonce, outcome, waited));
    }
    assert_eq!(l.len(), 5);
    for e in l.snapshot() {
        assert_eq!(e.status, TxStatus::Confirmed);
        assert!(e.confirmed_after.unwrap() >= 300);
    }
    assert_eq!(slots.count(), 5);
}

#[test]
fn sync_failed_receipt_recorded_failed() {
    let mut l: Ledger<Direction> = Ledger::new();
    let mut slots = InFlight::new(MOVE_CAP);
    slots.try_acquire();
    let send_ms = 137;
    let outcome = record_receipt(&mut l, &mut slots, 0, [5; 32], Some(0), 0, send_ms, Some(Direction::Up));
    assert_eq!(outcome, Outcome::Failed(FailReason::Protocol));
    assert_eq!(l.snapshot()[0].status, TxStatus::Failed);
    assert_eq!(l.snapshot()[0].hash, [5; 32]);
    assert_eq!(l.snapshot()[0].confirmed_after, Some(send_ms));
    assert_eq!(slots.count(), 0);
    let sample = Sample::single_round_trip(send_ms);
    assert_eq!(sample.confirm_ms, 0);
    assert_eq!(sample.total_ms, send_ms);
    assert_eq!(sample.send_ms, send_ms);
}

#[test]
fn sync_success_receipt_keeps_slot() {
    let mut l: Ledger<Direction> = Ledger::new();
    let mut slots = InFlight::new(MOVE_CAP);
    slots.try_acquire();
    let outcome = record_receipt(&mut l, &mut slots, 0, [5; 32], Some(1), 0, 20, Some(Direction::Up));
    assert_eq!(outcome, Outcome::Confirmed);
    assert_eq!(slots.count(), 1);
    assert_eq!(apply_next(&mut l, &mut slots), Some(Direction::Up));
    assert_eq!(slots.count(), 0);
}

#[test]
fn out_of_order_confirmations_apply_in_insertion_order() {
    let mut l: Ledger<Direction> = Ledger::new();
    let mut slots = InFlight::new(MOVE_CAP);
    slots.try_acquire();
    slots.try_acquire();
    record_sent(&mut l, 1, [11; 32], 0, Some(Direction::Left));
    record_sent(&mut l, 2, [12; 32], 0, Some(Direction::Down));
    settle_polled(&mut l, &mut slots, 2, Outcome::Confirmed, 50);
    settle_polled(&mut l, &mut slots, 1, Outcome::Confirmed, 80);
    assert_eq!(apply_next(&mut l, &mut slots), Some(Direction::Left));
    assert!(l.snapshot()[0].applied);
    assert!(!l.snapshot()[1].applied);
    assert_eq!(slots.count(), 1);
    assert_eq!(apply_next(&mut l, &mut slots), Some(Direction::Down));
    assert_eq!(apply_next(&mut l, &mut slots), None);
    assert_eq!(slots.count(), 0);
}

#[test]
fn poller_times_out_and_releases_once() {
    let (outcome, waited, calls) = poll_mock(u32::MAX, ReceiptPoll::NotYet);
    assert_eq!(calls, POLL_ATTEMPTS);
    assert_eq!(outcome, Outcome::Failed(FailReason::Timeout));
    assert_eq!(waited, 299 * 100);
    let mut l: Ledger<Direction> = Ledger::new();
    let mut slots = InFlight::new(MOVE_CAP);
    slots.try_acquire();
    slots.try_acquire();
    record_sent(&mut l, 9, [1; 32], 0, Some(Direction::Up));
    assert!(settle_polled(&mut l, &mut slots, 9, outcome, waited));
    assert_eq!(slots.count(), 1);
    assert_eq!(l.snapshot()[0].status, TxStatus::Failed);
}

#[test]
fn poller_transport_error_stops_at_once() {
    let (outcome, waited, calls) = poll_mock(2, ReceiptPoll::TransportError);
    assert_eq!(outcome, Outcome::Failed(FailReason::Transport));
    assert_eq!(calls, 3);
    assert_eq!(waited, 200);
}

#[test]
fn receipt_status_classification() {
    assert_eq!(classify_receipt(Some(1)), Outcome::Confirmed);
    assert_eq!(classify_receipt(Some(0)), Outcome::Failed(FailReason::Protocol));
    assert_eq!(classify_receipt(None), Outcome::Failed(FailReason::Protocol));
}

#[test]
fn latency_summary_values() {
    let samples = vec![
        Sample::polled(10, 300, 310),
        Sample::polled(20, 500, 521),
        Sample::single_round_trip(45),
    ];
    let s = summarize(&samples);
    assert_eq!((s.send.min, s.send.max, s.send.avg), (10, 45, 25));
    assert_eq!((s.confirm.min, s.confirm.max, s.confirm.avg), (0, 500, 266));
    assert_eq!((s.total.min, s.total.max, s.total.avg), (45, 521, 292));
    for st in [s.send, s.confirm, s.total] {
        assert!(st.min <= st.avg && st.avg <= st.max);
    }
}

#[test]
fn latency_summary_empty_is_zero() {
    let s = summarize(&Vec::new());
    assert_eq!((s.total.min, s.total.max, s.total.avg), (0, 0, 0));
    let big = stats_of(&vec![u64::MAX, u64::MAX, u64::MAX - 3]);
    assert_eq!(big.avg, u64::MAX - 1);
    assert_eq!(big.min, u64::MAX - 3);
}

#[test]
fn clearing_ledger_and_slots_starts_over() {
    let mut l: Ledger<Direction> = Ledger::new();
    l.record(pending(3));
    l.clear();
    assert_eq!(l.len(), 0);
    let mut slots = InFlight::new(MOVE_CAP);
    slots.try_acquire();
    slots.reset();
    assert_eq!(slots.count(), 0);
    assert_eq!(slots.cap(), MOVE_CAP);
}
