use payment_watch::aggregate::{scan_utxo_transactions, TxInfo};
use payment_watch::status::Status;
use payment_watch::watch::{Action, Event, Phase, Watch};
use payment_watch::webhook::{Fill, WaitOnParams, Webhook};

const BTC: u64 = 100_000_000;

fn params(amount: u64, confirmations: i32, timestamp: u64) -> WaitOnParams {
    WaitOnParams {
        address: String::from("bcrt1qexampleaddress"),
        amount,
        confirmations_num: confirmations,
        timestamp,
    }
}

fn tx(amount: i64, confirmations: i32) -> Option<TxInfo> {
    Some(TxInfo { amount, confirmations })
}

fn webhook_requiring(confirmations: i32) -> Webhook {
    Webhook::new(params(BTC, confirmations, 1_000))
}

#[test]
fn aggregate_keeps_only_deep_enough_transactions() {
    let lookups = vec![tx(100, 3), tx(200, 5), tx(300, 10)];
    let r = scan_utxo_transactions(&lookups, &webhook_requiring(5));
    assert_eq!(r, Some((500, 7)));
}

#[test]
fn aggregate_with_nothing_deep_enough_is_zero() {
    let lookups = vec![tx(100, 1), tx(200, 2)];
    assert_eq!(scan_utxo_transactions(&lookups, &webhook_requiring(5)), Some((0, 0)));
    assert_eq!(scan_utxo_transactions(&Vec::new(), &webhook_requiring(0)), Some((0, 0)));
}

#[test]
fn aggregate_skips_failed_lookups() {
    let lookups = vec![None, tx(40, 6), None, tx(60, 7)];
    assert_eq!(scan_utxo_transactions(&lookups, &webhook_requiring(6)), Some((100, 6)));
}

#[test]
fn aggregate_refuses_a_negative_total() {
    let lookups = vec![tx(-500, 6), tx(100, 6)];
    assert_eq!(scan_utxo_transactions(&lookups, &webhook_requiring(1)), None);
}

#[test]
fn aggregate_sums_beyond_a_single_value() {
    let lookups = vec![tx(i64::MAX, 6), tx(-1, 6), tx(1, 6)];
    assert_eq!(scan_utxo_transactions(&lookups, &webhook_requiring(1)), Some((i64::MAX as u64, 6)));
    let over = vec![tx(i64::MAX, 6), tx(1, 6)];
    assert_eq!(scan_utxo_transactions(&over, &webhook_requiring(1)), None);
}

#[test]
fn fresh_webhook_is_waiting() {
    let w = Webhook::new(params(BTC, 2, 77));
    assert_eq!(w.status, Status::Waiting);
    assert_eq!(w.expiry, 77);
    assert_eq!(w.required_amount, BTC);
    assert_eq!(w.required_confirmations_num, 2);
    assert_eq!(w.amount, None);
    assert_eq!(w.confirmations_num, None);
}

#[test]
fn fill_reports_partial_once() {
    let mut w = Webhook::new(params(BTC, 1, 1_000));
    assert_eq!(w.fill_and_send_partial(0), Fill::NotReachedYet);
    assert_eq!(w.status, Status::Waiting);
    assert_eq!(w.amount, Some(0));
    assert_eq!(w.fill_and_send_partial(BTC / 2), Fill::NotifyPartial);
    assert_eq!(w.status, Status::PartialPayment);
    assert_eq!(w.fill_and_send_partial(BTC / 2), Fill::NotReachedYet);
    assert_eq!(w.fill_and_send_partial(BTC), Fill::Reached);
    assert_eq!(w.amount, Some(BTC));
}

#[test]
fn partial_payment_notifies_once_with_observed_amount() {
    let mut w = Watch::new(params(BTC, 1, 1_000));
    assert_eq!(w.step(Event::Tick { now: 10 }), Action::Scan);
    assert_eq!(w.step(Event::Scanned { total: 40_000_000 }), Action::Notify);
    assert_eq!(w.webhook.status, Status::PartialPayment);
    assert_eq!(w.webhook.amount, Some(40_000_000));
    assert_eq!(w.step(Event::Delivered), Action::Sleep);
    assert_eq!(w.phase, Phase::Ready);
}

#[test]
fn enough_raw_value_but_too_shallow_keeps_waiting() {
    let mut w = Watch::new(params(BTC, 6, 1_000));
    assert_eq!(w.step(Event::Tick { now: 10 }), Action::Scan);
    assert_eq!(w.step(Event::Scanned { total: BTC }), Action::LookUp);
    let lookups = vec![tx(60_000_000, 6), tx(40_000_000, 2)];
    assert_eq!(w.step(Event::LookedUp { lookups }), Action::Sleep);
    assert_eq!(w.webhook.status, Status::Waiting);
    assert_eq!(w.webhook.amount, Some(BTC));
    assert_eq!(w.webhook.confirmations_num, None);
    assert_eq!(w.phase, Phase::Ready);
    assert_eq!(w.step(Event::Tick { now: 20 }), Action::Scan);
}

#[test]
fn confirmed_value_completes_the_watch() {
    let mut w = Watch::new(params(BTC, 5, 1_000));
    assert_eq!(w.step(Event::Tick { now: 10 }), Action::Scan);
    assert_eq!(w.step(Event::Scanned { total: BTC }), Action::LookUp);
    let lookups = vec![tx(50_000_000, 5), tx(50_000_000, 7)];
    assert_eq!(w.step(Event::LookedUp { lookups }), Action::Notify);
    assert_eq!(w.webhook.status, Status::Success);
    assert_eq!(w.webhook.amount, Some(BTC));
    assert_eq!(w.webhook.confirmations_num, Some(6));
    assert_eq!(w.step(Event::Delivered), Action::Stop);
    assert_eq!(w.phase, Phase::Stopped);
    assert_eq!(w.step(Event::Tick { now: 20 }), Action::Stop);
}

#[test]
fn repeated_short_scans_after_partial_stay_quiet() {
    let mut w = Watch::new(params(BTC, 1, 1_000));
    assert_eq!(w.step(Event::Tick { now: 1 }), Action::Scan);
    assert_eq!(w.step(Event::Scanned { total: 30 }), Action::Notify);
    assert_eq!(w.step(Event::Delivered), Action::Sleep);
    for now in 2..6u64 {
        assert_eq!(w.step(Event::Tick { now }), Action::Scan);
        assert_eq!(w.step(Event::Scanned { total: 30 }), Action::Sleep);
        assert_eq!(w.webhook.status, Status::PartialPayment);
    }
}

#[test]
fn expired_on_first_tick_never_scans() {
    let mut w = Watch::new(params(BTC, 1, 100));
    assert_eq!(w.step(Event::Tick { now: 101 }), Action::Notify);
    assert_eq!(w.webhook.status, Status::Expired);
    assert_eq!(w.phase, Phase::AwaitDelivery { last: true });
    assert_eq!(w.step(Event::Delivered), Action::Stop);
}

#[test]
fn expiry_time_itself_still_scans() {
    let mut w = Watch::new(params(BTC, 1, 100));
    assert_eq!(w.step(Event::Tick { now: 100 }), Action::Scan);
}

#[test]
fn expiry_after_partial_sends_final_notification() {
    let mut w = Watch::new(params(BTC, 1, 100));
    assert_eq!(w.step(Event::Tick { now: 50 }), Action::Scan);
    assert_eq!(w.step(Event::Scanned { total: 5 }), Action::Notify);
    assert_eq!(w.step(Event::Delivered), Action::Sleep);
    assert_eq!(w.step(Event::Tick { now: 150 }), Action::Notify);
    assert_eq!(w.webhook.status, Status::Expired);
    assert_eq!(w.webhook.amount, Some(5));
}

#[test]
fn scan_failure_stops_without_notification() {
    let mut w = Watch::new(params(BTC, 1, 100));
    assert_eq!(w.step(Event::Tick { now: 50 }), Action::Scan);
    assert_eq!(w.step(Event::ScanFailed), Action::Stop);
    assert_eq!(w.phase, Phase::Stopped);
    assert_eq!(w.webhook.status, Status::Waiting);
}

#[test]
fn delivery_failure_stops_the_watch() {
    let mut w = Watch::new(params(BTC, 1, 100));
    assert_eq!(w.step(Event::Tick { now: 50 }), Action::Scan);
    assert_eq!(w.step(Event::Scanned { total: 5 }), Action::Notify);
    assert_eq!(w.step(Event::DeliveryFailed), Action::Stop);
    assert_eq!(w.phase, Phase::Stopped);
    assert_eq!(w.step(Event::Tick { now: 60 }), Action::Stop);
}

#[test]
fn impossible_lookup_total_stops_the_watch() {
    let mut w = Watch::new(params(BTC, 1, 100));
    assert_eq!(w.step(Event::Tick { now: 50 }), Action::Scan);
    assert_eq!(w.step(Event::Scanned { total: BTC }), Action::LookUp);
    let lookups = vec![tx(-1, 3)];
    assert_eq!(w.step(Event::LookedUp { lookups }), Action::Stop);
}

#[test]
fn events_out_of_phase_are_ignored() {
    let mut w = Watch::new(params(BTC, 1, 100));
    assert_eq!(w.step(Event::Scanned { total: BTC }), Action::Ignore);
    assert_eq!(w.step(Event::Delivered), Action::Ignore);
    assert_eq!(w.step(Event::DeliveryFailed), Action::Ignore);
    assert_eq!(w.step(Event::ScanFailed), Action::Ignore);
    assert_eq!(w.step(Event::LookedUp { lookups: Vec::new() }), Action::Ignore);
    assert_eq!(w.phase, Phase::Ready);
    assert_eq!(w.webhook.amount, None);
    assert_eq!(w.step(Event::Tick { now: 1 }), Action::Scan);
    assert_eq!(w.step(Event::Tick { now: 2 }), Action::Ignore);
}

#[test]
fn exact_amount_with_zero_depth_succeeds() {
    let mut w = Watch::new(params(BTC, 0, 100));
    assert_eq!(w.step(Event::Tick { now: 1 }), Action::Scan);
    assert_eq!(w.step(Event::Scanned { total: BTC }), Action::LookUp);
    assert_eq!(w.step(Event::LookedUp { lookups: vec![tx(BTC as i64, 0)] }), Action::Notify);
    assert_eq!(w.webhook.status, Status::Success);
    assert_eq!(w.webhook.confirmations_num, Some(0));
}
