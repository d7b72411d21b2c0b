use lnd_exporter::cache::ListPaymentsCache;
use lnd_exporter::payment::{Payment, PaymentFailureReason, PaymentStatus};
use lnd_exporter::rpc::{Channel, GetInfoResponse, ListChannelsResponse, ListPaymentsResponse};
use lnd_exporter::sample::MetricSample;
use lnd_exporter::scrapers::{scrape_getinfo, scrape_listchannels, scrape_listpayments};

fn payment(status: PaymentStatus, reason: PaymentFailureReason, fee_msat: u64) -> Payment {
    Payment { status, failure_reason: reason, fee_msat }
}

fn assert_sample(s: &MetricSample, name: &str, labels: &[(&str, &str)], value: u64) {
    assert_eq!(s.name, name);
    assert_eq!(s.labels.len(), labels.len());
    for (l, (ln, lv)) in s.labels.iter().zip(labels.iter()) {
        assert_eq!(l.name, *ln);
        assert_eq!(l.value, *lv);
    }
    assert_eq!(s.value, value);
}

fn samples_equal(a: &[MetricSample], b: &[MetricSample]) -> bool {
    if a.len() != b.len() {
        return false;
    }
    for (x, y) in a.iter().zip(b.iter()) {
        if x.name != y.name || x.value != y.value || x.labels.len() != y.labels.len() {
            return false;
        }
        for (lx, ly) in x.labels.iter().zip(y.labels.iter()) {
            if lx.name != ly.name || lx.value != ly.value {
                return false;
            }
        }
    }
    true
}

#[test]
fn getinfo_success_emits_peers_and_height() {
    let res = GetInfoResponse { num_peers: 7, block_height: 790000 };
    let ms = scrape_getinfo(Some(&res));
    assert_eq!(ms.len(), 2);
    assert_sample(&ms[0], "num_peers_total", &[], 7);
    assert_sample(&ms[1], "block_height", &[], 790000);
}

#[test]
fn getinfo_failure_emits_nothing() {
    let ms = scrape_getinfo(None);
    assert_eq!(ms.len(), 0);
}

#[test]
fn scenario_a_first_advancing_poll() {
    let mut cache = ListPaymentsCache::new();
    let res = ListPaymentsResponse {
        last_index_offset: 5,
        payments: vec![
            payment(PaymentStatus::Succeeded, PaymentFailureReason::FailureReasonNone, 10),
            payment(PaymentStatus::Failed, PaymentFailureReason::FailureReasonNoRoute, 0),
        ],
    };
    let ms = scrape_listpayments(&mut cache, Some(&res));
    assert_eq!(cache.index_offset, 5);
    assert_eq!(cache.succeeded_count, 1);
    assert_eq!(cache.failed_count, 1);
    assert_eq!(cache.unknown_count, 0);
    assert_eq!(cache.in_flight_count, 0);
    assert_eq!(cache.reason_none_count, 1);
    assert_eq!(cache.reason_no_route_count, 1);
    assert_eq!(cache.reason_timeout_count, 0);
    assert_eq!(cache.total_fee_msat, 10);
    assert_eq!(ms.len(), 11);
    assert_sample(&ms[0], "outgoing_payments", &[("status", "unknown")], 0);
    assert_sample(&ms[1], "outgoing_payments", &[("status", "in_flight")], 0);
    assert_sample(&ms[2], "outgoing_payments", &[("status", "succeeded")], 1);
    assert_sample(&ms[3], "outgoing_payments", &[("status", "failed")], 1);
    assert_sample(&ms[4], "payment_failure_reasons", &[("failure_reason", "none")], 1);
    assert_sample(&ms[5], "payment_failure_reasons", &[("failure_reason", "timeout")], 0);
    assert_sample(&ms[6], "payment_failure_reasons", &[("failure_reason", "no_route")], 1);
    assert_sample(&ms[7], "payment_failure_reasons", &[("failure_reason", "error")], 0);
    assert_sample(
        &ms[8],
        "payment_failure_reasons",
        &[("failure_reason", "incorrect_payment_details")],
        0,
    );
    assert_sample(
        &ms[9],
        "payment_failure_reasons",
        &[("failure_reason", "insufficient_balance")],
        0,
    );
    assert_sample(&ms[10], "total_fee_msat", &[], 10);
}

#[test]
fn scenario_b_repeated_index_mutates_nothing() {
    let mut cache = ListPaymentsCache::new();
    let first = ListPaymentsResponse {
        last_index_offset: 5,
        payments: vec![
            payment(PaymentStatus::Succeeded, PaymentFailureReason::FailureReasonNone, 10),
            payment(PaymentStatus::Failed, PaymentFailureReason::FailureReasonNoRoute, 0),
        ],
    };
    let prior = scrape_listpayments(&mut cache, Some(&first));
    let repeat = ListPaymentsResponse {
        last_index_offset: 5,
        payments: vec![
            payment(PaymentStatus::Succeeded, PaymentFailureReason::FailureReasonNone, 99),
        ],
    };
    let ms = scrape_listpayments(&mut cache, Some(&repeat));
    assert_eq!(cache.index_offset, 5);
    assert_eq!(cache.succeeded_count, 1);
    assert_eq!(cache.failed_count, 1);
    assert_eq!(cache.total_fee_msat, 10);
    assert!(samples_equal(&prior, &ms));
}

#[test]
fn zero_index_never_advances() {
    let mut cache = ListPaymentsCache::new();
    let res = ListPaymentsResponse {
        last_index_offset: 0,
        payments: vec![
            payment(PaymentStatus::Succeeded, PaymentFailureReason::FailureReasonNone, 10),
        ],
    };
    let ms = scrape_listpayments(&mut cache, Some(&res));
    assert_eq!(cache.index_offset, 0);
    assert_eq!(cache.succeeded_count, 0);
    assert_eq!(cache.total_fee_msat, 0);
    assert_eq!(ms.len(), 11);
    assert_sample(&ms[10], "total_fee_msat", &[], 0);
}

#[test]
fn payments_failure_emits_nothing_and_keeps_cache() {
    let mut cache = ListPaymentsCache::new();
    let first = ListPaymentsResponse {
        last_index_offset: 3,
        payments: vec![
            payment(PaymentStatus::InFlight, PaymentFailureReason::FailureReasonNone, 2),
        ],
    };
    scrape_listpayments(&mut cache, Some(&first));
    let ms = scrape_listpayments(&mut cache, None);
    assert_eq!(ms.len(), 0);
    assert_eq!(cache.index_offset, 3);
    assert_eq!(cache.in_flight_count, 1);
    assert_eq!(cache.total_fee_msat, 2);
}

#[test]
fn in_flight_payments_are_visible_before_completion() {
    let mut cache = ListPaymentsCache::new();
    let res = ListPaymentsResponse {
        last_index_offset: 1,
        payments: vec![
            payment(PaymentStatus::InFlight, PaymentFailureReason::FailureReasonNone, 0),
        ],
    };
    let ms = scrape_listpayments(&mut cache, Some(&res));
    assert_sample(&ms[1], "outgoing_payments", &[("status", "in_flight")], 1);
}

#[test]
fn channels_success_emits_three_samples_per_channel() {
    let res = ListChannelsResponse {
        channels: vec![
            Channel {
                chan_id: 123,
                active: true,
                channel_point: String::from("abcd:0"),
                local_balance: 1000,
                remote_balance: 250,
                unsettled_balance: 5,
            },
            Channel {
                chan_id: 9,
                active: false,
                channel_point: String::from("ef01:1"),
                local_balance: 0,
                remote_balance: 7,
                unsettled_balance: 0,
            },
        ],
    };
    let ms = scrape_listchannels(Some(&res));
    assert_eq!(ms.len(), 6);
    let labels_a = |kind: &'static str| {
        vec![("chan_id", "123"), ("active", "true"), ("channel_point", "abcd:0"), (
            "balance",
            kind,
        )]
    };
    assert_sample(&ms[0], "channel_balance_total_sat", &labels_a("local"), 1000);
    assert_sample(&ms[1], "channel_balance_total_sat", &labels_a("remote"), 250);
    assert_sample(&ms[2], "channel_balance_total_sat", &labels_a("unsettled"), 5);
    let labels_b = |kind: &'static str| {
        vec![("chan_id", "9"), ("active", "false"), ("channel_point", "ef01:1"), (
            "balance",
            kind,
        )]
    };
    assert_sample(&ms[3], "channel_balance_total_sat", &labels_b("local"), 0);
    assert_sample(&ms[4], "channel_balance_total_sat", &labels_b("remote"), 7);
    assert_sample(&ms[5], "channel_balance_total_sat", &labels_b("unsettled"), 0);
}

#[test]
fn channels_failure_emits_nothing() {
    let ms = scrape_listchannels(None);
    assert_eq!(ms.len(), 0);
}
