use lnd_exporter::cache::ListPaymentsCache;
use lnd_exporter::payment::{Payment, PaymentFailureReason, PaymentStatus};
use lnd_exporter::rpc::ListPaymentsResponse;
use lnd_exporter::scrapers::scrape_listpayments;

fn payment(status: PaymentStatus, reason: PaymentFailureReason, fee_msat: u64) -> Payment {
    Payment { status, failure_reason: reason, fee_msat }
}

fn status_sum(cache: &ListPaymentsCache) -> u64 {
    cache.unknown_count + cache.in_flight_count + cache.succeeded_count + cache.failed_count
}

#[test]
fn advancing_polls_count_every_delivered_entry_once() {
    let mut cache = ListPaymentsCache::new();
    let polls = vec![
        ListPaymentsResponse {
            last_index_offset: 2,
            payments: vec![
                payment(PaymentStatus::Succeeded, PaymentFailureReason::FailureReasonNone, 1),
                payment(PaymentStatus::Unknown, PaymentFailureReason::FailureReasonNone, 0),
            ],
        },
        ListPaymentsResponse {
            last_index_offset: 5,
            payments: vec![
                payment(PaymentStatus::Failed, PaymentFailureReason::FailureReasonTimeout, 0),
                payment(PaymentStatus::Failed, PaymentFailureReason::FailureReasonError, 0),
                payment(PaymentStatus::InFlight, PaymentFailureReason::FailureReasonNone, 4),
            ],
        },
        ListPaymentsResponse {
            last_index_offset: 6,
            payments: vec![
                payment(
                    PaymentStatus::Failed,
                    PaymentFailureReason::FailureReasonInsufficientBalance,
                    0,
                ),
            ],
        },
    ];
    let mut delivered: u64 = 0;
    for poll in polls.iter() {
        delivered += poll.payments.len() as u64;
        scrape_listpayments(&mut cache, Some(poll));
    }
    assert_eq!(status_sum(&cache), delivered);
    assert_eq!(status_sum(&cache), 6);
}

#[test]
fn non_advancing_poll_changes_no_counter() {
    let mut cache = ListPaymentsCache::new();
    let first = ListPaymentsResponse {
        last_index_offset: 4,
        payments: vec![
            payment(PaymentStatus::Succeeded, PaymentFailureReason::FailureReasonNone, 3),
        ],
    };
    scrape_listpayments(&mut cache, Some(&first));
    let stale = ListPaymentsResponse {
        last_index_offset: 4,
        payments: vec![
            payment(
                PaymentStatus::Failed,
                PaymentFailureReason::FailureReasonIncorrectPaymentDetails,
                50,
            ),
        ],
    };
    scrape_listpayments(&mut cache, Some(&stale));
    assert_eq!(status_sum(&cache), 1);
    assert_eq!(cache.failed_count, 0);
    assert_eq!(cache.reason_incorrect_payment_details_count, 0);
    assert_eq!(cache.total_fee_msat, 3);
    let behind = ListPaymentsResponse { last_index_offset: 2, payments: vec![] };
    scrape_listpayments(&mut cache, Some(&behind));
    assert_eq!(cache.index_offset, 4);
    assert_eq!(cache.total_fee_msat, 3);
}

#[test]
fn total_fee_never_decreases_across_polls() {
    let mut cache = ListPaymentsCache::new();
    let polls = vec![
        ListPaymentsResponse {
            last_index_offset: 1,
            payments: vec![
                payment(PaymentStatus::Succeeded, PaymentFailureReason::FailureReasonNone, 5),
            ],
        },
        ListPaymentsResponse { last_index_offset: 1, payments: vec![] },
        ListPaymentsResponse {
            last_index_offset: 3,
            payments: vec![
                payment(PaymentStatus::Failed, PaymentFailureReason::FailureReasonNoRoute, 0),
                payment(PaymentStatus::Succeeded, PaymentFailureReason::FailureReasonNone, 7),
            ],
        },
        ListPaymentsResponse { last_index_offset: 2, payments: vec![] },
    ];
    let mut last_fee: u64 = 0;
    for poll in polls.iter() {
        scrape_listpayments(&mut cache, Some(poll));
        assert!(cache.total_fee_msat >= last_fee);
        last_fee = cache.total_fee_msat;
    }
    assert_eq!(cache.total_fee_msat, 12);
}
