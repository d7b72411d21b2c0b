//! The incremental aggregation cache for the paginated payments stream: a
//! pagination cursor plus running per-status counts, per-failure-reason
//! counts, and a running fee total.
//!
//! The upstream log is append-only and re-polled from the last cursor on
//! every scrape; aggregation is gated on cursor advancement so that each
//! delivered entry is counted exactly once as long as the upstream advances
//! its reported highest index whenever it returns new entries.

use vstd::prelude::*;

use crate::payment::{Payment, PaymentFailureReason, PaymentStatus};
use crate::rpc::{ListPaymentsRequest, ListPaymentsResponse, PaymentsResponseModel};

verus! {

/// Process-lifetime aggregation state of the payments scraper.
pub struct ListPaymentsCache {
    pub index_offset: u64,
    pub unknown_count: u64,
    pub in_flight_count: u64,
    pub succeeded_count: u64,
    pub failed_count: u64,
    pub reason_none_count: u64,
    pub reason_timeout_count: u64,
    pub reason_no_route_count: u64,
    pub reason_error_count: u64,
    pub reason_incorrect_payment_details_count: u64,
    pub reason_insufficient_balance_count: u64,
    pub total_fee_msat: u64,
}

/// Mathematical model of the cache, over unbounded integers.
pub struct CacheModel {
    pub index_offset: int,
    pub unknown_count: int,
    pub in_flight_count: int,
    pub succeeded_count: int,
    pub failed_count: int,
    pub reason_none_count: int,
    pub reason_timeout_count: int,
    pub reason_no_route_count: int,
    pub reason_error_count: int,
    pub reason_incorrect_payment_details_count: int,
    pub reason_insufficient_balance_count: int,
    pub total_fee_msat: int,
}

impl View for ListPaymentsCache {
    type V = CacheModel;

    open spec fn view(&self) -> CacheModel {
        CacheModel {
            index_offset: self.index_offset as int,
            unknown_count: self.unknown_count as int,
            in_flight_count: self.in_flight_count as int,
            succeeded_count: self.succeeded_count as int,
            failed_count: self.failed_count as int,
            reason_none_count: self.reason_none_count as int,
            reason_timeout_count: self.reason_timeout_count as int,
            reason_no_route_count: self.reason_no_route_count as int,
            reason_error_count: self.reason_error_count as int,
            reason_incorrect_payment_details_count: self.reason_incorrect_payment_details_count
                as int,
            reason_insufficient_balance_count: self.reason_insufficient_balance_count as int,
            total_fee_msat: self.total_fee_msat as int,
        }
    }
}

/// The model of the empty cache: cursor at the beginning, every counter zero.
pub open spec fn empty_cache() -> CacheModel {
    CacheModel {
        index_offset: 0,
        unknown_count: 0,
        in_flight_count: 0,
        succeeded_count: 0,
        failed_count: 0,
        reason_none_count: 0,
        reason_timeout_count: 0,
        reason_no_route_count: 0,
        reason_error_count: 0,
        reason_incorrect_payment_details_count: 0,
        reason_insufficient_balance_count: 0,
        total_fee_msat: 0,
    }
}

impl ListPaymentsCache {
    /// A fresh cache, before any poll.
    pub fn new() -> (c: Self)
        ensures
            c@ == empty_cache(),
    {
        ListPaymentsCache {
            index_offset: 0,
            unknown_count: 0,
            in_flight_count: 0,
            succeeded_count: 0,
            failed_count: 0,
            reason_none_count: 0,
            reason_timeout_count: 0,
            reason_no_route_count: 0,
            reason_error_count: 0,
            reason_incorrect_payment_details_count: 0,
            reason_insufficient_balance_count: 0,
            total_fee_msat: 0,
        }
    }

    /// The request the next poll must issue: resume at the current cursor and
    /// include in-flight payments.
    pub fn next_request(&self) -> (r: ListPaymentsRequest)
        ensures
            r.include_incomplete == true,
            r.index_offset == self.index_offset,
    {
        ListPaymentsRequest { include_incomplete: true, index_offset: self.index_offset }
    }
}

/// Number of payments of status `s` among `ps`.
pub open spec fn count_status(ps: Seq<Payment>, s: PaymentStatus) -> int
    decreases ps.len(),
{
    if ps.len() == 0 {
        0
    } else {
        count_status(ps.drop_last(), s) + if ps.last().status == s {
            1int
        } else {
            0int
        }
    }
}

/// Number of payments of failure reason `r` among `ps`.
pub open spec fn count_reason(ps: Seq<Payment>, r: PaymentFailureReason) -> int
    decreases ps.len(),
{
    if ps.len() == 0 {
        0
    } else {
        count_reason(ps.drop_last(), r) + if ps.last().failure_reason == r {
            1int
        } else {
            0int
        }
    }
}

/// Total fees of the payments in `ps`.
pub open spec fn sum_fees(ps: Seq<Payment>) -> int
    decreases ps.len(),
{
    if ps.len() == 0 {
        0
    } else {
        sum_fees(ps.drop_last()) + ps.last().fee_msat
    }
}

/// Whether a response reporting `last_index_offset` as its highest index
/// advances the cache: the index is non-zero and logically past the cursor.
pub open spec fn advances(c: CacheModel, last_index_offset: int) -> bool {
    last_index_offset > 0 && last_index_offset > c.index_offset
}

/// The cache after one poll whose response is `r`: if the response advances
/// the cursor, every delivered entry is aggregated and the cursor moves to
/// the reported highest index; otherwise nothing changes.
pub open spec fn apply_payments(c: CacheModel, r: PaymentsResponseModel) -> CacheModel {
    if advances(c, r.last_index_offset) {
        CacheModel {
            index_offset: r.last_index_offset,
            unknown_count: c.unknown_count + count_status(r.payments, PaymentStatus::Unknown),
            in_flight_count: c.in_flight_count + count_status(r.payments, PaymentStatus::InFlight),
            succeeded_count: c.succeeded_count + count_status(
                r.payments,
                PaymentStatus::Succeeded,
            ),
            failed_count: c.failed_count + count_status(r.payments, PaymentStatus::Failed),
            reason_none_count: c.reason_none_count + count_reason(
                r.payments,
                PaymentFailureReason::FailureReasonNone,
            ),
            reason_timeout_count: c.reason_timeout_count + count_reason(
                r.payments,
                PaymentFailureReason::FailureReasonTimeout,
            ),
            reason_no_route_count: c.reason_no_route_count + count_reason(
                r.payments,
                PaymentFailureReason::FailureReasonNoRoute,
            ),
            reason_error_count: c.reason_error_count + count_reason(
                r.payments,
                PaymentFailureReason::FailureReasonError,
            ),
            reason_incorrect_payment_details_count: c.reason_incorrect_payment_details_count
                + count_reason(
                r.payments,
                PaymentFailureReason::FailureReasonIncorrectPaymentDetails,
            ),
            reason_insufficient_balance_count: c.reason_insufficient_balance_count + count_reason(
                r.payments,
                PaymentFailureReason::FailureReasonInsufficientBalance,
            ),
            total_fee_msat: c.total_fee_msat + sum_fees(r.payments),
        }
    } else {
        c
    }
}

/// Whether a cache model is representable with 64-bit counters.
pub open spec fn cache_fits(c: CacheModel) -> bool {
    &&& 0 <= c.index_offset <= u64::MAX
    &&& 0 <= c.unknown_count <= u64::MAX
    &&& 0 <= c.in_flight_count <= u64::MAX
    &&& 0 <= c.succeeded_count <= u64::MAX
    &&& 0 <= c.failed_count <= u64::MAX
    &&& 0 <= c.reason_none_count <= u64::MAX
    &&& 0 <= c.reason_timeout_count <= u64::MAX
    &&& 0 <= c.reason_no_route_count <= u64::MAX
    &&& 0 <= c.reason_error_count <= u64::MAX
    &&& 0 <= c.reason_incorrect_payment_details_count <= u64::MAX
    &&& 0 <= c.reason_insufficient_balance_count <= u64::MAX
    &&& 0 <= c.total_fee_msat <= u64::MAX
}

/// Counting one more payment extends the count over a prefix by one exactly
/// when the statuses match.
pub proof fn lemma_count_status_take_succ(ps: Seq<Payment>, i: int, s: PaymentStatus)
    requires
        0 <= i < ps.len(),
    ensures
        count_status(ps.take(i + 1), s) == count_status(ps.take(i), s) + if ps[i].status == s {
            1int
        } else {
            0int
        },
{
    assert(ps.take(i + 1).drop_last() =~= ps.take(i));
    assert(ps.take(i + 1).last() == ps[i]);
}

/// A prefix never holds more payments of a status than the whole sequence.
pub proof fn lemma_count_status_prefix_le(ps: Seq<Payment>, i: int, s: PaymentStatus)
    requires
        0 <= i <= ps.len(),
    ensures
        count_status(ps.take(i), s) <= count_status(ps, s),
    decreases ps.len() - i,
{
    if i == ps.len() {
        assert(ps.take(i) =~= ps);
    } else {
        lemma_count_status_take_succ(ps, i, s);
        lemma_count_status_prefix_le(ps, i + 1, s);
    }
}

/// Counting one more payment extends the reason count over a prefix by one
/// exactly when the failure reasons match.
pub proof fn lemma_count_reason_take_succ(ps: Seq<Payment>, i: int, r: PaymentFailureReason)
    requires
        0 <= i < ps.len(),
    ensures
        count_reason(ps.take(i + 1), r) == count_reason(ps.take(i), r) + if ps[i].failure_reason
            == r {
            1int
        } else {
            0int
        },
{
    assert(ps.take(i + 1).drop_last() =~= ps.take(i));
    assert(ps.take(i + 1).last() == ps[i]);
}

/// A prefix never holds more payments of a failure reason than the whole
/// sequence.
pub proof fn lemma_count_reason_prefix_le(ps: Seq<Payment>, i: int, r: PaymentFailureReason)
    requires
        0 <= i <= ps.len(),
    ensures
        count_reason(ps.take(i), r) <= count_reason(ps, r),
    decreases ps.len() - i,
{
    if i == ps.len() {
        assert(ps.take(i) =~= ps);
    } else {
        lemma_count_reason_take_succ(ps, i, r);
        lemma_count_reason_prefix_le(ps, i + 1, r);
    }
}

/// Fees over a prefix extend by the next payment's fee.
pub proof fn lemma_sum_fees_take_succ(ps: Seq<Payment>, i: int)
    requires
        0 <= i < ps.len(),
    ensures
        sum_fees(ps.take(i + 1)) == sum_fees(ps.take(i)) + ps[i].fee_msat,
{
    assert(ps.take(i + 1).drop_last() =~= ps.take(i));
    assert(ps.take(i + 1).last() == ps[i]);
}

/// Fees over a prefix never exceed the fees over the whole sequence.
pub proof fn lemma_sum_fees_prefix_le(ps: Seq<Payment>, i: int)
    requires
        0 <= i <= ps.len(),
    ensures
        sum_fees(ps.take(i)) <= sum_fees(ps),
    decreases ps.len() - i,
{
    if i == ps.len() {
        assert(ps.take(i) =~= ps);
    } else {
        lemma_sum_fees_take_succ(ps, i);
        lemma_sum_fees_prefix_le(ps, i + 1);
    }
}

/// Applies one "list payments" response to the cache: aggregates every
/// delivered entry and advances the cursor when the response advances,
/// leaves the cache untouched otherwise.
pub fn apply_response(cache: &mut ListPaymentsCache, res: &ListPaymentsResponse)
    requires
        cache_fits(apply_payments(old(cache)@, res@)),
    ensures
        final(cache)@ == apply_payments(old(cache)@, res@),
{
    let ghost c0 = cache@;
    let ghost ps = res.payments@;
    if res.last_index_offset > 0 && res.last_index_offset > cache.index_offset {
        cache.index_offset = res.last_index_offset;
        let n = res.payments.len();
        let mut i: usize = 0;
        while i < n
            invariant
                n == ps.len(),
                0 <= i <= n,
                cache_fits(apply_payments(c0, res@)),
                advances(c0, res@.last_index_offset),
                res@.payments == ps,
                cache@.index_offset == res@.last_index_offset,
                cache@.unknown_count == c0.unknown_count + count_status(
                    ps.take(i as int),
                    PaymentStatus::Unknown,
                ),
                cache@.in_flight_count == c0.in_flight_count + count_status(
                    ps.take(i as int),
                    PaymentStatus::InFlight,
                ),
                cache@.succeeded_count == c0.succeeded_count + count_status(
                    ps.take(i as int),
                    PaymentStatus::Succeeded,
                ),
                cache@.failed_count == c0.failed_count + count_status(
                    ps.take(i as int),
                    PaymentStatus::Failed,
                ),
                cache@.reason_none_count == c0.reason_none_count + count_reason(
                    ps.take(i as int),
                    PaymentFailureReason::FailureReasonNone,
                ),
                cache@.reason_timeout_count == c0.reason_timeout_count + count_reason(
                    ps.take(i as int),
                    PaymentFailureReason::FailureReasonTimeout,
                ),
                cache@.reason_no_route_count == c0.reason_no_route_count + count_reason(
                    ps.take(i as int),
                    PaymentFailureReason::FailureReasonNoRoute,
                ),
                cache@.reason_error_count == c0.reason_error_count + count_reason(
                    ps.take(i as int),
                    PaymentFailureReason::FailureReasonError,
                ),
                cache@.reason_incorrect_payment_details_count
                    == c0.reason_incorrect_payment_details_count + count_reason(
                    ps.take(i as int),
                    PaymentFailureReason::FailureReasonIncorrectPaymentDetails,
                ),
                cache@.reason_insufficient_balance_count
                    == c0.reason_insufficient_balance_count + count_reason(
                    ps.take(i as int),
                    PaymentFailureReason::FailureReasonInsufficientBalance,
                ),
                cache@.total_fee_msat == c0.total_fee_msat + sum_fees(ps.take(i as int)),
            decreases n - i,
        {
            let p = res.payments[i];
            proof {
                lemma_count_status_take_succ(ps, i as int, PaymentStatus::Unknown);
                lemma_count_status_take_succ(ps, i as int, PaymentStatus::InFlight);
                lemma_count_status_take_succ(ps, i as int, PaymentStatus::Succeeded);
                lemma_count_status_take_succ(ps, i as int, PaymentStatus::Failed);
                lemma_count_status_prefix_le(ps, i as int + 1, PaymentStatus::Unknown);
                lemma_count_status_prefix_le(ps, i as int + 1, PaymentStatus::InFlight);
                lemma_count_status_prefix_le(ps, i as int + 1, PaymentStatus::Succeeded);
                lemma_count_status_prefix_le(ps, i as int + 1, PaymentStatus::Failed);
                lemma_count_reason_take_succ(ps, i as int, PaymentFailureReason::FailureReasonNone);
                lemma_count_reason_take_succ(
                    ps,
                    i as int,
                    PaymentFailureReason::FailureReasonTimeout,
                );
                lemma_count_reason_take_succ(
                    ps,
                    i as int,
                    PaymentFailureReason::FailureReasonNoRoute,
                );
                lemma_count_reason_take_succ(
                    ps,
                    i as int,
                    PaymentFailureReason::FailureReasonError,
                );
                lemma_count_reason_take_succ(
                    ps,
                    i as int,
                    PaymentFailureReason::FailureReasonIncorrectPaymentDetails,
                );
                lemma_count_reason_take_succ(
                    ps,
                    i as int,
                    PaymentFailureReason::FailureReasonInsufficientBalance,
                );
                lemma_count_reason_prefix_le(
                    ps,
                    i as int + 1,
                    PaymentFailureReason::FailureReasonNone,
                );
                lemma_count_reason_prefix_le(
                    ps,
                    i as int + 1,
                    PaymentFailureReason::FailureReasonTimeout,
                );
                lemma_count_reason_prefix_le(
                    ps,
                    i as int + 1,
                    PaymentFailureReason::FailureReasonNoRoute,
                );
                lemma_count_reason_prefix_le(
                    ps,
                    i as int + 1,
                    PaymentFailureReason::FailureReasonError,
                );
                lemma_count_reason_prefix_le(
                    ps,
                    i as int + 1,
                    PaymentFailureReason::FailureReasonIncorrectPaymentDetails,
                );
                lemma_count_reason_prefix_le(
                    ps,
                    i as int + 1,
                    PaymentFailureReason::FailureReasonInsufficientBalance,
                );
                lemma_sum_fees_take_succ(ps, i as int);
                lemma_sum_fees_prefix_le(ps, i as int + 1);
            }
            match p.status {
                PaymentStatus::Unknown => {
                    cache.unknown_count = cache.unknown_count + 1;
                },
                PaymentStatus::InFlight => {
                    cache.in_flight_count = cache.in_flight_count + 1;
                },
                PaymentStatus::Succeeded => {
                    cache.succeeded_count = cache.succeeded_count + 1;
                },
                PaymentStatus::Failed => {
                    cache.failed_count = cache.failed_count + 1;
                },
            }
            match p.failure_reason {
                PaymentFailureReason::FailureReasonNone => {
                    cache.reason_none_count = cache.reason_none_count + 1;
                },
                PaymentFailureReason::FailureReasonTimeout => {
                    cache.reason_timeout_count = cache.reason_timeout_count + 1;
                },
                PaymentFailureReason::FailureReasonNoRoute => {
                    cache.reason_no_route_count = cache.reason_no_route_count + 1;
                },
                PaymentFailureReason::FailureReasonError => {
                    cache.reason_error_count = cache.reason_error_count + 1;
                },
                PaymentFailureReason::FailureReasonIncorrectPaymentDetails => {
                    cache.reason_incorrect_payment_details_count =
                    cache.reason_incorrect_payment_details_count + 1;
                },
                PaymentFailureReason::FailureReasonInsufficientBalance => {
                    cache.reason_insufficient_balance_count =
                    cache.reason_insufficient_balance_count + 1;
                },
            }
            cache.total_fee_msat = cache.total_fee_msat + p.fee_msat;
            i = i + 1;
        }
        proof {
            assert(ps.take(n as int) =~= ps);
        }
    }
}

} // verus!
