//! Cross-poll properties of the aggregation, stated over the cache model and
//! proved for every sequence of polls.

use vstd::prelude::*;

use crate::cache::{advances, apply_payments, count_status, sum_fees, CacheModel};
use crate::payment::{Payment, PaymentStatus};
use crate::rpc::{ListChannelsResponse, ListPaymentsResponse, PaymentsResponseModel};
use crate::scrapers::{channels_part, payments_part, payments_samples};
use crate::collector::pass_samples;

verus! {

/// The cache after a whole sequence of polls, oldest first.
pub open spec fn apply_polls(c: CacheModel, rs: Seq<PaymentsResponseModel>) -> CacheModel
    decreases rs.len(),
{
    if rs.len() == 0 {
        c
    } else {
        apply_payments(apply_polls(c, rs.drop_last()), rs.last())
    }
}

/// The sum of all per-status counters.
pub open spec fn sum_status_counts(c: CacheModel) -> int {
    c.unknown_count + c.in_flight_count + c.succeeded_count + c.failed_count
}

/// Total number of payment entries delivered across a sequence of polls.
pub open spec fn total_delivered(rs: Seq<PaymentsResponseModel>) -> int
    decreases rs.len(),
{
    if rs.len() == 0 {
        0
    } else {
        total_delivered(rs.drop_last()) + rs.last().payments.len()
    }
}

/// Whether every poll of the sequence advances the cursor it meets: each
/// reported highest index is non-zero and past the cursor left by the polls
/// before it.
pub open spec fn all_advance(c: CacheModel, rs: Seq<PaymentsResponseModel>) -> bool
    decreases rs.len(),
{
    if rs.len() == 0 {
        true
    } else {
        all_advance(c, rs.drop_last()) && advances(
            apply_polls(c, rs.drop_last()),
            rs.last().last_index_offset,
        )
    }
}

/// Every payment has exactly one status, so the four status counts of one
/// response partition its entries.
pub proof fn lemma_status_counts_partition(ps: Seq<Payment>)
    ensures
        count_status(ps, PaymentStatus::Unknown) + count_status(ps, PaymentStatus::InFlight)
            + count_status(ps, PaymentStatus::Succeeded) + count_status(ps, PaymentStatus::Failed)
            == ps.len(),
    decreases ps.len(),
{
    if ps.len() > 0 {
        lemma_status_counts_partition(ps.drop_last());
    }
}

/// After any sequence of polls each of which advances the cursor, the sum of
/// the status counters has grown by exactly the number of payment entries
/// delivered across those polls: every entry is counted exactly once.
pub proof fn lemma_counts_account_for_delivered(c: CacheModel, rs: Seq<PaymentsResponseModel>)
    requires
        all_advance(c, rs),
    ensures
        sum_status_counts(apply_polls(c, rs)) == sum_status_counts(c) + total_delivered(rs),
    decreases rs.len(),
{
    if rs.len() > 0 {
        lemma_counts_account_for_delivered(c, rs.drop_last());
        lemma_status_counts_partition(rs.last().payments);
    }
}

/// A poll that repeats the previous poll's reported highest index mutates
/// nothing: whether or not the first of the two advanced the cursor, the
/// cursor afterwards is at least that index, so the repeat cannot advance.
pub proof fn lemma_repeated_index_no_mutation(
    c: CacheModel,
    r1: PaymentsResponseModel,
    r2: PaymentsResponseModel,
)
    requires
        r2.last_index_offset == r1.last_index_offset,
    ensures
        apply_payments(apply_payments(c, r1), r2) == apply_payments(c, r1),
{
}

/// After a poll that repeats the previous poll's reported highest index, the
/// emitted payments samples are identical to the prior pass's final state.
pub proof fn lemma_repeated_index_same_samples(
    c: CacheModel,
    r1: PaymentsResponseModel,
    r2: PaymentsResponseModel,
)
    requires
        r2.last_index_offset == r1.last_index_offset,
    ensures
        payments_samples(apply_payments(apply_payments(c, r1), r2)) == payments_samples(
            apply_payments(c, r1),
        ),
{
    lemma_repeated_index_no_mutation(c, r1, r2);
}

/// The cursor never regresses, and moves only to an index the upstream
/// reported: it strictly reflects the highest index ever observed.
pub proof fn lemma_cursor_advancement(c: CacheModel, r: PaymentsResponseModel)
    requires
        c.index_offset >= 0,
    ensures
        apply_payments(c, r).index_offset >= c.index_offset,
        apply_payments(c, r).index_offset == c.index_offset || apply_payments(c, r).index_offset
            == r.last_index_offset,
{
}

/// Fees are never negative.
pub proof fn lemma_sum_fees_nonneg(ps: Seq<Payment>)
    ensures
        sum_fees(ps) >= 0,
    decreases ps.len(),
{
    if ps.len() > 0 {
        lemma_sum_fees_nonneg(ps.drop_last());
    }
}

/// One poll never decreases the fee total.
pub proof fn lemma_total_fee_monotone_step(c: CacheModel, r: PaymentsResponseModel)
    ensures
        apply_payments(c, r).total_fee_msat >= c.total_fee_msat,
{
    lemma_sum_fees_nonneg(r.payments);
}

/// The fee total is monotonically non-decreasing across any sequence of
/// polls, from any starting state.
pub proof fn lemma_total_fee_monotone(c: CacheModel, rs: Seq<PaymentsResponseModel>)
    ensures
        apply_polls(c, rs).total_fee_msat >= c.total_fee_msat,
    decreases rs.len(),
{
    if rs.len() > 0 {
        lemma_total_fee_monotone(c, rs.drop_last());
        lemma_total_fee_monotone_step(apply_polls(c, rs.drop_last()), rs.last());
    }
}

/// A failing node-info call contributes nothing to a pass and suppresses
/// nothing: the pass is exactly the payments and channels samples.
pub proof fn lemma_getinfo_failure_keeps_other_samples(
    c: CacheModel,
    lp: Option<&ListPaymentsResponse>,
    lc: Option<&ListChannelsResponse>,
)
    ensures
        pass_samples(c, Option::None, lp, lc) == payments_part(c, lp) + channels_part(lc),
{
    assert(pass_samples(c, Option::None, lp, lc) =~= payments_part(c, lp) + channels_part(lc));
}

} // verus!
