//! The three scrapers: node info, payments, channels.
//!
//! Each is a pure function of (decoded RPC response, prior cache state) to
//! (updated cache state, emitted metric samples). A failed RPC call is handed
//! in as `None` and contributes zero samples; only the payments scraper
//! carries state across polls.

use vstd::prelude::*;

use crate::cache::{apply_payments, apply_response, cache_fits, CacheModel, ListPaymentsCache};
use crate::payment::{
    failure_reason_label, failure_reason_label_str, status_label, status_label_str,
    PaymentFailureReason, PaymentStatus,
};
use crate::rpc::{Channel, ChannelModel, GetInfoResponse, ListChannelsResponse,
    ListPaymentsResponse};
use crate::sample::{
    label, labeled_sample, labels_model, lemma_samples_model_distributes, new_labeled_sample,
    new_plain_sample, new_sample, plain_sample, samples_model, Label, LabelModel, MetricSample,
    SampleModel,
};
use crate::strutil::{dec_str, u64_to_dec_string};

verus! {

/// Samples of a successful node-info scrape: current peer count and block
/// height, overwritten on every pass.
pub open spec fn getinfo_samples(r: GetInfoResponse) -> Seq<SampleModel> {
    seq![
        plain_sample("num_peers_total"@, r.num_peers as int),
        plain_sample("block_height"@, r.block_height as int),
    ]
}

/// Samples of the node-info scraper for a call that may have failed.
pub open spec fn getinfo_part(res: Option<&GetInfoResponse>) -> Seq<SampleModel> {
    match res {
        Option::None => seq![],
        Option::Some(r) => getinfo_samples(*r),
    }
}

/// Scrapes node info: on success two gauge samples, on failure nothing.
pub fn scrape_getinfo(res: Option<&GetInfoResponse>) -> (ms: Vec<MetricSample>)
    ensures
        samples_model(ms@) == getinfo_part(res),
{
    match res {
        Option::None => {
            let ms: Vec<MetricSample> = Vec::new();
            proof {
                assert(samples_model(ms@) =~= getinfo_part(res));
            }
            ms
        },
        Option::Some(r) => {
            let mut ms: Vec<MetricSample> = Vec::new();
            ms.push(new_plain_sample("num_peers_total", r.num_peers as u64));
            ms.push(new_plain_sample("block_height", r.block_height as u64));
            proof {
                assert(samples_model(ms@) =~= getinfo_samples(*r));
            }
            ms
        },
    }
}

/// The full accumulated payments state as samples: one per status, one per
/// failure reason, one for the fee total.
pub open spec fn payments_samples(c: CacheModel) -> Seq<SampleModel> {
    seq![
        labeled_sample(
            "outgoing_payments"@,
            "status"@,
            status_label(PaymentStatus::Unknown),
            c.unknown_count,
        ),
        labeled_sample(
            "outgoing_payments"@,
            "status"@,
            status_label(PaymentStatus::InFlight),
            c.in_flight_count,
        ),
        labeled_sample(
            "outgoing_payments"@,
            "status"@,
            status_label(PaymentStatus::Succeeded),
            c.succeeded_count,
        ),
        labeled_sample(
            "outgoing_payments"@,
            "status"@,
            status_label(PaymentStatus::Failed),
            c.failed_count,
        ),
        labeled_sample(
            "payment_failure_reasons"@,
            "failure_reason"@,
            failure_reason_label(PaymentFailureReason::FailureReasonNone),
            c.reason_none_count,
        ),
        labeled_sample(
            "payment_failure_reasons"@,
            "failure_reason"@,
            failure_reason_label(PaymentFailureReason::FailureReasonTimeout),
            c.reason_timeout_count,
        ),
        labeled_sample(
            "payment_failure_reasons"@,
            "failure_reason"@,
            failure_reason_label(PaymentFailureReason::FailureReasonNoRoute),
            c.reason_no_route_count,
        ),
        labeled_sample(
            "payment_failure_reasons"@,
            "failure_reason"@,
            failure_reason_label(PaymentFailureReason::FailureReasonError),
            c.reason_error_count,
        ),
        labeled_sample(
            "payment_failure_reasons"@,
            "failure_reason"@,
            failure_reason_label(PaymentFailureReason::FailureReasonIncorrectPaymentDetails),
            c.reason_incorrect_payment_details_count,
        ),
        labeled_sample(
            "payment_failure_reasons"@,
            "failure_reason"@,
            failure_reason_label(PaymentFailureReason::FailureReasonInsufficientBalance),
            c.reason_insufficient_balance_count,
        ),
        plain_sample("total_fee_msat"@, c.total_fee_msat),
    ]
}

/// Emits the accumulated payments state, whether or not anything new arrived
/// this pass.
pub fn emit_payments_samples(cache: &ListPaymentsCache) -> (ms: Vec<MetricSample>)
    ensures
        samples_model(ms@) == payments_samples(cache@),
{
    let mut ms: Vec<MetricSample> = Vec::new();
    ms.push(
        new_labeled_sample(
            "outgoing_payments",
            "status",
            status_label_str(PaymentStatus::Unknown).to_owned(),
            cache.unknown_count,
        ),
    );
    ms.push(
        new_labeled_sample(
            "outgoing_payments",
            "status",
            status_label_str(PaymentStatus::InFlight).to_owned(),
            cache.in_flight_count,
        ),
    );
    ms.push(
        new_labeled_sample(
            "outgoing_payments",
            "status",
            status_label_str(PaymentStatus::Succeeded).to_owned(),
            cache.succeeded_count,
        ),
    );
    ms.push(
        new_labeled_sample(
            "outgoing_payments",
            "status",
            status_label_str(PaymentStatus::Failed).to_owned(),
            cache.failed_count,
        ),
    );
    ms.push(
        new_labeled_sample(
            "payment_failure_reasons",
            "failure_reason",
            failure_reason_label_str(PaymentFailureReason::FailureReasonNone).to_owned(),
            cache.reason_none_count,
        ),
    );
    ms.push(
        new_labeled_sample(
            "payment_failure_reasons",
            "failure_reason",
            failure_reason_label_str(PaymentFailureReason::FailureReasonTimeout).to_owned(),
            cache.reason_timeout_count,
        ),
    );
    ms.push(
        new_labeled_sample(
            "payment_failure_reasons",
            "failure_reason",
            failure_reason_label_str(PaymentFailureReason::FailureReasonNoRoute).to_owned(),
            cache.reason_no_route_count,
        ),
    );
    ms.push(
        new_labeled_sample(
            "payment_failure_reasons",
            "failure_reason",
            failure_reason_label_str(PaymentFailureReason::FailureReasonError).to_owned(),
            cache.reason_error_count,
        ),
    );
    ms.push(
        new_labeled_sample(
            "payment_failure_reasons",
            "failure_reason",
            failure_reason_label_str(
                PaymentFailureReason::FailureReasonIncorrectPaymentDetails,
            ).to_owned(),
            cache.reason_incorrect_payment_details_count,
        ),
    );
    ms.push(
        new_labeled_sample(
            "payment_failure_reasons",
            "failure_reason",
            failure_reason_label_str(
                PaymentFailureReason::FailureReasonInsufficientBalance,
            ).to_owned(),
            cache.reason_insufficient_balance_count,
        ),
    );
    ms.push(new_plain_sample("total_fee_msat", cache.total_fee_msat));
    proof {
        assert(samples_model(ms@) =~= payments_samples(cache@));
    }
    ms
}

/// Samples of the payments scraper for a call that may have failed, given
/// the cache state before the poll.
pub open spec fn payments_part(c: CacheModel, res: Option<&ListPaymentsResponse>) -> Seq<
    SampleModel,
> {
    match res {
        Option::None => seq![],
        Option::Some(r) => payments_samples(apply_payments(c, r@)),
    }
}

/// Scrapes payments: aggregates newly delivered entries into the cache when
/// the response advances the cursor, then emits the full accumulated state.
/// A failed call leaves the cache untouched and emits nothing.
pub fn scrape_listpayments(cache: &mut ListPaymentsCache, res: Option<&ListPaymentsResponse>)
    -> (ms: Vec<MetricSample>)
    requires
        res matches Some(r) ==> cache_fits(apply_payments(old(cache)@, r@)),
    ensures
        samples_model(ms@) == payments_part(old(cache)@, res),
        match res {
            Option::None => final(cache)@ == old(cache)@,
            Option::Some(r) => final(cache)@ == apply_payments(old(cache)@, r@),
        },
{
    match res {
        Option::None => {
            let ms: Vec<MetricSample> = Vec::new();
            proof {
                assert(samples_model(ms@) =~= payments_part(old(cache)@, res));
            }
            ms
        },
        Option::Some(r) => {
            apply_response(cache, r);
            emit_payments_samples(cache)
        },
    }
}

/// The three balance samples of one channel, labeled by channel id, active
/// flag, funding outpoint, and balance type.
pub open spec fn channel_sample(c: ChannelModel, kind: Seq<char>, value: int) -> SampleModel {
    SampleModel {
        name: "channel_balance_total_sat"@,
        labels: seq![
            LabelModel { name: "chan_id"@, value: dec_str(c.chan_id as int) },
            LabelModel { name: "active"@, value: bool_label(c.active) },
            LabelModel { name: "channel_point"@, value: c.channel_point },
            LabelModel { name: "balance"@, value: kind },
        ],
        value: value,
    }
}

/// The label under which an active flag is exposed.
pub open spec fn bool_label(b: bool) -> Seq<char> {
    if b {
        "true"@
    } else {
        "false"@
    }
}

/// Samples of one channel: local, remote, and unsettled balance.
pub open spec fn channel_samples(c: ChannelModel) -> Seq<SampleModel> {
    seq![
        channel_sample(c, "local"@, c.local_balance as int),
        channel_sample(c, "remote"@, c.remote_balance as int),
        channel_sample(c, "unsettled"@, c.unsettled_balance as int),
    ]
}

/// Samples of a whole channel list, in the order the node reported them.
pub open spec fn channels_samples(cs: Seq<ChannelModel>) -> Seq<SampleModel>
    decreases cs.len(),
{
    if cs.len() == 0 {
        seq![]
    } else {
        channels_samples(cs.drop_last()) + channel_samples(cs.last())
    }
}

/// Samples of the channels scraper for a call that may have failed.
pub open spec fn channels_part(res: Option<&ListChannelsResponse>) -> Seq<SampleModel> {
    match res {
        Option::None => seq![],
        Option::Some(r) => channels_samples(r@),
    }
}

/// One more channel extends the sample list by that channel's three samples.
pub proof fn lemma_channels_samples_take_succ(cs: Seq<ChannelModel>, i: int)
    requires
        0 <= i < cs.len(),
    ensures
        channels_samples(cs.take(i + 1)) == channels_samples(cs.take(i)) + channel_samples(cs[i]),
{
    assert(cs.take(i + 1).drop_last() =~= cs.take(i));
    assert(cs.take(i + 1).last() == cs[i]);
}

/// The active flag's label string.
pub fn bool_label_str(b: bool) -> (s: &'static str)
    ensures
        s@ == bool_label(b),
{
    if b {
        "true"
    } else {
        "false"
    }
}

/// Builds the three balance samples of one channel.
fn channel_balance_samples(ch: &Channel) -> (ms: Vec<MetricSample>)
    ensures
        samples_model(ms@) == channel_samples(ch@),
{
    let chan_id = u64_to_dec_string(ch.chan_id);
    let active = bool_label_str(ch.active);
    let mut ms: Vec<MetricSample> = Vec::new();
    let mut local_labels: Vec<Label> = Vec::new();
    local_labels.push(label("chan_id", chan_id.clone()));
    local_labels.push(label("active", active.to_owned()));
    local_labels.push(label("channel_point", ch.channel_point.clone()));
    local_labels.push(label("balance", "local".to_owned()));
    proof {
        assert(labels_model(local_labels@) =~= channel_sample(
            ch@,
            "local"@,
            ch.local_balance as int,
        ).labels);
    }
    ms.push(new_sample("channel_balance_total_sat", local_labels, ch.local_balance));
    let mut remote_labels: Vec<Label> = Vec::new();
    remote_labels.push(label("chan_id", chan_id.clone()));
    remote_labels.push(label("active", active.to_owned()));
    remote_labels.push(label("channel_point", ch.channel_point.clone()));
    remote_labels.push(label("balance", "remote".to_owned()));
    proof {
        assert(labels_model(remote_labels@) =~= channel_sample(
            ch@,
            "remote"@,
            ch.remote_balance as int,
        ).labels);
    }
    ms.push(new_sample("channel_balance_total_sat", remote_labels, ch.remote_balance));
    let mut unsettled_labels: Vec<Label> = Vec::new();
    unsettled_labels.push(label("chan_id", chan_id));
    unsettled_labels.push(label("active", active.to_owned()));
    unsettled_labels.push(label("channel_point", ch.channel_point.clone()));
    unsettled_labels.push(label("balance", "unsettled".to_owned()));
    proof {
        assert(labels_model(unsettled_labels@) =~= channel_sample(
            ch@,
            "unsettled"@,
            ch.unsettled_balance as int,
        ).labels);
    }
    ms.push(new_sample("channel_balance_total_sat", unsettled_labels, ch.unsettled_balance));
    proof {
        assert(samples_model(ms@) =~= channel_samples(ch@));
    }
    ms
}

/// Scrapes channels: on success three balance samples per channel, replaced
/// on every pass; on failure nothing.
pub fn scrape_listchannels(res: Option<&ListChannelsResponse>) -> (ms: Vec<MetricSample>)
    ensures
        samples_model(ms@) == channels_part(res),
{
    match res {
        Option::None => {
            let ms: Vec<MetricSample> = Vec::new();
            proof {
                assert(samples_model(ms@) =~= channels_part(res));
            }
            ms
        },
        Option::Some(r) => {
            let ghost cs = r@;
            let mut ms: Vec<MetricSample> = Vec::new();
            let n = r.channels.len();
            let mut i: usize = 0;
            proof {
                assert(samples_model(ms@) =~= channels_samples(cs.take(0)));
            }
            while i < n
                invariant
                    n == r.channels@.len(),
                    cs == r@,
                    0 <= i <= n,
                    samples_model(ms@) == channels_samples(cs.take(i as int)),
                decreases n - i,
            {
                let mut part = channel_balance_samples(&r.channels[i]);
                let ghost ms_old = ms@;
                let ghost part_old = part@;
                ms.append(&mut part);
                proof {
                    lemma_samples_model_distributes(ms_old, part_old);
                    assert(cs[i as int] == r.channels@[i as int]@);
                    lemma_channels_samples_take_succ(cs, i as int);
                }
                i = i + 1;
            }
            proof {
                assert(cs.take(n as int) =~= cs);
            }
            ms
        },
    }
}

} // verus!
