//! The collector: one full scrape pass per metrics pull.
//!
//! The caller holds exclusive access to the RPC connection and to the cache
//! for the duration of the pass, performs the three queries in a fixed order
//! (node info, payments, channels), and hands the decoded results in; each
//! query that failed comes in as `None`. The pass concatenates every emitted
//! sample and returns the flat list; one scraper's failure never suppresses
//! the samples of another.

use vstd::prelude::*;

use crate::cache::{apply_payments, cache_fits, CacheModel, ListPaymentsCache};
use crate::rpc::{GetInfoResponse, ListChannelsResponse, ListPaymentsResponse};
use crate::sample::{lemma_samples_model_distributes, samples_model, MetricSample, SampleModel};
use crate::scrapers::{
    channels_part, getinfo_part, payments_part, scrape_getinfo, scrape_listchannels,
    scrape_listpayments,
};

verus! {

/// The cache after a pass: only the payments response moves it.
pub open spec fn pass_cache(c: CacheModel, lp: Option<&ListPaymentsResponse>) -> CacheModel {
    match lp {
        Option::None => c,
        Option::Some(r) => apply_payments(c, r@),
    }
}

/// Every sample of one pass, in emission order: node info first, then
/// payments, then channels.
pub open spec fn pass_samples(
    c: CacheModel,
    gi: Option<&GetInfoResponse>,
    lp: Option<&ListPaymentsResponse>,
    lc: Option<&ListChannelsResponse>,
) -> Seq<SampleModel> {
    getinfo_part(gi) + payments_part(c, lp) + channels_part(lc)
}

/// Runs one full scrape pass over the already-decoded query results and
/// returns the concatenated samples of the scrapers that succeeded.
pub fn collect_pass(
    cache: &mut ListPaymentsCache,
    gi: Option<&GetInfoResponse>,
    lp: Option<&ListPaymentsResponse>,
    lc: Option<&ListChannelsResponse>,
) -> (ms: Vec<MetricSample>)
    requires
        lp matches Some(r) ==> cache_fits(apply_payments(old(cache)@, r@)),
    ensures
        final(cache)@ == pass_cache(old(cache)@, lp),
        samples_model(ms@) == pass_samples(old(cache)@, gi, lp, lc),
{
    let mut ms = scrape_getinfo(gi);
    let mut payments = scrape_listpayments(cache, lp);
    let mut channels = scrape_listchannels(lc);
    let ghost a = ms@;
    let ghost b = payments@;
    let ghost c = channels@;
    ms.append(&mut payments);
    proof {
        lemma_samples_model_distributes(a, b);
    }
    ms.append(&mut channels);
    proof {
        lemma_samples_model_distributes(a + b, c);
    }
    ms
}

} // verus!
