//! The aggregation pass: paging through the list endpoint, merging each
//! runner's detail and manager fetches with graceful per-runner
//! degradation, and applying the client-side filters at the end.
//!
//! The remote calls themselves are the caller's business: the caller asks
//! `next_page_request` which page to fetch, performs the fetch and the
//! per-runner enrichment calls (in any order, as long as results are
//! handed back in page order), and feeds each page through `enrich_page`
//! and `on_page`. `finish` then applies the client-side filters.

use vstd::prelude::*;
use crate::models::{Runner, RunnerFilters, RunnerManager};
use crate::views::{matches_filters_pred, apply_client_filters};

verus! {

/// Fixed page size for the list endpoint. A page shorter than this is the
/// last page.
pub const PAGE_SIZE: u32 = 100;

/// Fixed fan-out bound for per-runner enrichment calls: at most this many
/// in flight at once. The bound concerns the caller's scheduling only;
/// the assembled order must stay the page order regardless.
pub const ENRICH_CONCURRENCY: u32 = 10;

/// The record an enrichment settles on: the detail record where the
/// detail fetch succeeded, else the list-provided record unchanged.
pub open spec fn enrichment_core(base: Runner, detail: Option<Runner>) -> Runner {
    match detail {
        Option::Some(d) => d,
        Option::None => base,
    }
}

/// All fields but the manager list agree.
pub open spec fn same_but_managers(a: Runner, b: Runner) -> bool {
    &&& a.id == b.id
    &&& a.runner_type == b.runner_type
    &&& a.active == b.active
    &&& a.paused == b.paused
    &&& a.description == b.description
    &&& a.created_at == b.created_at
    &&& a.ip_address == b.ip_address
    &&& a.is_shared == b.is_shared
    &&& a.status == b.status
    &&& a.version == b.version
    &&& a.revision == b.revision
    &&& a.tag_list == b.tag_list
}

/// `r` is the merge of one runner's enrichment outcomes: the detail record
/// where that fetch succeeded (else the list record), with the fetched
/// manager list (else zero managers).
pub open spec fn is_merged(
    r: Runner,
    base: Runner,
    detail: Option<Runner>,
    managers: Option<Vec<RunnerManager>>,
) -> bool {
    &&& same_but_managers(r, enrichment_core(base, detail))
    &&& match managers {
        Option::Some(ms) => r.managers == ms,
        Option::None => r.managers@ == Seq::<RunnerManager>::empty(),
    }
}

/// Merges one runner's enrichment outcomes. A failed fetch arrives as
/// `None`: a failed detail fetch falls back to the list-provided record, a
/// failed manager fetch leaves the runner with zero managers. Neither
/// failure is the aggregation's failure.
pub fn merge_enrichment(
    base: Runner,
    detail: Option<Runner>,
    managers: Option<Vec<RunnerManager>>,
) -> (r: Runner)
    ensures
        is_merged(r, base, detail, managers),
{
    let mut core = match detail {
        Some(d) => d,
        None => base,
    };
    core.managers = match managers {
        Some(ms) => ms,
        None => Vec::new(),
    };
    core
}

/// Merges a whole page of enrichment outcomes, position by position: the
/// result keeps the page order, whatever order the fetches completed in.
pub fn enrich_page(
    bases: Vec<Runner>,
    details: Vec<Option<Runner>>,
    manager_fetches: Vec<Option<Vec<RunnerManager>>>,
) -> (r: Vec<Runner>)
    requires
        details@.len() == bases@.len(),
        manager_fetches@.len() == bases@.len(),
    ensures
        r@.len() == bases@.len(),
        forall|i: int|
            0 <= i < bases@.len() ==> is_merged(
                r@[i],
                bases@[i],
                details@[i],
                manager_fetches@[i],
            ),
{
    let ghost gb = bases@;
    let ghost gd = details@;
    let ghost gm = manager_fetches@;
    let mut bases = bases;
    let mut details = details;
    let mut manager_fetches = manager_fetches;
    let total = bases.len();
    let mut out: Vec<Runner> = Vec::new();
    let mut i: usize = 0;
    proof {
        assert(gb.skip(0) =~= gb);
        assert(gd.skip(0) =~= gd);
        assert(gm.skip(0) =~= gm);
    }
    while bases.len() > 0
        invariant
            gb.len() == total,
            i + bases@.len() == gb.len(),
            bases@ == gb.skip(i as int),
            details@ == gd.skip(i as int),
            manager_fetches@ == gm.skip(i as int),
            gd.len() == gb.len(),
            gm.len() == gb.len(),
            out@.len() == i,
            forall|k: int| 0 <= k < i ==> is_merged(out@[k], gb[k], gd[k], gm[k]),
        decreases bases@.len(),
    {
        let b = bases.remove(0);
        let d = details.remove(0);
        let m = manager_fetches.remove(0);
        proof {
            assert(b == gb[i as int]);
            assert(d == gd[i as int]);
            assert(m == gm[i as int]);
            assert(gb.skip(i as int).skip(1) =~= gb.skip(i + 1));
            assert(gd.skip(i as int).skip(1) =~= gd.skip(i + 1));
            assert(gm.skip(i as int).skip(1) =~= gm.skip(i + 1));
        }
        let merged = merge_enrichment(b, d, m);
        out.push(merged);
        i += 1;
    }
    out
}

/// One aggregation pass in progress: which page to ask for next, what has
/// been collected so far, and whether the last page has been seen.
pub struct Aggregation {
    pub filters: RunnerFilters,
    pub next_page: u32,
    pub pages_fetched: u32,
    pub collected: Vec<Runner>,
    pub done: bool,
}

impl Aggregation {
    /// Begins a pass: page one is next, nothing collected yet.
    pub fn start(filters: RunnerFilters) -> (a: Aggregation)
        ensures
            a.filters == filters,
            a.next_page == 1,
            a.pages_fetched == 0,
            a.collected@ == Seq::<Runner>::empty(),
            !a.done,
    {
        Aggregation {
            filters,
            next_page: 1,
            pages_fetched: 0,
            collected: Vec::new(),
            done: false,
        }
    }

    /// The page the caller must fetch next, or `None` once the pass has
    /// seen its last page.
    pub fn next_page_request(&self) -> (p: Option<u32>)
        ensures
            p == if self.done {
                Option::<u32>::None
            } else {
                Option::Some(self.next_page)
            },
    {
        if self.done {
            None
        } else {
            Some(self.next_page)
        }
    }

    /// Takes one fetched page: `enriched` is the page's runners after
    /// enrichment, in page order; `raw_count` is how many runners the list
    /// endpoint itself returned. The pass stops exactly when a page comes
    /// back shorter than `PAGE_SIZE` (an empty page included); otherwise
    /// the next page is requested.
    pub fn on_page(&mut self, enriched: Vec<Runner>, raw_count: usize)
        requires
            !old(self).done,
            old(self).next_page < u32::MAX,
            old(self).pages_fetched < u32::MAX,
        ensures
            final(self).collected@ == old(self).collected@ + enriched@,
            final(self).done == (raw_count < PAGE_SIZE as usize),
            final(self).next_page == old(self).next_page + 1,
            final(self).pages_fetched == old(self).pages_fetched + 1,
            final(self).filters == old(self).filters,
    {
        let mut page = enriched;
        self.collected.append(&mut page);
        self.next_page += 1;
        self.pages_fetched += 1;
        self.done = raw_count < PAGE_SIZE as usize;
    }

    /// Ends the pass: applies the client-side filters (tag intersection,
    /// version prefix) to everything collected, order preserved.
    pub fn finish(self) -> (r: Vec<Runner>)
        ensures
            r@ == self.collected@.filter(matches_filters_pred(self.filters)),
    {
        let filters = self.filters;
        apply_client_filters(self.collected, &filters)
    }
}

} // verus!
