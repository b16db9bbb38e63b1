//! Pure view derivations over an aggregated runner collection: offline,
//! uncontacted, without-managers, rotating, status counts, the health
//! summary, client-side filter application, and the flattened manager rows.

use vstd::prelude::*;
use crate::clock::{rfc3339_seconds, parse_rfc3339_seconds, now_epoch_seconds};
use crate::models::{HealthSummary, ManagerRow, Runner, RunnerFilters, RunnerManager};
use crate::text::{is_text_prefix, str_eq, str_is_prefix};

verus! {

/// Fixed threshold, in seconds, beyond which a silent runner counts as
/// uncontacted.
pub const UNCONTACTED_THRESHOLD_SECS: u64 = 3600;

/// The runner's first manager, in API return order, reports online.
pub open spec fn first_manager_online(r: Runner) -> bool {
    r.managers@.len() > 0 && r.managers@[0].status@ == "online"@
}

/// The runner has a first manager and that manager is not online. A runner
/// with no managers is not offline: its status is indeterminate.
pub open spec fn is_offline(r: Runner) -> bool {
    r.managers@.len() > 0 && r.managers@[0].status@ != "online"@
}

/// The runner's first manager has no last-contact timestamp, has one that
/// does not parse as RFC 3339, or was last heard from more than
/// `threshold_secs` before `now_secs`. A runner with no managers is
/// excluded.
pub open spec fn is_uncontacted(r: Runner, threshold_secs: u64, now_secs: i64) -> bool {
    r.managers@.len() > 0 && match r.managers@[0].contacted_at {
        Option::None => true,
        Option::Some(s) => match rfc3339_seconds(s@) {
            Option::None => true,
            Option::Some(t) => now_secs - t > threshold_secs as i64,
        },
    }
}

/// The runner has no managers at all.
pub open spec fn has_no_managers(r: Runner) -> bool {
    r.managers@.len() == 0
}

/// More than one manager: the runner is mid-rotation between hosts.
pub open spec fn is_rotating(r: Runner) -> bool {
    r.managers@.len() > 1
}

/// Some requested tag appears, character for character, in the runner's
/// tag list.
pub open spec fn tag_sets_intersect(rtags: Seq<String>, ftags: Seq<String>) -> bool {
    exists|i: int, j: int|
        0 <= i < ftags.len() && 0 <= j < rtags.len() && ftags[i]@ == rtags[j]@
}

/// The tag filter is satisfied when no tags are requested, or when the
/// requested set intersects the runner's tags: a logical or across the
/// requested tags, not an and.
pub open spec fn matches_tag_filter(r: Runner, tags: Option<Vec<String>>) -> bool {
    match tags {
        Option::None => true,
        Option::Some(ts) => ts@.len() == 0 || tag_sets_intersect(r.tag_list@, ts@),
    }
}

/// The version filter is satisfied when no prefix is requested, or when
/// the runner reports a version that starts with the requested prefix.
pub open spec fn matches_version_filter(r: Runner, prefix: Option<String>) -> bool {
    match prefix {
        Option::None => true,
        Option::Some(p) => match r.version {
            Option::None => false,
            Option::Some(v) => is_text_prefix(p@, v@),
        },
    }
}

/// The client-side part of a filter bundle: tag intersection and version
/// prefix. Status, type and paused are served by the transport and play no
/// part here.
pub open spec fn matches_filters(r: Runner, f: RunnerFilters) -> bool {
    matches_tag_filter(r, f.tag_list) && matches_version_filter(r, f.version_prefix)
}

pub open spec fn offline_pred() -> spec_fn(Runner) -> bool {
    |r: Runner| is_offline(r)
}

pub open spec fn uncontacted_pred(threshold_secs: u64, now_secs: i64) -> spec_fn(Runner) -> bool {
    |r: Runner| is_uncontacted(r, threshold_secs, now_secs)
}

pub open spec fn no_managers_pred() -> spec_fn(Runner) -> bool {
    |r: Runner| has_no_managers(r)
}

pub open spec fn rotating_pred() -> spec_fn(Runner) -> bool {
    |r: Runner| is_rotating(r)
}

pub open spec fn first_online_pred() -> spec_fn(Runner) -> bool {
    |r: Runner| first_manager_online(r)
}

pub open spec fn matches_filters_pred(f: RunnerFilters) -> spec_fn(Runner) -> bool {
    |r: Runner| matches_filters(r, f)
}

/// Filtering one more element: the filtered prefix grows by the element
/// exactly when the predicate holds of it.
pub proof fn lemma_filter_take_step<A>(s: Seq<A>, pred: spec_fn(A) -> bool, i: int)
    requires
        0 <= i < s.len(),
    ensures
        s.take(i + 1).filter(pred) == if pred(s[i]) {
            s.take(i).filter(pred).push(s[i])
        } else {
            s.take(i).filter(pred)
        },
{
    reveal(Seq::filter);
    assert(s.take(i + 1).drop_last() =~= s.take(i));
    assert(s.take(i + 1).last() == s[i]);
}

/// A filter whose predicate holds of every element keeps the whole
/// sequence.
pub proof fn lemma_filter_all_true<A>(s: Seq<A>, pred: spec_fn(A) -> bool)
    requires
        forall|j: int| 0 <= j < s.len() ==> pred(s[j]),
    ensures
        s.filter(pred) == s,
    decreases s.len(),
{
    reveal(Seq::filter);
    if s.len() > 0 {
        lemma_filter_all_true(s.drop_last(), pred);
        assert(s.drop_last().push(s.last()) =~= s);
    }
}

fn first_manager_online_exec(r: &Runner) -> (b: bool)
    ensures
        b == first_manager_online(*r),
{
    if r.managers.len() > 0 {
        str_eq(r.managers[0].status.as_str(), "online")
    } else {
        false
    }
}

fn is_offline_exec(r: &Runner) -> (b: bool)
    ensures
        b == is_offline(*r),
{
    if r.managers.len() > 0 {
        !str_eq(r.managers[0].status.as_str(), "online")
    } else {
        false
    }
}

fn is_uncontacted_exec(r: &Runner, threshold_secs: u64, now_secs: i64) -> (b: bool)
    ensures
        b == is_uncontacted(*r, threshold_secs, now_secs),
{
    if r.managers.len() == 0 {
        return false;
    }
    match &r.managers[0].contacted_at {
        None => true,
        Some(s) => {
            match parse_rfc3339_seconds(s.as_str()) {
                None => true,
                Some(t) => (now_secs as i128) - (t as i128) > ((threshold_secs as i64) as i128),
            }
        },
    }
}

fn matches_filters_exec(r: &Runner, f: &RunnerFilters) -> (b: bool)
    ensures
        b == matches_filters(*r, *f),
{
    let tag_ok: bool = match &f.tag_list {
        None => true,
        Some(ts) => {
            if ts.len() == 0 {
                true
            } else {
                tags_intersect_exec(&r.tag_list, ts)
            }
        },
    };
    if !tag_ok {
        return false;
    }
    match &f.version_prefix {
        None => true,
        Some(p) => {
            match &r.version {
                None => false,
                Some(v) => str_is_prefix(p.as_str(), v.as_str()),
            }
        },
    }
}

fn tags_intersect_exec(rtags: &Vec<String>, ftags: &Vec<String>) -> (b: bool)
    ensures
        b == tag_sets_intersect(rtags@, ftags@),
{
    let mut i: usize = 0;
    while i < ftags.len()
        invariant
            i <= ftags@.len(),
            forall|x: int, y: int|
                0 <= x < i && 0 <= y < rtags@.len() ==> ftags@[x]@ != rtags@[y]@,
        decreases ftags@.len() - i,
    {
        let mut j: usize = 0;
        while j < rtags.len()
            invariant
                i < ftags@.len(),
                j <= rtags@.len(),
                forall|y: int| 0 <= y < j ==> ftags@[i as int]@ != rtags@[y]@,
            decreases rtags@.len() - j,
        {
            if str_eq(ftags[i].as_str(), rtags[j].as_str()) {
                return true;
            }
            j += 1;
        }
        i += 1;
    }
    false
}

/// The runners whose first manager is not online, in their given order.
/// Runners without managers are excluded: their status is indeterminate.
pub fn list_offline_runners(runners: Vec<Runner>) -> (r: Vec<Runner>)
    ensures
        r@ == runners@.filter(offline_pred()),
{
    let ghost orig = runners@;
    let mut rest = runners;
    let total = rest.len();
    let mut out: Vec<Runner> = Vec::new();
    let mut i: usize = 0;
    proof {
        assert(orig.skip(0) =~= orig);
        assert(orig.take(0) =~= Seq::<Runner>::empty());
        reveal(Seq::filter);
    }
    while rest.len() > 0
        invariant
            orig.len() == total,
            i + rest@.len() == orig.len(),
            rest@ == orig.skip(i as int),
            out@ == orig.take(i as int).filter(offline_pred()),
        decreases rest@.len(),
    {
        let x = rest.remove(0);
        proof {
            assert(x == orig[i as int]);
            lemma_filter_take_step(orig, offline_pred(), i as int);
            assert(orig.skip(i as int).skip(1) =~= orig.skip(i + 1));
        }
        if is_offline_exec(&x) {
            out.push(x);
        }
        i += 1;
    }
    proof {
        assert(orig.take(i as int) =~= orig);
    }
    out
}

/// The runners whose first manager has not been heard from within
/// `threshold_secs` of `now_secs` (a missing or unparseable last-contact
/// timestamp counts as never heard from), in their given order. Runners
/// without managers are excluded.
pub fn uncontacted_runners(runners: Vec<Runner>, threshold_secs: u64, now_secs: i64) -> (r: Vec<
    Runner,
>)
    ensures
        r@ == runners@.filter(uncontacted_pred(threshold_secs, now_secs)),
{
    let ghost orig = runners@;
    let ghost pred = uncontacted_pred(threshold_secs, now_secs);
    let mut rest = runners;
    let total = rest.len();
    let mut out: Vec<Runner> = Vec::new();
    let mut i: usize = 0;
    proof {
        assert(orig.skip(0) =~= orig);
        assert(orig.take(0) =~= Seq::<Runner>::empty());
        reveal(Seq::filter);
    }
    while rest.len() > 0
        invariant
            orig.len() == total,
            i + rest@.len() == orig.len(),
            rest@ == orig.skip(i as int),
            out@ == orig.take(i as int).filter(pred),
            pred == uncontacted_pred(threshold_secs, now_secs),
        decreases rest@.len(),
    {
        let x = rest.remove(0);
        proof {
            assert(x == orig[i as int]);
            lemma_filter_take_step(orig, pred, i as int);
            assert(orig.skip(i as int).skip(1) =~= orig.skip(i + 1));
        }
        if is_uncontacted_exec(&x, threshold_secs, now_secs) {
            out.push(x);
        }
        i += 1;
    }
    proof {
        assert(orig.take(i as int) =~= orig);
    }
    out
}

/// Reads the clock, then keeps the runners that `uncontacted_runners`
/// keeps for that reading. The clock's reading itself is not promised.
pub fn list_uncontacted_runners(runners: Vec<Runner>, threshold_secs: u64) -> (r: Vec<Runner>)
    ensures
        exists|now_secs: i64| r@ == runners@.filter(uncontacted_pred(threshold_secs, now_secs)),
{
    let ghost orig = runners@;
    let now_secs = now_epoch_seconds();
    let r = uncontacted_runners(runners, threshold_secs, now_secs);
    proof {
        assert(r@ == orig.filter(uncontacted_pred(threshold_secs, now_secs)));
    }
    r
}

/// The runners with an empty manager list, in their given order.
pub fn list_runners_without_managers(runners: Vec<Runner>) -> (r: Vec<Runner>)
    ensures
        r@ == runners@.filter(no_managers_pred()),
{
    let ghost orig = runners@;
    let mut rest = runners;
    let total = rest.len();
    let mut out: Vec<Runner> = Vec::new();
    let mut i: usize = 0;
    proof {
        assert(orig.skip(0) =~= orig);
        assert(orig.take(0) =~= Seq::<Runner>::empty());
        reveal(Seq::filter);
    }
    while rest.len() > 0
        invariant
            orig.len() == total,
            i + rest@.len() == orig.len(),
            rest@ == orig.skip(i as int),
            out@ == orig.take(i as int).filter(no_managers_pred()),
        decreases rest@.len(),
    {
        let x = rest.remove(0);
        proof {
            assert(x == orig[i as int]);
            lemma_filter_take_step(orig, no_managers_pred(), i as int);
            assert(orig.skip(i as int).skip(1) =~= orig.skip(i + 1));
        }
        if x.managers.len() == 0 {
            out.push(x);
        }
        i += 1;
    }
    proof {
        assert(orig.take(i as int) =~= orig);
    }
    out
}

/// The runners with more than one manager — mid-rotation between an old
/// and a new host — in their given order.
pub fn detect_rotating_runners(runners: Vec<Runner>) -> (r: Vec<Runner>)
    ensures
        r@ == runners@.filter(rotating_pred()),
{
    let ghost orig = runners@;
    let mut rest = runners;
    let total = rest.len();
    let mut out: Vec<Runner> = Vec::new();
    let mut i: usize = 0;
    proof {
        assert(orig.skip(0) =~= orig);
        assert(orig.take(0) =~= Seq::<Runner>::empty());
        reveal(Seq::filter);
    }
    while rest.len() > 0
        invariant
            orig.len() == total,
            i + rest@.len() == orig.len(),
            rest@ == orig.skip(i as int),
            out@ == orig.take(i as int).filter(rotating_pred()),
        decreases rest@.len(),
    {
        let x = rest.remove(0);
        proof {
            assert(x == orig[i as int]);
            lemma_filter_take_step(orig, rotating_pred(), i as int);
            assert(orig.skip(i as int).skip(1) =~= orig.skip(i + 1));
        }
        if x.managers.len() > 1 {
            out.push(x);
        }
        i += 1;
    }
    proof {
        assert(orig.take(i as int) =~= orig);
    }
    out
}

/// Retains the runners that the client-side filters keep: tag
/// intersection and version prefix, order preserved.
pub fn apply_client_filters(runners: Vec<Runner>, f: &RunnerFilters) -> (r: Vec<Runner>)
    ensures
        r@ == runners@.filter(matches_filters_pred(*f)),
{
    let ghost orig = runners@;
    let ghost pred = matches_filters_pred(*f);
    let mut rest = runners;
    let total = rest.len();
    let mut out: Vec<Runner> = Vec::new();
    let mut i: usize = 0;
    proof {
        assert(orig.skip(0) =~= orig);
        assert(orig.take(0) =~= Seq::<Runner>::empty());
        reveal(Seq::filter);
    }
    while rest.len() > 0
        invariant
            orig.len() == total,
            i + rest@.len() == orig.len(),
            rest@ == orig.skip(i as int),
            out@ == orig.take(i as int).filter(pred),
            pred == matches_filters_pred(*f),
        decreases rest@.len(),
    {
        let x = rest.remove(0);
        proof {
            assert(x == orig[i as int]);
            lemma_filter_take_step(orig, pred, i as int);
            assert(orig.skip(i as int).skip(1) =~= orig.skip(i + 1));
        }
        if matches_filters_exec(&x, f) {
            out.push(x);
        }
        i += 1;
    }
    proof {
        assert(orig.take(i as int) =~= orig);
    }
    out
}

/// Counts the runners whose first manager reports online, beside the
/// total: `(online, total)`.
pub fn check_runner_statuses(runners: &Vec<Runner>) -> (counts: (usize, usize))
    ensures
        counts.0 == runners@.filter(first_online_pred()).len(),
        counts.1 == runners@.len(),
{
    let ghost orig = runners@;
    let mut online: usize = 0;
    let mut i: usize = 0;
    proof {
        assert(orig.take(0) =~= Seq::<Runner>::empty());
        reveal(Seq::filter);
    }
    while i < runners.len()
        invariant
            orig == runners@,
            i <= orig.len(),
            online <= i,
            online == orig.take(i as int).filter(first_online_pred()).len(),
        decreases orig.len() - i,
    {
        proof {
            lemma_filter_take_step(orig, first_online_pred(), i as int);
        }
        if first_manager_online_exec(&runners[i]) {
            online += 1;
        }
        i += 1;
    }
    proof {
        assert(orig.take(i as int) =~= orig);
    }
    (online, runners.len())
}

/// The health summary of a collection: how many runners report an online
/// first manager, out of how many in all.
pub fn health_summary(runners: &Vec<Runner>) -> (h: HealthSummary)
    ensures
        h.online_count == runners@.filter(first_online_pred()).len(),
        h.total_count == runners@.len(),
{
    let counts = check_runner_statuses(runners);
    HealthSummary { online_count: counts.0, total_count: counts.1 }
}

/// What a manager row stands for: the parent runner's id and tags beside
/// the manager record itself.
pub open spec fn row_model(row: ManagerRow) -> (u64, Seq<String>, RunnerManager) {
    (row.runner_id, row.runner_tags@, row.manager)
}

/// What a sequence of manager rows stands for, row by row.
pub open spec fn rows_model(rows: Seq<ManagerRow>) -> Seq<(u64, Seq<String>, RunnerManager)> {
    rows.map_values(|row: ManagerRow| row_model(row))
}

/// One row per manager of one runner, in manager order.
pub open spec fn runner_rows_model(r: Runner) -> Seq<(u64, Seq<String>, RunnerManager)> {
    Seq::new(r.managers@.len(), |j: int| (r.id, r.tag_list@, r.managers@[j]))
}

/// Every runner's manager list flattened, in runner order then manager
/// order.
pub open spec fn flat_manager_rows(rs: Seq<Runner>) -> Seq<(u64, Seq<String>, RunnerManager)>
    decreases rs.len(),
{
    if rs.len() == 0 {
        Seq::empty()
    } else {
        runner_rows_model(rs[0]) + flat_manager_rows(rs.skip(1))
    }
}

proof fn lemma_flat_manager_rows_push(rs: Seq<Runner>, x: Runner)
    ensures
        flat_manager_rows(rs.push(x)) == flat_manager_rows(rs) + runner_rows_model(x),
    decreases rs.len(),
{
    if rs.len() == 0 {
        assert(rs.push(x).skip(1) =~= Seq::<Runner>::empty());
        assert(runner_rows_model(x) + flat_manager_rows(Seq::<Runner>::empty()) =~= Seq::<(
            u64,
            Seq<String>,
            RunnerManager,
        )>::empty() + runner_rows_model(x));
        assert(Seq::<(u64, Seq<String>, RunnerManager)>::empty() + runner_rows_model(x)
            =~= runner_rows_model(x));
    } else {
        lemma_flat_manager_rows_push(rs.skip(1), x);
        assert(rs.push(x).skip(1) =~= rs.skip(1).push(x));
        assert(runner_rows_model(rs[0]) + (flat_manager_rows(rs.skip(1)) + runner_rows_model(x))
            =~= (runner_rows_model(rs[0]) + flat_manager_rows(rs.skip(1))) + runner_rows_model(x));
    }
}

fn clone_tags(v: &Vec<String>) -> (r: Vec<String>)
    ensures
        r@ == v@,
{
    let mut out: Vec<String> = Vec::new();
    let mut i: usize = 0;
    while i < v.len()
        invariant
            i <= v@.len(),
            out@ == v@.take(i as int),
        decreases v@.len() - i,
    {
        out.push(v[i].clone());
        proof {
            assert(v@.take(i + 1) =~= v@.take(i as int).push(v@[i as int]));
        }
        i += 1;
    }
    proof {
        assert(v@.take(i as int) =~= v@);
    }
    out
}

/// Flattens every runner's manager list into one row per (runner,
/// manager) pair, carrying the parent runner's id and tags alongside.
pub fn flatten_manager_rows(runners: Vec<Runner>) -> (rows: Vec<ManagerRow>)
    ensures
        rows_model(rows@) == flat_manager_rows(runners@),
{
    let ghost orig = runners@;
    let mut rest = runners;
    let total = rest.len();
    let mut rows: Vec<ManagerRow> = Vec::new();
    let mut i: usize = 0;
    proof {
        assert(orig.skip(0) =~= orig);
        assert(orig.take(0) =~= Seq::<Runner>::empty());
        assert(rows_model(rows@) =~= flat_manager_rows(orig.take(0)));
    }
    while rest.len() > 0
        invariant
            orig.len() == total,
            i + rest@.len() == orig.len(),
            rest@ == orig.skip(i as int),
            rows_model(rows@) == flat_manager_rows(orig.take(i as int)),
        decreases rest@.len(),
    {
        let r = rest.remove(0);
        proof {
            assert(r == orig[i as int]);
            assert(orig.skip(i as int).skip(1) =~= orig.skip(i + 1));
        }
        let rid = r.id;
        let tags = r.tag_list;
        let mut ms = r.managers;
        let ghost rr = runner_rows_model(orig[i as int]);
        let mcount = ms.len();
        let mut j: usize = 0;
        proof {
            assert(rr.take(0) =~= Seq::<(u64, Seq<String>, RunnerManager)>::empty());
            assert(flat_manager_rows(orig.take(i as int)) + rr.take(0) =~= flat_manager_rows(
                orig.take(i as int),
            ));
            assert(ms@.skip(0) =~= ms@);
        }
        while ms.len() > 0
            invariant
                j + ms@.len() == mcount,
                mcount == rr.len(),
                rr == runner_rows_model(orig[i as int]),
                ms@ == orig[i as int].managers@.skip(j as int),
                rid == orig[i as int].id,
                tags@ == orig[i as int].tag_list@,
                rows_model(rows@) == flat_manager_rows(orig.take(i as int)) + rr.take(j as int),
                0 <= i < orig.len(),
            decreases ms@.len(),
        {
            let m = ms.remove(0);
            proof {
                assert(m == orig[i as int].managers@[j as int]);
                assert(orig[i as int].managers@.skip(j as int).skip(1) =~= orig[
                    i as int
                ].managers@.skip(j + 1));
            }
            let row = ManagerRow { runner_id: rid, runner_tags: clone_tags(&tags), manager: m };
            proof {
                assert(row_model(row) == rr[j as int]);
                assert(rows_model(rows@.push(row)) =~= rows_model(rows@).push(row_model(row)));
                assert(rr.take(j + 1) =~= rr.take(j as int).push(rr[j as int]));
                assert((flat_manager_rows(orig.take(i as int)) + rr.take(j as int)).push(
                    rr[j as int],
                ) =~= flat_manager_rows(orig.take(i as int)) + rr.take(j + 1));
            }
            rows.push(row);
            j += 1;
        }
        proof {
            assert(rr.take(j as int) =~= rr);
            lemma_flat_manager_rows_push(orig.take(i as int), orig[i as int]);
            assert(orig.take(i + 1) =~= orig.take(i as int).push(orig[i as int]));
        }
        i += 1;
    }
    proof {
        assert(orig.take(i as int) =~= orig);
    }
    rows
}

/// A filter with an empty tag set and no version prefix keeps every
/// runner: the aggregated result equals the unfiltered aggregation.
pub proof fn lemma_empty_filters_keep_all(runners: Seq<Runner>, f: RunnerFilters)
    requires
        match f.tag_list {
            Option::None => true,
            Option::Some(ts) => ts@.len() == 0,
        },
        f.version_prefix is None,
    ensures
        runners.filter(matches_filters_pred(f)) == runners,
{
    assert forall|j: int| 0 <= j < runners.len() implies matches_filters_pred(f)(runners[j]) by {
        assert(matches_filters(runners[j], f));
    }
    lemma_filter_all_true(runners, matches_filters_pred(f));
}

/// A runner with zero managers is excluded from the offline and
/// uncontacted views, counts as not online, is not rotating, and is
/// included among the runners without managers.
pub proof fn lemma_no_managers_classification(r: Runner, threshold_secs: u64, now_secs: i64)
    requires
        r.managers@.len() == 0,
    ensures
        !is_offline(r),
        !is_uncontacted(r, threshold_secs, now_secs),
        !first_manager_online(r),
        !is_rotating(r),
        has_no_managers(r),
{
}

/// A runner is rotating exactly when it has more than one manager; one
/// manager or none is not a rotation.
pub proof fn lemma_rotating_iff_many_managers(r: Runner)
    ensures
        is_rotating(r) <==> r.managers@.len() > 1,
        r.managers@.len() <= 1 ==> !is_rotating(r),
{
}

} // verus!
