//! The numbers of the metrics dashboard: which queues a page shows, which delayed jobs
//! belong to a queue, and the per-queue and overall counts.

use crate::config::QueueConfig;
use crate::cli::retry_ops;
use crate::keys::{
    job_key, job_key_text, queue_key, queue_key_text, DEFAULT_QUEUE_KEY, DELAYED_JOBS_KEY,
};
use crate::ops::{field, ops_view, pairs_view, OpView, RedisOp};
use crate::text::{joined, decimal, format_u64, owned, str_eq};
use vstd::prelude::*;

verus! {

/// Queues per dashboard page.
pub const PAGE_SIZE: usize = 10;

/// The window of queues that page `page` (counted from 1) shows out of `total`: from the
/// first index to the index after the last, both clamped to `total`, and whether more
/// queues follow the page's nominal end.
pub open spec fn page_window(page: int, total: int) -> (int, int, bool) {
    let start = (page - 1) * PAGE_SIZE as int;
    let end = start + PAGE_SIZE as int;
    (if start < total { start } else { total }, if end < total { end } else { total }, total > end)
}

/// The window of queues that page `page` shows out of `total` queues.
pub fn page_bounds(page: usize, total: usize) -> (r: (usize, usize, bool))
    requires
        page >= 1,
        page * PAGE_SIZE <= usize::MAX,
    ensures
        (r.0 as int, r.1 as int, r.2) == page_window(page as int, total as int),
{
    let start = (page - 1) * PAGE_SIZE;
    let end = start + PAGE_SIZE;
    let first = if start < total { start } else { total };
    let last = if end < total { end } else { total };
    (first, last, total > end)
}

/// The window of a listing page: page `page` (counted from 1) of `limit` items out of
/// `total`, both ends clamped to `total`, and whether items follow it.
pub open spec fn list_window(page: int, limit: int, total: int) -> (int, int, bool) {
    let start = (page - 1) * limit;
    let s = if start < total { start } else { total };
    let e = if s + limit < total { s + limit } else { total };
    (s, e, e < total)
}

/// The window of page `page` of `limit` items out of `total`.
pub fn list_bounds(page: usize, limit: usize, total: usize) -> (r: (usize, usize, bool))
    requires
        page >= 1,
    ensures
        (r.0 as int, r.1 as int, r.2) == list_window(page as int, limit as int, total as int),
{
    let a = (page - 1) as u128;
    let b = limit as u128;
    assert(a * b <= u64::MAX as int * u64::MAX as int) by (nonlinear_arith)
        requires
            a <= u64::MAX,
            b <= u64::MAX,
    ;
    let skipped = a * b;
    let s: usize = if skipped < total as u128 { skipped as usize } else { total };
    let e: usize = if limit < total - s { s + limit } else { total };
    (s, e, e < total)
}

/// The ids among `ids` whose job names `queue`, in order; `queues[i]` is the queue named by
/// the hash of job `ids[i]`, if it names one.
pub open spec fn delayed_of(ids: Seq<Seq<char>>, queues: Seq<Option<Seq<char>>>, queue: Seq<char>) -> Seq<
    Seq<char>,
>
    decreases ids.len(),
{
    if ids.len() == 0 || queues.len() == 0 {
        Seq::empty()
    } else {
        let rest = delayed_of(ids.drop_last(), queues.drop_last(), queue);
        if queues.last() == Some(queue) {
            rest.push(ids.last())
        } else {
            rest
        }
    }
}

/// The delayed jobs that belong to `queue`.
pub fn delayed_for_queue(ids: &Vec<String>, queues: &Vec<Option<String>>, queue: &str) -> (r: Vec<
    String,
>)
    requires
        ids.len() == queues.len(),
    ensures
        r@.map_values(|s: String| s@) == delayed_of(
            ids@.map_values(|s: String| s@),
            queues@.map_values(|o: Option<String>| crate::jconfig::opt_view(o)),
            queue@,
        ),
{
    let ghost iv = ids@.map_values(|s: String| s@);
    let ghost qv = queues@.map_values(|o: Option<String>| crate::jconfig::opt_view(o));
    let mut r: Vec<String> = Vec::new();
    let mut i: usize = 0;
    assert(iv.take(0) =~= Seq::<Seq<char>>::empty());
    assert(r@.map_values(|s: String| s@) =~= Seq::<Seq<char>>::empty());
    while i < ids.len()
        invariant
            i <= ids.len(),
            ids.len() == queues.len(),
            iv == ids@.map_values(|s: String| s@),
            qv == queues@.map_values(|o: Option<String>| crate::jconfig::opt_view(o)),
            r@.map_values(|s: String| s@) == delayed_of(iv.take(i as int), qv.take(i as int), queue@),
        decreases ids.len() - i,
    {
        let ghost before = r@;
        assert(iv.take(i + 1).drop_last() =~= iv.take(i as int));
        assert(qv.take(i + 1).drop_last() =~= qv.take(i as int));
        assert(qv.take(i + 1).last() == qv[i as int]);
        let belongs = match &queues[i] {
            Some(q) => str_eq(q.as_str(), queue),
            None => false,
        };
        if belongs {
            r.push(ids[i].clone());
            assert(r@.map_values(|s: String| s@) =~= before.map_values(|s: String| s@).push(
                ids[i as int]@,
            ));
        }
        i = i + 1;
    }
    assert(iv.take(ids.len() as int) =~= iv);
    assert(qv.take(ids.len() as int) =~= qv);
    r
}

/// The counts the dashboard shows for one queue.
#[derive(Clone, Debug)]
pub struct QueueMetrics {
    pub name: String,
    pub concurrency: usize,
    pub priority: usize,
    pub pending_jobs: isize,
    pub delayed_jobs: isize,
    pub success_jobs: isize,
    pub failed_jobs: isize,
    pub total_jobs: isize,
}

impl QueueMetrics {
    /// The counts of queue `config`: its pending, succeeded and failed counts as read, its
    /// delayed count, and in total the pending and delayed jobs.
    pub fn new(config: &QueueConfig, pending: isize, delayed: usize, success: isize, failed: isize) -> (r: Self)
        requires
            delayed <= isize::MAX,
            isize::MIN <= pending + delayed <= isize::MAX,
        ensures
            r.name@ == config.name@,
            r.concurrency == config.concurrency,
            r.priority == config.priority,
            r.pending_jobs == pending,
            r.delayed_jobs == delayed,
            r.success_jobs == success,
            r.failed_jobs == failed,
            r.total_jobs == pending + delayed,
    {
        let delayed_jobs = delayed as isize;
        QueueMetrics {
            name: owned(config.name.as_str()),
            concurrency: config.concurrency,
            priority: config.priority,
            pending_jobs: pending,
            delayed_jobs,
            success_jobs: success,
            failed_jobs: failed,
            total_jobs: pending + delayed_jobs,
        }
    }
}

/// The sum of the succeeded counts of the first `n` queues.
pub open spec fn success_sum(m: Seq<QueueMetrics>, n: int) -> int
    decreases n,
{
    if n <= 0 {
        0
    } else {
        success_sum(m, n - 1) + m[n - 1].success_jobs
    }
}

/// The sum of the failed counts of the first `n` queues.
pub open spec fn failed_sum(m: Seq<QueueMetrics>, n: int) -> int
    decreases n,
{
    if n <= 0 {
        0
    } else {
        failed_sum(m, n - 1) + m[n - 1].failed_jobs
    }
}

/// Every partial sum of the counts fits an `isize`.
pub open spec fn sums_fit(m: Seq<QueueMetrics>) -> bool {
    forall|k: int|
        0 <= k <= m.len() ==> isize::MIN <= #[trigger] success_sum(m, k) <= isize::MAX
            && isize::MIN <= failed_sum(m, k) <= isize::MAX
}

/// The overall succeeded and failed counts of the queues on a page.
pub fn page_totals(metrics: &Vec<QueueMetrics>) -> (r: (isize, isize))
    requires
        sums_fit(metrics@),
    ensures
        r.0 == success_sum(metrics@, metrics.len() as int),
        r.1 == failed_sum(metrics@, metrics.len() as int),
{
    let mut success: isize = 0;
    let mut failed: isize = 0;
    let mut i: usize = 0;
    while i < metrics.len()
        invariant
            i <= metrics.len(),
            sums_fit(metrics@),
            success == success_sum(metrics@, i as int),
            failed == failed_sum(metrics@, i as int),
        decreases metrics.len() - i,
    {
        assert(isize::MIN <= success_sum(metrics@, i + 1) <= isize::MAX);
        failed = failed + metrics[i].failed_jobs;
        success = success + metrics[i].success_jobs;
        i = i + 1;
    }
    (success, failed)
}

/// The overall succeeded and failed counts of the queues on a page, or `None` where a
/// partial sum leaves `isize`, where adding the counts one queue at a time overflows.
pub fn checked_page_totals(metrics: &Vec<QueueMetrics>) -> (r: Option<(isize, isize)>)
    ensures
        r is Some <==> sums_fit(metrics@),
        r matches Some(t) ==> t.0 == success_sum(metrics@, metrics.len() as int) && t.1
            == failed_sum(metrics@, metrics.len() as int),
{
    let mut success: isize = 0;
    let mut failed: isize = 0;
    let mut i: usize = 0;
    while i < metrics.len()
        invariant
            i <= metrics.len(),
            success == success_sum(metrics@, i as int),
            failed == failed_sum(metrics@, i as int),
            forall|k: int|
                0 <= k <= i ==> isize::MIN <= #[trigger] success_sum(metrics@, k) <= isize::MAX
                    && isize::MIN <= failed_sum(metrics@, k) <= isize::MAX,
        decreases metrics.len() - i,
    {
        let s = success.checked_add(metrics[i].success_jobs);
        let f = failed.checked_add(metrics[i].failed_jobs);
        match (s, f) {
            (Some(a), Some(b)) => {
                success = a;
                failed = b;
            },
            _ => {
                assert(!(isize::MIN <= success_sum(metrics@, i + 1) <= isize::MAX && isize::MIN
                    <= failed_sum(metrics@, i + 1) <= isize::MAX));
                return None;
            },
        }
        i = i + 1;
    }
    Some((success, failed))
}

/// The delayed jobs shown as samples of a queue: its first two.
pub fn sample_delayed(ids: &Vec<String>) -> (r: Vec<String>)
    ensures
        r@ == ids@.take(if ids.len() < 2 { ids.len() as int } else { 2 }),
{
    let mut r: Vec<String> = Vec::new();
    let mut i: usize = 0;
    while i < ids.len() && i < 2
        invariant
            i <= ids.len(),
            i <= 2,
            r@ == ids@.take(i as int),
        decreases ids.len() - i,
    {
        r.push(ids[i].clone());
        assert(r@ =~= ids@.take(i + 1));
        i = i + 1;
    }
    r
}

/// The writes that queue job `id` of `queue` right away: it goes to the back of its
/// queue, is marked pending, and leaves the delayed jobs.
pub open spec fn queue_now_ops(id: Seq<char>, queue: Seq<char>) -> Seq<OpView> {
    seq![
        OpView::PushBack { key: queue_key_text(queue), value: id },
        OpView::HashSet { key: job_key_text(id), fields: seq![("status"@, "pending"@)] },
        OpView::SortedRemove { key: DELAYED_JOBS_KEY@, member: id },
    ]
}

/// The writes that dashboard action `action` asks for on job `id`, whose hash names
/// `queue`: its deletion for `delete`, the retry writes for `retry`, the writes that queue
/// it now for `queue`; `None` for any other action, which the dashboard refuses.
pub open spec fn job_action_ops(action: Seq<char>, id: Seq<char>, queue: Seq<char>) -> Option<
    Seq<OpView>,
> {
    if action == "delete"@ {
        Some(seq![OpView::Delete { key: job_key_text(id) }])
    } else if action == "retry"@ {
        Some(retry_ops(id, queue))
    } else if action == "queue"@ {
        Some(queue_now_ops(id, queue))
    } else {
        None
    }
}

/// The writes that a dashboard job action asks for on job `job_id` of `queue`, or `None`
/// where the action is not one of `retry`, `delete` and `queue`.
pub fn job_action(action: &str, job_id: &str, queue: &str) -> (r: Option<Vec<RedisOp>>)
    ensures
        match r {
            Some(ops) => job_action_ops(action@, job_id@, queue@) == Some(ops_view(ops@)),
            None => job_action_ops(action@, job_id@, queue@) is None,
        },
{
    if str_eq(action, "delete") {
        let r = vec![RedisOp::Delete { key: job_key(job_id) }];
        assert(ops_view(r@) =~= seq![OpView::Delete { key: job_key_text(job_id@) }]);
        Some(r)
    } else if str_eq(action, "retry") {
        Some(crate::cli::retry_job(job_id, queue))
    } else if str_eq(action, "queue") {
        let fields = vec![field("status", owned("pending"))];
        assert(pairs_view(fields@) =~= seq![("status"@, "pending"@)]);
        let r = vec![
            RedisOp::PushBack { key: queue_key(queue), value: owned(job_id) },
            RedisOp::HashSet { key: job_key(job_id), fields },
            RedisOp::SortedRemove { key: owned(DELAYED_JOBS_KEY), member: owned(job_id) },
        ];
        assert(ops_view(r@) =~= queue_now_ops(job_id@, queue@));
        Some(r)
    } else {
        None
    }
}

/// The write that retries a job from the dashboard: the job's stored data pushed at the
/// back of the default queue.
pub fn retry_job(data: &str) -> (r: RedisOp)
    ensures
        r@ == (OpView::PushBack { key: DEFAULT_QUEUE_KEY@, value: data@ }),
{
    RedisOp::PushBack { key: owned(DEFAULT_QUEUE_KEY), value: owned(data) }
}

/// The id under which the `index`-th job of `queue` is exported: `{queue}_{index}`.
pub fn export_id(queue: &str, index: usize) -> (r: String)
    ensures
        r@ == queue@ + "_"@ + decimal(index as nat),
{
    let mut r = joined(queue, "_");
    let digits = format_u64(index as u64);
    r.append(digits.as_str());
    r
}

} // verus!
