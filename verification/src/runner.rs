//! What the workers write: the outcome of each job they take, and the promotion of due
//! delayed jobs onto the default queue.

use crate::keys::{
    job_key, job_key_text, logs_key, logs_key_text, DEFAULT_QUEUE_KEY, DELAYED_JOBS_KEY,
    FAILED_COUNTER_KEY, FAILED_JOBS_KEY, SUCCESS_COUNTER_KEY,
};
use crate::ops::{field, ops_view, pairs_view, OpView, RedisOp};
use crate::text::{joined, owned};
use crate::time::{format_rfc3339, format_utc_display, rfc3339_text, utc_display_text, UtcTime};
use vstd::prelude::*;

verus! {

/// The log line of a job that succeeded.
pub open spec fn success_line(stamp: Seq<char>, job_id: Seq<char>) -> Seq<char> {
    "["@ + stamp + "] ✅ Job "@ + job_id + " succeeded"@
}

/// The log line of a job that failed.
pub open spec fn failure_line(stamp: Seq<char>, job_id: Seq<char>) -> Seq<char> {
    "["@ + stamp + "] ❌ Job "@ + job_id + " failed"@
}

/// The writes after a worker of `queue` has taken job `job_id` at `now` and a handler
/// accepted it (`handled`) or none did.
pub open spec fn outcome_ops(queue: Seq<char>, job_id: Seq<char>, handled: bool, now: UtcTime) -> Seq<
    OpView,
> {
    let completed = rfc3339_text(now.secs, now.nanos);
    let shown = utc_display_text(now.secs, now.nanos);
    let logs = logs_key_text(queue);
    if handled {
        seq![
            OpView::HashSet {
                key: job_key_text(job_id),
                fields: seq![("status"@, "success"@), ("completed_at"@, completed)],
            },
            OpView::Increment { key: SUCCESS_COUNTER_KEY@, by: 1 },
            OpView::PushFront { key: logs, value: success_line(shown, job_id) },
            OpView::Trim { key: logs, start: 0, stop: 99 },
        ]
    } else {
        seq![
            OpView::HashSet {
                key: job_key_text(job_id),
                fields: seq![("status"@, "failed"@), ("completed_at"@, completed)],
            },
            OpView::Increment { key: FAILED_COUNTER_KEY@, by: 1 },
            OpView::PushFront { key: logs, value: failure_line(shown, job_id) },
            OpView::Trim { key: logs, start: 0, stop: 99 },
            OpView::HashSet {
                key: job_key_text(job_id),
                fields: seq![("status"@, "failed"@), ("failed_at"@, completed), ("queue"@, queue)],
            },
            OpView::PushBack { key: FAILED_JOBS_KEY@, value: job_id },
        ]
    }
}

/// The writes that move the due delayed jobs, in order, to the front of the default queue
/// and out of the delayed set.
pub open spec fn promote_ops(due: Seq<Seq<char>>) -> Seq<OpView>
    decreases due.len(),
{
    if due.len() == 0 {
        Seq::empty()
    } else {
        promote_ops(due.drop_last()) + seq![
            OpView::PushFront { key: DEFAULT_QUEUE_KEY@, value: due.last() },
            OpView::SortedRemove { key: DELAYED_JOBS_KEY@, member: due.last() },
        ]
    }
}

/// `[{stamp}] {mark} Job {job_id} {outcome}`
fn log_line(stamp: &str, mark: &str, job_id: &str, outcome: &str) -> (r: String)
    ensures
        r@ == "["@ + stamp@ + mark@ + job_id@ + outcome@,
{
    let mut r = joined("[", stamp);
    r.append(mark);
    r.append(job_id);
    r.append(outcome);
    r
}

/// The writes after a worker of `queue` has taken job `job_id` at `now`: where a handler
/// accepted the job, its status `success`, the success counter and a log line; where none
/// did, its status `failed`, the failure counter, a log line, and its id on the failed list.
/// The log keeps its latest hundred lines.
pub fn finish_job(queue: &str, job_id: &str, handled: bool, now: UtcTime) -> (r: Vec<RedisOp>)
    requires
        now.wf(),
    ensures
        ops_view(r@) == outcome_ops(queue@, job_id@, handled, now),
{
    let completed = format_rfc3339(now);
    let shown = format_utc_display(now);
    let status: &str = if handled { "success" } else { "failed" };
    let first_fields = vec![field("status", owned(status)), field("completed_at", completed.clone())];
    assert(pairs_view(first_fields@) =~= seq![("status"@, status@), ("completed_at"@, completed@)]);
    let mut r = vec![RedisOp::HashSet { key: job_key(job_id), fields: first_fields }];
    if handled {
        r.push(RedisOp::Increment { key: owned(SUCCESS_COUNTER_KEY), by: 1 });
        r.push(
            RedisOp::PushFront {
                key: logs_key(queue),
                value: log_line(shown.as_str(), "] ✅ Job ", job_id, " succeeded"),
            },
        );
        r.push(RedisOp::Trim { key: logs_key(queue), start: 0, stop: 99 });
        assert(ops_view(r@) =~= outcome_ops(queue@, job_id@, handled, now));
    } else {
        r.push(RedisOp::Increment { key: owned(FAILED_COUNTER_KEY), by: 1 });
        r.push(
            RedisOp::PushFront {
                key: logs_key(queue),
                value: log_line(shown.as_str(), "] ❌ Job ", job_id, " failed"),
            },
        );
        r.push(RedisOp::Trim { key: logs_key(queue), start: 0, stop: 99 });
        let failed_fields = vec![
            field("status", owned("failed")),
            field("failed_at", completed),
            field("queue", owned(queue)),
        ];
        assert(pairs_view(failed_fields@) =~= seq![
            ("status"@, "failed"@),
            ("failed_at"@, rfc3339_text(now.secs, now.nanos)),
            ("queue"@, queue@),
        ]);
        r.push(RedisOp::HashSet { key: job_key(job_id), fields: failed_fields });
        r.push(RedisOp::PushBack { key: owned(FAILED_JOBS_KEY), value: owned(job_id) });
        assert(ops_view(r@) =~= outcome_ops(queue@, job_id@, handled, now));
    }
    r
}

/// The writes that move the due delayed jobs `due` (ids, in the order the delayed set
/// returned them) to the front of the default queue and out of the delayed set.
pub fn promote_due_jobs(due: &Vec<String>) -> (r: Vec<RedisOp>)
    ensures
        ops_view(r@) == promote_ops(due@.map_values(|s: String| s@)),
{
    let ghost dv = due@.map_values(|s: String| s@);
    let mut r: Vec<RedisOp> = Vec::new();
    let mut i: usize = 0;
    assert(dv.take(0) =~= Seq::<Seq<char>>::empty());
    assert(ops_view(r@) =~= Seq::<OpView>::empty());
    while i < due.len()
        invariant
            i <= due.len(),
            dv == due@.map_values(|s: String| s@),
            ops_view(r@) == promote_ops(dv.take(i as int)),
        decreases due.len() - i,
    {
        let ghost before = r@;
        r.push(RedisOp::PushFront { key: owned(DEFAULT_QUEUE_KEY), value: due[i].clone() });
        r.push(RedisOp::SortedRemove { key: owned(DELAYED_JOBS_KEY), member: due[i].clone() });
        assert(dv.take(i + 1).drop_last() =~= dv.take(i as int));
        assert(dv.take(i + 1).last() == due[i as int]@);
        assert(ops_view(r@) =~= ops_view(before) + seq![
            OpView::PushFront { key: DEFAULT_QUEUE_KEY@, value: due[i as int]@ },
            OpView::SortedRemove { key: DELAYED_JOBS_KEY@, member: due[i as int]@ },
        ]);
        i = i + 1;
    }
    assert(dv.take(due.len() as int) =~= dv);
    r
}

} // verus!
