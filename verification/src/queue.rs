//! The Redis writes that put a job on a queue, at once or after a delay.

use crate::keys::{
    job_key, job_key_text, queue_key, queue_key_text, DELAYED_JOBS_KEY, QUEUES_SET_KEY,
};
use crate::ops::{field, ops_view, pairs_view, OpView, RedisOp};
use crate::text::{decimal_int, format_i64, owned};
use crate::time::{format_rfc3339, rfc3339_text, UtcTime};
use vstd::prelude::*;

verus! {

/// The hash that describes a job waiting on `queue`.
pub open spec fn pending_job_hash(
    id: Seq<char>,
    queue: Seq<char>,
    payload: Seq<char>,
    created_at: Seq<char>,
) -> OpView {
    OpView::HashSet {
        key: job_key_text(id),
        fields: seq![
            ("queue"@, queue),
            ("status"@, "pending"@),
            ("payload"@, payload),
            ("created_at"@, created_at),
        ],
    }
}

/// The hash that describes a job delayed until second `run_at`.
pub open spec fn delayed_job_hash(
    id: Seq<char>,
    queue: Seq<char>,
    payload: Seq<char>,
    created_at: Seq<char>,
    run_at: int,
) -> OpView {
    OpView::HashSet {
        key: job_key_text(id),
        fields: seq![
            ("queue"@, queue),
            ("status"@, "delayed"@),
            ("payload"@, payload),
            ("created_at"@, created_at),
            ("run_at"@, decimal_int(run_at)),
        ],
    }
}

/// Enqueueing a job at once: its hash, then its id at the back of its queue.
pub open spec fn enqueue_ops(
    id: Seq<char>,
    queue: Seq<char>,
    payload: Seq<char>,
    created_at: Seq<char>,
) -> Seq<OpView> {
    seq![
        pending_job_hash(id, queue, payload, created_at),
        OpView::PushBack { key: queue_key_text(queue), value: id },
    ]
}

/// Enqueueing a job at once and recording its queue among the known queues.
pub open spec fn enqueue_recorded_ops(
    id: Seq<char>,
    queue: Seq<char>,
    payload: Seq<char>,
    created_at: Seq<char>,
) -> Seq<OpView> {
    enqueue_ops(id, queue, payload, created_at).push(
        OpView::SetAdd { key: QUEUES_SET_KEY@, member: queue },
    )
}

/// Delaying a job until second `run_at`: its hash, then its id in the delayed set.
pub open spec fn enqueue_delayed_ops(
    id: Seq<char>,
    queue: Seq<char>,
    payload: Seq<char>,
    created_at: Seq<char>,
    run_at: i64,
) -> Seq<OpView> {
    seq![
        delayed_job_hash(id, queue, payload, created_at, run_at as int),
        OpView::SortedAdd { key: DELAYED_JOBS_KEY@, member: id, score: run_at },
    ]
}

/// The second at which a job delayed by `delay_secs` from `now` is due (the delay is
/// taken as an `i64`, as `delay_secs as i64` does).
pub open spec fn run_at_second(now: UtcTime, delay_secs: u64) -> int {
    now.secs + (delay_secs as i64)
}

fn pending_hash(id: &str, queue: &str, payload: &str, created_at: String) -> (r: RedisOp)
    ensures
        r@ == pending_job_hash(id@, queue@, payload@, created_at@),
{
    let fields = vec![
        field("queue", owned(queue)),
        field("status", owned("pending")),
        field("payload", owned(payload)),
        field("created_at", created_at),
    ];
    let r = RedisOp::HashSet { key: job_key(id), fields };
    assert(r@->fields =~= seq![
        ("queue"@, queue@),
        ("status"@, "pending"@),
        ("payload"@, payload@),
        ("created_at"@, created_at@),
    ]);
    r
}

/// The writes that enqueue job `job_id` with `payload` on `queue` at once, created at
/// `now`: the job's hash, then its id pushed at the back of the queue.
pub fn enqueue(job_id: &str, queue: &str, payload: &str, now: UtcTime) -> (r: Vec<RedisOp>)
    requires
        now.wf(),
    ensures
        ops_view(r@) == enqueue_ops(job_id@, queue@, payload@, rfc3339_text(now.secs, now.nanos)),
{
    let created_at = format_rfc3339(now);
    let r = vec![
        pending_hash(job_id, queue, payload, created_at),
        RedisOp::PushBack { key: queue_key(queue), value: owned(job_id) },
    ];
    assert(ops_view(r@) =~= enqueue_ops(
        job_id@,
        queue@,
        payload@,
        rfc3339_text(now.secs, now.nanos),
    ));
    r
}

/// The writes that enqueue a raw payload at once and record the queue among the known
/// queues, as the cron scheduler and the command line do.
pub fn enqueue_recorded(job_id: &str, queue: &str, payload: &str, now: UtcTime) -> (r: Vec<
    RedisOp,
>)
    requires
        now.wf(),
    ensures
        ops_view(r@) == enqueue_recorded_ops(
            job_id@,
            queue@,
            payload@,
            rfc3339_text(now.secs, now.nanos),
        ),
{
    let mut r = enqueue(job_id, queue, payload, now);
    let ghost before = r@;
    r.push(RedisOp::SetAdd { key: owned(QUEUES_SET_KEY), member: owned(queue) });
    assert(ops_view(r@) =~= ops_view(before).push(
        OpView::SetAdd { key: QUEUES_SET_KEY@, member: queue@ },
    ));
    r
}

/// The writes that delay job `job_id` by `delay_secs` seconds from `now`: the job's hash
/// (status `delayed`, with the second it is due), then its id in the delayed set scored by
/// that second.
pub fn enqueue_in(job_id: &str, queue: &str, payload: &str, delay_secs: u64, now: UtcTime) -> (r:
    Vec<RedisOp>)
    requires
        now.wf(),
        i64::MIN <= run_at_second(now, delay_secs) <= i64::MAX,
    ensures
        ops_view(r@) == enqueue_delayed_ops(
            job_id@,
            queue@,
            payload@,
            rfc3339_text(now.secs, now.nanos),
            run_at_second(now, delay_secs) as i64,
        ),
{
    let created_at = format_rfc3339(now);
    let run_at: i64 = now.secs + (#[verifier::truncate] (delay_secs as i64));
    let fields = vec![
        field("queue", owned(queue)),
        field("status", owned("delayed")),
        field("payload", owned(payload)),
        field("created_at", created_at),
        field("run_at", format_i64(run_at)),
    ];
    assert(pairs_view(fields@) =~= seq![
        ("queue"@, queue@),
        ("status"@, "delayed"@),
        ("payload"@, payload@),
        ("created_at"@, rfc3339_text(now.secs, now.nanos)),
        ("run_at"@, decimal_int(run_at as int)),
    ]);
    let hash = RedisOp::HashSet { key: job_key(job_id), fields };
    assert(hash@ == delayed_job_hash(
        job_id@,
        queue@,
        payload@,
        rfc3339_text(now.secs, now.nanos),
        run_at as int,
    ));
    let r = vec![
        hash,
        RedisOp::SortedAdd {
            key: owned(DELAYED_JOBS_KEY),
            member: owned(job_id),
            score: run_at,
        },
    ];
    assert(ops_view(r@) =~= enqueue_delayed_ops(
        job_id@,
        queue@,
        payload@,
        rfc3339_text(now.secs, now.nanos),
        run_at,
    ));
    r
}

} // verus!
