//! The decisions of the `qrush` command line: reading its arguments, which list a job
//! listing reads, and the writes of retrying, deleting and clearing jobs and of running a
//! cron job by hand.

use crate::hash::{hash_get, lookup};
use crate::keys::{
    cron_job_key, cron_job_key_text, failed_key, failed_key_text, job_key, job_key_text,
    queue_key, queue_key_text, success_key, success_key_text, DELAYED_JOBS_KEY, FAILED_JOBS_KEY,
};
use crate::ops::{field, ops_view, pairs_view, OpView, RedisOp};
use crate::jconfig::{json_string_field, json_string_member, opt_view};
use crate::json::{
    json_object, json_object_text, json_parses, json_string_items, json_string_list_member,
    json_u64_field, json_u64_member, lists_view, numbers_view, parses_as_json,
};
use crate::queue::{
    enqueue_delayed_ops, enqueue_in, enqueue_recorded, enqueue_recorded_ops, run_at_second,
};
use crate::text::{
    bool_text, joined, decimal, format_bool, format_u64, owned, parse_unsigned, parse_usize,
    split_all, split_on, str_eq, strings_view, strip_prefix,
};
use crate::time::{format_rfc3339, rfc3339_text, UtcTime};
use vstd::prelude::*;

verus! {

/// The queues named by the `--queues` argument: its comma-separated pieces.
pub fn parse_queue_list(arg: &str) -> (r: Vec<String>)
    ensures
        strings_view(r@) == split_on(arg@, ','),
{
    split_all(arg, ',')
}

/// A count argument read as `usize`, or `default` where it does not read as one.
pub fn parse_count_or(arg: &str, default: usize) -> (r: usize)
    ensures
        r == (match parse_unsigned(arg@) {
            Some(v) => if v <= usize::MAX { v } else { default as nat },
            None => default as nat,
        }),
{
    match parse_usize(arg) {
        Some(v) => v,
        None => default,
    }
}

/// The id of a worker process: `worker_{hostname}_{pid}`.
pub fn worker_id(hostname: &str, pid: u32) -> (r: String)
    ensures
        r@ == "worker_"@ + hostname@ + "_"@ + decimal(pid as nat),
{
    let mut r = joined("worker_", hostname);
    r.append("_");
    let digits = format_u64(pid as u64);
    r.append(digits.as_str());
    r
}

/// An id made of a prefix and a number, such as `test_{n}` or `cron_manual_{n}`.
pub fn numbered_id(prefix: &str, n: u64) -> (r: String)
    ensures
        r@ == prefix@ + decimal(n as nat),
{
    let digits = format_u64(n);
    joined(prefix, digits.as_str())
}

/// Where a job listing reads its ids from.
#[derive(Clone, Debug)]
pub enum JobListSource {
    /// A list, read from its front.
    List(String),
    /// A sorted set, read from its lowest score.
    SortedSet(String),
}

/// The source of a listing of jobs with `status` on `queue`: the pending, failed or
/// succeeded list of the queue, or the delayed set; `None` for any other status.
pub open spec fn list_source(status: Seq<char>, queue: Seq<char>) -> Option<(bool, Seq<char>)> {
    if status == "pending"@ {
        Some((false, queue_key_text(queue)))
    } else if status == "failed"@ {
        Some((false, failed_key_text(queue)))
    } else if status == "success"@ {
        Some((false, success_key_text(queue)))
    } else if status == "delayed"@ {
        Some((true, DELAYED_JOBS_KEY@))
    } else {
        None
    }
}

/// The source of a listing of jobs with `status` on `queue`.
pub fn job_list_source(status: &str, queue: &str) -> (r: Option<JobListSource>)
    ensures
        match r {
            Some(JobListSource::List(k)) => list_source(status@, queue@) == Some((false, k@)),
            Some(JobListSource::SortedSet(k)) => list_source(status@, queue@) == Some((true, k@)),
            None => list_source(status@, queue@) is None,
        },
{
    if str_eq(status, "pending") {
        Some(JobListSource::List(queue_key(queue)))
    } else if str_eq(status, "failed") {
        Some(JobListSource::List(failed_key(queue)))
    } else if str_eq(status, "success") {
        Some(JobListSource::List(success_key(queue)))
    } else if str_eq(status, "delayed") {
        Some(JobListSource::SortedSet(owned(DELAYED_JOBS_KEY)))
    } else {
        None
    }
}

/// The writes that retry job `id` of `queue`: its id at the back of the queue, its status
/// back to `pending`, and its failure fields removed.
pub open spec fn retry_ops(id: Seq<char>, queue: Seq<char>) -> Seq<OpView> {
    seq![
        OpView::PushBack { key: queue_key_text(queue), value: id },
        OpView::HashSet { key: job_key_text(id), fields: seq![("status"@, "pending"@)] },
        OpView::HashDelete { key: job_key_text(id), names: seq!["failed_at"@, "error"@] },
    ]
}

/// The writes that retry job `job_id`, whose hash names `queue`.
pub fn retry_job(job_id: &str, queue: &str) -> (r: Vec<RedisOp>)
    ensures
        ops_view(r@) == retry_ops(job_id@, queue@),
{
    let fields = vec![field("status", owned("pending"))];
    assert(pairs_view(fields@) =~= seq![("status"@, "pending"@)]);
    let names = vec![owned("failed_at"), owned("error")];
    assert(names@.map_values(|f: String| f@) =~= seq!["failed_at"@, "error"@]);
    let r = vec![
        RedisOp::PushBack { key: queue_key(queue), value: owned(job_id) },
        RedisOp::HashSet { key: job_key(job_id), fields },
        RedisOp::HashDelete { key: job_key(job_id), names },
    ];
    assert(ops_view(r@) =~= retry_ops(job_id@, queue@));
    r
}

/// Retrying every failed job: the retry writes of each job whose hash names a queue, in
/// order (jobs whose queue is unknown are skipped); the caller then deletes the failed
/// list.
pub open spec fn retry_all_ops(ids: Seq<Seq<char>>, queues: Seq<Option<Seq<char>>>) -> Seq<OpView>
    decreases ids.len(),
{
    if ids.len() == 0 || queues.len() == 0 {
        Seq::empty()
    } else {
        let rest = retry_all_ops(ids.drop_last(), queues.drop_last());
        match queues.last() {
            Some(q) => rest + retry_ops(ids.last(), q),
            None => rest,
        }
    }
}

/// The number of failed jobs that retrying all of them puts back on a queue.
pub open spec fn retried_count(queues: Seq<Option<Seq<char>>>) -> nat
    decreases queues.len(),
{
    if queues.len() == 0 {
        0
    } else {
        retried_count(queues.drop_last()) + if queues.last() is Some { 1nat } else { 0nat }
    }
}

/// The writes that retry all failed jobs `ids`, where `queues[i]` is the queue named by
/// the hash of job `ids[i]`, if any; the writes end with the deletion of the failed list.
/// Also the number of jobs retried.
pub fn retry_all_jobs(ids: &Vec<String>, queues: &Vec<Option<String>>) -> (r: (Vec<RedisOp>, usize))
    requires
        ids.len() == queues.len(),
    ensures
        ops_view(r.0@) == retry_all_ops(
            strings_view(ids@),
            queues@.map_values(|o: Option<String>| crate::jconfig::opt_view(o)),
        ).push(OpView::Delete { key: FAILED_JOBS_KEY@ }),
        r.1 == retried_count(queues@.map_values(|o: Option<String>| crate::jconfig::opt_view(o))),
{
    let ghost iv = strings_view(ids@);
    let ghost qv = queues@.map_values(|o: Option<String>| crate::jconfig::opt_view(o));
    let mut r: Vec<RedisOp> = Vec::new();
    let mut count: usize = 0;
    let mut i: usize = 0;
    assert(iv.take(0) =~= Seq::<Seq<char>>::empty());
    assert(ops_view(r@) =~= Seq::<OpView>::empty());
    while i < ids.len()
        invariant
            i <= ids.len(),
            ids.len() == queues.len(),
            iv == strings_view(ids@),
            qv == queues@.map_values(|o: Option<String>| crate::jconfig::opt_view(o)),
            ops_view(r@) == retry_all_ops(iv.take(i as int), qv.take(i as int)),
            count == retried_count(qv.take(i as int)),
            count <= i,
        decreases ids.len() - i,
    {
        assert(iv.take(i + 1).drop_last() =~= iv.take(i as int));
        assert(qv.take(i + 1).drop_last() =~= qv.take(i as int));
        assert(qv.take(i + 1).last() == qv[i as int]);
        assert(iv.take(i + 1).last() == ids[i as int]@);
        match &queues[i] {
            Some(q) => {
                let ghost before = r@;
                let mut more = retry_job(ids[i].as_str(), q.as_str());
                r.append(&mut more);
                assert(ops_view(r@) =~= ops_view(before) + retry_ops(ids[i as int]@, q@));
                count = count + 1;
            },
            None => {},
        }
        i = i + 1;
    }
    assert(iv.take(ids.len() as int) =~= iv);
    assert(qv.take(ids.len() as int) =~= qv);
    let ghost before = r@;
    r.push(RedisOp::Delete { key: owned(FAILED_JOBS_KEY) });
    assert(ops_view(r@) =~= ops_view(before).push(OpView::Delete { key: FAILED_JOBS_KEY@ }));
    (r, count)
}

/// The writes that delete every failed job `ids`: each job's hash, then the failed list.
pub open spec fn delete_failed_ops(ids: Seq<Seq<char>>) -> Seq<OpView>
    decreases ids.len(),
{
    if ids.len() == 0 {
        seq![OpView::Delete { key: FAILED_JOBS_KEY@ }]
    } else {
        seq![OpView::Delete { key: job_key_text(ids[0]) }] + delete_failed_ops(ids.drop_first())
    }
}

/// The writes that delete (or clear) all failed jobs `ids`.
pub fn delete_failed_jobs(ids: &Vec<String>) -> (r: Vec<RedisOp>)
    ensures
        ops_view(r@) == delete_failed_ops(strings_view(ids@)),
{
    let ghost iv = strings_view(ids@);
    let mut r: Vec<RedisOp> = Vec::new();
    let mut i: usize = 0;
    assert(iv.skip(0) =~= iv);
    assert(ops_view(r@) + delete_failed_ops(iv.skip(0)) =~= delete_failed_ops(iv));
    while i < ids.len()
        invariant
            i <= ids.len(),
            iv == strings_view(ids@),
            ops_view(r@) + delete_failed_ops(iv.skip(i as int)) == delete_failed_ops(iv),
        decreases ids.len() - i,
    {
        let ghost before = r@;
        r.push(RedisOp::Delete { key: job_key(ids[i].as_str()) });
        assert(iv.skip(i as int).drop_first() =~= iv.skip(i + 1));
        assert(iv.skip(i as int)[0] == ids[i as int]@);
        assert(ops_view(r@) =~= ops_view(before).push(
            OpView::Delete { key: job_key_text(ids[i as int]@) },
        ));
        assert(ops_view(r@) + delete_failed_ops(iv.skip(i + 1)) =~= ops_view(before)
            + delete_failed_ops(iv.skip(i as int)));
        i = i + 1;
    }
    let ghost before = r@;
    r.push(RedisOp::Delete { key: owned(FAILED_JOBS_KEY) });
    assert(iv.skip(ids.len() as int) =~= Seq::<Seq<char>>::empty());
    assert(ops_view(r@) =~= ops_view(before) + delete_failed_ops(iv.skip(ids.len() as int)));
    r
}

/// The sum of the first `n` counts.
pub open spec fn count_sum(counts: Seq<usize>, n: int) -> int
    decreases n,
{
    if n <= 0 {
        0
    } else {
        count_sum(counts, n - 1) + counts[n - 1]
    }
}

/// The sum of job counts, as the status report and the clearing of all queues add them.
pub fn total_count(counts: &Vec<usize>) -> (r: usize)
    requires
        forall|k: int| 0 <= k <= counts.len() ==> #[trigger] count_sum(counts@, k) <= usize::MAX,
    ensures
        r == count_sum(counts@, counts.len() as int),
{
    let mut total: usize = 0;
    let mut i: usize = 0;
    while i < counts.len()
        invariant
            i <= counts.len(),
            forall|k: int| 0 <= k <= counts.len() ==> #[trigger] count_sum(counts@, k) <= usize::MAX,
            total == count_sum(counts@, i as int),
        decreases counts.len() - i,
    {
        assert(count_sum(counts@, i + 1) <= usize::MAX);
        total = total + counts[i];
        i = i + 1;
    }
    total
}

/// The writes that clear queue `queue`: the deletion of its pending list.
pub fn clear_queue(queue: &str) -> (r: RedisOp)
    ensures
        r@ == (OpView::Delete { key: queue_key_text(queue@) }),
{
    RedisOp::Delete { key: queue_key(queue) }
}

/// The write that enables or disables cron job `job_id` from the command line (which,
/// unlike the scheduler, leaves the schedule as it is).
pub fn set_cron_enabled(job_id: &str, enabled: bool) -> (r: RedisOp)
    ensures
        r@ == (OpView::HashSet {
            key: cron_job_key_text(job_id@),
            fields: seq![("enabled"@, bool_text(enabled))],
        }),
{
    let fields = vec![field("enabled", format_bool(enabled))];
    assert(pairs_view(fields@) =~= seq![("enabled"@, bool_text(enabled))]);
    RedisOp::HashSet { key: cron_job_key(job_id), fields }
}

/// A row of the command line's cron job table.
#[derive(Clone, Debug)]
pub struct CronRow {
    pub id: String,
    pub name: String,
    pub schedule: String,
    pub enabled: bool,
    pub next_run: String,
}

/// The stored text of a field, or `unknown`.
pub open spec fn text_or_unknown(fields: Seq<(Seq<char>, Seq<char>)>, name: Seq<char>) -> Seq<char> {
    match lookup(fields, name) {
        Some(v) => v,
        None => "unknown"@,
    }
}

fn get_or_unknown(fields: &Vec<(String, String)>, name: &str) -> (r: String)
    ensures
        r@ == text_or_unknown(pairs_view(fields@), name@),
{
    match hash_get(fields, name) {
        Some(v) => v.clone(),
        None => owned("unknown"),
    }
}

/// The table row of the cron job stored under `key` with `fields`: its id is the key
/// after `snm:cron:jobs:` (`unknown` where the key lacks that prefix), missing texts read
/// `unknown`, and it is enabled only where its `enabled` field is `true`.
pub fn cron_row(key: &str, fields: &Vec<(String, String)>) -> (r: CronRow)
    ensures
        r.id@ == (if crate::text::has_prefix(key@, "snm:cron:jobs:"@) {
            key@.skip(("snm:cron:jobs:"@).len() as int)
        } else {
            "unknown"@
        }),
        r.name@ == text_or_unknown(pairs_view(fields@), "name"@),
        r.schedule@ == text_or_unknown(pairs_view(fields@), "cron_expression"@),
        r.enabled == (lookup(pairs_view(fields@), "enabled"@) == Some("true"@)),
        r.next_run@ == text_or_unknown(pairs_view(fields@), "next_run"@),
{
    let id = match strip_prefix(key, "snm:cron:jobs:") {
        Some(i) => owned(i),
        None => owned("unknown"),
    };
    proof { reveal_strlit("true"); }
    let enabled = match hash_get(fields, "enabled") {
        Some(v) => str_eq(v.as_str(), "true"),
        None => false,
    };
    CronRow {
        id,
        name: get_or_unknown(fields, "name"),
        schedule: get_or_unknown(fields, "cron_expression"),
        enabled,
        next_run: get_or_unknown(fields, "next_run"),
    }
}

/// Running a stored cron job by hand from the command line at `now` as job `new_job_id`:
/// the writes that enqueue its payload on its queue, where its hash holds both; `None`
/// otherwise (the command line reports the job data as invalid).
pub fn run_cron_job_now(fields: &Vec<(String, String)>, new_job_id: &str, now: UtcTime) -> (r:
    Option<Vec<RedisOp>>)
    requires
        now.wf(),
    ensures
        match (lookup(pairs_view(fields@), "payload"@), lookup(pairs_view(fields@), "queue"@)) {
            (Some(payload), Some(queue)) => r matches Some(ops) && ops_view(ops@)
                == enqueue_recorded_ops(
                new_job_id@,
                queue,
                payload,
                rfc3339_text(now.secs, now.nanos),
            ),
            _ => r is None,
        },
{
    let payload = hash_get(fields, "payload");
    let queue = hash_get(fields, "queue");
    match (payload, queue) {
        (Some(p), Some(q)) => Some(enqueue_recorded(new_job_id, q.as_str(), p.as_str(), now)),
        _ => None,
    }
}

/// The log lines shown for one queue in the overview of all queues: the first three of
/// those read, and how many more there were.
pub fn log_preview(lines: &Vec<String>) -> (r: (Vec<String>, usize))
    ensures
        r.0@ == lines@.take(if lines.len() < 3 { lines.len() as int } else { 3 }),
        r.1 == (if lines.len() > 3 { lines.len() - 3 } else { 0 }),
{
    let mut shown: Vec<String> = Vec::new();
    let mut i: usize = 0;
    while i < lines.len() && i < 3
        invariant
            i <= lines.len(),
            i <= 3,
            shown@ == lines@.take(i as int),
        decreases lines.len() - i,
    {
        shown.push(lines[i].clone());
        assert(shown@ =~= lines@.take(i + 1));
        i = i + 1;
    }
    let more = if lines.len() > 3 { lines.len() - 3 } else { 0 };
    (shown, more)
}

/// The payload that `qrush jobs enqueue` stores for a job of type `job_type` on `queue`
/// whose own payload is the JSON text `payload`: the object with members `job_type`,
/// `queue` and the value parsed from `payload`, as `serde_json` writes it.
pub open spec fn cli_payload_text(job_type: Seq<char>, payload: Seq<char>, queue: Seq<char>) -> Seq<
    char,
> {
    json_object_text(
        seq![("job_type"@, job_type), ("queue"@, queue)],
        Seq::empty(),
        Seq::empty(),
        seq![("payload"@, payload)],
    )
}

/// The payload that the command line stores for a job it enqueues, or `None` where the
/// payload given is not JSON.
pub fn cli_job_payload(job_type: &str, payload: &str, queue: &str) -> (r: Option<String>)
    ensures
        r is Some <==> json_parses(payload@),
        r matches Some(s) ==> s@ == cli_payload_text(job_type@, payload@, queue@),
{
    let texts = vec![field("job_type", owned(job_type)), field("queue", owned(queue))];
    let numbers: Vec<(String, u64)> = Vec::new();
    let lists: Vec<(String, Vec<String>)> = Vec::new();
    let raws = vec![field("payload", owned(payload))];
    assert(pairs_view(texts@) =~= seq![("job_type"@, job_type@), ("queue"@, queue@)]);
    assert(numbers_view(numbers@) =~= Seq::<(Seq<char>, u64)>::empty());
    assert(lists_view(lists@) =~= Seq::<(Seq<char>, Seq<Seq<char>>)>::empty());
    assert(pairs_view(raws@) =~= seq![("payload"@, payload@)]);
    assert(pairs_view(raws@)[0].1 == payload@);
    json_object(&texts, &numbers, &lists, &raws)
}

/// The writes of `qrush jobs enqueue`: `None` where the payload is not JSON; otherwise,
/// over the stored payload, the writes that delay the job by `delay` seconds from `now`
/// where a delay is given, and those that queue it at once and record its queue where none
/// is.
pub open spec fn enqueue_command_spec(
    job_type: Seq<char>,
    payload: Seq<char>,
    queue: Seq<char>,
    job_id: Seq<char>,
    delay: Option<u64>,
    now: UtcTime,
) -> Option<Seq<OpView>> {
    if !json_parses(payload) {
        None
    } else {
        let text = cli_payload_text(job_type, payload, queue);
        let created = rfc3339_text(now.secs, now.nanos);
        match delay {
            Some(d) => Some(
                enqueue_delayed_ops(job_id, queue, text, created, run_at_second(now, d) as i64),
            ),
            None => Some(enqueue_recorded_ops(job_id, queue, text, created)),
        }
    }
}

/// The writes that enqueue job `job_id` of type `job_type` on `queue` from the command
/// line, with the JSON text `payload`, delayed by `delay` seconds where that is given.
pub fn enqueue_command_ops(
    job_type: &str,
    payload: &str,
    queue: &str,
    job_id: &str,
    delay: Option<u64>,
    now: UtcTime,
) -> (r: Option<Vec<RedisOp>>)
    requires
        now.wf(),
        delay matches Some(d) ==> i64::MIN <= run_at_second(now, d) <= i64::MAX,
    ensures
        match r {
            Some(ops) => enqueue_command_spec(job_type@, payload@, queue@, job_id@, delay, now)
                == Some(ops_view(ops@)),
            None => enqueue_command_spec(job_type@, payload@, queue@, job_id@, delay, now) is None,
        },
{
    let text = match cli_job_payload(job_type, payload, queue) {
        Some(t) => t,
        None => return None,
    };
    match delay {
        Some(d) => Some(enqueue_in(job_id, queue, text.as_str(), d, now)),
        None => Some(enqueue_recorded(job_id, queue, text.as_str(), now)),
    }
}

/// The record that `qrush start` stores for a worker, as `serde_json` writes it: its id,
/// host, process id, queues and concurrency, and `now` as both its start and its last
/// sighting.
pub open spec fn worker_record_text(
    id: Seq<char>,
    hostname: Seq<char>,
    pid: u64,
    queues: Seq<Seq<char>>,
    concurrency: u64,
    now: UtcTime,
) -> Seq<char> {
    let at = rfc3339_text(now.secs, now.nanos);
    json_object_text(
        seq![("id"@, id), ("hostname"@, hostname), ("started_at"@, at), ("last_seen"@, at)],
        seq![("pid"@, pid), ("concurrency"@, concurrency)],
        seq![("queues"@, queues)],
        Seq::empty(),
    )
}

/// The record of a worker started at `now`.
pub fn worker_record(
    id: &str,
    hostname: &str,
    pid: u64,
    queues: &Vec<String>,
    concurrency: u64,
    now: UtcTime,
) -> (r: String)
    requires
        now.wf(),
    ensures
        r@ == worker_record_text(id@, hostname@, pid, strings_view(queues@), concurrency, now),
{
    let at = format_rfc3339(now);
    let texts = vec![
        field("id", owned(id)),
        field("hostname", owned(hostname)),
        field("started_at", at.clone()),
        field("last_seen", at),
    ];
    let numbers = vec![(owned("pid"), pid), (owned("concurrency"), concurrency)];
    let lists = vec![(owned("queues"), queues.clone())];
    let raws: Vec<(String, String)> = Vec::new();
    let ghost t = rfc3339_text(now.secs, now.nanos);
    assert(pairs_view(texts@) =~= seq![
        ("id"@, id@),
        ("hostname"@, hostname@),
        ("started_at"@, t),
        ("last_seen"@, t),
    ]);
    assert(numbers_view(numbers@) =~= seq![("pid"@, pid), ("concurrency"@, concurrency)]);
    assert(lists_view(lists@) =~= seq![("queues"@, strings_view(queues@))]);
    assert(pairs_view(raws@) =~= Seq::<(Seq<char>, Seq<char>)>::empty());
    match json_object(&texts, &numbers, &lists, &raws) {
        Some(r) => r,
        None => {
            proof {
                assert(false);
            }
            String::new()
        },
    }
}

/// A worker as `qrush status -v` lists it.
#[derive(Clone, Debug)]
pub struct WorkerLine {
    pub id: String,
    pub pid: u64,
    pub hostname: String,
    pub queues: Option<Vec<String>>,
}

/// The content of a `WorkerLine`.
pub struct WorkerLineView {
    pub id: Seq<char>,
    pub pid: u64,
    pub hostname: Seq<char>,
    pub queues: Option<Seq<Seq<char>>>,
}

impl View for WorkerLine {
    type V = WorkerLineView;

    open spec fn view(&self) -> WorkerLineView {
        WorkerLineView {
            id: self.id@,
            pid: self.pid,
            hostname: self.hostname@,
            queues: match self.queues {
                Some(q) => Some(strings_view(q@)),
                None => None,
            },
        }
    }
}

/// A string read from a record, or `unknown` where there is none.
pub open spec fn or_unknown(o: Option<Seq<char>>) -> Seq<char> {
    match o {
        Some(s) => s,
        None => "unknown"@,
    }
}

/// What `qrush status -v` shows of the worker record `record`: nothing where it is not
/// JSON; otherwise its `id` and `hostname` strings (`unknown` where missing), its `pid`
/// number (0 where missing), and, where `queues` is an array, each item's string
/// (`unknown` where an item is not a string).
pub open spec fn worker_line_spec(record: Seq<char>) -> Option<WorkerLineView> {
    if !json_parses(record) {
        None
    } else {
        Some(
            WorkerLineView {
                id: or_unknown(json_string_field(record, "id"@)),
                pid: match json_u64_field(record, "pid"@) {
                    Some(n) => n,
                    None => 0,
                },
                hostname: or_unknown(json_string_field(record, "hostname"@)),
                queues: match json_string_items(record, "queues"@) {
                    Some(items) => Some(items.map_values(|o: Option<Seq<char>>| or_unknown(o))),
                    None => None,
                },
            },
        )
    }
}

/// The text of `o`, or `unknown`.
fn string_or_unknown(o: Option<String>) -> (r: String)
    ensures
        r@ == or_unknown(opt_view(o)),
{
    match o {
        Some(s) => s,
        None => owned("unknown"),
    }
}

/// Reads the worker record `record` into the line that lists it.
pub fn worker_line(record: &str) -> (r: Option<WorkerLine>)
    ensures
        match r {
            Some(w) => worker_line_spec(record@) == Some(w@),
            None => worker_line_spec(record@) is None,
        },
{
    if !parses_as_json(record) {
        return None;
    }
    let id = string_or_unknown(json_string_member(record, "id"));
    let pid = match json_u64_member(record, "pid") {
        Some(n) => n,
        None => 0,
    };
    let hostname = string_or_unknown(json_string_member(record, "hostname"));
    let queues = match json_string_list_member(record, "queues") {
        Some(items) => {
            let ghost iv = items@.map_values(|o: Option<String>| opt_view(o));
            let mut names: Vec<String> = Vec::new();
            let mut i: usize = 0;
            while i < items.len()
                invariant
                    i <= items.len(),
                    iv == items@.map_values(|o: Option<String>| opt_view(o)),
                    strings_view(names@) =~= iv.take(i as int).map_values(
                        |o: Option<Seq<char>>| or_unknown(o),
                    ),
                decreases items.len() - i,
            {
                let name = string_or_unknown(items[i].clone());
                let ghost before = strings_view(names@);
                names.push(name);
                assert(strings_view(names@) =~= before.push(name@));
                assert(iv.take(i + 1) =~= iv.take(i as int).push(iv[i as int]));
                i = i + 1;
            }
            assert(iv.take(i as int) =~= iv);
            Some(names)
        },
        None => None,
    };
    let w = WorkerLine { id, pid, hostname, queues };
    Some(w)
}

/// The last index of `LRANGE`/`ZRANGE` that reads the first `limit` items (indices count
/// from 0 and the last is included, so a limit of 0 gives -1, which reads every item):
/// `limit` taken as an `isize`, less one.
pub fn list_range_stop(limit: usize) -> (r: isize)
    requires
        (limit as isize) > isize::MIN,
    ensures
        r == (limit as isize) - 1,
{
    (#[verifier::truncate] (limit as isize)) - 1
}

/// The last index of `LRANGE` that reads the newest `lines` log entries: `lines - 1` (so
/// 0 reads every entry).
pub fn log_range_stop(lines: isize) -> (r: isize)
    requires
        lines > isize::MIN,
    ensures
        r == lines - 1,
{
    lines - 1
}

/// Retrying all failed jobs pushes each job whose hash names a queue `q` at the back of
/// that queue.
pub proof fn law_retry_all_requeues_each_job(
    ids: Seq<Seq<char>>,
    queues: Seq<Option<Seq<char>>>,
    i: int,
    q: Seq<char>,
)
    requires
        ids.len() == queues.len(),
        0 <= i < ids.len(),
        queues[i] == Some(q),
    ensures
        retry_all_ops(ids, queues).contains(OpView::PushBack { key: queue_key_text(q), value: ids[i] }),
    decreases ids.len(),
{
    let x = OpView::PushBack { key: queue_key_text(q), value: ids[i] };
    let rest = retry_all_ops(ids.drop_last(), queues.drop_last());
    if i < ids.len() - 1 {
        law_retry_all_requeues_each_job(ids.drop_last(), queues.drop_last(), i, q);
        let k = choose|k: int| 0 <= k < rest.len() && rest[k] == x;
        match queues.last() {
            Some(p) => {
                assert((rest + retry_ops(ids.last(), p))[k] == x);
            },
            None => {},
        }
    } else {
        assert((rest + retry_ops(ids.last(), q))[rest.len() as int] == x);
    }
}

} // verus!
