//! The Redis keys under which the queue keeps its state.

use crate::text::joined;
use vstd::prelude::*;

verus! {

/// The set of the names of queues that have had jobs pushed by the scheduler or the CLI.
pub const QUEUES_SET_KEY: &'static str = "snm:queues";

/// The sorted set of delayed job ids, scored by the second at which they are due.
pub const DELAYED_JOBS_KEY: &'static str = "snm:delayed_jobs";

/// The list of ids of jobs that no handler accepted.
pub const FAILED_JOBS_KEY: &'static str = "snm:failed_jobs";

/// The list shown as dead jobs on the dashboard.
pub const DEAD_JOBS_KEY: &'static str = "snm:dead_jobs";

/// The counter of jobs that succeeded.
pub const SUCCESS_COUNTER_KEY: &'static str = "snm:qrush:success";

/// The counter of jobs that failed.
pub const FAILED_COUNTER_KEY: &'static str = "snm:qrush:failed";

/// The queue into which due delayed jobs and retried payloads are pushed.
pub const DEFAULT_QUEUE_KEY: &'static str = "snm:queue:default";

/// The sorted set of cron job ids, scored by the second of their next run.
pub const CRON_SCHEDULE_KEY: &'static str = "snm:cron:schedule";

/// The key of the pending-job list of `queue`.
pub open spec fn queue_key_text(queue: Seq<char>) -> Seq<char> {
    "snm:queue:"@ + queue
}

/// The key of the hash that describes job `id`.
pub open spec fn job_key_text(id: Seq<char>) -> Seq<char> {
    "snm:job:"@ + id
}

/// The key of the log list of `queue`.
pub open spec fn logs_key_text(queue: Seq<char>) -> Seq<char> {
    "snm:logs:"@ + queue
}

/// The key of the failed-job list of `queue`.
pub open spec fn failed_key_text(queue: Seq<char>) -> Seq<char> {
    "snm:failed:"@ + queue
}

/// The key of the succeeded-job list of `queue`.
pub open spec fn success_key_text(queue: Seq<char>) -> Seq<char> {
    "snm:success:"@ + queue
}

/// The key of the hash that describes cron job `id`.
pub open spec fn cron_job_key_text(id: Seq<char>) -> Seq<char> {
    "snm:cron:jobs:"@ + id
}

/// The key of the record of worker `id`.
pub open spec fn worker_key_text(id: Seq<char>) -> Seq<char> {
    "snm:worker:"@ + id
}

/// The key of the hash that stores the configuration of `queue`.
pub open spec fn queue_config_key_text(queue: Seq<char>) -> Seq<char> {
    "snm:queue:config:"@ + queue
}

/// `snm:queue:{queue}`
pub fn queue_key(queue: &str) -> (r: String)
    ensures
        r@ == queue_key_text(queue@),
{
    joined("snm:queue:", queue)
}

/// `snm:job:{id}`
pub fn job_key(id: &str) -> (r: String)
    ensures
        r@ == job_key_text(id@),
{
    joined("snm:job:", id)
}

/// `snm:logs:{queue}`
pub fn logs_key(queue: &str) -> (r: String)
    ensures
        r@ == logs_key_text(queue@),
{
    joined("snm:logs:", queue)
}

/// `snm:failed:{queue}`
pub fn failed_key(queue: &str) -> (r: String)
    ensures
        r@ == failed_key_text(queue@),
{
    joined("snm:failed:", queue)
}

/// `snm:success:{queue}`
pub fn success_key(queue: &str) -> (r: String)
    ensures
        r@ == success_key_text(queue@),
{
    joined("snm:success:", queue)
}

/// `snm:cron:jobs:{id}`
pub fn cron_job_key(id: &str) -> (r: String)
    ensures
        r@ == cron_job_key_text(id@),
{
    joined("snm:cron:jobs:", id)
}

/// `snm:worker:{id}`
pub fn worker_key(id: &str) -> (r: String)
    ensures
        r@ == worker_key_text(id@),
{
    joined("snm:worker:", id)
}

/// `snm:queue:config:{queue}`
pub fn queue_config_key(queue: &str) -> (r: String)
    ensures
        r@ == queue_config_key_text(queue@),
{
    joined("snm:queue:config:", queue)
}

} // verus!
