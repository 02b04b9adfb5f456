use qrush::cron::scheduler::{CronJobDefinition, CronRun, CronRunError, CronScheduler};
use qrush::ops::RedisOp;
use qrush::queue::{enqueue, enqueue_in, enqueue_recorded};
use qrush::runner::{finish_job, promote_due_jobs};
use qrush::time::UtcTime;
use std::collections::{BTreeMap, HashMap, HashSet, VecDeque};

/// A small stand-in for Redis that applies the library's writes.
#[derive(Default)]
struct Sim {
    hashes: HashMap<String, BTreeMap<String, String>>,
    lists: HashMap<String, VecDeque<String>>,
    sorted: HashMap<String, BTreeMap<String, i64>>,
    sets: HashMap<String, HashSet<String>>,
    counters: HashMap<String, i64>,
}

impl Sim {
    fn apply(&mut self, ops: &[RedisOp]) {
        for op in ops {
            match op.clone() {
                RedisOp::HashSet { key, fields } => {
                    let h = self.hashes.entry(key).or_default();
                    for (f, v) in fields {
                        h.insert(f, v);
                    }
                }
                RedisOp::HashDelete { key, names } => {
                    let h = self.hashes.entry(key).or_default();
                    for n in names {
                        h.remove(&n);
                    }
                }
                RedisOp::PushBack { key, value } => self.lists.entry(key).or_default().push_back(value),
                RedisOp::PushFront { key, value } => self.lists.entry(key).or_default().push_front(value),
                RedisOp::Trim { key, start, stop } => {
                    let l = self.lists.entry(key).or_default();
                    let kept: VecDeque<String> =
                        l.iter().skip(start as usize).take((stop - start + 1) as usize).cloned().collect();
                    *l = kept;
                }
                RedisOp::SortedAdd { key, member, score } => {
                    self.sorted.entry(key).or_default().insert(member, score);
                }
                RedisOp::SortedRemove { key, member } => {
                    self.sorted.entry(key).or_default().remove(&member);
                }
                RedisOp::SetAdd { key, member } => {
                    self.sets.entry(key).or_default().insert(member);
                }
                RedisOp::Delete { key } => {
                    self.hashes.remove(&key);
                    self.lists.remove(&key);
                    self.sorted.remove(&key);
                    self.sets.remove(&key);
                    self.counters.remove(&key);
                }
                RedisOp::Increment { key, by } => *self.counters.entry(key).or_default() += by,
            }
        }
    }

    fn field(&self, key: &str, name: &str) -> Option<&str> {
        self.hashes.get(key).and_then(|h| h.get(name)).map(|s| s.as_str())
    }

    fn list(&self, key: &str) -> Vec<String> {
        self.lists.get(key).map(|l| l.iter().cloned().collect()).unwrap_or_default()
    }
}

const NOW: UtcTime = UtcTime { secs: 1704105015, nanos: 0 };

fn pairs(v: &[(&str, &str)]) -> Vec<(String, String)> {
    v.iter().map(|(a, b)| (a.to_string(), b.to_string())).collect()
}

#[test]
fn enqueued_job_reads_back_and_waits_at_the_back() {
    let mut sim = Sim::default();
    sim.apply(&enqueue("first", "default", "{}", NOW));
    sim.apply(&enqueue("abc123", "default", "{\"job_type\":\"NotifyUser\"}", NOW));
    assert_eq!(sim.list("snm:queue:default"), vec!["first".to_string(), "abc123".to_string()]);
    assert_eq!(sim.field("snm:job:abc123", "status"), Some("pending"));
    assert_eq!(sim.field("snm:job:abc123", "queue"), Some("default"));
    assert_eq!(sim.field("snm:job:abc123", "payload"), Some("{\"job_type\":\"NotifyUser\"}"));
    assert_eq!(sim.field("snm:job:abc123", "created_at"), Some("2024-01-01T10:30:15+00:00"));
    assert!(sim.sets.is_empty());
}

#[test]
fn recorded_enqueue_adds_the_queue_name() {
    let mut sim = Sim::default();
    sim.apply(&enqueue_recorded("j1", "critical", "p", NOW));
    assert_eq!(sim.list("snm:queue:critical"), vec!["j1".to_string()]);
    assert!(sim.sets["snm:queues"].contains("critical"));
}

#[test]
fn delayed_job_is_due_after_its_delay() {
    let mut sim = Sim::default();
    sim.apply(&enqueue_in("d1", "default", "p", 300, NOW));
    assert_eq!(sim.sorted["snm:delayed_jobs"]["d1"], 1704105015 + 300);
    assert_eq!(sim.field("snm:job:d1", "status"), Some("delayed"));
    assert_eq!(sim.field("snm:job:d1", "run_at"), Some("1704105315"));
    assert!(sim.lists.is_empty());
}

#[test]
fn promotion_moves_due_jobs_to_the_front_of_default() {
    let mut sim = Sim::default();
    sim.apply(&enqueue("queued", "default", "p", NOW));
    sim.apply(&enqueue_in("d1", "default", "p", 1, NOW));
    sim.apply(&enqueue_in("d2", "other", "p", 2, NOW));
    let due = vec!["d1".to_string(), "d2".to_string()];
    let ops = promote_due_jobs(&due);
    assert_eq!(ops.len(), 4);
    sim.apply(&ops);
    assert_eq!(sim.list("snm:queue:default"), vec!["d2".to_string(), "d1".to_string(), "queued".to_string()]);
    assert!(sim.sorted["snm:delayed_jobs"].is_empty());
    assert!(promote_due_jobs(&vec![]).is_empty());
}

#[test]
fn finished_job_records_success() {
    let mut sim = Sim::default();
    sim.apply(&enqueue("j", "default", "p", NOW));
    sim.apply(&finish_job("default", "j", true, NOW));
    assert_eq!(sim.field("snm:job:j", "status"), Some("success"));
    assert_eq!(sim.field("snm:job:j", "completed_at"), Some("2024-01-01T10:30:15+00:00"));
    assert_eq!(sim.counters["snm:qrush:success"], 1);
    assert_eq!(sim.list("snm:logs:default"), vec!["[2024-01-01 10:30:15 UTC] ✅ Job j succeeded".to_string()]);
    assert!(sim.list("snm:failed_jobs").is_empty());
}

#[test]
fn finished_job_records_failure() {
    let mut sim = Sim::default();
    sim.apply(&finish_job("critical", "j", false, NOW));
    assert_eq!(sim.field("snm:job:j", "status"), Some("failed"));
    assert_eq!(sim.field("snm:job:j", "failed_at"), Some("2024-01-01T10:30:15+00:00"));
    assert_eq!(sim.field("snm:job:j", "queue"), Some("critical"));
    assert_eq!(sim.counters["snm:qrush:failed"], 1);
    assert_eq!(sim.list("snm:failed_jobs"), vec!["j".to_string()]);
    assert_eq!(sim.list("snm:logs:critical"), vec!["[2024-01-01 10:30:15 UTC] ❌ Job j failed".to_string()]);
}

#[test]
fn logs_keep_their_latest_hundred_lines() {
    let mut sim = Sim::default();
    for i in 0..105 {
        sim.apply(&finish_job("default", &format!("j{}", i), true, NOW));
    }
    let logs = sim.list("snm:logs:default");
    assert_eq!(logs.len(), 100);
    assert!(logs[0].ends_with("Job j104 succeeded"));
}

fn daily() -> CronJobDefinition {
    CronJobDefinition {
        id: "daily_report".into(),
        name: "DailyReportJob".into(),
        queue: "default".into(),
        cron_expression: "0 0 9 * * *".into(),
        timezone: "UTC".into(),
        enabled: true,
    }
}

#[test]
fn registration_stores_and_schedules() {
    let reg = CronScheduler::register_cron_job(&daily(), "{\"report_type\":\"x\"}", NOW).unwrap();
    assert_eq!(reg.meta.next_run, "2024-01-02T09:00:00+00:00");
    assert_eq!(reg.meta.created_at, "2024-01-01T10:30:15+00:00");
    assert_eq!(reg.meta.last_run, None);
    let mut sim = Sim::default();
    sim.apply(&reg.ops);
    assert_eq!(sim.sorted["snm:cron:schedule"]["daily_report"], 1704186000);
    assert_eq!(sim.field("snm:cron:jobs:daily_report", "enabled"), Some("true"));
    assert_eq!(sim.field("snm:cron:jobs:daily_report", "cron_expression"), Some("0 0 9 * * *"));
    assert_eq!(sim.field("snm:cron:jobs:daily_report", "payload"), Some("{\"report_type\":\"x\"}"));
}

#[test]
fn registration_refuses_bad_expressions() {
    let mut def = daily();
    def.cron_expression = "every day".into();
    assert!(CronScheduler::register_cron_job(&def, "{}", NOW).is_err());
}

#[test]
fn due_job_plans() {
    assert!(matches!(CronScheduler::plan_run(&vec![]), CronRun::NotFound));
    assert!(matches!(
        CronScheduler::plan_run(&pairs(&[("enabled", "false"), ("payload", "p")])),
        CronRun::Disabled
    ));
    assert!(matches!(CronScheduler::plan_run(&pairs(&[("enabled", "TRUE")])), CronRun::Disabled));
    assert!(matches!(
        CronScheduler::plan_run(&pairs(&[("enabled", "true"), ("payload", "p")])),
        CronRun::Invalid(CronRunError::MissingCronExpression)
    ));
    assert!(matches!(
        CronScheduler::plan_run(&pairs(&[("enabled", "true"), ("cron_expression", "0 * * * * *")])),
        CronRun::Invalid(CronRunError::MissingPayload)
    ));
    match CronScheduler::plan_run(&pairs(&[
        ("enabled", "true"),
        ("cron_expression", "0 * * * * *"),
        ("payload", "p"),
    ])) {
        CronRun::Enqueue { payload, queue, cron_expression } => {
            assert_eq!((payload.as_str(), queue.as_str(), cron_expression.as_str()), ("p", "default", "0 * * * * *"));
        }
        other => panic!("unexpected {:?}", other),
    }
    assert_eq!(CronRunError::MissingPayload.message(), "Missing payload");
}

#[test]
fn rescheduling_after_a_run() {
    let mut sim = Sim::default();
    sim.apply(&CronScheduler::reschedule_after_run("c", "0 * * * * *", NOW));
    assert_eq!(sim.sorted["snm:cron:schedule"]["c"], 1704105060);
    assert_eq!(sim.field("snm:cron:jobs:c", "last_run"), Some("2024-01-01T10:30:15+00:00"));
    assert_eq!(sim.field("snm:cron:jobs:c", "next_run"), Some("2024-01-01T10:31:00+00:00"));
    let ops = CronScheduler::reschedule_after_run("c", "bad", NOW);
    sim.apply(&ops);
    assert!(!sim.sorted["snm:cron:schedule"].contains_key("c"));
}

#[test]
fn listing_fills_in_defaults() {
    let m = CronScheduler::list_entry("snm:cron:jobs:x", &vec![]).unwrap();
    assert_eq!((m.id.as_str(), m.name.as_str(), m.queue.as_str(), m.timezone.as_str()), ("x", "Unknown", "default", "UTC"));
    assert!(!m.enabled);
    assert_eq!(m.last_run, None);
    let m = CronScheduler::list_entry("snm:cron:jobs:y", &pairs(&[("enabled", "true"), ("last_run", "t")])).unwrap();
    assert!(m.enabled);
    assert_eq!(m.last_run.as_deref(), Some("t"));
    assert!(CronScheduler::list_entry("snm:job:x", &vec![]).is_none());
}

#[test]
fn toggling_and_deleting() {
    let mut sim = Sim::default();
    sim.apply(&CronScheduler::register_cron_job(&daily(), "p", NOW).unwrap().ops);
    sim.apply(&CronScheduler::toggle_cron_job("daily_report", false));
    assert_eq!(sim.field("snm:cron:jobs:daily_report", "enabled"), Some("false"));
    assert!(!sim.sorted["snm:cron:schedule"].contains_key("daily_report"));
    sim.apply(&CronScheduler::toggle_cron_job("daily_report", true));
    let fields: Vec<(String, String)> =
        sim.hashes["snm:cron:jobs:daily_report"].iter().map(|(a, b)| (a.clone(), b.clone())).collect();
    sim.apply(&CronScheduler::reschedule_enabled("daily_report", &fields, NOW));
    assert_eq!(sim.sorted["snm:cron:schedule"]["daily_report"], 1704186000);
    assert!(CronScheduler::reschedule_enabled("x", &vec![], NOW).is_empty());
    sim.apply(&CronScheduler::delete_cron_job("daily_report"));
    assert!(!sim.hashes.contains_key("snm:cron:jobs:daily_report"));
    assert!(!sim.sorted["snm:cron:schedule"].contains_key("daily_report"));
}

#[test]
fn running_a_cron_job_by_hand() {
    assert_eq!(CronScheduler::run_now(&vec![], "n", NOW).unwrap_err(), CronRunError::NotFound);
    assert_eq!(
        CronScheduler::run_now(&pairs(&[("queue", "q")]), "n", NOW).unwrap_err(),
        CronRunError::MissingPayload
    );
    let mut sim = Sim::default();
    sim.apply(&CronScheduler::run_now(&pairs(&[("payload", "p"), ("enabled", "false")]), "n", NOW).unwrap());
    assert_eq!(sim.list("snm:queue:default"), vec!["n".to_string()]);
    assert!(sim.sets["snm:queues"].contains("default"));
}

#[test]
fn retried_job_is_pending_again() {
    let mut sim = Sim::default();
    sim.apply(&enqueue("j", "critical", "p", NOW));
    // A worker takes the job from the front of its queue, and no handler accepts it.
    assert_eq!(sim.lists.get_mut("snm:queue:critical").unwrap().pop_front(), Some("j".to_string()));
    sim.apply(&finish_job("critical", "j", false, NOW));
    let mut job = sim.hashes["snm:job:j"].clone();
    job.insert("error".to_string(), "boom".to_string());
    sim.hashes.insert("snm:job:j".to_string(), job);
    sim.apply(&qrush::cli::retry_job("j", "critical"));
    assert_eq!(sim.field("snm:job:j", "status"), Some("pending"));
    assert_eq!(sim.field("snm:job:j", "failed_at"), None);
    assert_eq!(sim.field("snm:job:j", "error"), None);
    assert_eq!(sim.list("snm:queue:critical"), vec!["j".to_string()]);
}
