use qrush::cli::{
    cron_row, delete_failed_jobs, job_list_source, log_preview, numbered_id, parse_count_or,
    parse_queue_list, retry_all_jobs, retry_job, run_cron_job_now, set_cron_enabled, total_count,
    worker_id, clear_queue, JobListSource, cli_job_payload, enqueue_command_ops, worker_record,
    worker_line, list_range_stop, log_range_stop,
};
use qrush::ops::RedisOp;
use qrush::time::UtcTime;

fn pairs(v: &[(&str, &str)]) -> Vec<(String, String)> {
    v.iter().map(|(a, b)| (a.to_string(), b.to_string())).collect()
}

#[test]
fn reads_arguments() {
    assert_eq!(parse_queue_list("critical,default"), vec!["critical".to_string(), "default".to_string()]);
    assert_eq!(parse_queue_list("default"), vec!["default".to_string()]);
    assert_eq!(parse_count_or("10", 5), 10);
    assert_eq!(parse_count_or("ten", 5), 5);
    assert_eq!(parse_count_or("-3", 5), 5);
    assert_eq!(worker_id("host", 4242), "worker_host_4242");
    assert_eq!(numbered_id("test_", 17), "test_17");
}

#[test]
fn chooses_the_list_to_read() {
    assert!(matches!(job_list_source("pending", "q"), Some(JobListSource::List(k)) if k == "snm:queue:q"));
    assert!(matches!(job_list_source("failed", "q"), Some(JobListSource::List(k)) if k == "snm:failed:q"));
    assert!(matches!(job_list_source("success", "q"), Some(JobListSource::List(k)) if k == "snm:success:q"));
    assert!(matches!(job_list_source("delayed", "q"), Some(JobListSource::SortedSet(k)) if k == "snm:delayed_jobs"));
    assert!(job_list_source("done", "q").is_none());
}

#[test]
fn retries_jobs() {
    let ops = retry_job("j", "critical");
    assert!(matches!(&ops[0], RedisOp::PushBack { key, value } if key == "snm:queue:critical" && value == "j"));
    assert!(matches!(&ops[2], RedisOp::HashDelete { key, names } if key == "snm:job:j" && names == &vec!["failed_at".to_string(), "error".to_string()]));
    let ids = vec!["a".to_string(), "b".to_string()];
    let (all, count) = retry_all_jobs(&ids, &vec![None, Some("default".to_string())]);
    assert_eq!(count, 1);
    assert_eq!(all.len(), 4);
    assert!(matches!(all.last(), Some(RedisOp::Delete { key }) if key == "snm:failed_jobs"));
}

#[test]
fn deletes_and_clears() {
    let ops = delete_failed_jobs(&vec!["a".to_string(), "b".to_string()]);
    let keys: Vec<String> = ops.iter().map(|o| match o { RedisOp::Delete { key } => key.clone(), _ => panic!() }).collect();
    assert_eq!(keys, vec!["snm:job:a", "snm:job:b", "snm:failed_jobs"]);
    assert!(matches!(clear_queue("q"), RedisOp::Delete { key } if key == "snm:queue:q"));
    assert_eq!(total_count(&vec![3, 0, 4]), 7);
    assert_eq!(total_count(&vec![]), 0);
}

#[test]
fn cron_table_rows() {
    let row = cron_row("snm:cron:jobs:daily", &pairs(&[("name", "Daily"), ("enabled", "true")]));
    assert_eq!((row.id.as_str(), row.name.as_str(), row.schedule.as_str(), row.next_run.as_str()), ("daily", "Daily", "unknown", "unknown"));
    assert!(row.enabled);
    let other = cron_row("weird", &vec![]);
    assert_eq!(other.id, "unknown");
    assert!(!other.enabled);
    assert!(matches!(set_cron_enabled("daily", false), RedisOp::HashSet { key, fields } if key == "snm:cron:jobs:daily" && fields == pairs(&[("enabled", "false")])));
}

#[test]
fn runs_cron_jobs_from_the_command_line() {
    let now = UtcTime { secs: 0, nanos: 0 };
    assert!(run_cron_job_now(&pairs(&[("payload", "p")]), "n", now).is_none());
    let ops = run_cron_job_now(&pairs(&[("payload", "p"), ("queue", "q")]), "n", now).unwrap();
    assert_eq!(ops.len(), 3);
    assert!(matches!(&ops[1], RedisOp::PushBack { key, value } if key == "snm:queue:q" && value == "n"));
}

#[test]
fn previews_logs() {
    let lines: Vec<String> = (0..6).map(|i| format!("l{}", i)).collect();
    let (shown, more) = log_preview(&lines);
    assert_eq!(shown, vec!["l0".to_string(), "l1".to_string(), "l2".to_string()]);
    assert_eq!(more, 3);
    assert_eq!(log_preview(&vec!["x".to_string()]), (vec!["x".to_string()], 0));
}

fn hash_field(op: &RedisOp, name: &str) -> String {
    match op {
        RedisOp::HashSet { fields, .. } => fields.iter().find(|(f, _)| f == name).unwrap().1.clone(),
        other => panic!("unexpected {:?}", other),
    }
}

#[test]
fn builds_the_enqueued_payload() {
    assert_eq!(
        cli_job_payload("Notify", "{\"user\": 7, \"b\":[1, 2]}", "critical").as_deref(),
        Some("{\"job_type\":\"Notify\",\"payload\":{\"b\":[1,2],\"user\":7},\"queue\":\"critical\"}")
    );
    assert_eq!(
        cli_job_payload("a\"b", "null", "q").as_deref(),
        Some("{\"job_type\":\"a\\\"b\",\"payload\":null,\"queue\":\"q\"}")
    );
    assert_eq!(cli_job_payload("T", "not json", "q"), None);
    assert_eq!(cli_job_payload("T", "", "q"), None);
}

#[test]
fn enqueue_command_writes_the_payload() {
    let at = UtcTime { secs: 0, nanos: 0 };
    let ops = enqueue_command_ops("T", "{}", "q", "test_1", None, at).unwrap();
    assert_eq!(ops.len(), 3);
    assert_eq!(hash_field(&ops[0], "payload"), "{\"job_type\":\"T\",\"payload\":{},\"queue\":\"q\"}");
    assert_eq!(hash_field(&ops[0], "status"), "pending");
    match &ops[1] {
        RedisOp::PushBack { key, value } => assert_eq!((key.as_str(), value.as_str()), ("snm:queue:q", "test_1")),
        other => panic!("unexpected {:?}", other),
    }
    let delayed = enqueue_command_ops("T", "[1]", "q", "test_2", Some(30), at).unwrap();
    assert_eq!(hash_field(&delayed[0], "status"), "delayed");
    assert_eq!(hash_field(&delayed[0], "payload"), "{\"job_type\":\"T\",\"payload\":[1],\"queue\":\"q\"}");
    match &delayed[1] {
        RedisOp::SortedAdd { key, member, score } => {
            assert_eq!((key.as_str(), member.as_str(), *score), ("snm:delayed_jobs", "test_2", 30))
        }
        other => panic!("unexpected {:?}", other),
    }
    assert!(enqueue_command_ops("T", "{oops", "q", "test_3", Some(30), at).is_none());
}

#[test]
fn worker_records_read_back() {
    let queues = vec!["a".to_string(), "b\"c".to_string()];
    let rec = worker_record("h:1", "h", 1, &queues, 5, UtcTime { secs: 0, nanos: 0 });
    assert_eq!(
        rec,
        "{\"concurrency\":5,\"hostname\":\"h\",\"id\":\"h:1\",\"last_seen\":\"1970-01-01T00:00:00+00:00\",\"pid\":1,\"queues\":[\"a\",\"b\\\"c\"],\"started_at\":\"1970-01-01T00:00:00+00:00\"}"
    );
    let line = worker_line(&rec).unwrap();
    assert_eq!((line.id.as_str(), line.pid, line.hostname.as_str()), ("h:1", 1, "h"));
    assert_eq!(line.queues, Some(queues));
    let bare = worker_line("{}").unwrap();
    assert_eq!((bare.id.as_str(), bare.pid, bare.hostname.as_str()), ("unknown", 0, "unknown"));
    assert_eq!(bare.queues, None);
    let odd = worker_line("{\"queues\":[1,\"x\"],\"pid\":\"7\",\"id\":3}").unwrap();
    assert_eq!(odd.queues, Some(vec!["unknown".to_string(), "x".to_string()]));
    assert_eq!((odd.id.as_str(), odd.pid), ("unknown", 0));
    assert!(worker_line("nope").is_none());
}

#[test]
fn range_stops_count_from_zero() {
    assert_eq!(list_range_stop(10), 9);
    assert_eq!(list_range_stop(0), -1);
    assert_eq!(log_range_stop(50), 49);
    assert_eq!(log_range_stop(0), -1);
}
