use qrush::dashboard::{
    checked_page_totals, delayed_for_queue, export_id, job_action, list_bounds, page_bounds, page_totals, retry_job, sample_delayed,
    QueueMetrics,
};
use qrush::config::QueueConfig;
use qrush::jconfig::{extract_job_type, job_info_from_fields, to_job_info};
use qrush::ops::RedisOp;

fn pairs(v: &[(&str, &str)]) -> Vec<(String, String)> {
    v.iter().map(|(a, b)| (a.to_string(), b.to_string())).collect()
}

#[test]
fn reads_the_job_type_from_the_payload() {
    assert_eq!(extract_job_type("{\"job_type\":\"NotifyUser\",\"x\":1}"), Some("NotifyUser".to_string()));
    assert_eq!(extract_job_type("{\"job_type\":5}"), None);
    assert_eq!(extract_job_type("{\"other\":\"a\"}"), None);
    assert_eq!(extract_job_type("not json"), None);
    assert_eq!(extract_job_type("[1,2]"), None);
}

#[test]
fn job_info_of_a_handler() {
    let info = to_job_info("NotifyUser", "default", "q_0");
    assert_eq!(info.id, "q_0");
    assert_eq!(info.job_type, "NotifyUser");
    assert_eq!(info.queue.as_deref(), Some("default"));
    assert_eq!(info.payload.as_deref(), Some("N/A"));
    assert_eq!(info.status, None);
}

#[test]
fn job_info_from_a_hash() {
    let info = job_info_from_fields("abc", &pairs(&[
        ("queue", "default"),
        ("status", "pending"),
        ("payload", "{\"job_type\":\"NotifyUser\"}"),
        ("created_at", "t0"),
        ("other", "ignored"),
    ]));
    assert_eq!(info.id, "abc");
    assert_eq!(info.job_type, "NotifyUser");
    assert_eq!(info.queue.as_deref(), Some("default"));
    assert_eq!(info.status.as_deref(), Some("pending"));
    assert_eq!(info.created_at.as_deref(), Some("t0"));
    assert_eq!(info.run_at, None);
    let plain = job_info_from_fields("x", &pairs(&[("payload", "{}")]));
    assert_eq!(plain.job_type, "unknown");
    assert_eq!(plain.payload.as_deref(), Some("{}"));
}

#[test]
fn pages_of_ten_queues() {
    assert_eq!(page_bounds(1, 3), (0, 3, false));
    assert_eq!(page_bounds(1, 10), (0, 10, false));
    assert_eq!(page_bounds(1, 11), (0, 10, true));
    assert_eq!(page_bounds(2, 25), (10, 20, true));
    assert_eq!(page_bounds(3, 25), (20, 25, false));
    assert_eq!(page_bounds(5, 25), (25, 25, false));
}

#[test]
fn pages_of_a_listing() {
    assert_eq!(list_bounds(1, 20, 5), (0, 5, false));
    assert_eq!(list_bounds(2, 2, 5), (2, 4, true));
    assert_eq!(list_bounds(3, 2, 5), (4, 5, false));
    assert_eq!(list_bounds(9, 2, 5), (5, 5, false));
    assert_eq!(list_bounds(usize::MAX, usize::MAX, 5), (5, 5, false));
    assert_eq!(list_bounds(1, 0, 5), (0, 0, true));
}

#[test]
fn delayed_jobs_of_a_queue() {
    let ids = vec!["a".to_string(), "b".to_string(), "c".to_string()];
    let queues = vec![Some("default".to_string()), None, Some("default".to_string())];
    assert_eq!(delayed_for_queue(&ids, &queues, "default"), vec!["a".to_string(), "c".to_string()]);
    assert!(delayed_for_queue(&ids, &queues, "other").is_empty());
    assert_eq!(sample_delayed(&ids), vec!["a".to_string(), "b".to_string()]);
    assert_eq!(sample_delayed(&vec!["z".to_string()]), vec!["z".to_string()]);
}

#[test]
fn queue_counts_and_totals() {
    let q = QueueConfig::new("default", 5, 1);
    let m = QueueMetrics::new(&q, 4, 2, 10, 3);
    assert_eq!((m.pending_jobs, m.delayed_jobs, m.total_jobs), (4, 2, 6));
    let n = QueueMetrics::new(&QueueConfig::new("c", 1, 0), 0, 0, 5, 7);
    assert_eq!(page_totals(&vec![m, n]), (15, 10));
    assert_eq!(page_totals(&vec![]), (0, 0));
}

#[test]
fn checked_totals_refuse_an_overflowing_page() {
    let q = QueueConfig::new("q", 1, 0);
    let small = QueueMetrics::new(&q, 0, 0, 10, 3);
    assert_eq!(checked_page_totals(&vec![small.clone(), small.clone()]), Some((20, 6)));
    let big = QueueMetrics::new(&q, 0, 0, isize::MAX, 0);
    assert_eq!(checked_page_totals(&vec![big.clone()]), Some((isize::MAX, 0)));
    assert_eq!(checked_page_totals(&vec![big, small]), None);
    let low = QueueMetrics::new(&q, 0, 0, 0, isize::MIN);
    assert_eq!(checked_page_totals(&vec![low.clone(), low]), None);
}

#[test]
fn dashboard_actions() {
    match job_action("delete", "j1", "critical").unwrap().as_slice() {
        [RedisOp::Delete { key }] => assert_eq!(key, "snm:job:j1"),
        other => panic!("unexpected {:?}", other),
    }
    match job_action("retry", "j1", "critical").unwrap().as_slice() {
        [RedisOp::PushBack { key, value }, RedisOp::HashSet { key: hkey, fields }, RedisOp::HashDelete { key: dkey, names }] => {
            assert_eq!((key.as_str(), value.as_str()), ("snm:queue:critical", "j1"));
            assert_eq!(hkey, "snm:job:j1");
            assert_eq!(fields, &vec![("status".to_string(), "pending".to_string())]);
            assert_eq!(dkey, "snm:job:j1");
            assert_eq!(names, &vec!["failed_at".to_string(), "error".to_string()]);
        }
        other => panic!("unexpected {:?}", other),
    }
    match job_action("queue", "j1", "critical").unwrap().as_slice() {
        [RedisOp::PushBack { key, value }, RedisOp::HashSet { key: hkey, fields }, RedisOp::SortedRemove { key: skey, member }] => {
            assert_eq!((key.as_str(), value.as_str()), ("snm:queue:critical", "j1"));
            assert_eq!(hkey, "snm:job:j1");
            assert_eq!(fields, &vec![("status".to_string(), "pending".to_string())]);
            assert_eq!((skey.as_str(), member.as_str()), ("snm:delayed_jobs", "j1"));
        }
        other => panic!("unexpected {:?}", other),
    }
    assert!(job_action("archive", "j1", "critical").is_none());
    assert!(job_action("", "j1", "critical").is_none());
    match retry_job("data") {
        RedisOp::PushBack { key, value } => assert_eq!((key.as_str(), value.as_str()), ("snm:queue:default", "data")),
        other => panic!("unexpected {:?}", other),
    }
    assert_eq!(export_id("default", 12), "default_12");
}
