use qrush::config::{
    get_basic_auth, get_global_queues, get_redis_url, set_basic_auth, set_global_queues,
    set_redis_url, ConfigError, QrushBasicAuthConfig, QrushSettings, QueueConfig,
};
use qrush::ops::RedisOp;

#[test]
fn builds_queue_configs() {
    let q = QueueConfig::new("critical", 10, 0);
    assert_eq!((q.name.as_str(), q.concurrency, q.priority), ("critical", 10, 0));
    let qs = QueueConfig::from_configs(vec![("default", 5, 1), ("integrated", 3, 2)]);
    assert_eq!(qs.len(), 2);
    assert_eq!((qs[1].name.as_str(), qs[1].concurrency, qs[1].priority), ("integrated", 3, 2));
    assert!(QueueConfig::from_configs(vec![]).is_empty());
}

#[test]
fn redis_url_is_written_once() {
    let mut s = QrushSettings::new();
    assert!(!s.has_redis_url());
    assert_eq!(set_redis_url(&mut s, "redis://127.0.0.1:6379".to_string()), Ok(()));
    assert_eq!(get_redis_url(&s), "redis://127.0.0.1:6379");
    assert_eq!(set_redis_url(&mut s, "redis://other".to_string()), Err(ConfigError::RedisUrlAlreadySet));
    assert_eq!(get_redis_url(&s), "redis://127.0.0.1:6379");
    assert_eq!(ConfigError::RedisUrlAlreadySet.message(), "Redis URL already set");
}

#[test]
fn queues_are_written_once() {
    let mut s = QrushSettings::new();
    assert!(!s.has_queues());
    let first = vec![QueueConfig::new("default", 5, 1)];
    assert_eq!(set_global_queues(&mut s, first), Ok(()));
    assert_eq!(
        set_global_queues(&mut s, vec![QueueConfig::new("other", 1, 1)]),
        Err(ConfigError::QueuesAlreadyInitialized)
    );
    let qs = get_global_queues(&s);
    assert_eq!(qs.len(), 1);
    assert_eq!(qs[0].name, "default");
    assert_eq!(ConfigError::QueuesAlreadyInitialized.message(), "Queues already initialized");
    assert!(s.has_redis_url() == false);
}

#[test]
fn first_basic_auth_wins() {
    let mut s = QrushSettings::new();
    assert!(get_basic_auth(&s).is_none());
    set_basic_auth(&mut s, Some(QrushBasicAuthConfig { username: "admin".into(), password: "pw".into() }));
    set_basic_auth(&mut s, Some(QrushBasicAuthConfig { username: "x".into(), password: "y".into() }));
    assert_eq!(get_basic_auth(&s).unwrap().username, "admin");

    let mut open = QrushSettings::new();
    set_basic_auth(&mut open, None);
    set_basic_auth(&mut open, Some(QrushBasicAuthConfig { username: "x".into(), password: "y".into() }));
    assert!(get_basic_auth(&open).is_none());
}

#[test]
fn queue_metadata_is_recorded_as_text() {
    let ops = QueueConfig::new("default", 5, 12).metadata_ops();
    assert_eq!(ops.len(), 3);
    match &ops[0] {
        RedisOp::HashSet { key, fields } => {
            assert_eq!(key, "snm:queue:config:default");
            assert_eq!(fields, &vec![
                ("concurrency".to_string(), "5".to_string()),
                ("priority".to_string(), "12".to_string()),
            ]);
        }
        other => panic!("unexpected {:?}", other),
    }
    match &ops[2] {
        RedisOp::HashSet { fields, .. } => assert_eq!(fields, &vec![("priority".to_string(), "12".to_string())]),
        other => panic!("unexpected {:?}", other),
    }
}

#[test]
fn first_accepted_writes_last_through_interleaved_calls() {
    let mut s = QrushSettings::new();
    set_basic_auth(&mut s, None);
    assert!(set_global_queues(&mut s, vec![QueueConfig::new("a", 1, 0), QueueConfig::new("b", 2, 1)]).is_ok());
    assert!(set_redis_url(&mut s, "redis://first".to_string()).is_ok());
    for i in 0..3 {
        assert_eq!(set_redis_url(&mut s, format!("redis://later{}", i)), Err(ConfigError::RedisUrlAlreadySet));
        assert_eq!(set_global_queues(&mut s, vec![]), Err(ConfigError::QueuesAlreadyInitialized));
        set_basic_auth(&mut s, Some(QrushBasicAuthConfig { username: "u".into(), password: "p".into() }));
        assert_eq!(get_redis_url(&s), "redis://first");
        let names: Vec<&str> = get_global_queues(&s).iter().map(|q| q.name.as_str()).collect();
        assert_eq!(names, vec!["a", "b"]);
        assert!(get_basic_auth(&s).is_none());
    }
}
