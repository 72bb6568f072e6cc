use apalis_redis::config::{
    default_batch_size, default_events, default_heartbeat_interval, default_missed_heartbeats,
    Config,
};
use apalis_redis::duration::Duration;

#[test]
fn defaults_follow_the_documentation() {
    let c = Config::default();
    assert_eq!(c.batch_size, 10);
    assert_eq!(c.heartbeat_interval, Duration::from_secs(30));
    assert_eq!(c.missed_heartbeats, 2);
    assert_eq!(c.queue, "default");
    assert_eq!(c.database_url, None);
    assert!(c.lock_tasks);
    assert!(c.persist_results);
    assert!(c.emit_events);
    assert_eq!(c.idempotency_ttl, None);
    assert_eq!(default_batch_size(), 10);
    assert_eq!(default_heartbeat_interval(), Duration::from_secs(30));
    assert_eq!(default_missed_heartbeats(), 2);
    assert!(default_events());
}

#[test]
fn batch_size_sets_the_batch() {
    let config = Config::default().batch_size(50);
    assert_eq!(config.batch_size, 50);
}

#[test]
fn heartbeat_interval_sets_the_interval() {
    let config = Config::default().heartbeat_interval(Duration::from_secs(15));
    assert_eq!(config.heartbeat_interval, Duration::from_secs(15));
}

#[test]
fn queue_sets_the_queue() {
    let config = Config::default().queue("high-priority");
    assert_eq!(config.queue, "high-priority");
}

#[test]
fn missed_heartbeats_sets_the_orphan_timeout() {
    let config = Config::default().missed_heartbeats(3);
    assert_eq!(config.missed_heartbeats, 3);
    assert_eq!(config.orphaned_duration(), Duration::from_secs(90));
}

#[test]
fn orphaned_duration_keeps_sub_second_parts() {
    let config = Config::default()
        .heartbeat_interval(Duration::from_millis(1500))
        .missed_heartbeats(3);
    assert_eq!(config.orphaned_duration(), Duration::from_millis(4500));
    assert_eq!(config.orphaned_duration().as_secs(), 4);
    assert_eq!(config.orphaned_duration().subsec_nanos(), 500_000_000);
}

#[test]
fn database_url_sets_the_url() {
    let config = Config::default().database_url("redis://localhost/1".to_owned());
    assert_eq!(config.database_url.as_deref(), Some("redis://localhost/1"));
}

#[test]
fn flags_are_set() {
    let config = Config::default()
        .lock_tasks(false)
        .emit_events(false)
        .persist_results(false);
    assert!(!config.lock_tasks);
    assert!(!config.emit_events);
    assert!(!config.persist_results);
    assert_eq!(config.batch_size, 10);
}

#[test]
fn idempotency_ttl_sets_the_ttl() {
    let config = Config::default().idempotency_ttl(Some(Duration::from_secs(3600)));
    assert_eq!(config.idempotency_ttl, Some(Duration::from_secs(3600)));
}

#[test]
fn keys_are_named_after_the_queue() {
    let c = Config::default().queue("emails");
    assert_eq!(c.active_jobs_list(), "emails:active");
    assert_eq!(c.workers_set(), "emails:workers");
    assert_eq!(c.worker_metadata_key(), "emails:workers:");
    assert_eq!(c.dead_jobs_set(), "emails:dead");
    assert_eq!(c.done_jobs_set(), "emails:done");
    assert_eq!(c.failed_jobs_set(), "emails:failed");
    assert_eq!(c.inflight_jobs_set(), "emails:inflight");
    assert_eq!(c.inflight_worker_id("w1"), "emails:inflight:w1");
    assert_eq!(c.job_data_hash(), "emails:data");
    assert_eq!(c.job_meta_hash(), "emails:meta");
    assert_eq!(c.scheduled_jobs_set(), "emails:scheduled");
    assert_eq!(c.signal_list(), "emails:signal");
    assert_eq!(c.idempotency_key_set(), "emails:idempotency");
}

#[test]
fn duration_arithmetic() {
    assert_eq!(Duration::from_millis(2500).as_secs(), 2);
    assert_eq!(Duration::from_millis(2500).subsec_nanos(), 500_000_000);
    assert_eq!(Duration::new(1, 1_500_000_000), Duration::from_millis(2500));
    assert_eq!(Duration::from_secs(30).mul(2), Duration::from_secs(60));
    assert_eq!(Duration::from_secs(u64::MAX).checked_mul(2), None);
    assert_eq!(
        Duration::from_millis(500).checked_mul(3),
        Some(Duration::from_millis(1500))
    );
    assert_eq!(Duration::new(u64::MAX, 999_999_999).checked_mul(1), Some(Duration::new(u64::MAX, 999_999_999)));
}
