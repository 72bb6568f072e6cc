use apalis_redis::config::Config;
use apalis_redis::context::RedisContext;
use apalis_redis::factory::split_text;
use apalis_redis::meta::MetaMap;

#[test]
fn context_defaults() {
    let c = RedisContext::default();
    assert_eq!(c.max_attempts, 5);
    assert_eq!(c.lock_by, None);
    assert!(c.run_at.is_none());
}

#[test]
fn metadata_reads_back_what_was_written() {
    let mut m = MetaMap::new();
    m.insert("a".to_owned(), "1".to_owned());
    m.insert("b".to_owned(), "2".to_owned());
    m.insert("a".to_owned(), "3".to_owned());
    assert_eq!(m.len(), 2);
    assert_eq!(m.get(&"a".to_owned()).map(|s| s.as_str()), Some("3"));
    assert_eq!(m.remove(&"a".to_owned()), Some("3".to_owned()));
    assert_eq!(m.remove(&"a".to_owned()), None);
    assert!(!m.contains_key(&"a".to_owned()));
    let copy = m.clone();
    assert_eq!(copy.into_entries(), vec![("b".to_owned(), "2".to_owned())]);
}

#[test]
fn keys_of_different_queues_differ() {
    let a = Config::default().queue("a");
    let b = Config::default().queue("b");
    assert_ne!(a.active_jobs_list(), b.active_jobs_list());
    assert_ne!(a.active_jobs_list(), a.signal_list());
    assert_ne!(a.workers_set(), a.worker_metadata_key());
}

#[test]
fn split_pieces_join_back() {
    let text = "tasks::ns:x";
    let parts = split_text(text, ':');
    assert_eq!(parts.len(), 4);
    assert!(parts.iter().all(|p| !p.contains(':')));
    assert_eq!(parts.join(":"), text);
}
