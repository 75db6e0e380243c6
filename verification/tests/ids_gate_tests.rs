use openclaw_desktop::gate::{inflight_key, worker_key, InflightRegistry, WorkerLockTable};
use openclaw_desktop::ids::{new_id, IdSource};

#[test]
fn new_id_joins_prefix_time_and_sequence() {
    assert_eq!(new_id("m", 1700000000123, 7), "m_1700000000123_7");
    assert_eq!(new_id("c", 0, 0), "c_0_0");
    assert_eq!(new_id("t", -5, 10), "t_-5_10");
    assert_eq!(new_id("m", i64::MIN, u64::MAX), "m_-9223372036854775808_18446744073709551615");
    assert_eq!(new_id("m", i64::MAX, 1), "m_9223372036854775807_1");
}

#[test]
fn id_source_counts_from_one() {
    let mut ids = IdSource::new();
    assert_eq!(ids.make("m", 10), "m_10_1");
    assert_eq!(ids.make("m", 10), "m_10_2");
    assert_eq!(ids.make("t", 11), "t_11_3");
}

#[test]
fn keys_keep_the_two_names_apart() {
    let k = inflight_key("p_1", "c_2");
    assert_eq!((k.first.as_str(), k.second.as_str()), ("p_1", "c_2"));
    let k = worker_key("p_1", "default");
    assert_eq!((k.first.as_str(), k.second.as_str()), ("p_1", "default"));
    let a = inflight_key("a::b", "c");
    let b = inflight_key("a", "b::c");
    assert!(a.first != b.first || a.second != b.second);
}

#[test]
fn names_with_colons_do_not_collide() {
    let mut reg = InflightRegistry::new();
    assert!(reg.acquire("a::b", "c"));
    assert!(!reg.is_inflight("a", "b::c"));
    assert!(reg.acquire("a", "b::c"));
    assert!(reg.acquire("a:", ":b::c"));
    assert!(!reg.acquire("a::b", "c"));
    reg.release("a", "b::c");
    assert!(reg.is_inflight("a::b", "c"));
    assert!(reg.is_inflight("a:", ":b::c"));
    assert!(!reg.is_inflight("a", "b::c"));

    let mut table = WorkerLockTable::new();
    let x = table.get_worker_lock("a::b", "c");
    let y = table.get_worker_lock("a", "b::c");
    let z = table.get_worker_lock("", "a::b::c");
    assert_eq!((x, y, z), (0, 1, 2));
    assert_eq!(table.get_worker_lock("a::b", "c"), 0);
    assert_eq!(table.get_worker_lock("a", "b::c"), 1);
    assert_eq!(table.len(), 3);
}

#[test]
fn acquire_is_exclusive_per_conversation() {
    let mut reg = InflightRegistry::new();
    assert!(!reg.is_inflight("p", "c1"));
    assert!(reg.acquire("p", "c1"));
    assert!(reg.is_inflight("p", "c1"));
    assert!(!reg.acquire("p", "c1"));
    assert!(reg.is_inflight("p", "c1"));
    assert!(reg.acquire("p", "c2"));
    assert!(reg.acquire("q", "c1"));
    reg.release("p", "c1");
    assert!(!reg.is_inflight("p", "c1"));
    assert!(reg.is_inflight("p", "c2"));
    assert!(reg.is_inflight("q", "c1"));
    assert!(reg.acquire("p", "c1"));
}

#[test]
fn release_is_idempotent() {
    let mut reg = InflightRegistry::new();
    reg.release("p", "c");
    assert!(reg.acquire("p", "c"));
    reg.release("p", "c");
    reg.release("p", "c");
    assert!(!reg.is_inflight("p", "c"));
    assert!(reg.acquire("p", "c"));
}

#[test]
fn worker_slots_are_stable() {
    let mut table = WorkerLockTable::new();
    assert_eq!(table.len(), 0);
    let a = table.get_worker_lock("p", "default");
    let b = table.get_worker_lock("p", "gpu");
    let a2 = table.get_worker_lock("p", "default");
    let c = table.get_worker_lock("q", "default");
    assert_eq!(a, 0);
    assert_eq!(b, 1);
    assert_eq!(a2, a);
    assert_eq!(c, 2);
    assert_eq!(table.len(), 3);
    assert_eq!(table.get_worker_lock("p", "gpu"), 1);
    assert_eq!(table.len(), 3);
}
