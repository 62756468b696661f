use cachegate::cache::CacheKey;
use cachegate::inflight::{Inflight, InflightEntry, InflightPermit};

fn key(path: &str) -> CacheKey {
    CacheKey::new("bucket".to_string(), path.to_string())
}

#[test]
fn first_acquire_leads_and_the_rest_follow() {
    let mut table = Inflight::new();
    let leader = match table.acquire(&key("a")) {
        InflightPermit::Leader(guard) => guard,
        InflightPermit::Follower(_) => panic!("first acquire must lead"),
    };
    assert!(leader.key.same(&key("a")));
    for _ in 0..99 {
        match table.acquire(&key("a")) {
            InflightPermit::Follower(entry) => assert_eq!(entry, leader.entry),
            InflightPermit::Leader(_) => panic!("only one leader per key"),
        }
    }
    assert_eq!(table.len(), 1);
}

#[test]
fn keys_are_led_independently() {
    let mut table = Inflight::new();
    let a = table.acquire(&key("a"));
    let b = table.acquire(&key("b"));
    assert!(matches!(a, InflightPermit::Leader(_)));
    assert!(matches!(b, InflightPermit::Leader(_)));
    assert_eq!(table.len(), 2);
}

#[test]
fn release_by_the_leader_frees_the_key() {
    let mut table = Inflight::new();
    let guard = match table.acquire(&key("a")) {
        InflightPermit::Leader(guard) => guard,
        InflightPermit::Follower(_) => panic!("first acquire must lead"),
    };
    let entry = guard.entry;
    assert!(guard.complete(&mut table));
    assert_eq!(table.len(), 0);
    match table.acquire(&key("a")) {
        InflightPermit::Leader(next) => assert_ne!(next.entry, entry),
        InflightPermit::Follower(_) => panic!("the key was released"),
    }
}

#[test]
fn stale_release_changes_nothing() {
    let mut table = Inflight::new();
    let first = match table.acquire(&key("a")) {
        InflightPermit::Leader(guard) => guard,
        InflightPermit::Follower(_) => panic!("first acquire must lead"),
    };
    let stale = first.entry;
    assert!(table.release(&key("a"), &stale));
    let second = match table.acquire(&key("a")) {
        InflightPermit::Leader(guard) => guard,
        InflightPermit::Follower(_) => panic!("the key was released"),
    };
    assert!(!table.release(&key("a"), &stale));
    assert_eq!(table.len(), 1);
    assert!(matches!(
        table.acquire(&key("a")),
        InflightPermit::Follower(entry) if entry == second.entry
    ));
    assert!(!table.release(&key("b"), &second.entry));
    assert!(!table.release(&key("a"), &InflightEntry { id: 999 }));
    assert!(table.release(&key("a"), &second.entry));
    assert!(!table.release(&key("a"), &second.entry));
    assert_eq!(table.len(), 0);
}

#[test]
fn release_of_one_key_leaves_the_others() {
    let mut table = Inflight::new();
    let a = match table.acquire(&key("a")) {
        InflightPermit::Leader(guard) => guard,
        InflightPermit::Follower(_) => panic!("first acquire must lead"),
    };
    let b = match table.acquire(&key("b")) {
        InflightPermit::Leader(guard) => guard,
        InflightPermit::Follower(_) => panic!("first acquire must lead"),
    };
    let c = match table.acquire(&key("c")) {
        InflightPermit::Leader(guard) => guard,
        InflightPermit::Follower(_) => panic!("first acquire must lead"),
    };
    assert!(b.complete(&mut table));
    assert!(matches!(
        table.acquire(&key("a")),
        InflightPermit::Follower(entry) if entry == a.entry
    ));
    assert!(matches!(
        table.acquire(&key("c")),
        InflightPermit::Follower(entry) if entry == c.entry
    ));
    assert!(matches!(table.acquire(&key("b")), InflightPermit::Leader(_)));
}
