use ylong_http_client::pool::{same_origin, ConnectionPool, OriginKey, Scheme};

fn key(host: &str, port: u16) -> OriginKey {
    OriginKey { scheme: Scheme::Https, host: String::from(host), port }
}

#[test]
fn pooled_connection_is_checked_out_once() {
    let mut p = ConnectionPool::new();
    assert!(p.acquire(&key("a.com", 443)).is_none());
    assert!(p.insert(key("a.com", 443), 1, 10));
    assert!(p.acquire(&key("a.com", 443)).is_none());
    assert!(p.release(1, 20));
    assert_eq!(p.slot(0).last_used, 20);
    assert_eq!(p.acquire(&key("a.com", 443)), Some(1));
    assert!(p.slot(0).in_use);
    assert!(p.acquire(&key("a.com", 443)).is_none());
}

#[test]
fn pool_is_keyed_by_origin() {
    let mut p = ConnectionPool::new();
    p.insert(key("a.com", 443), 1, 0);
    p.insert(OriginKey { scheme: Scheme::Http, host: String::from("a.com"), port: 443 }, 2, 0);
    p.insert(key("a.com", 8443), 3, 0);
    for c in 1..=3 {
        assert!(p.release(c, 5));
    }
    assert_eq!(p.acquire(&key("a.com", 8443)), Some(3));
    assert_eq!(p.acquire(&key("b.com", 443)), None);
    assert_eq!(p.acquire(&key("a.com", 443)), Some(1));
    assert!(!same_origin(&key("a.com", 443), &key("a.com", 444)));
}

#[test]
fn pool_refuses_duplicates_and_evicts() {
    let mut p = ConnectionPool::new();
    assert!(p.insert(key("a.com", 443), 7, 0));
    assert!(!p.insert(key("b.com", 443), 7, 0));
    assert_eq!(p.len(), 1);
    assert!(!p.release(8, 1));
    assert!(p.release(7, 1));
    assert!(!p.release(7, 2));
    assert!(p.evict(7));
    assert!(!p.evict(7));
    assert_eq!(p.len(), 0);
    assert!(p.acquire(&key("a.com", 443)).is_none());
}
