use design_patterns::object_pool::Connection;
use design_patterns::object_pool::ConnectionPool;
use design_patterns::object_pool::Pool;
use std::sync::Arc;

#[test]
fn pool_of_three_serves_three_then_reports_exhaustion() {
    let mut pool = Pool::new(3);
    let a = pool.acquire().expect("first acquire");
    let b = pool.acquire().expect("second acquire");
    let c = pool.acquire().expect("third acquire");
    assert_ne!(a.id(), b.id());
    assert_ne!(a.id(), c.id());
    assert_ne!(b.id(), c.id());
    assert!(a.id() < 3 && b.id() < 3 && c.id() < 3);
    assert!(pool.acquire().is_none());
    pool.release(b);
    let again = pool.acquire().expect("acquire after release");
    assert_eq!(again.id(), 1);
    assert!(pool.acquire().is_none());
}

#[test]
fn pool_of_zero_never_serves() {
    let mut pool = Pool::new(0);
    assert_eq!(pool.capacity(), 0);
    assert!(pool.acquire().is_none());
    assert!(pool.acquire().is_none());
    assert_eq!(pool.available(), 0);
    assert_eq!(pool.checked_out(), 0);
}

#[test]
fn fresh_pool_serves_exactly_its_capacity() {
    for capacity in 1..=16usize {
        let mut pool = Pool::new(capacity);
        let mut held = Vec::new();
        for k in 0..capacity {
            let conn = pool.acquire().expect("a fresh pool serves its capacity");
            assert_eq!(conn.id(), capacity - 1 - k);
            held.push(conn);
        }
        assert!(pool.acquire().is_none());
        assert_eq!(held.len(), capacity);
    }
}

#[test]
fn available_and_checked_out_add_up_to_capacity() {
    let mut pool = Pool::new(4);
    assert_eq!((pool.available(), pool.checked_out()), (4, 0));
    let a = pool.acquire().unwrap();
    assert_eq!((pool.available(), pool.checked_out()), (3, 1));
    let b = pool.acquire().unwrap();
    let c = pool.acquire().unwrap();
    assert_eq!((pool.available(), pool.checked_out()), (1, 3));
    pool.release(b);
    assert_eq!((pool.available(), pool.checked_out()), (2, 2));
    let d = pool.acquire().unwrap();
    let e = pool.acquire().unwrap();
    assert_eq!((pool.available(), pool.checked_out()), (0, 4));
    assert!(pool.acquire().is_none());
    assert_eq!((pool.available(), pool.checked_out()), (0, 4));
    pool.release(a);
    pool.release(c);
    pool.release(d);
    pool.release(e);
    assert_eq!((pool.available(), pool.checked_out()), (4, 0));
    assert_eq!(pool.capacity(), 4);
}

#[test]
fn released_connection_is_acquired_next() {
    let mut pool = Pool::new(2);
    let first = pool.acquire().unwrap();
    assert_eq!(first.id(), 1);
    assert_eq!(first.connect(), 1);
    pool.release(first);
    let second = pool.acquire().unwrap();
    assert_eq!(second.id(), 1);
    let third = pool.acquire().unwrap();
    assert_eq!(third.id(), 0);
    pool.release(second);
    pool.release(third);
    assert_eq!(pool.acquire().unwrap().id(), 0);
    assert_eq!(pool.acquire().unwrap().id(), 1);
}

#[test]
fn is_checked_out_tells_held_from_available_and_foreign() {
    let mut pool = Pool::new(3);
    assert!(!pool.is_checked_out(0));
    assert!(!pool.is_checked_out(2));
    assert!(!pool.is_checked_out(3));
    let conn = pool.acquire().unwrap();
    assert_eq!(conn.id(), 2);
    assert!(pool.is_checked_out(2));
    assert!(!pool.is_checked_out(1));
    assert!(!pool.is_checked_out(usize::MAX));
    pool.release(conn);
    assert!(!pool.is_checked_out(2));
}

#[test]
fn try_release_takes_only_what_is_checked_out() {
    let mut pool = Pool::new(2);
    let mut other = Pool::new(8);
    let foreign = other.acquire().unwrap();
    assert_eq!(foreign.id(), 7);
    let back = pool.try_release(foreign).expect_err("never issued by this pool");
    assert_eq!(back.id(), 7);
    other.release(back);
    let mut twin = Pool::new(2);
    let duplicate = twin.acquire().unwrap();
    assert_eq!(duplicate.id(), 1);
    let back = pool.try_release(duplicate).expect_err("identifier 1 is still available");
    assert_eq!(back.id(), 1);
    assert_eq!(pool.available(), 2);
    let held = pool.acquire().unwrap();
    assert_eq!(held.id(), 1);
    assert!(pool.try_release(held).is_ok());
    assert_eq!(pool.available(), 2);
    assert_eq!(pool.checked_out(), 0);
}

#[test]
fn shared_pool_serves_its_capacity_through_any_handle() {
    let pool = ConnectionPool::new(3);
    let other = Arc::clone(&pool);
    let a = pool.get_connection().expect("first");
    let b = other.get_connection().expect("second");
    let c = pool.get_connection().expect("third");
    assert!(other.get_connection().is_none());
    assert_ne!(a.id(), b.id());
    assert_ne!(a.id(), c.id());
    assert_ne!(b.id(), c.id());
    assert!(other.release_connection(a).is_ok());
    let again = pool.get_connection().expect("after release");
    assert!(Connection::id(&again) < 3);
    assert!(pool.get_connection().is_none());
}

#[test]
fn shared_pool_counts_add_up_to_capacity() {
    let pool = ConnectionPool::new(3);
    assert_eq!(pool.usage(), (3, 0));
    let a = pool.get_connection().unwrap();
    let b = pool.get_connection().unwrap();
    assert_eq!(pool.usage(), (1, 2));
    assert!(pool.release_connection(a).is_ok());
    assert_eq!(pool.usage(), (2, 1));
    assert!(pool.release_connection(b).is_ok());
    assert_eq!(pool.usage(), (3, 0));
}

#[test]
fn shared_pool_of_zero_never_serves() {
    let pool = ConnectionPool::new(0);
    assert!(pool.get_connection().is_none());
    assert!(pool.get_connection().is_none());
}

#[test]
fn shared_pool_refuses_what_it_did_not_hand_out() {
    let pool = ConnectionPool::new(2);
    let large = ConnectionPool::new(3);
    let beyond = large.get_connection().unwrap();
    assert_eq!(beyond.id(), 2);
    let back = pool.release_connection(beyond).expect_err("never issued by this pool");
    assert_eq!(back.id(), 2);
    assert!(large.release_connection(back).is_ok());
    let twin = ConnectionPool::new(2);
    let duplicate = twin.get_connection().unwrap();
    assert_eq!(duplicate.id(), 1);
    let back = pool.release_connection(duplicate).expect_err("identifier 1 is available");
    assert_eq!(back.id(), 1);
    assert_eq!(pool.usage(), (2, 0));
    let conn = pool.get_connection().unwrap();
    assert_eq!(conn.id(), 1);
    assert!(pool.release_connection(conn).is_ok());
    assert!(pool.get_connection().is_some());
    assert!(pool.get_connection().is_some());
    assert!(pool.get_connection().is_none());
}
