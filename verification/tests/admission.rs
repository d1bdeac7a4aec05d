use hot_reload_proxy::admission::Admission;
use hot_reload_proxy::admission::MAX_CONNECTIONS;

#[test]
fn default_pool_has_250_permits() {
    assert_eq!(MAX_CONNECTIONS, 250);
    let pool = Admission::default();
    assert_eq!(pool.capacity(), 250);
    assert_eq!(pool.outstanding(), 0);
    assert_eq!(pool.available(), 250);
}

#[test]
fn new_pool_is_full() {
    let pool = Admission::new(3);
    assert_eq!(pool.capacity(), 3);
    assert_eq!(pool.outstanding(), 0);
    assert_eq!(pool.available(), 3);
}

#[test]
fn acquire_takes_one_permit() {
    let mut pool = Admission::new(3);
    assert!(pool.try_acquire());
    assert_eq!(pool.outstanding(), 1);
    assert_eq!(pool.available(), 2);
    assert_eq!(pool.capacity(), 3);
}

#[test]
fn exhausted_pool_refuses() {
    let mut pool = Admission::new(2);
    assert!(pool.try_acquire());
    assert!(pool.try_acquire());
    assert!(!pool.try_acquire());
    assert!(!pool.try_acquire());
    assert_eq!(pool.outstanding(), 2);
    assert_eq!(pool.available(), 0);
}

#[test]
fn pool_of_none_admits_nobody() {
    let mut pool = Admission::new(0);
    assert!(!pool.try_acquire());
    assert_eq!(pool.outstanding(), 0);
    assert_eq!(pool.release(1), 0);
    assert_eq!(pool.outstanding(), 0);
}

#[test]
fn release_gives_permits_back() {
    let mut pool = Admission::new(2);
    assert!(pool.try_acquire());
    assert!(pool.try_acquire());
    assert_eq!(pool.release(1), 1);
    assert_eq!(pool.outstanding(), 1);
    assert!(pool.try_acquire());
    assert!(!pool.try_acquire());
    assert_eq!(pool.release(2), 2);
    assert_eq!(pool.outstanding(), 0);
    assert_eq!(pool.available(), 2);
}

#[test]
fn release_of_nothing_changes_nothing() {
    let mut pool = Admission::new(4);
    assert!(pool.try_acquire());
    assert_eq!(pool.release(0), 0);
    assert_eq!(pool.outstanding(), 1);
}

#[test]
fn release_never_goes_below_empty() {
    let mut pool = Admission::new(4);
    assert!(pool.try_acquire());
    assert!(pool.try_acquire());
    assert_eq!(pool.release(5), 2);
    assert_eq!(pool.outstanding(), 0);
    assert_eq!(pool.available(), 4);
    assert_eq!(pool.release(1), 0);
    assert_eq!(pool.available(), 4);
}

#[test]
fn largest_pool_does_not_overflow() {
    let mut pool = Admission::new(usize::MAX);
    assert!(pool.try_acquire());
    assert_eq!(pool.available(), usize::MAX - 1);
    assert_eq!(pool.release(usize::MAX), 1);
    assert_eq!(pool.available(), usize::MAX);
}

#[test]
fn outstanding_never_exceeds_capacity() {
    let mut pool = Admission::new(5);
    let mut taken = 0usize;
    // A fixed but irregular course of acquisitions and releases.
    let mut x: u32 = 12345;
    for _ in 0..2000 {
        x = x.wrapping_mul(1103515245).wrapping_add(12345);
        if (x >> 16) % 3 != 0 {
            if pool.try_acquire() {
                taken += 1;
            } else {
                assert_eq!(taken, 5);
            }
        } else {
            taken -= pool.release(1);
        }
        assert_eq!(pool.outstanding(), taken);
        assert!(pool.outstanding() <= pool.capacity());
        assert_eq!(pool.available(), 5 - taken);
    }
    assert_eq!(pool.release(taken), taken);
    assert_eq!(pool.available(), 5);
}
