use pivot::limit::{Permits, MAX_PIPES};

#[test]
fn limit_is_thirty_two() {
    assert_eq!(MAX_PIPES, 32);
}

#[test]
fn permits_run_out_at_the_limit() {
    let mut permits = Permits::new();
    assert_eq!(permits.active(), 0);
    for i in 0..32 {
        assert!(permits.try_acquire());
        assert_eq!(permits.active(), i + 1);
    }
    assert!(!permits.try_acquire());
    assert!(!permits.try_acquire());
    assert_eq!(permits.active(), 32);
}

#[test]
fn released_permit_can_be_taken_again() {
    let mut permits = Permits::new();
    for _ in 0..32 {
        assert!(permits.try_acquire());
    }
    permits.release();
    assert_eq!(permits.active(), 31);
    assert!(permits.try_acquire());
    assert!(!permits.try_acquire());
}

#[test]
fn active_never_passes_the_limit_under_load() {
    let mut permits = Permits::new();
    for round in 0..1000u32 {
        if round % 7 == 3 && permits.active() > 0 {
            permits.release();
        } else {
            permits.try_acquire();
        }
        assert!(permits.active() <= 32);
    }
}
