use limit_size::guard::{SizeGuard, Verdict};

#[test]
fn a_new_guard_has_counted_nothing() {
    let guard = SizeGuard::new();
    assert_eq!(guard, SizeGuard { accumulated_bytes: 0, terminated: false });
}

#[test]
fn declared_length_above_the_limit_is_rejected() {
    let mut guard = SizeGuard::new();
    assert_eq!(guard.declared_length(Some(100), Some(150)), Verdict::Reject);
    assert_eq!(guard, SizeGuard { accumulated_bytes: 0, terminated: true });
}

#[test]
fn declared_length_equal_to_the_limit_is_accepted() {
    let mut guard = SizeGuard::new();
    assert_eq!(guard.declared_length(Some(100), Some(100)), Verdict::Continue);
    assert_eq!(guard.declared_length(Some(100), Some(99)), Verdict::Continue);
    assert_eq!(guard.declared_length(Some(100), Some(0)), Verdict::Continue);
    assert_eq!(guard.declared_length(Some(100), None), Verdict::Continue);
    assert_eq!(guard, SizeGuard::new());
    assert_eq!(guard.declared_length(Some(100), Some(101)), Verdict::Reject);
    assert!(guard.terminated);
}

#[test]
fn declared_length_with_limit_zero() {
    let mut guard = SizeGuard::new();
    assert_eq!(guard.declared_length(Some(0), Some(0)), Verdict::Continue);
    assert_eq!(guard.declared_length(Some(0), Some(1)), Verdict::Reject);
}

#[test]
fn no_limit_accepts_every_declared_length() {
    let mut guard = SizeGuard::new();
    assert_eq!(guard.declared_length(None, Some(u64::MAX)), Verdict::Continue);
    assert_eq!(guard.declared_length(None, None), Verdict::Continue);
    assert_eq!(guard, SizeGuard::new());
}

#[test]
fn chunks_are_counted_until_the_limit_is_exceeded() {
    let mut guard = SizeGuard::new();
    assert_eq!(guard.chunk(Some(512000), 200000), Verdict::Continue);
    assert_eq!(guard, SizeGuard { accumulated_bytes: 200000, terminated: false });
    assert_eq!(guard.chunk(Some(512000), 200000), Verdict::Continue);
    assert_eq!(guard, SizeGuard { accumulated_bytes: 400000, terminated: false });
    assert_eq!(guard.chunk(Some(512000), 200000), Verdict::Reject);
    assert_eq!(guard, SizeGuard { accumulated_bytes: 600000, terminated: true });
}

#[test]
fn a_total_equal_to_the_limit_is_accepted() {
    let mut guard = SizeGuard::new();
    assert_eq!(guard.chunk(Some(10), 4), Verdict::Continue);
    assert_eq!(guard.chunk(Some(10), 0), Verdict::Continue);
    assert_eq!(guard.chunk(Some(10), 6), Verdict::Continue);
    assert_eq!(guard, SizeGuard { accumulated_bytes: 10, terminated: false });
    assert_eq!(guard.chunk(Some(10), 0), Verdict::Continue);
    assert_eq!(guard.chunk(Some(10), 1), Verdict::Reject);
    assert_eq!(guard, SizeGuard { accumulated_bytes: 11, terminated: true });
}

#[test]
fn after_termination_nothing_is_counted_or_rejected() {
    let mut guard = SizeGuard::new();
    assert_eq!(guard.chunk(Some(10), 11), Verdict::Reject);
    let terminated = guard;
    assert_eq!(guard.chunk(Some(10), 100), Verdict::Continue);
    assert_eq!(guard.declared_length(Some(10), Some(100)), Verdict::Continue);
    assert_eq!(guard.chunk(Some(10), u64::MAX), Verdict::Continue);
    assert_eq!(guard, terminated);
}

#[test]
fn no_limit_accepts_every_chunk_and_counts_none() {
    let mut guard = SizeGuard::new();
    assert_eq!(guard.chunk(None, u64::MAX), Verdict::Continue);
    assert_eq!(guard.chunk(None, u64::MAX), Verdict::Continue);
    assert_eq!(guard, SizeGuard::new());
}

#[test]
fn a_total_beyond_64_bits_is_rejected_and_capped() {
    let mut guard = SizeGuard::new();
    assert_eq!(guard.chunk(Some(u64::MAX), u64::MAX - 1), Verdict::Continue);
    assert_eq!(guard.chunk(Some(u64::MAX), 1), Verdict::Continue);
    assert_eq!(guard, SizeGuard { accumulated_bytes: u64::MAX, terminated: false });
    assert_eq!(guard.chunk(Some(u64::MAX), 1), Verdict::Reject);
    assert_eq!(guard, SizeGuard { accumulated_bytes: u64::MAX, terminated: true });

    let mut guard = SizeGuard { accumulated_bytes: 5, terminated: false };
    assert_eq!(guard.chunk(Some(10), u64::MAX), Verdict::Reject);
    assert_eq!(guard, SizeGuard { accumulated_bytes: u64::MAX, terminated: true });
}

#[test]
fn the_chunk_that_first_exceeds_is_the_one_rejected() {
    let limit = 1000u64;
    let runs: [&[u64]; 5] = [
        &[1001],
        &[1000, 1],
        &[0, 0, 0, 1000, 0, 1, 5000],
        &[999, 1, 0, 0, 2],
        &[300, 300, 300, 300],
    ];
    for chunks in runs {
        let mut guard = SizeGuard::new();
        let mut sum = 0u64;
        let mut rejected = false;
        for &chunk in chunks {
            let before = sum;
            sum += chunk;
            let verdict = guard.chunk(Some(limit), chunk);
            if before <= limit && sum > limit {
                assert_eq!(verdict, Verdict::Reject);
                assert!(!rejected);
                rejected = true;
            } else {
                assert_eq!(verdict, Verdict::Continue);
            }
        }
        assert!(rejected);
    }
}
