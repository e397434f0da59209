use measurement::Measurement;

#[test]
fn test_exact_plus_exact_matches_only_the_sum() {
    let c = Measurement::Exact(3).compose(&Measurement::Exact(4));
    assert!(c.matches(7));
    assert!(!c.matches(6));
    assert!(!c.matches(8));
}

#[test]
fn test_range_plus_exact_shifts_both_bounds() {
    let c = Measurement::Range(2, 5).compose(&Measurement::Exact(10));
    // Only values strictly between 12 and 15 match.
    assert!(!c.matches(12));
    assert!(c.matches(13));
    assert!(c.matches(14));
    assert!(!c.matches(15));
    assert!(!c.matches(11));
    assert!(!c.matches(16));
}

#[test]
fn test_upper_bound_plus_upper_bound_adds_the_bounds() {
    let c = Measurement::UpperBound(5).compose(&Measurement::UpperBound(5));
    // Every value below 10 matches; 10 itself does not.
    for candidate in 0..10usize {
        assert!(c.matches(candidate));
    }
    assert!(!c.matches(10));
    assert!(!c.matches(11));
}

#[test]
fn test_range_plus_upper_bound_keeps_the_lower_bound() {
    let c = Measurement::Range(1, 4).compose(&Measurement::UpperBound(2));
    // Only values strictly between 1 and 6 match.
    assert!(!c.matches(1));
    assert!(c.matches(2));
    assert!(c.matches(3));
    assert!(c.matches(4));
    assert!(c.matches(5));
    assert!(!c.matches(6));
    assert!(!c.matches(0));
}

#[test]
fn test_compose_is_commutative() {
    let metrics = [
        Measurement::Exact(3),
        Measurement::Range(2, 7),
        Measurement::UpperBound(5),
    ];
    for a in &metrics {
        for b in &metrics {
            let left = a.compose(b);
            let right = b.compose(a);
            assert_eq!(left, right);
            for candidate in 0..20usize {
                assert_eq!(left.matches(candidate), right.matches(candidate));
            }
        }
    }
}

#[test]
fn test_compose_is_sound_on_sampled_values() {
    let pairs = [
        (Measurement::Exact(3), 3usize),
        (Measurement::Range(2, 7), 4usize),
        (Measurement::UpperBound(5), 0usize),
    ];
    for (m1, a) in &pairs {
        for (m2, b) in &pairs {
            assert!(m1.matches(*a));
            assert!(m2.matches(*b));
            assert!(m1.compose(m2).matches(*a + *b));
        }
    }
}

#[test]
fn test_empty_range_matches_nothing() {
    let metric = Measurement::Range(4, 4);
    for candidate in 0..10usize {
        assert!(!metric.matches(candidate));
    }
}

#[test]
fn test_reversed_range_is_vacuous() {
    // A range whose lower bound exceeds its upper bound is not rejected;
    // it is satisfied by no value.
    let metric = Measurement::Range(5, 2);
    for candidate in 0..10usize {
        assert!(!metric.matches(candidate));
    }
}

#[test]
fn test_zero_upper_bound_matches_nothing() {
    let metric = Measurement::UpperBound(0);
    assert!(!metric.matches(0));
    assert!(!metric.matches(1));
}

#[test]
fn test_compose_at_the_largest_value() {
    let c = Measurement::Exact(usize::MAX - 4).compose(&Measurement::Exact(4));
    assert!(c.matches(usize::MAX));
    assert!(!c.matches(usize::MAX - 1));
}

#[test]
fn test_adjacent_range_bounds_match_nothing() {
    let metric = Measurement::Range(3, 4);
    assert!(!metric.matches(3));
    assert!(!metric.matches(4));
    // Composing with an exact shift keeps the range empty.
    let shifted = metric.compose(&Measurement::Exact(10));
    assert!(!shifted.matches(13));
    assert!(!shifted.matches(14));
}

#[test]
fn test_exact_zero_and_upper_bound_one() {
    let exact = Measurement::Exact(0);
    assert!(exact.matches(0));
    assert!(!exact.matches(1));
    let c = exact.compose(&Measurement::UpperBound(1));
    assert!(c.matches(0));
    assert!(!c.matches(1));
}
