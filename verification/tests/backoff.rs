use mcpg_operator::backoff::{
    backoff_for_count, backoff_secs, backoff_with_factor, resource_key, BackoffMap,
};
use std::time::Duration;

#[test]
fn first_error_returns_count_one() {
    let mut m = BackoffMap::new();
    assert_eq!(m.record_error("k"), 1);
}

#[test]
fn consecutive_errors_increment() {
    let mut m = BackoffMap::new();
    m.record_error("k");
    m.record_error("k");
    assert_eq!(m.record_error("k"), 3);
}

#[test]
fn record_success_resets_count() {
    let mut m = BackoffMap::new();
    m.record_error("k");
    m.record_error("k");
    m.record_success("k");
    assert_eq!(m.count("k"), 0);
}

#[test]
fn keys_are_isolated() {
    let mut m = BackoffMap::new();
    m.record_error("a");
    m.record_error("a");
    m.record_error("b");
    assert_eq!(m.count("a"), 2);
    assert_eq!(m.count("b"), 1);
}

#[test]
fn backoff_curve_doubles_until_max_exponent() {
    for _ in 0..10 {
        let d = backoff_for_count(1);
        let s = d.as_secs_f64();
        assert!(
            (8.0..=12.0).contains(&s),
            "count=1 out of expected jittered range: {s}"
        );
    }
}

#[test]
fn backoff_curve_capped_at_max() {
    for _ in 0..10 {
        let d = backoff_for_count(20);
        let s = d.as_secs_f64();
        assert!(
            (240.0..=360.0).contains(&s),
            "count=20 out of cap range: {s}"
        );
    }
}

#[test]
fn resource_key_omits_empty_namespace() {
    assert_eq!(resource_key("plugin", "", "foo"), "plugin/foo");
}

#[test]
fn resource_key_includes_namespace_when_set() {
    assert_eq!(
        resource_key("gateway", "payments", "foo"),
        "gateway/payments/foo"
    );
}

#[test]
fn backoff_without_jitter_is_exact() {
    let secs: Vec<u64> = (0..9).map(backoff_secs).collect();
    assert_eq!(secs, vec![5, 10, 20, 40, 80, 160, 300, 300, 300]);
    assert_eq!(
        backoff_with_factor(1, 800_000_000),
        Duration::from_secs(8)
    );
    assert_eq!(
        backoff_with_factor(1, 1_000_000_001),
        Duration::new(10, 10)
    );
}

#[test]
fn duration_for_follows_the_count() {
    let mut m = BackoffMap::new();
    for _ in 0..3 {
        m.record_error("k");
    }
    let s = m.duration_for("k").as_secs_f64();
    assert!((32.0..=48.0).contains(&s), "{s}");
}
