use mcpg_operator::admission::metrics::{
    healthz_handler, readyz_handler, reconcilez_handler, MetricsState,
};
use mcpg_operator::api::objects::ObjectMeta;
use mcpg_operator::clock::Timestamp;
use mcpg_operator::readiness::{gate_ready, StoreReadiness};
use mcpg_operator::reconcile::finalizers::{has_finalizer, OPERATOR_FINALIZER};
use mcpg_operator::reconcile::watch::spec_or_deletion;
use mcpg_operator::telemetry::{leader_gauge, ReconcileLabels, ReconcileOutcome};

fn with_finalizers(finalizers: Vec<String>) -> ObjectMeta {
    ObjectMeta {
        name: Some("test".to_owned()),
        finalizers: Some(finalizers),
        ..Default::default()
    }
}

#[test]
fn has_finalizer_returns_true_when_present() {
    let meta = with_finalizers(vec![OPERATOR_FINALIZER.to_owned()]);
    assert!(has_finalizer(&meta, OPERATOR_FINALIZER));
}

#[test]
fn has_finalizer_returns_false_when_list_unset() {
    assert!(!has_finalizer(&ObjectMeta::default(), OPERATOR_FINALIZER));
}

#[test]
fn has_finalizer_returns_false_when_other_present() {
    let meta = with_finalizers(vec!["other.example.com/x".to_owned()]);
    assert!(!has_finalizer(&meta, OPERATOR_FINALIZER));
}

fn meta(generation: Option<i64>, deleting: bool) -> ObjectMeta {
    ObjectMeta {
        name: Some("x".to_owned()),
        generation,
        deletion_timestamp: if deleting {
            Some(Timestamp { secs: 1_700_000_000, nanos: 0 })
        } else {
            None
        },
        ..Default::default()
    }
}

#[test]
fn status_only_change_keeps_the_same_predicate_value() {
    assert_eq!(
        spec_or_deletion(&meta(Some(7), false)),
        spec_or_deletion(&meta(Some(7), false))
    );
}

#[test]
fn spec_edit_and_deletion_each_change_it() {
    let steady = spec_or_deletion(&meta(Some(7), false));
    assert_ne!(steady, spec_or_deletion(&meta(Some(8), false)));
    assert_ne!(steady, spec_or_deletion(&meta(Some(7), true)));
}

#[test]
fn missing_generation_admits_every_event() {
    assert_eq!(spec_or_deletion(&meta(None, false)), None);
}

#[test]
fn latch_starts_unsynced_and_latches_once() {
    let mut latch = StoreReadiness::new();
    assert!(!latch.is_synced());
    latch.mark_synced();
    assert!(latch.is_synced());
    latch.mark_synced();
    assert!(latch.is_synced());
}

#[test]
fn sync_before_any_waiter_still_latches() {
    let mut latch = StoreReadiness::new();
    latch.mark_synced();
    assert!(gate_ready(&latch, false));
}

#[test]
fn gate_leaves_the_flag_false_until_the_store_syncs() {
    let mut latch = StoreReadiness::new();
    let mut reconcile_ready = gate_ready(&latch, false);
    assert!(!reconcile_ready);
    latch.mark_synced();
    reconcile_ready = gate_ready(&latch, reconcile_ready);
    assert!(reconcile_ready);
}

fn serving_flags() -> MetricsState {
    MetricsState { healthy: true, ready: true, reconcile_ready: false }
}

#[test]
fn reconcilez_is_503_until_the_gateway_store_syncs() {
    let mut flags = serving_flags();
    let mut store = StoreReadiness::new();
    flags.reconcile_ready = gate_ready(&store, flags.reconcile_ready);
    assert_eq!(reconcilez_handler(flags).status, 503);
    assert_eq!(reconcilez_handler(flags).body, "watch not synced\n");
    store.mark_synced();
    flags.reconcile_ready = gate_ready(&store, flags.reconcile_ready);
    assert!(flags.reconcile_ready);
    assert_eq!(reconcilez_handler(flags).status, 200);
    assert_eq!(reconcilez_handler(flags).body, "reconciling\n");
}

#[test]
fn readyz_and_healthz_ignore_an_unsynced_watch() {
    let flags = serving_flags();
    assert!(!flags.reconcile_ready);
    assert_eq!(readyz_handler(flags).status, 200);
    assert_eq!(healthz_handler(flags).status, 200);
    assert_eq!(reconcilez_handler(flags).status, 503);
}

#[test]
fn readyz_is_503_when_not_leader_or_draining() {
    let flags = MetricsState { healthy: true, ready: false, reconcile_ready: true };
    assert_eq!(readyz_handler(flags).status, 503);
    assert_eq!(readyz_handler(flags).body, "not ready\n");
    assert_eq!(healthz_handler(flags).status, 200);
    let dead = MetricsState { healthy: false, ready: false, reconcile_ready: false };
    assert_eq!(healthz_handler(dead).status, 503);
    assert_eq!(healthz_handler(dead).body, "unhealthy\n");
}

#[test]
fn outcome_str_round_trips_for_every_variant() {
    let variants = [
        ReconcileOutcome::Success,
        ReconcileOutcome::TransientError,
        ReconcileOutcome::PermanentError,
        ReconcileOutcome::DependencyPending,
    ];
    let mut seen = std::collections::HashSet::new();
    for v in variants {
        assert!(
            seen.insert(v.as_str()),
            "duplicate outcome label: {}",
            v.as_str()
        );
    }
}

#[test]
fn labels_carry_the_controller_and_the_outcome() {
    let l = ReconcileLabels::new("gateway", ReconcileOutcome::TransientError);
    assert_eq!(l.controller, "gateway");
    assert_eq!(l.outcome, "transient_error");
    assert_eq!(leader_gauge(true), 1);
    assert_eq!(leader_gauge(false), 0);
}
