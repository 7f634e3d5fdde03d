use mcpg_operator::api::objects::ObjectMeta;
use mcpg_operator::backoff::BackoffMap;
use mcpg_operator::clock::Timestamp;
use mcpg_operator::hashing::hash_text;
use mcpg_operator::json::{ensure_path, Json};
use mcpg_operator::reconcile::finalizers::{
    ensure_finalizer, patch_error, remove_finalizer, FinalizerError,
};
use mcpg_operator::reconcile::flow::{
    begin_cluster_scoped, begin_gateway, begin_namespaced, classify_outcome, error_policy,
    forgets_failures, record_outcome, released, ErrorAction, ReconcileError, Requeue, Verdict,
};
use mcpg_operator::reconcile::ssa::{apply_owned, field_manager};
use mcpg_operator::reconcile::status::{
    patch_status, status_body, PatchFailure, StatusError, StatusStep,
};
use mcpg_operator::telemetry::ReconcileOutcome;

fn meta(name: Option<&str>, ns: Option<&str>) -> ObjectMeta {
    ObjectMeta {
        name: name.map(str::to_owned),
        namespace: ns.map(str::to_owned),
        generation: Some(5),
        ..Default::default()
    }
}

#[test]
fn a_reconcile_needs_a_name_and_a_namespace() {
    let b = begin_gateway(&meta(Some("gw"), Some("ns"))).unwrap();
    assert_eq!((b.name.as_str(), b.namespace.as_str()), ("gw", "ns"));
    assert_eq!(b.generation, 5);
    assert!(!b.deleting);
    assert!(matches!(
        begin_namespaced(&meta(None, Some("ns"))),
        Err(ReconcileError::MissingName)
    ));
    assert!(matches!(
        begin_namespaced(&meta(Some("x"), None)),
        Err(ReconcileError::MissingNamespace { name }) if name == "x"
    ));
    let mut going = meta(Some("p"), None);
    going.deletion_timestamp = Some(Timestamp { secs: 1, nanos: 0 });
    going.generation = None;
    let b = begin_cluster_scoped(&going).unwrap();
    assert!(b.deleting);
    assert_eq!(b.generation, 0);
    assert_eq!(b.namespace, "");
}

#[test]
fn servers_back_off_like_every_other_kind() {
    let m = meta(Some("crm"), Some("ns"));
    let mut backoff = BackoffMap::new();
    let err = ReconcileError::Apply("down".into());
    for (count, base) in [(1, 10.0), (2, 20.0)] {
        match error_policy("server", &m, &err, &mut backoff) {
            ErrorAction::Backoff { count: c, delay } => {
                assert_eq!(c, count);
                assert!((0.8 * base..=1.2 * base).contains(&delay.as_secs_f64()));
            }
            other => panic!("{other:?}"),
        }
    }
    assert_eq!(backoff.count("server/ns/crm"), 2);
    assert!(matches!(
        error_policy(
            "server",
            &m,
            &ReconcileError::MissingNamespace { name: "crm".into() },
            &mut backoff
        ),
        ErrorAction::AwaitChange
    ));
}

#[test]
fn transient_errors_back_off_and_success_forgets_them() {
    let m = meta(Some("gw"), Some("ns"));
    let mut backoff = BackoffMap::new();
    let err = ReconcileError::Kube("down".into());
    for expected in 1..=3 {
        match error_policy("gateway", &m, &err, &mut backoff) {
            ErrorAction::Backoff { count, delay } => {
                assert_eq!(count, expected);
                let base = 5.0 * f64::from(1 << expected);
                let s = delay.as_secs_f64();
                assert!((0.8 * base..=1.2 * base).contains(&s), "{s}");
            }
            other => panic!("{other:?}"),
        }
    }
    assert_eq!(backoff.count("gateway/ns/gw"), 3);
    assert!(matches!(
        error_policy("gateway", &m, &ReconcileError::MissingName, &mut backoff),
        ErrorAction::AwaitChange
    ));
    assert_eq!(backoff.count("gateway/ns/gw"), 3);
    record_outcome("gateway", &m, &verdict(ReconcileOutcome::Success), &mut backoff);
    assert_eq!(backoff.count("gateway/ns/gw"), 0);
}

fn verdict(outcome: ReconcileOutcome) -> Verdict {
    Verdict {
        requeue: Requeue::Resync,
        outcome,
    }
}

#[test]
fn a_success_resets_the_failures_of_every_kind() {
    let m = meta(Some("x"), None);
    for controller in ["cluster", "route", "plugin-mirror", "tenant", "plugin"] {
        let mut backoff = BackoffMap::new();
        let key = format!("{controller}/x");
        backoff.record_error(&key);
        backoff.record_error("other/x");
        record_outcome(
            controller,
            &m,
            &verdict(ReconcileOutcome::DependencyPending),
            &mut backoff,
        );
        assert_eq!(backoff.count(&key), 1);
        record_outcome(controller, &m, &verdict(ReconcileOutcome::Success), &mut backoff);
        assert_eq!(backoff.count(&key), 0);
        assert_eq!(backoff.count("other/x"), 1);
    }
    let done = verdict(ReconcileOutcome::Success);
    assert!(!forgets_failures("cluster", true, &done));
    let pending = verdict(ReconcileOutcome::DependencyPending);
    assert!(forgets_failures("gateway", false, &pending));
    assert!(!forgets_failures("plugin", false, &pending));
}

#[test]
fn outcomes_are_counted_by_verdict_or_error() {
    assert_eq!(classify_outcome(&Ok(released())), ReconcileOutcome::Success);
    assert_eq!(released().requeue, Requeue::AwaitChange);
    assert_eq!(
        classify_outcome(&Err(ReconcileError::MissingName)),
        ReconcileOutcome::PermanentError
    );
    assert_eq!(
        classify_outcome(&Err(ReconcileError::Status("x".into()))),
        ReconcileOutcome::TransientError
    );
}

#[test]
fn a_finalizer_is_added_once_and_guarded() {
    let mut m = meta(Some("x"), None);
    assert!(matches!(
        ensure_finalizer(&m, "x", "f"),
        Err(FinalizerError::MissingResourceVersion { name }) if name == "x"
    ));
    m.resource_version = Some("42".into());
    let patch = ensure_finalizer(&m, "x", "f").unwrap().unwrap().to_value();
    assert_eq!(patch[0]["op"], "test");
    assert_eq!(patch[0]["path"], "/metadata/resourceVersion");
    assert_eq!(patch[0]["value"], "42");
    assert_eq!(patch[1]["path"], "/metadata/finalizers");
    assert_eq!(patch[1]["value"][0], "f");
    m.finalizers = Some(vec!["g".into()]);
    let patch = ensure_finalizer(&m, "x", "f").unwrap().unwrap().to_value();
    assert_eq!(patch[1]["path"], "/metadata/finalizers/-");
    assert_eq!(patch[1]["value"], "f");
    m.finalizers = Some(vec!["g".into(), "f".into()]);
    assert!(ensure_finalizer(&m, "x", "f").unwrap().is_none());
}

#[test]
fn a_finalizer_is_removed_and_others_stay() {
    let mut m = meta(Some("x"), None);
    m.finalizers = Some(vec!["g".into(), "f".into(), "h".into()]);
    let patch = remove_finalizer(&m, "f").unwrap();
    assert_eq!(
        patch.compact(),
        r#"{"metadata":{"finalizers":["g","h"]}}"#
    );
    m.finalizers = Some(vec!["g".into()]);
    assert!(remove_finalizer(&m, "f").is_none());
    m.finalizers = None;
    assert!(remove_finalizer(&m, "f").is_none());
    assert!(matches!(
        patch_error("x", Some(409), "d"),
        FinalizerError::Conflict { .. }
    ));
    assert!(matches!(
        patch_error("x", Some(500), "d"),
        FinalizerError::Patch { detail, .. } if detail == "d"
    ));
}

#[test]
fn a_status_patch_is_retried_once_on_conflict() {
    let failure = |code: Option<u16>| {
        Some(PatchFailure {
            code,
            detail: "d".into(),
        })
    };
    let patch = |first: bool, failed: Option<PatchFailure>| patch_status("K", "n", first, failed);
    assert!(matches!(patch(true, None), Ok(StatusStep::Done)));
    assert!(matches!(
        patch(true, failure(Some(409))),
        Ok(StatusStep::RetryAfterMs(100))
    ));
    for (first, code) in [(false, Some(409)), (true, Some(500)), (true, None)] {
        assert!(matches!(
            patch(first, failure(code)),
            Err(StatusError::Patch { kind, name, detail }) if kind == "K" && name == "n" && detail == "d"
        ));
    }
    let body = status_body("mcpg.dev/v1alpha1", "MCPGGateway", Json::Bool(true));
    assert_eq!(
        body.compact(),
        r#"{"apiVersion":"mcpg.dev/v1alpha1","kind":"MCPGGateway","status":true}"#
    );
}

#[test]
fn an_object_is_applied_by_its_name() {
    assert_eq!(apply_owned(&meta(Some("x"), None)).unwrap(), "x");
    assert!(apply_owned(&meta(None, None)).is_err());
    assert_eq!(field_manager("gateway"), "mcpg-operator/gateway");
}

#[test]
fn hashes_are_sha256_in_hex() {
    assert_eq!(
        hash_text("abc"),
        "ba7816bf8f01cfea414140de5dae2223b00361a396177a9cb410ff61f20015ad"
    );
}

#[test]
fn documents_are_read_and_written() {
    let text = r#"{"b": [1, -2.5, null, true], "a": "x\"y"}"#;
    let doc = Json::parse(text).unwrap();
    assert_eq!(doc.get_str("a"), Some("x\"y"));
    assert_eq!(doc.get("b").unwrap().as_array().unwrap().len(), 4);
    assert!(doc.get("c").is_none());
    assert_eq!(doc.compact(), r#"{"a":"x\"y","b":[1,-2.5,null,true]}"#);
    assert_eq!(
        Json::integer(7).pretty(),
        "7"
    );
    let mut o = Json::Object(Vec::new());
    o.set("k", Json::str("v"));
    assert_eq!(o.pretty(), "{\n  \"k\": \"v\"\n}");
    assert_eq!(
        Json::parse("[1,").unwrap_err(),
        "EOF while parsing a value at line 1 column 3"
    );
    assert_eq!(
        Json::from_value(doc.to_value()).compact(),
        Json::parse(text).unwrap().compact()
    );
}

#[test]
fn paths_are_made_where_they_are_missing() {
    let mut root = Json::parse(r#"{"a": {"x": 1}, "b": 2}"#).unwrap();
    *ensure_path(&mut root, &["a", "y", "z"]) = Json::Bool(true);
    *ensure_path(&mut root, &["b", "c"]) = Json::Null;
    assert_eq!(
        root.compact(),
        r#"{"a":{"x":1,"y":{"z":true}},"b":{"c":null}}"#
    );
}
