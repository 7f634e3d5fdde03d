use mcpg_operator::api::conditions::Condition;
use mcpg_operator::api::objects::ObjectMeta;
use mcpg_operator::api::resources::{
    ClusterBackend, GatewayCloud, LocalObjectReference, MCPGCluster, MCPGClusterSpec, MCPGGateway,
    MCPGGatewaySpec, MCPGPluginSet, MCPGPluginSetSpec, MCPGPluginSetStatus, MCPGRevocationList,
    MCPGRevocationListSpec, ResourceStatus,
};
use mcpg_operator::controllers::gateway::cluster::resolve_cluster;
use mcpg_operator::controllers::gateway::edge::{
    cleanup_edge_domains, listener_failure_is_fatal, reconcile_edge_domains, stale_names,
};
use mcpg_operator::controllers::gateway::plan::{apply_order, GatewayChild, OptionalChildren};
use mcpg_operator::controllers::gateway::plugin_set::{plugin_set_usable, resolve_plugin_set};
use mcpg_operator::controllers::gateway::revocation::resolve_revocation_list;
use mcpg_operator::controllers::gateway::status::{
    list_unresolved, report_gateway, DeploymentStatus,
};
use mcpg_operator::json::Json;
use mcpg_operator::strmap::StringMap;
use mcpg_operator::telemetry::ReconcileOutcome;

fn gateway(replicas: i32) -> MCPGGateway {
    MCPGGateway {
        metadata: ObjectMeta {
            name: Some("gw".into()),
            namespace: Some("ns".into()),
            uid: Some("u".into()),
            ..Default::default()
        },
        spec: MCPGGatewaySpec {
            replicas,
            ..Default::default()
        },
        status: None,
    }
}

fn named(name: &str) -> Option<LocalObjectReference> {
    Some(LocalObjectReference { name: name.into() })
}

fn counts(available: i32) -> DeploymentStatus {
    DeploymentStatus {
        replicas: Some(3),
        ready_replicas: Some(available),
        updated_replicas: None,
        available_replicas: Some(available),
    }
}

fn find<'a>(conditions: &'a [Condition], type_: &str) -> &'a Condition {
    conditions.iter().find(|c| c.type_ == type_).unwrap()
}

#[test]
fn a_gateway_is_ready_with_all_its_replicas() {
    let r = report_gateway(&gateway(3), 9, counts(3), &None, &None, &None, "hash");
    assert_eq!(find(&r.status.conditions, "Ready").status, "True");
    assert_eq!(find(&r.status.conditions, "Available").status, "True");
    assert_eq!(r.status.config_hash.as_deref(), Some("hash"));
    assert_eq!(r.status.updated_replicas, Some(0));
    assert_eq!(
        r.event.unwrap().note,
        "Gateway is Ready (3/3) replicas available"
    );
    assert_eq!(r.verdict.outcome, ReconcileOutcome::Success);
    let r = report_gateway(&gateway(3), 9, counts(2), &None, &None, &None, "hash");
    let ready = find(&r.status.conditions, "Ready");
    assert_eq!(ready.status, "False");
    assert_eq!(ready.message, "2/3 replicas available");
    assert_eq!(ready.observed_generation, Some(9));
    assert!(r.event.is_none());
}

#[test]
fn a_missing_plugin_set_leaves_the_gateway_pending() {
    let mut gw = gateway(1);
    gw.spec.plugin_set_ref = named("set");
    let set = resolve_plugin_set(&gw, "ns", None, None);
    let r = report_gateway(&gw, 1, counts(1), &set, &None, &None, "h");
    assert_eq!(r.verdict.outcome, ReconcileOutcome::DependencyPending);
    assert_eq!(
        find(&r.status.conditions, "PluginSetReady").message,
        "MCPGPluginSet/set not found in namespace ns"
    );
    let unresolved = list_unresolved(&set, &None, &None);
    assert_eq!(unresolved.len(), 1);
    assert_eq!(unresolved[0].controller, "gateway");
    assert_eq!(unresolved[0].dependency, "MCPGPluginSet");
    assert_eq!(unresolved[0].reason, "PluginSetNotFound");
    assert!(list_unresolved(&None, &None, &None).is_empty());
}

fn usable_set() -> MCPGPluginSet {
    MCPGPluginSet {
        metadata: ObjectMeta::default(),
        spec: MCPGPluginSetSpec::default(),
        status: Some(MCPGPluginSetStatus {
            conditions: vec![Condition::new("Ready", "True", "Reconciled", "", None)],
            resolved_hash: Some("cafe".into()),
        }),
    }
}

#[test]
fn a_plugin_set_resolves_through_its_document() {
    let mut gw = gateway(1);
    gw.spec.plugin_set_ref = named("set");
    let set = usable_set();
    assert!(plugin_set_usable(&set));
    let r = resolve_plugin_set(&gw, "ns", Some(&set), None).unwrap();
    assert_eq!(r.condition.reason, "ResolvedConfigMapMissing");
    let mut data = StringMap::new();
    data.insert("plugins.json", "nonsense");
    let r = resolve_plugin_set(&gw, "ns", Some(&set), Some(&data)).unwrap();
    assert_eq!(r.condition.reason, "ResolvedConfigMapParseFailed");
    data.insert(
        "plugins.json",
        r#"{"entries": [{"id": "a.b", "pluginClass": "policy", "pluginVersion": "1",
            "artefactSecretName": "sec", "resolvedDigest": "d", "config": null}]}"#,
    );
    let r = resolve_plugin_set(&gw, "ns", Some(&set), Some(&data)).unwrap();
    assert_eq!(r.condition.status, "True");
    assert_eq!(r.resolved_hash, "cafe");
    assert_eq!(r.mounts[0].plugin_id, "a.b");
    assert_eq!(r.mounts[0].secret_name, "sec");
    let mut unready = usable_set();
    unready.status.as_mut().unwrap().resolved_hash = Some("".into());
    let r = resolve_plugin_set(&gw, "ns", Some(&unready), Some(&data)).unwrap();
    assert_eq!(r.condition.reason, "PluginSetNotReady");
    assert!(resolve_plugin_set(&gateway(1), "ns", Some(&set), Some(&data)).is_none());
}

#[test]
fn a_revocation_list_that_was_not_applied_is_reported() {
    let rl = MCPGRevocationList {
        metadata: ObjectMeta::default(),
        spec: MCPGRevocationListSpec {
            version: 1,
            issued_at: None,
            revocations: vec![],
        },
        status: None,
    };
    let ok = resolve_revocation_list(&gateway(1), Some(&rl), Ok(()));
    assert_eq!(ok.as_ref().unwrap().condition.status, "True");
    assert_eq!(ok.as_ref().unwrap().mount.config_map_name, "gw-revocations");
    let bad = resolve_revocation_list(&gateway(1), Some(&rl), Err("denied".into()));
    let r = report_gateway(&gateway(1), 1, counts(1), &None, &bad, &None, "h");
    assert_eq!(r.verdict.outcome, ReconcileOutcome::DependencyPending);
    let r = report_gateway(&gateway(1), 1, counts(1), &None, &ok, &None, "h");
    assert_eq!(r.verdict.outcome, ReconcileOutcome::Success);
    assert_eq!(r.status.revocation_list_hash.unwrap().len(), 64);
}

#[test]
fn a_cluster_binds_only_when_ready() {
    let mut gw = gateway(1);
    assert!(resolve_cluster(&gw, None).is_none());
    gw.spec.cluster_ref = named("prod");
    let missing = resolve_cluster(&gw, None).unwrap();
    assert_eq!(missing.condition.status, "False");
    assert!(missing.cluster_block.is_null());
    let mut cluster = MCPGCluster {
        metadata: ObjectMeta::default(),
        spec: MCPGClusterSpec {
            backend: ClusterBackend {
                config_kind: "redis".into(),
                single_node: false,
                plugin_id: None,
            },
            rendered_block: Json::parse(r#"{"kind": "redis"}"#).unwrap(),
            ..Default::default()
        },
        status: None,
    };
    let unready = resolve_cluster(&gw, Some(&cluster)).unwrap();
    assert_eq!(unready.condition.status, "False");
    cluster.status = Some(ResourceStatus {
        conditions: vec![Condition::new("Ready", "True", "Reconciled", "", None)],
    });
    let bound = resolve_cluster(&gw, Some(&cluster)).unwrap();
    assert_eq!(bound.condition.status, "True");
    assert_eq!(bound.cluster_block.get_str("kind"), Some("redis"));
}

#[test]
fn certificates_need_an_issuer() {
    let mut gw = gateway(1);
    assert!(reconcile_edge_domains(&gw, Some("issuer")).is_none());
    assert!(cleanup_edge_domains(&gw).is_none());
    gw.spec.cloud = Some(GatewayCloud {
        custom_domains: vec!["a.example".into(), "b.example".into()],
        ..Default::default()
    });
    let plan = reconcile_edge_domains(&gw, Some("issuer")).unwrap();
    assert_eq!(plan.uid, "u");
    assert_eq!(plan.certificates, vec!["a.example", "b.example"]);
    assert!(listener_failure_is_fatal(&plan));
    let plan = reconcile_edge_domains(&gw, None).unwrap();
    assert_eq!(plan.domains.len(), 2);
    assert!(plan.certificates.is_empty());
    assert_eq!(cleanup_edge_domains(&gw).as_deref(), Some("u"));
    let have = vec!["x".to_owned(), "y".to_owned()];
    let want = vec!["y".to_owned()];
    assert_eq!(stale_names(&have, &want), vec!["x"]);
}

#[test]
fn children_are_applied_in_order() {
    let none = OptionalChildren {
        http_route: false,
        autoscaler: false,
        disruption_budget: false,
    };
    assert_eq!(
        apply_order(none),
        vec![
            GatewayChild::ConfigMap,
            GatewayChild::Service,
            GatewayChild::ServiceAccount,
            GatewayChild::Deployment,
            GatewayChild::EdgeDomains,
        ]
    );
    let all = OptionalChildren {
        http_route: true,
        autoscaler: true,
        disruption_budget: true,
    };
    let order = apply_order(all);
    assert_eq!(order.len(), 8);
    assert_eq!(order[4], GatewayChild::HttpRoute);
    assert_eq!(order[7], GatewayChild::DisruptionBudget);
}
