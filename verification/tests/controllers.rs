use mcpg_operator::api::conditions::{Condition, EventType};
use mcpg_operator::api::objects::ObjectMeta;
use mcpg_operator::api::resources::{
    ClusterBackend, CosignIdentity, GatewayRef, LocalObjectReference, MCPGCluster,
    MCPGClusterSpec, MCPGGateway, MCPGGatewaySpec, MCPGPlugin, MCPGPluginMirror,
    MCPGPluginMirrorSpec, MCPGPluginSpec, MCPGPluginStatus, MCPGRevocationList,
    MCPGRevocationListSpec, MCPGRoute, MCPGRouteSpec, MCPGServer, MCPGServerSpec, MCPGTenant,
    MCPGTenantSpec, MirrorEndpoint, MirrorService, OciImageRef, RevocationEntry, RouteToolRef,
    ServerFederate, TenantQuotas,
};
use mcpg_operator::clock::Timestamp;
use mcpg_operator::controllers::cluster::report::{
    count_bound_gateways, map_gateway_to_clusters, map_plugin_to_clusters, report_cluster,
};
use mcpg_operator::controllers::plugin_mirror::report::{
    count_proxied_plugins, map_plugin_to_mirrors, report_plugin_mirror,
};
use mcpg_operator::controllers::plugin_set::resolve::plugin_is_ready;
use mcpg_operator::controllers::revocation_list::list::{
    build_configmap, namespaces_with_gateways, render_revocation_json, report_revocation_list,
    CONFIGMAP_NAME, REVOCATIONS_FILE,
};
use mcpg_operator::controllers::route::report::{
    accepts_route, map_gateway_to_routes, missing_chain_plugins, report_route,
};
use mcpg_operator::controllers::server::report::{
    image_check, may_render, report_server, ImageCheck, ImageVerdict,
};
use mcpg_operator::controllers::tenant::boundary::{
    build_hard_limits, count_resources, ensure_namespace_label, ensure_resource_quota, quota_exceeded,
    quota_name, report_tenant, split_namespaces, teardown_namespace, NamespaceFate,
    QuotaAction, TenantObservedCounts,
};
use mcpg_operator::json::Json;
use mcpg_operator::reconcile::flow::Requeue;
use mcpg_operator::telemetry::ReconcileOutcome;

fn meta(name: &str, ns: Option<&str>) -> ObjectMeta {
    ObjectMeta {
        name: Some(name.to_owned()),
        namespace: ns.map(str::to_owned),
        ..Default::default()
    }
}

fn named(name: &str) -> LocalObjectReference {
    LocalObjectReference { name: name.to_owned() }
}

fn find<'a>(conditions: &'a [Condition], type_: &str) -> &'a Condition {
    conditions.iter().find(|c| c.type_ == type_).unwrap()
}

fn cluster_plugin(conds: Vec<Condition>, revoked: Option<bool>) -> MCPGPlugin {
    MCPGPlugin {
        metadata: meta("cluster-redis", None),
        spec: MCPGPluginSpec {
            plugin_id: "dev.mcpg.cluster.redis".into(),
            version: "1.0.0".into(),
            plugin_class: "cluster".into(),
            ..Default::default()
        },
        status: Some(MCPGPluginStatus {
            conditions: conds,
            revoked_by_sha: revoked,
            ..Default::default()
        }),
    }
}

#[test]
fn plugin_ready_requires_ready_condition_and_not_revoked() {
    let ready = Condition::new("Ready", "True", "Reconciled", "ok", Some(1));
    let not_ready = Condition::new("Ready", "False", "Pulling", "x", Some(1));
    assert!(plugin_is_ready(&cluster_plugin(vec![ready.clone()], None)));
    assert!(!plugin_is_ready(&cluster_plugin(vec![not_ready], None)));
    assert!(!plugin_is_ready(&cluster_plugin(vec![ready], Some(true))));
    assert!(!plugin_is_ready(&MCPGPlugin::default()));
}

#[test]
fn gateway_with_no_clusterref_maps_to_nothing() {
    let gw = MCPGGateway {
        metadata: meta("g", Some("ns")),
        ..Default::default()
    };
    assert!(map_gateway_to_clusters(&gw).is_empty());
}

fn redis_cluster(plugin: Option<&str>) -> MCPGCluster {
    MCPGCluster {
        metadata: meta("prod-cluster", None),
        spec: MCPGClusterSpec {
            backend: ClusterBackend {
                config_kind: "redis".into(),
                single_node: false,
                plugin_id: Some("dev.mcpg.cluster.redis".into()),
            },
            plugin_ref: plugin.map(named),
            rendered_block: Json::parse(r#"{"kind":"redis"}"#).unwrap(),
            ..Default::default()
        },
        status: None,
    }
}

#[test]
fn a_cluster_is_ready_with_its_plugin() {
    let ready = Condition::new("Ready", "True", "Reconciled", "ok", Some(1));
    let c = redis_cluster(Some("cluster-redis"));
    let r = report_cluster(&c, 2, Some(&cluster_plugin(vec![ready], None)), 3);
    let cond = find(&r.report.conditions, "Ready");
    assert_eq!(cond.status, "True");
    assert_eq!(
        cond.message,
        "backend 'redis' bindable via verified plugin 'cluster-redis'"
    );
    assert_eq!(r.bound_gateways, 3);
    assert_eq!(r.config_hash.len(), 64);
    let r = report_cluster(&c, 2, None, 0);
    assert_eq!(
        find(&r.report.conditions, "Ready").reason,
        "ClusterPluginNotFound"
    );
    assert_eq!(r.report.event.unwrap().type_, EventType::Warning);
    let r = report_cluster(&c, 2, Some(&cluster_plugin(vec![], None)), 0);
    assert_eq!(
        find(&r.report.conditions, "Ready").reason,
        "ClusterPluginNotReady"
    );
    let r = report_cluster(&redis_cluster(None), 2, None, 0);
    assert_eq!(
        find(&r.report.conditions, "Ready").message,
        "backend 'redis' bindable (cdylib supplied via gateway pluginSetRef)"
    );
}

#[test]
fn bound_gateways_are_counted_by_name() {
    let mut bound = MCPGGateway::default();
    bound.spec.cluster_ref = Some(named("prod-cluster"));
    let mut other = MCPGGateway::default();
    other.spec.cluster_ref = Some(named("other"));
    let all = vec![bound, other, MCPGGateway::default()];
    assert_eq!(count_bound_gateways(&all, "prod-cluster"), 1);
    assert_eq!(map_gateway_to_clusters(&all[0])[0].name, "prod-cluster");
}

fn plugin_with_mirror(mirror: Option<&str>) -> MCPGPlugin {
    MCPGPlugin {
        metadata: meta("p", None),
        spec: MCPGPluginSpec {
            oci: OciImageRef {
                image: "ghcr.io/x/y:1".into(),
                pull_secret_ref: None,
                mirror_ref: mirror.map(named),
            },
            ..Default::default()
        },
        status: None,
    }
}

#[test]
fn map_plugin_with_mirror_ref_targets_the_mirror() {
    let refs = map_plugin_to_mirrors(&plugin_with_mirror(Some("airgap-mirror")));
    assert_eq!(refs.len(), 1);
    assert_eq!(refs[0].name, "airgap-mirror");
}

#[test]
fn map_plugin_without_mirror_ref_is_empty() {
    assert!(map_plugin_to_mirrors(&plugin_with_mirror(None)).is_empty());
}

#[test]
fn a_mirror_is_ready_when_its_service_is_there() {
    let m = MCPGPluginMirror {
        metadata: meta("airgap-mirror", None),
        spec: MCPGPluginMirrorSpec {
            endpoint: MirrorEndpoint {
                service: MirrorService {
                    namespace: "mirror".into(),
                    name: "registry".into(),
                    port: 5000,
                    host: "registry.mirror.svc.cluster.local:5000".into(),
                },
                insecure: true,
            },
            ..Default::default()
        },
        status: None,
    };
    let plugins = vec![plugin_with_mirror(Some("airgap-mirror")), plugin_with_mirror(None)];
    let n = count_proxied_plugins(&plugins, "airgap-mirror");
    assert_eq!(n, 1);
    let r = report_plugin_mirror(&m, 1, true, n);
    assert_eq!(find(&r.report.conditions, "Ready").status, "True");
    assert_eq!(r.endpoint_host, "registry.mirror.svc.cluster.local:5000");
    assert!(r.report.event.is_none());
    let r = report_plugin_mirror(&m, 1, false, n);
    assert_eq!(
        find(&r.report.conditions, "Ready").reason,
        "MirrorServiceNotFound"
    );
    assert_eq!(r.report.verdict.outcome, ReconcileOutcome::DependencyPending);
}

fn list(entries: Vec<RevocationEntry>) -> MCPGRevocationList {
    MCPGRevocationList {
        metadata: meta("cluster-default", None),
        spec: MCPGRevocationListSpec {
            version: 1,
            issued_at: None,
            revocations: entries,
        },
        status: None,
    }
}

fn entry(sha: String, reason: &str) -> RevocationEntry {
    RevocationEntry {
        artifact_sha256: sha,
        reason: reason.into(),
        revoked_at: None,
    }
}

#[test]
fn rendered_json_normalises_sha256_to_lowercase() {
    let p = list(vec![entry("ABCDEF".repeat(11) + "ABCDEF", "test")]);
    let (json, _) = render_revocation_json(&p.spec);
    let parsed: serde_json::Value = serde_json::from_str(&json).unwrap();
    let sha = parsed["revocations"][0]["artifact_sha256"]
        .as_str()
        .unwrap();
    assert!(sha
        .chars()
        .all(|c| c.is_ascii_lowercase() || c.is_ascii_digit()));
}

#[test]
fn content_hash_is_deterministic() {
    let p1 = list(vec![entry("abcd".repeat(16), "x")]);
    let p2 = list(vec![entry("abcd".repeat(16), "x")]);
    let (_, h1) = render_revocation_json(&p1.spec);
    let (_, h2) = render_revocation_json(&p2.spec);
    assert_eq!(h1, h2);
    assert_eq!(h1.len(), 64);
}

#[test]
fn content_hash_changes_on_content_change() {
    let p1 = list(vec![entry("abcd".repeat(16), "x")]);
    let p2 = list(vec![entry("abcd".repeat(16), "y")]);
    let (_, h1) = render_revocation_json(&p1.spec);
    let (_, h2) = render_revocation_json(&p2.spec);
    assert_ne!(h1, h2);
}

#[test]
fn build_configmap_carries_content_hash_label() {
    let p = list(vec![]);
    let (rendered, hash) = render_revocation_json(&p.spec);
    let cm = build_configmap(&p, "payments", &rendered, &hash);
    let labels = cm.metadata.labels.unwrap();
    assert_eq!(labels.get("mcpg.dev/content-hash").unwrap(), &hash);
    assert_eq!(
        labels.get("mcpg.dev/revocation-list").unwrap(),
        "cluster-default"
    );
    assert_eq!(cm.metadata.name.as_deref(), Some(CONFIGMAP_NAME));
    assert_eq!(cm.metadata.namespace.as_deref(), Some("payments"));
}

#[test]
fn build_configmap_holds_revocations_under_canonical_filename() {
    let p = list(vec![]);
    let (rendered, hash) = render_revocation_json(&p.spec);
    let cm = build_configmap(&p, "payments", &rendered, &hash);
    assert!(cm.data.get(REVOCATIONS_FILE).is_some());
}

#[test]
fn empty_revocations_renders_empty_array() {
    let p = list(vec![]);
    let (json, _) = render_revocation_json(&p.spec);
    let parsed: serde_json::Value = serde_json::from_str(&json).unwrap();
    assert_eq!(parsed["version"], 1);
    assert_eq!(parsed["revocations"].as_array().unwrap().len(), 0);
}

#[test]
fn times_are_written_as_rfc3339() {
    let mut p = list(vec![entry("abcd".repeat(16), "x")]);
    p.spec.issued_at = Some(Timestamp { secs: 0, nanos: 0 });
    p.spec.revocations[0].revoked_at = Some(Timestamp { secs: 86_400, nanos: 500_000_000 });
    let (json, _) = render_revocation_json(&p.spec);
    let parsed: serde_json::Value = serde_json::from_str(&json).unwrap();
    assert_eq!(parsed["issued_at"], "1970-01-01T00:00:00+00:00");
    assert_eq!(
        parsed["revocations"][0]["revoked_at"],
        "1970-01-02T00:00:00.500+00:00"
    );
}

#[test]
fn a_list_goes_to_every_namespace_with_a_gateway() {
    let gateways = vec![
        MCPGGateway { metadata: meta("b", Some("team-b")), ..Default::default() },
        MCPGGateway { metadata: meta("a", Some("team-a")), ..Default::default() },
        MCPGGateway { metadata: meta("c", Some("team-b")), ..Default::default() },
        MCPGGateway { metadata: meta("d", None), ..Default::default() },
    ];
    assert_eq!(namespaces_with_gateways(&gateways), vec!["team-a", "team-b"]);
}

#[test]
fn a_list_is_ready_once_it_is_everywhere() {
    let p = list(vec![entry("abcd".repeat(16), "x")]);
    let r = report_revocation_list(&p, 1, 2, 3, "h");
    assert_eq!((r.observed_revocations, r.materialised_namespaces), (1, 2));
    assert_eq!(r.content_hash, "h");
    let r = r.report;
    assert_eq!(find(&r.conditions, "Ready").message, "2/3 namespaces synced");
    let e = r.event.unwrap();
    assert_eq!(e.reason, "PartialMaterialisation");
    assert_eq!(
        e.note,
        "Revocation list materialised in 2/3 namespaces (entries: 1)"
    );
    let r = report_revocation_list(&p, 1, 3, 3, "h").report;
    assert_eq!(find(&r.conditions, "Ready").message, "3 namespaces synced");
    assert_eq!(r.verdict.requeue, Requeue::AfterSecs(60));
}

fn route(ns: &str, spec: MCPGRouteSpec) -> MCPGRoute {
    MCPGRoute {
        metadata: meta("r", Some(ns)),
        spec,
        status: None,
    }
}

fn spec_with_chains(identity: &[&str]) -> MCPGRouteSpec {
    MCPGRouteSpec {
        gateway_ref: GatewayRef {
            name: "shared".into(),
            namespace: Some("shared-gw".into()),
        },
        tools: vec![RouteToolRef {
            id: "orders.list".into(),
        }],
        identity_chain: identity.iter().map(|s| s.to_string()).collect(),
        ..Default::default()
    }
}

#[test]
fn missing_chain_plugins_flags_empty_id() {
    let r = route("tenant-a", spec_with_chains(&["", "ok"]));
    assert_eq!(missing_chain_plugins(&r).as_deref(), Some("<empty>"));
}

#[test]
fn missing_chain_plugins_ok_for_well_formed() {
    let r = route("tenant-a", spec_with_chains(&["dev.mcpg.identity.workload"]));
    assert!(missing_chain_plugins(&r).is_none());
}

#[test]
fn map_gateway_to_routes_is_empty_hook() {
    let gw = MCPGGateway {
        metadata: meta("g", Some("ns")),
        ..Default::default()
    };
    assert!(map_gateway_to_routes(&gw).is_empty());
}

#[test]
fn a_route_needs_the_gateways_consent() {
    let mut gw = MCPGGateway {
        metadata: meta("shared", Some("shared-gw")),
        spec: MCPGGatewaySpec::default(),
        status: None,
    };
    let mut r = route("tenant-a", spec_with_chains(&[]));
    r.spec.tenant = Some("a".into());
    assert!(!accepts_route(&gw, "shared-gw", "tenant-a"));
    assert!(accepts_route(&gw, "shared-gw", "shared-gw"));
    let report = report_route(&r, "tenant-a", 1, Some(&gw));
    assert_eq!(find(&report.report.conditions, "GatewayBound").status, "False");
    assert_eq!(find(&report.report.conditions, "Ready").status, "False");
    gw.spec.accepted_route_namespaces = vec!["tenant-a".into()];
    let report = report_route(&r, "tenant-a", 1, Some(&gw));
    let ready = find(&report.report.conditions, "Ready");
    assert_eq!(ready.status, "True");
    assert_eq!(ready.message, "1 tool(s) scoped to tenant 'a'");
    assert_eq!(report.matched_tools, 1);
    assert_eq!(find(&report.report.conditions, "ChainsEnforced").status, "False");
    let report = report_route(&r, "tenant-a", 1, None);
    assert_eq!(find(&report.report.conditions, "Ready").status, "False");
    assert!(report.report.event.is_some());
}

fn server(image: &str, verified: bool, federated: bool) -> MCPGServer {
    MCPGServer {
        metadata: meta("crm", Some("team-a")),
        spec: MCPGServerSpec {
            image: image.into(),
            verify: verified.then_some(CosignIdentity::default()),
            desired_replicas: 2,
            federate: federated.then_some(ServerFederate {
                gateway_ref: named("main"),
                ..Default::default()
            }),
            endpoint: "http://crm".into(),
            ..Default::default()
        },
        status: None,
    }
}

#[test]
fn an_image_is_checked_only_by_digest() {
    assert!(matches!(
        image_check(&server("ghcr.io/a/b:1", false, false)),
        ImageCheck::NotConfigured
    ));
    assert!(matches!(
        image_check(&server("ghcr.io/a/b:1", true, false)),
        ImageCheck::DigestRequired
    ));
    match image_check(&server("ghcr.io/a/b@sha256:abcd", true, false)) {
        ImageCheck::Check { image, digest, .. } => {
            assert_eq!(image, "ghcr.io/a/b@sha256:abcd");
            assert_eq!(digest, "sha256:abcd");
        }
        other => panic!("{other:?}"),
    }
}

#[test]
fn an_unverified_image_blocks_the_workload() {
    let s = server("ghcr.io/a/b@sha256:abcd", true, true);
    let bad = ImageVerdict::Failed("no signature".into());
    assert!(!may_render(&bad));
    let r = report_server(&s, "team-a", 1, &bad, 2, true);
    let ready = find(&r.conditions, "Ready");
    assert_eq!(ready.status, "False");
    assert_eq!(ready.reason, "RenderBlockedByVerification");
    assert_eq!(
        ready.message,
        "workload not (re)rendered: cosign verification failed: no signature"
    );
    assert_eq!(r.verify_event.unwrap().reason, "CosignVerifyFailed");
    assert_eq!(r.bound_gateway.as_deref(), Some("team-a/main"));
}

#[test]
fn a_server_is_ready_with_its_replicas() {
    let s = server("ghcr.io/a/b:1", false, true);
    let ok = ImageVerdict::NotConfigured;
    assert!(may_render(&ok));
    let r = report_server(&s, "team-a", 1, &ok, 1, false);
    assert_eq!(find(&r.conditions, "Ready").reason, "RolloutPending");
    assert_eq!(find(&r.conditions, "Ready").message, "1/2 replicas ready");
    assert_eq!(find(&r.conditions, "GatewayBound").reason, "GatewayNotFound");
    assert!(r.bind_event.is_some());
    let r = report_server(&s, "team-a", 1, &ok, 2, true);
    assert_eq!(find(&r.conditions, "Ready").status, "True");
    assert!(r.bind_event.is_none() && r.verify_event.is_none());
    let alone = server("ghcr.io/a/b:1", false, false);
    let r = report_server(&alone, "team-a", 1, &ok, 2, false);
    assert_eq!(find(&r.conditions, "GatewayBound").reason, "NotFederated");
    assert!(r.bind_event.is_none());
}

#[test]
fn quota_name_is_tenant_scoped() {
    assert_eq!(quota_name("team-payments"), "mcpg-tenant-team-payments");
}

#[test]
fn build_hard_limits_uses_count_keys() {
    let q = TenantQuotas {
        max_gateways: Some(5),
        max_plugin_sets: Some(10),
        max_routes: Some(50),
        max_replicas_per_gateway: Some(20),
    };
    let hard = build_hard_limits(&q);
    assert_eq!(hard.get("count/mcpggateways.mcpg.dev").unwrap(), "5");
    assert_eq!(hard.get("count/mcpgpluginsets.mcpg.dev").unwrap(), "10");
    assert_eq!(hard.get("count/mcpgroutes.mcpg.dev").unwrap(), "50");
    assert!(!hard.entries.iter().any(|e| e.0.contains("replica")));
}

#[test]
fn build_hard_limits_omits_unset() {
    let q = TenantQuotas {
        max_gateways: Some(3),
        ..Default::default()
    };
    let hard = build_hard_limits(&q);
    assert_eq!(hard.entries.len(), 1);
    assert!(hard.get("count/mcpggateways.mcpg.dev").is_some());
}

#[test]
fn quota_exceeded_detects_overage() {
    let q = TenantQuotas {
        max_gateways: Some(2),
        ..Default::default()
    };
    let under = TenantObservedCounts {
        gateways: 2,
        ..Default::default()
    };
    let over = TenantObservedCounts {
        gateways: 3,
        ..Default::default()
    };
    assert!(!quota_exceeded(Some(&q), &under));
    assert!(quota_exceeded(Some(&q), &over));
}

#[test]
fn quota_exceeded_false_when_no_quota() {
    let observed = TenantObservedCounts {
        gateways: 100,
        ..Default::default()
    };
    assert!(!quota_exceeded(None, &observed));
}

#[test]
fn a_quota_is_applied_or_taken_away() {
    match ensure_resource_quota("ns", "acme", None) {
        QuotaAction::Delete(name) => assert_eq!(name, "mcpg-tenant-acme"),
        other => panic!("{other:?}"),
    }
    let q = TenantQuotas {
        max_routes: Some(7),
        ..Default::default()
    };
    match ensure_resource_quota("ns", "acme", Some(q)) {
        QuotaAction::Apply(rq) => {
            assert_eq!(rq.metadata.namespace.as_deref(), Some("ns"));
            assert_eq!(rq.hard.get("count/mcpgroutes.mcpg.dev").unwrap(), "7");
        }
        other => panic!("{other:?}"),
    }
    let only_replicas = TenantQuotas {
        max_replicas_per_gateway: Some(7),
        ..Default::default()
    };
    assert!(matches!(
        ensure_resource_quota("ns", "acme", Some(only_replicas)),
        QuotaAction::Delete(_)
    ));
    let label = ensure_namespace_label("ns", "acme");
    assert_eq!(label.labels.unwrap().get("mcpg.dev/tenant").unwrap(), "acme");
    let (quota, bare) = teardown_namespace("ns", "acme");
    assert_eq!(quota, "mcpg-tenant-acme");
    assert!(bare.labels.unwrap().is_empty());
}

#[test]
fn a_tenant_is_ready_once_its_namespaces_are_there() {
    let t = MCPGTenant {
        metadata: meta("acme", None),
        spec: MCPGTenantSpec {
            namespaces: vec!["a".into(), "b".into(), "c".into()],
            quotas: Some(TenantQuotas {
                max_gateways: Some(3),
                ..Default::default()
            }),
            ..Default::default()
        },
        status: None,
    };
    let fates = vec![NamespaceFate::Bound, NamespaceFate::Missing, NamespaceFate::Bound];
    let (bound, unbound, missing) = split_namespaces(&t.spec.namespaces, &fates);
    assert_eq!(bound, vec!["a", "c"]);
    assert!(unbound.is_empty());
    assert_eq!(missing, vec!["b"]);
    let observed = count_resources(&vec![
        TenantObservedCounts { gateways: 1, plugin_sets: 2, routes: 0 },
        TenantObservedCounts { gateways: 3, plugin_sets: 0, routes: 5 },
    ]);
    assert_eq!(
        observed,
        TenantObservedCounts { gateways: 4, plugin_sets: 2, routes: 5 }
    );
    let r = report_tenant(&t, 1, bound, &unbound, &missing, observed);
    assert_eq!(r.bound_namespaces, vec!["a", "c"]);
    assert_eq!(r.observed.gateways, 4);
    let r = r.report;
    assert_eq!(find(&r.conditions, "Ready").status, "False");
    assert_eq!(
        find(&r.conditions, "NamespacesBound").message,
        "missing namespace(s): b"
    );
    assert_eq!(
        find(&r.conditions, "QuotaWithinLimits").reason,
        "PreExistingOverage"
    );
    let all = t.spec.namespaces.clone();
    let r = report_tenant(&t, 1, all, &Vec::new(), &Vec::new(), TenantObservedCounts::default()).report;
    assert_eq!(find(&r.conditions, "Ready").status, "True");
    assert_eq!(
        find(&r.conditions, "NamespacesBound").message,
        "3 namespace(s) bound"
    );
    assert!(r.event.is_none());
    let failed = vec!["b".to_owned()];
    let r = report_tenant(
        &t,
        1,
        vec!["a".into(), "c".into()],
        &failed,
        &Vec::new(),
        TenantObservedCounts::default(),
    )
    .report;
    assert_eq!(find(&r.conditions, "Ready").status, "False");
    assert_eq!(
        find(&r.conditions, "Ready").message,
        "1 declared namespace(s) not yet bound"
    );
    assert_eq!(find(&r.conditions, "NamespacesBound").reason, "NamespaceNotBound");
    assert_eq!(r.event.unwrap().note, "binding failed in namespace(s): b");
}

#[test]
fn a_plugin_wakes_the_cluster_of_its_name() {
    let plugin = MCPGPlugin {
        metadata: ObjectMeta {
            name: Some("redis".into()),
            ..Default::default()
        },
        ..Default::default()
    };
    let hits = map_plugin_to_clusters(&plugin);
    assert_eq!(hits.len(), 1);
    assert_eq!(hits[0].name, "redis");
    assert_eq!(hits[0].namespace, None);
}
