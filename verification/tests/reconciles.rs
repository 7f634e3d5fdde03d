use mcpg_operator::api::conditions::Condition;
use mcpg_operator::api::objects::ObjectMeta;
use mcpg_operator::api::resources::{
    GatewayRef, LocalObjectReference, MCPGCluster, MCPGClusterSpec, MCPGGateway, MCPGGatewaySpec,
    MCPGPlugin, MCPGPluginMirror, MCPGPluginMirrorSpec, MCPGPluginSpec, MCPGPluginStatus,
    MCPGRevocationList, MCPGRoute, MCPGRouteSpec, MCPGTenant, MCPGTenantSpec, MirrorEndpoint,
    MirrorService, OciImageRef, RouteToolRef, TenantQuotas,
};
use mcpg_operator::controllers::cluster::flow as cluster;
use mcpg_operator::controllers::cluster::flow::{ClusterAction, ClusterEvent, ClusterState};
use mcpg_operator::controllers::plugin_mirror::flow as mirror;
use mcpg_operator::controllers::plugin_mirror::flow::{MirrorAction, MirrorEvent, MirrorState};
use mcpg_operator::controllers::revocation_list::flow as list;
use mcpg_operator::controllers::revocation_list::flow::{ListAction, ListEvent, ListState};
use mcpg_operator::controllers::route::flow as route;
use mcpg_operator::controllers::route::flow::{RouteAction, RouteEvent, RouteState};
use mcpg_operator::controllers::tenant::boundary::{QuotaAction, TenantObservedCounts};
use mcpg_operator::controllers::tenant::flow as tenant;
use mcpg_operator::controllers::tenant::flow::{TenantAction, TenantEvent, TenantState};
use mcpg_operator::reconcile::flow::{Begin, ReconcileError, Requeue};
use mcpg_operator::telemetry::ReconcileOutcome;

fn begin(ns: &str, name: &str) -> Begin {
    Begin {
        namespace: ns.into(),
        name: name.into(),
        generation: 3,
        deleting: false,
    }
}

fn gone(ns: &str, name: &str) -> Begin {
    Begin {
        deleting: true,
        ..begin(ns, name)
    }
}

fn meta(ns: Option<&str>, name: &str) -> ObjectMeta {
    ObjectMeta {
        name: Some(name.into()),
        namespace: ns.map(str::to_owned),
        ..Default::default()
    }
}

fn gateway(ns: &str, cluster: Option<&str>) -> MCPGGateway {
    MCPGGateway {
        metadata: meta(Some(ns), "gw"),
        spec: MCPGGatewaySpec {
            cluster_ref: cluster.map(|n| LocalObjectReference { name: n.into() }),
            ..Default::default()
        },
        status: None,
    }
}

fn ready_plugin(mirror: Option<&str>) -> MCPGPlugin {
    MCPGPlugin {
        metadata: meta(None, "redis-plugin"),
        spec: MCPGPluginSpec {
            oci: OciImageRef {
                mirror_ref: mirror.map(|n| LocalObjectReference { name: n.into() }),
                ..Default::default()
            },
            ..Default::default()
        },
        status: Some(MCPGPluginStatus {
            conditions: vec![Condition::new("Ready", "True", "Reconciled", "", None)],
            ..Default::default()
        }),
    }
}

fn redis() -> MCPGCluster {
    MCPGCluster {
        metadata: meta(None, "prod"),
        spec: MCPGClusterSpec {
            plugin_ref: Some(LocalObjectReference {
                name: "redis-plugin".into(),
            }),
            ..Default::default()
        },
        status: None,
    }
}

#[test]
fn a_cluster_is_reported_with_its_plugin_and_gateways() {
    let c = redis();
    let b = begin("", "prod");
    let (s, a) = cluster::start(&b);
    assert!(matches!(a, ClusterAction::AddFinalizer));
    let (s, a) = cluster::step(&c, &b, s, ClusterEvent::FinalizerAdded(Ok(())));
    assert!(matches!(a, ClusterAction::FindPlugin(n) if n == "redis-plugin"));
    let found = ClusterEvent::PluginFound(Ok(Some(ready_plugin(None))));
    let (s, a) = cluster::step(&c, &b, s, found);
    assert!(matches!(a, ClusterAction::ListGateways));
    let listed = vec![gateway("a", Some("prod")), gateway("b", None), gateway("c", Some("x"))];
    let (s, a) = cluster::step(&c, &b, s, ClusterEvent::GatewaysListed(Ok(listed)));
    assert!(matches!(s, ClusterState::Done));
    match a {
        ClusterAction::Complete(r) => {
            assert_eq!(r.bound_gateways, 1);
            assert_eq!(r.observed_generation, 3);
            assert_eq!(r.report.conditions[0].status, "True");
            assert_eq!(r.report.conditions[0].reason, "Bindable");
            assert_eq!(r.report.verdict.outcome, ReconcileOutcome::Success);
        }
        other => panic!("{other:?}"),
    }
    let (s, a) = cluster::step(&c, &b, s, ClusterEvent::FinalizerAdded(Ok(())));
    assert!(matches!(s, ClusterState::Done));
    assert!(matches!(a, ClusterAction::Nothing));
}

#[test]
fn a_cluster_without_a_plugin_needs_none_and_a_failed_lookup_ends_it() {
    let plain = MCPGCluster::default();
    let b = begin("", "prod");
    let (s, _) = cluster::start(&b);
    let (s, a) = cluster::step(&plain, &b, s, ClusterEvent::FinalizerAdded(Ok(())));
    assert!(matches!(a, ClusterAction::ListGateways));
    let (_, a) = cluster::step(&plain, &b, s, ClusterEvent::GatewaysListed(Err("down".into())));
    assert!(matches!(a, ClusterAction::Fail(ReconcileError::Kube(d)) if d == "down"));
    let (_, a) = cluster::step(
        &redis(),
        &b,
        ClusterState::FindingPlugin,
        ClusterEvent::PluginFound(Err("down".into())),
    );
    assert!(matches!(a, ClusterAction::Fail(ReconcileError::Kube(_))));
    let (s, a) = cluster::start(&gone("", "prod"));
    assert!(matches!(a, ClusterAction::RemoveFinalizer));
    let (s, a) = cluster::step(&plain, &b, s, ClusterEvent::FinalizerRemoved(Ok(())));
    assert!(matches!(s, ClusterState::Done));
    assert!(matches!(a, ClusterAction::Stop(v) if v.requeue == Requeue::AwaitChange));
}

#[test]
fn a_mirror_is_reported_with_its_service_and_plugins() {
    let m = MCPGPluginMirror {
        metadata: meta(None, "airgap"),
        spec: MCPGPluginMirrorSpec {
            endpoint: MirrorEndpoint {
                service: MirrorService {
                    namespace: "infra".into(),
                    name: "registry".into(),
                    port: 5000,
                    host: "registry.infra.svc:5000".into(),
                },
                insecure: false,
            },
            ..Default::default()
        },
        status: None,
    };
    let b = begin("", "airgap");
    let (s, _) = mirror::start(&b);
    let (s, a) = mirror::step(&m, &b, s, MirrorEvent::FinalizerAdded(Ok(())));
    match a {
        MirrorAction::FindService { namespace, name } => {
            assert_eq!((namespace.as_str(), name.as_str()), ("infra", "registry"));
        }
        other => panic!("{other:?}"),
    }
    let (s, a) = mirror::step(&m, &b, s, MirrorEvent::ServiceFound(Ok(false)));
    assert!(matches!(a, MirrorAction::ListPlugins));
    let plugins = vec![ready_plugin(Some("airgap")), ready_plugin(None)];
    let (s, a) = mirror::step(&m, &b, s, MirrorEvent::PluginsListed(Ok(plugins)));
    assert!(matches!(s, MirrorState::Done));
    match a {
        MirrorAction::Complete(r) => {
            assert_eq!(r.proxied_references, 1);
            assert!(!r.reachable);
            assert_eq!(r.report.conditions[0].reason, "MirrorServiceNotFound");
        }
        other => panic!("{other:?}"),
    }
    let (_, a) = mirror::step(
        &m,
        &b,
        MirrorState::AddingFinalizer,
        MirrorEvent::FinalizerAdded(Err("conflict".into())),
    );
    assert!(matches!(a, MirrorAction::Fail(ReconcileError::Finalizer(_))));
}

#[test]
fn a_route_is_reported_with_its_gateway() {
    let r = MCPGRoute {
        metadata: meta(Some("team"), "r"),
        spec: MCPGRouteSpec {
            gateway_ref: GatewayRef {
                name: "gw".into(),
                namespace: Some("shared".into()),
            },
            tools: vec![RouteToolRef { id: "t".into() }],
            ..Default::default()
        },
        status: None,
    };
    let b = begin("team", "r");
    let (s, _) = route::start(&b);
    let (s, a) = route::step(&r, &b, s, RouteEvent::FinalizerAdded(Ok(())));
    match a {
        RouteAction::FindGateway { namespace, name } => {
            assert_eq!((namespace.as_str(), name.as_str()), ("shared", "gw"));
        }
        other => panic!("{other:?}"),
    }
    let found = RouteEvent::GatewayFound(Ok(Some(gateway("shared", None))));
    let (s, a) = route::step(&r, &b, s, found);
    assert!(matches!(s, RouteState::Done));
    match a {
        RouteAction::Complete(rep) => {
            assert_eq!(rep.bound_gateway, "shared/gw");
            assert_eq!(rep.matched_tools, 1);
            assert_eq!(rep.report.conditions[0].reason, "NamespaceNotAccepted");
        }
        other => panic!("{other:?}"),
    }
    let (_, a) = route::step(
        &r,
        &b,
        RouteState::FindingGateway,
        RouteEvent::GatewayFound(Err("down".into())),
    );
    assert!(matches!(a, RouteAction::Fail(ReconcileError::Kube(_))));
}

#[test]
fn a_revocation_list_goes_to_every_namespace_with_a_gateway() {
    let l = MCPGRevocationList {
        metadata: meta(None, "cluster-default"),
        ..Default::default()
    };
    let b = begin("", "cluster-default");
    let (s, _) = list::start(&b);
    let (s, a) = list::step(&l, &b, s, ListEvent::FinalizerAdded(Ok(())));
    assert!(matches!(a, ListAction::ListGateways));
    let listed = vec![gateway("b", None), gateway("a", None), gateway("b", None)];
    let (s, a) = list::step(&l, &b, s, ListEvent::GatewaysListed(Ok(listed)));
    match a {
        ListAction::Apply(cm) => {
            assert_eq!(cm.metadata.namespace.as_deref(), Some("a"));
            assert_eq!(cm.metadata.name.as_deref(), Some("mcpg-revocation-list"));
        }
        other => panic!("{other:?}"),
    }
    let (s, a) = list::step(&l, &b, s, ListEvent::Applied(Err("denied".into())));
    assert!(
        matches!(a, ListAction::Apply(cm) if cm.metadata.namespace.as_deref() == Some("b"))
    );
    let (s, a) = list::step(&l, &b, s, ListEvent::Applied(Ok(())));
    assert!(matches!(s, ListState::Done));
    match a {
        ListAction::Complete(r) => {
            assert_eq!(r.materialised_namespaces, 1);
            assert_eq!(r.report.conditions[0].message, "1/2 namespaces synced");
            assert_eq!(r.report.verdict.outcome, ReconcileOutcome::DependencyPending);
        }
        other => panic!("{other:?}"),
    }
}

#[test]
fn a_revocation_list_without_gateways_is_ready_at_once() {
    let l = MCPGRevocationList::default();
    let b = begin("", "cluster-default");
    let (_, a) = list::step(
        &l,
        &b,
        ListState::ListingGateways,
        ListEvent::GatewaysListed(Ok(Vec::new())),
    );
    match a {
        ListAction::Complete(r) => {
            assert_eq!(r.report.conditions[0].status, "True");
            assert_eq!(r.materialised_namespaces, 0);
        }
        other => panic!("{other:?}"),
    }
    let stray = ListState::Applying {
        targets: Vec::new(),
        next: 0,
        materialised: 0,
    };
    let (s, a) = list::step(&l, &b, stray, ListEvent::Applied(Ok(())));
    assert!(matches!(s, ListState::Applying { .. }));
    assert!(matches!(a, ListAction::Nothing));
}

fn acme(namespaces: &[&str]) -> MCPGTenant {
    MCPGTenant {
        metadata: meta(None, "acme"),
        spec: MCPGTenantSpec {
            namespaces: namespaces.iter().map(|s| s.to_string()).collect(),
            quotas: Some(TenantQuotas {
                max_gateways: Some(2),
                ..Default::default()
            }),
            ..Default::default()
        },
        status: None,
    }
}

fn counts(gateways: i64) -> TenantEvent {
    TenantEvent::Counted(Ok(TenantObservedCounts {
        gateways,
        plugin_sets: 1,
        routes: 0,
    }))
}

#[test]
fn a_tenant_binds_the_namespaces_that_are_there() {
    let t = acme(&["a", "lost", "mcpg-system"]);
    let b = begin("", "acme");
    let go = |s, e| tenant::step(&t, &b, "op", s, e);
    let (s, _) = tenant::start(&t, &b);
    let (s, a) = go(s, TenantEvent::FinalizerAdded(Ok(())));
    assert!(matches!(a, TenantAction::FindNamespace(n) if n == "a"));
    let (s, a) = go(s, TenantEvent::NamespaceFound(Ok(true)));
    match a {
        TenantAction::Bind {
            namespace,
            binding,
            marked,
            quota,
        } => {
            assert_eq!(namespace, "a");
            assert_eq!(binding.unwrap().metadata.namespace.as_deref(), Some("a"));
            let labels = marked.labels.unwrap();
            assert_eq!(labels.get("mcpg.dev/tenant").map(String::as_str), Some("acme"));
            match quota {
                QuotaAction::Apply(q) => {
                    assert_eq!(q.metadata.name.as_deref(), Some("mcpg-tenant-acme"));
                }
                other => panic!("{other:?}"),
            }
        }
        other => panic!("{other:?}"),
    }
    let (s, a) = go(s, TenantEvent::NamespaceBound(Ok(())));
    assert!(matches!(a, TenantAction::FindNamespace(n) if n == "lost"));
    let (s, a) = go(s, TenantEvent::NamespaceFound(Ok(false)));
    assert!(matches!(a, TenantAction::FindNamespace(n) if n == "mcpg-system"));
    let (s, a) = go(s, TenantEvent::NamespaceFound(Ok(true)));
    assert!(matches!(a, TenantAction::Bind { binding: None, .. }));
    let (s, a) = go(s, TenantEvent::NamespaceBound(Ok(())));
    assert!(matches!(a, TenantAction::Count(n) if n == "a"));
    let (s, a) = go(s, counts(2));
    assert!(matches!(a, TenantAction::Count(n) if n == "mcpg-system"));
    let (s, a) = go(s, counts(1));
    assert!(matches!(s, TenantState::Done));
    match a {
        TenantAction::Complete(r) => {
            assert_eq!(r.bound_namespaces, ["a", "mcpg-system"]);
            assert_eq!(r.observed.gateways, 3);
            assert_eq!(r.observed.plugin_sets, 2);
            assert_eq!(r.report.conditions[0].message, "missing namespace(s): lost");
            assert_eq!(r.report.conditions[1].reason, "PreExistingOverage");
        }
        other => panic!("{other:?}"),
    }
}

#[test]
fn a_deleted_tenant_leaves_its_namespaces_first() {
    let t = acme(&["a", "b"]);
    let b = gone("", "acme");
    let (s, a) = tenant::start(&t, &b);
    match a {
        TenantAction::TearDown {
            namespace,
            quota_name,
            unmarked,
        } => {
            assert_eq!(namespace, "a");
            assert_eq!(quota_name, "mcpg-tenant-acme");
            assert_eq!(unmarked.name.as_deref(), Some("a"));
            assert!(unmarked.labels.unwrap().is_empty());
        }
        other => panic!("{other:?}"),
    }
    let (s, a) = tenant::step(&t, &b, "op", s, TenantEvent::TornDown);
    assert!(matches!(a, TenantAction::TearDown { namespace, .. } if namespace == "b"));
    let (s, a) = tenant::step(&t, &b, "op", s, TenantEvent::TornDown);
    assert!(matches!(a, TenantAction::RemoveFinalizer));
    let (s, a) = tenant::step(&t, &b, "op", s, TenantEvent::FinalizerRemoved(Ok(())));
    assert!(matches!(s, TenantState::Done));
    assert!(matches!(a, TenantAction::Stop(_)));
}

#[test]
fn a_tenant_whose_quota_fails_is_not_ready() {
    let t = acme(&["a", "b"]);
    let b = begin("", "acme");
    let go = |s, e| tenant::step(&t, &b, "op", s, e);
    let (s, _) = tenant::start(&t, &b);
    let (s, _) = go(s, TenantEvent::FinalizerAdded(Ok(())));
    let (s, _) = go(s, TenantEvent::NamespaceFound(Ok(true)));
    let (s, _) = go(s, TenantEvent::NamespaceBound(Err("forbidden".into())));
    let (s, _) = go(s, TenantEvent::NamespaceFound(Ok(true)));
    let (s, a) = go(s, TenantEvent::NamespaceBound(Ok(())));
    assert!(matches!(a, TenantAction::Count(n) if n == "b"));
    let (_, a) = go(s, counts(1));
    match a {
        TenantAction::Complete(r) => {
            assert_eq!(r.bound_namespaces, ["b"]);
            let ready = r.report.conditions.iter().find(|c| c.type_ == "Ready").unwrap();
            assert_eq!(ready.status, "False");
            assert_eq!(r.report.verdict.outcome, ReconcileOutcome::DependencyPending);
        }
        other => panic!("{other:?}"),
    }
}

#[test]
fn a_tenant_stops_at_a_failed_lookup() {
    let t = acme(&["a"]);
    let b = begin("", "acme");
    let fail = |s, e| match tenant::step(&t, &b, "op", s, e).1 {
        TenantAction::Fail(ReconcileError::Kube(d)) => d,
        other => panic!("{other:?}"),
    };
    let finding = TenantState::FindingNamespace { fates: Vec::new() };
    assert_eq!(fail(finding, TenantEvent::NamespaceFound(Err("down".into()))), "down");
    let counting = TenantState::Counting {
        bound: vec!["a".into()],
        unbound: Vec::new(),
        missing: Vec::new(),
        counts: Vec::new(),
    };
    assert_eq!(fail(counting, TenantEvent::Counted(Err("gone".into()))), "gone");
}
