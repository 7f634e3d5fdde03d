use mcpg_operator::api::conditions::Condition;
use mcpg_operator::api::objects::{ObjectMeta, Secret};
use mcpg_operator::api::resources::{
    CosignIdentity, GatewayCloud, LocalObjectReference, MCPGGateway, MCPGGatewaySpec, MCPGPlugin,
    MCPGPluginSet, MCPGPluginSetEntry, MCPGPluginSetSpec, MCPGPluginSpec, MCPGPluginStatus,
    MCPGServer, MCPGServerSpec, ServerFederate,
};
use mcpg_operator::controllers::gateway::flow as gateway;
use mcpg_operator::controllers::gateway::flow::{GatewayAction, GatewayEvent, GatewayState};
use mcpg_operator::controllers::gateway::plan::{GatewayChild, OptionalChildren};
use mcpg_operator::controllers::gateway::status::DeploymentStatus;
use mcpg_operator::controllers::plugin_set::flow as plugin_set;
use mcpg_operator::controllers::plugin_set::flow::{SetAction, SetEvent, SetState};
use mcpg_operator::controllers::plugin_set::resolve::PluginLookup;
use mcpg_operator::controllers::server::flow as server;
use mcpg_operator::controllers::server::flow::{ServerAction, ServerEvent, ServerState};
use mcpg_operator::json::Json;
use mcpg_operator::reconcile::flow::{Begin, ReconcileError, Requeue};
use mcpg_operator::telemetry::ReconcileOutcome;

fn begin(ns: &str, deleting: bool) -> Begin {
    Begin {
        namespace: ns.into(),
        name: "x".into(),
        generation: 4,
        deleting,
    }
}

fn a_gateway(cloud: bool) -> MCPGGateway {
    MCPGGateway {
        metadata: ObjectMeta {
            name: Some("x".into()),
            namespace: Some("ns".into()),
            uid: Some("u".into()),
            ..Default::default()
        },
        spec: MCPGGatewaySpec {
            replicas: 1,
            cloud: cloud.then_some(GatewayCloud {
                external_url: "https://x/mcp".into(),
                ..Default::default()
            }),
            ..Default::default()
        },
        status: None,
    }
}

fn no_counts() -> DeploymentStatus {
    DeploymentStatus::default()
}

fn resolve_nothing(gw: &MCPGGateway, b: &Begin) -> (GatewayState, GatewayAction) {
    let (s, a) = gateway::start(gw, b);
    assert!(matches!(a, GatewayAction::AddFinalizer));
    let (s, a) = gateway::step(gw, b, s, GatewayEvent::FinalizerAdded(Ok(())));
    assert!(matches!(a, GatewayAction::FindRevocationList(n) if n == "cluster-default"));
    let (s, a) = gateway::step(gw, b, s, GatewayEvent::RevocationListFound(Ok(None)));
    assert!(matches!(a, GatewayAction::MergePlugins { unresolved } if unresolved.is_empty()));
    let base = Json::parse(r#"{"a": 1}"#).unwrap();
    let (s, a) = gateway::step(gw, b, s, GatewayEvent::PluginsMerged(base));
    assert!(matches!(a, GatewayAction::ListRoutes));
    let (s, a) = gateway::step(gw, b, s, GatewayEvent::RoutesListed(None));
    assert!(matches!(a, GatewayAction::ListServers));
    gateway::step(gw, b, s, GatewayEvent::ServersListed(None))
}

#[test]
fn a_gateway_goes_from_finalizer_to_report() {
    let gw = a_gateway(false);
    let b = begin("ns", false);
    let (s, a) = resolve_nothing(&gw, &b);
    assert!(matches!(a, GatewayAction::Render(c) if c.compact() == r#"{"a":1}"#));
    let rendered = GatewayEvent::Rendered {
        config_hash: "h".into(),
        has: OptionalChildren {
            http_route: false,
            autoscaler: false,
            disruption_budget: true,
        },
    };
    let (mut s, mut a) = gateway::step(&gw, &b, s, rendered);
    let mut applied = Vec::new();
    let report = loop {
        match a {
            GatewayAction::Apply(child) => {
                applied.push(child);
                let status = if child == GatewayChild::Deployment {
                    DeploymentStatus {
                        available_replicas: Some(1),
                        ..no_counts()
                    }
                } else {
                    no_counts()
                };
                (s, a) = gateway::step(&gw, &b, s, GatewayEvent::ChildApplied(Ok(status)));
            }
            GatewayAction::Complete(r) => break r,
            other => panic!("{other:?}"),
        }
    };
    assert!(matches!(s, GatewayState::Done));
    assert_eq!(
        applied,
        vec![
            GatewayChild::ConfigMap,
            GatewayChild::Service,
            GatewayChild::ServiceAccount,
            GatewayChild::Deployment,
            GatewayChild::EdgeDomains,
            GatewayChild::DisruptionBudget,
        ]
    );
    assert_eq!(report.status.available_replicas, Some(1));
    assert_eq!(report.status.config_hash.as_deref(), Some("h"));
    assert_eq!(report.status.conditions[0].status, "True");
}

#[test]
fn a_cloud_gateway_takes_defaults_last() {
    let gw = a_gateway(true);
    let b = begin("ns", false);
    let (s, a) = resolve_nothing(&gw, &b);
    match a {
        GatewayAction::AddDefaults(c) => assert_eq!(
            c.to_value()["governance"]["access"]["resource_metadata"]["resource"],
            "https://x/mcp"
        ),
        other => panic!("{other:?}"),
    }
    let with = Json::parse(r#"{"plugins": []}"#).unwrap();
    let (_, a) = gateway::step(&gw, &b, s, GatewayEvent::DefaultsAdded(with));
    assert!(matches!(a, GatewayAction::Render(c) if c.compact() == r#"{"plugins":[]}"#));
}

#[test]
fn a_deleted_gateway_only_lets_go() {
    let b = begin("ns", true);
    let (s, a) = gateway::start(&a_gateway(true), &b);
    assert!(matches!(a, GatewayAction::ReleaseEdge { uid } if uid == "u"));
    let (s, a) = gateway::step(&a_gateway(true), &b, s, GatewayEvent::EdgeReleased);
    assert!(matches!(a, GatewayAction::RemoveFinalizer));
    let (s, a) = gateway::step(&a_gateway(true), &b, s, GatewayEvent::FinalizerRemoved(Ok(())));
    assert!(matches!(s, GatewayState::Done));
    assert!(matches!(a, GatewayAction::Stop(v) if v.requeue == Requeue::AwaitChange));
    let (_, a) = gateway::start(&a_gateway(false), &b);
    assert!(matches!(a, GatewayAction::RemoveFinalizer));
}

#[test]
fn a_failed_lookup_or_child_ends_a_gateways_reconcile() {
    let mut gw = a_gateway(false);
    gw.spec.plugin_set_ref = Some(LocalObjectReference { name: "set".into() });
    let b = begin("ns", false);
    let (s, _) = gateway::start(&gw, &b);
    let (s, a) = gateway::step(&gw, &b, s, GatewayEvent::FinalizerAdded(Ok(())));
    assert!(matches!(a, GatewayAction::FindPluginSet(n) if n == "set"));
    let (s, a) = gateway::step(&gw, &b, s, GatewayEvent::PluginSetFound(Err("down".into())));
    assert!(matches!(s, GatewayState::Done));
    assert!(matches!(a, GatewayAction::Fail(ReconcileError::Kube(m)) if m == "down"));
    let gw = a_gateway(false);
    let (s, _) = resolve_nothing(&gw, &b);
    let rendered = GatewayEvent::Rendered {
        config_hash: "h".into(),
        has: OptionalChildren {
            http_route: false,
            autoscaler: false,
            disruption_budget: false,
        },
    };
    let (s, _) = gateway::step(&gw, &b, s, rendered);
    let failed = GatewayEvent::ChildApplied(Err(ReconcileError::Apply("no".into())));
    let (_, a) = gateway::step(&gw, &b, s, failed);
    assert!(matches!(a, GatewayAction::Fail(ReconcileError::Apply(m)) if m == "no"));
}

fn ready_plugin(id: &str, secret: &str) -> MCPGPlugin {
    MCPGPlugin {
        metadata: ObjectMeta::default(),
        spec: MCPGPluginSpec {
            plugin_id: id.into(),
            ..Default::default()
        },
        status: Some(MCPGPluginStatus {
            conditions: vec![Condition::new("Ready", "True", "Reconciled", "", None)],
            revoked_by_sha: None,
            artefact_secret_name: Some(secret.into()),
            resolved_digest: None,
        }),
    }
}

fn entry(id: &str, enabled: bool) -> MCPGPluginSetEntry {
    MCPGPluginSetEntry {
        id: id.into(),
        plugin_ref: LocalObjectReference { name: format!("p-{id}") },
        enabled,
        enforce: true,
        config: None,
    }
}

fn a_set() -> MCPGPluginSet {
    MCPGPluginSet {
        metadata: ObjectMeta {
            name: Some("x".into()),
            namespace: Some("ns".into()),
            ..Default::default()
        },
        spec: MCPGPluginSetSpec {
            entries: vec![entry("off", false), entry("a", true), entry("b", true)],
            capability_grants: Vec::new(),
        },
        status: None,
    }
}

#[test]
fn a_plugin_set_is_bound_copied_and_published() {
    let set = a_set();
    let b = begin("ns", false);
    let (s, _) = plugin_set::start(&b);
    let (s, a) = plugin_set::step(&set, &b, "sa", s, SetEvent::FinalizerAdded(Ok(())));
    assert!(matches!(a, SetAction::FindPlugin(n) if n == "p-a"));
    let found = PluginLookup::Found(ready_plugin("a", "sec-a"));
    let (s, a) = plugin_set::step(&set, &b, "sa", s, SetEvent::PluginFound(found));
    assert!(matches!(a, SetAction::FindPlugin(n) if n == "p-b"));
    let (s, a) = plugin_set::step(&set, &b, "sa", s, SetEvent::PluginFound(PluginLookup::Missing));
    match a {
        SetAction::Bind(rb) => {
            assert_eq!(rb.metadata.namespace.as_deref(), Some("ns"));
            assert_eq!(rb.subjects.unwrap()[0].name, "sa");
        }
        other => panic!("{other:?}"),
    }
    let (s, a) = plugin_set::step(&set, &b, "sa", s, SetEvent::Bound(Ok(())));
    assert!(matches!(a, SetAction::FindSource(n) if n == "sec-a"));
    let source = Secret {
        metadata: ObjectMeta::default(),
        type_: None,
        immutable: None,
        data: None,
    };
    let (s, a) = plugin_set::step(&set, &b, "sa", s, SetEvent::SourceFound(Ok(Some(source))));
    assert!(matches!(a, SetAction::Copy(c) if c.metadata.namespace.as_deref() == Some("ns")));
    let (s, a) = plugin_set::step(&set, &b, "sa", s, SetEvent::Copied(Ok(())));
    assert!(matches!(a, SetAction::Publish(cm) if cm.metadata.name.as_deref() == Some("x-resolved")));
    let (s, a) = plugin_set::step(&set, &b, "sa", s, SetEvent::Published(Ok(())));
    assert!(matches!(a, SetAction::ListSecrets));
    let old = ObjectMeta {
        name: Some("sec-z".into()),
        ..Default::default()
    };
    let kept = ObjectMeta {
        name: Some("sec-a".into()),
        ..Default::default()
    };
    let (s, a) =
        plugin_set::step(&set, &b, "sa", s, SetEvent::SecretsListed(Some(vec![old, kept])));
    assert!(matches!(s, SetState::Done));
    match a {
        SetAction::Complete { prune, report } => {
            assert_eq!(prune, vec!["sec-z"]);
            assert_eq!((report.resolved_entries, report.total_entries), (1, 3));
            assert_eq!(report.failed_entries[0].id, "b");
            assert_eq!(
                report.report.verdict.outcome,
                ReconcileOutcome::DependencyPending
            );
        }
        other => panic!("{other:?}"),
    }
}

#[test]
fn the_operators_own_namespace_needs_no_right() {
    let mut set = a_set();
    set.spec.entries.truncate(1);
    let b = begin("mcpg-system", false);
    let (s, _) = plugin_set::start(&b);
    let (_, a) = plugin_set::step(&set, &b, "sa", s, SetEvent::FinalizerAdded(Ok(())));
    assert!(matches!(a, SetAction::Publish(_)));
}

fn a_server(verified: bool, image: &str) -> MCPGServer {
    MCPGServer {
        metadata: ObjectMeta::default(),
        spec: MCPGServerSpec {
            image: image.into(),
            verify: verified.then_some(CosignIdentity::default()),
            desired_replicas: 1,
            child_name: "srv".into(),
            federate: Some(ServerFederate {
                gateway_ref: LocalObjectReference { name: "gw".into() },
                ..Default::default()
            }),
            ..Default::default()
        },
        status: None,
    }
}

#[test]
fn a_verified_server_is_applied_and_reported() {
    let srv = a_server(true, "r/i@sha256:ab");
    let b = begin("ns", false);
    let (s, _) = server::start(&b);
    let (s, a) = server::step(&srv, &b, s, ServerEvent::FinalizerAdded(Ok(())));
    assert!(matches!(a, ServerAction::CheckImage { image, digest, .. } if image == "r/i@sha256:ab" && digest == "sha256:ab"));
    let (s, a) = server::step(&srv, &b, s, ServerEvent::ImageChecked(Ok(())));
    assert!(matches!(a, ServerAction::ApplyDeployment));
    let (s, a) = server::step(&srv, &b, s, ServerEvent::DeploymentApplied(Ok(())));
    assert!(matches!(a, ServerAction::ApplyService));
    let (s, a) = server::step(&srv, &b, s, ServerEvent::ServiceApplied(Ok(())));
    assert!(matches!(a, ServerAction::FindDeployment(n) if n == "srv"));
    let (s, a) = server::step(&srv, &b, s, ServerEvent::DeploymentFound(Ok(Some(1))));
    assert!(matches!(a, ServerAction::FindGateway(n) if n == "gw"));
    let (_, a) = server::step(&srv, &b, s, ServerEvent::GatewayFound(Ok(true)));
    match a {
        ServerAction::Complete(r) => {
            assert_eq!(r.bound_gateway.as_deref(), Some("ns/gw"));
            assert_eq!(r.verdict.outcome, ReconcileOutcome::Success);
        }
        other => panic!("{other:?}"),
    }
}

#[test]
fn an_unverified_server_is_left_as_it_runs() {
    let b = begin("ns", false);
    let srv = a_server(true, "r/i@sha256:ab");
    let (s, a) = server::step(
        &srv,
        &b,
        ServerState::CheckingImage,
        ServerEvent::ImageChecked(Err("no signature".into())),
    );
    assert!(matches!(a, ServerAction::FindDeployment(_)));
    assert!(matches!(s, ServerState::FindingDeployment(_)));
    let loose = a_server(true, "r/i:1");
    let (_, a) = server::step(
        &loose,
        &b,
        ServerState::AddingFinalizer,
        ServerEvent::FinalizerAdded(Ok(())),
    );
    assert!(matches!(a, ServerAction::FindDeployment(_)));
    let plain = a_server(false, "r/i:1");
    let (_, a) = server::step(
        &plain,
        &b,
        ServerState::AddingFinalizer,
        ServerEvent::FinalizerAdded(Ok(())),
    );
    assert!(matches!(a, ServerAction::ApplyDeployment));
}
