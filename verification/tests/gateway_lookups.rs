use mcpg_operator::api::objects::ObjectMeta;
use mcpg_operator::api::resources::{
    GatewayRef, LocalObjectReference, MCPGCluster, MCPGGateway, MCPGGatewaySpec, MCPGPluginSet,
    MCPGPluginSetSpec, MCPGRevocationList, MCPGRevocationListSpec, MCPGRoute, MCPGRouteSpec,
    MCPGServer, MCPGServerSpec, RevocationEntry, ServerFederate,
};
use mcpg_operator::controllers::gateway::plugin_set::parse_resolved_plugins_json;
use mcpg_operator::controllers::gateway::revocation::{
    build_revocation_configmap, materialise_revocation_list, render_revocation_list_json,
    resolve_revocation_list, revocation_cm_name, DEFAULT_REVOCATION_LIST_NAME,
};
use mcpg_operator::controllers::gateway::watch::{
    gateway_uses_plugin_set, gateway_uses_revocation_list, map_cluster_to_gateways,
    map_plugin_set_to_gateways, map_revocation_list_to_gateways, map_route_to_gateways,
    map_server_to_gateways,
};

fn fixture_set() -> MCPGPluginSet {
    MCPGPluginSet {
        metadata: ObjectMeta {
            name: Some("payments-plugins".into()),
            namespace: Some("payments".into()),
            ..Default::default()
        },
        spec: MCPGPluginSetSpec {
            entries: Vec::new(),
            capability_grants: vec![(
                "dev.mcpg.identity.workload".into(),
                vec!["transport_listen".into()],
            )],
        },
        status: None,
    }
}

#[test]
fn parse_resolved_plugins_json_accepts_well_formed_doc() {
    let json = r#"{
        "version": 1,
        "entries": [
            {
                "id": "dev.mcpg.identity.workload",
                "pluginName": "identity-workload-1",
                "pluginVersion": "1.2.3",
                "pluginClass": "identity_provider",
                "artefactSecretName": "mcpg-plugin-id-w-1",
                "resolvedDigest": "abcd1234",
                "config": {"trust_domain": "spiffe://example.org"},
                "capabilityGrants": ["transport_listen"]
            }
        ]
    }"#;
    let view = parse_resolved_plugins_json(json, &fixture_set()).unwrap();
    assert_eq!(view.entries.len(), 1);
    let e = &view.entries[0];
    assert_eq!(e.id, "dev.mcpg.identity.workload");
    assert_eq!(e.plugin_class, "identity_provider");
    assert_eq!(e.artefact_secret_name, "mcpg-plugin-id-w-1");
    assert_eq!(e.resolved_digest, "abcd1234");
    assert_eq!(e.config.to_value()["trust_domain"], "spiffe://example.org");
    let grants = view
        .capability_grants
        .iter()
        .find(|g| g.0 == "dev.mcpg.identity.workload")
        .unwrap();
    assert_eq!(grants.1[0], "transport_listen");
}

#[test]
fn parse_resolved_plugins_json_rejects_missing_required_field() {
    let json = r#"{
        "entries": [
            {
                "id": "dev.mcpg.identity.workload",
                "pluginName": "identity-workload-1",
                "pluginVersion": "1.2.3",
                "artefactSecretName": "mcpg-plugin-id-w-1",
                "resolvedDigest": "abcd1234",
                "config": null,
                "capabilityGrants": []
            }
        ]
    }"#;
    let err = parse_resolved_plugins_json(json, &fixture_set()).unwrap_err();
    assert!(err.contains("pluginClass"), "got: {err}");
}

#[test]
fn parse_resolved_plugins_json_rejects_bad_top_level_shape() {
    let err = parse_resolved_plugins_json("[]", &fixture_set()).unwrap_err();
    assert!(err.contains("entries"), "got: {err}");
}

#[test]
fn parse_resolved_plugins_json_reports_the_parser() {
    let err = parse_resolved_plugins_json("{", &fixture_set()).unwrap_err();
    assert!(err.contains("EOF while parsing an object"), "got: {err}");
}

fn fixture_revocation_list() -> MCPGRevocationList {
    MCPGRevocationList {
        metadata: ObjectMeta {
            name: Some("cluster-default".into()),
            ..Default::default()
        },
        spec: MCPGRevocationListSpec {
            version: 1,
            issued_at: None,
            revocations: vec![RevocationEntry {
                artifact_sha256: "deadbeef".repeat(8),
                reason: "supply chain incident".into(),
                revoked_at: None,
            }],
        },
        status: None,
    }
}

#[test]
fn render_revocation_list_json_round_trips_entries() {
    let rl = fixture_revocation_list();
    let (json, hash) = render_revocation_list_json(&rl);
    let parsed: serde_json::Value = serde_json::from_str(&json).unwrap();
    assert_eq!(parsed["version"], 1);
    assert_eq!(parsed["revocations"].as_array().unwrap().len(), 1);
    assert_eq!(
        parsed["revocations"][0]["artifact_sha256"],
        "deadbeef".repeat(8)
    );
    assert_eq!(hash.len(), 64);
}

#[test]
fn render_revocation_list_hash_is_deterministic() {
    let rl = fixture_revocation_list();
    let (_, h1) = render_revocation_list_json(&rl);
    let (_, h2) = render_revocation_list_json(&rl);
    assert_eq!(h1, h2);
}

fn fixture_gateway() -> MCPGGateway {
    MCPGGateway {
        metadata: ObjectMeta {
            name: Some("payments-gateway".into()),
            namespace: Some("payments".into()),
            uid: Some("uid-1".into()),
            ..Default::default()
        },
        spec: Default::default(),
        status: None,
    }
}

#[test]
fn revocation_cm_name_uses_gateway_name_prefix() {
    assert_eq!(
        revocation_cm_name(&fixture_gateway()),
        "payments-gateway-revocations"
    );
}

#[test]
fn build_revocation_configmap_carries_owner_ref_to_gateway() {
    let cm = build_revocation_configmap(
        &fixture_gateway(),
        "payments-gateway-revocations",
        "{}",
        "abcd1234",
    );
    let orefs = cm.metadata.owner_references.unwrap();
    assert_eq!(orefs.len(), 1);
    assert_eq!(orefs[0].kind, "MCPGGateway");
    assert_eq!(orefs[0].name, "payments-gateway");
}

#[test]
fn build_revocation_configmap_holds_list_json_data_key() {
    let cm = build_revocation_configmap(
        &fixture_gateway(),
        "payments-gateway-revocations",
        r#"{"version":1,"revocations":[]}"#,
        "abcd1234",
    );
    assert!(cm.data.get("list.json").is_some());
    assert!(cm.data.get("list.json").unwrap().contains("\"version\""));
}

#[test]
fn build_revocation_configmap_carries_hash_label() {
    let cm = build_revocation_configmap(
        &fixture_gateway(),
        "payments-gateway-revocations",
        "{}",
        "deadc0de",
    );
    let labels = cm.metadata.labels.unwrap();
    assert_eq!(
        labels.get("mcpg.dev/revocation-list-hash").unwrap(),
        "deadc0de"
    );
}

#[test]
fn a_materialised_list_is_the_rendered_one() {
    let (json, hash) = render_revocation_list_json(&fixture_revocation_list());
    let cm = materialise_revocation_list(&fixture_gateway(), &fixture_revocation_list());
    assert_eq!(cm.data.get("list.json"), Some(&json));
    let labels = cm.metadata.labels.unwrap();
    assert_eq!(labels.get("mcpg.dev/revocation-list-hash"), Some(&hash));
}

#[test]
fn no_list_and_no_reference_is_no_mount() {
    assert!(resolve_revocation_list(&fixture_gateway(), None, Ok(())).is_none());
    let mut gw = fixture_gateway();
    gw.spec.revocation_list_ref = Some(LocalObjectReference { name: "ours".into() });
    let r = resolve_revocation_list(&gw, None, Ok(())).expect("reported");
    assert_eq!(r.condition.status, "False");
    assert_eq!(r.mount.content_hash, "");
}

fn gw_with(
    ns: &str,
    plugin_set_name: Option<&str>,
    revocation_list_name: Option<&str>,
) -> MCPGGateway {
    MCPGGateway {
        metadata: ObjectMeta {
            name: Some("payments-gateway".into()),
            namespace: Some(ns.into()),
            ..Default::default()
        },
        spec: MCPGGatewaySpec {
            plugin_set_ref: plugin_set_name.map(|name| LocalObjectReference { name: name.into() }),
            revocation_list_ref: revocation_list_name
                .map(|name| LocalObjectReference { name: name.into() }),
            ..Default::default()
        },
        status: None,
    }
}

#[test]
fn plugin_set_predicate_matches_same_namespace_same_name() {
    let gw = gw_with("payments", Some("plugins-prod"), None);
    assert!(gateway_uses_plugin_set(
        &gw,
        Some("payments"),
        "plugins-prod"
    ));
}

#[test]
fn plugin_set_predicate_rejects_other_namespace() {
    let gw = gw_with("payments", Some("plugins-prod"), None);
    assert!(!gateway_uses_plugin_set(
        &gw,
        Some("staging"),
        "plugins-prod"
    ));
}

#[test]
fn plugin_set_predicate_rejects_other_set_name() {
    let gw = gw_with("payments", Some("plugins-prod"), None);
    assert!(!gateway_uses_plugin_set(
        &gw,
        Some("payments"),
        "plugins-canary"
    ));
}

#[test]
fn plugin_set_predicate_rejects_when_ref_unset() {
    let gw = gw_with("payments", None, None);
    assert!(!gateway_uses_plugin_set(
        &gw,
        Some("payments"),
        "plugins-prod"
    ));
}

#[test]
fn revocation_list_predicate_matches_explicit_ref() {
    let gw = gw_with("payments", None, Some("our-list"));
    assert!(gateway_uses_revocation_list(&gw, "our-list"));
    assert!(!gateway_uses_revocation_list(&gw, "other-list"));
}

#[test]
fn revocation_list_predicate_defaults_to_cluster_default() {
    let gw = gw_with("payments", None, None);
    assert!(gateway_uses_revocation_list(
        &gw,
        DEFAULT_REVOCATION_LIST_NAME
    ));
    assert!(!gateway_uses_revocation_list(&gw, "anything-else"));
}

#[test]
fn cluster_predicate_matches_clusterref() {
    let mut gw = gw_with("payments", None, None);
    gw.spec.cluster_ref = Some(LocalObjectReference {
        name: "prod-cluster".into(),
    });
    assert!(gw
        .spec
        .cluster_ref
        .as_ref()
        .is_some_and(|r| r.name == "prod-cluster"));
    let cluster = MCPGCluster {
        metadata: ObjectMeta {
            name: Some("prod-cluster".into()),
            ..Default::default()
        },
        ..Default::default()
    };
    let store = vec![gw_with("staging", None, None), gw];
    let hits = map_cluster_to_gateways(&store, &cluster);
    assert_eq!(hits.len(), 1);
    assert_eq!(hits[0].namespace.as_deref(), Some("payments"));
}

#[test]
fn a_plugin_set_wakes_its_gateways() {
    let store = vec![
        gw_with("payments", Some("payments-plugins"), None),
        gw_with("payments", Some("other"), None),
        gw_with("staging", Some("payments-plugins"), None),
    ];
    let hits = map_plugin_set_to_gateways(&store, &fixture_set());
    assert_eq!(hits.len(), 1);
    assert_eq!(hits[0].name, "payments-gateway");
}

fn named(name: &str, namespace: Option<&str>) -> ObjectMeta {
    ObjectMeta {
        name: Some(name.into()),
        namespace: namespace.map(str::to_owned),
        ..Default::default()
    }
}

#[test]
fn a_revocation_list_wakes_its_gateways() {
    let mut other = gw_with("staging", None, None);
    other.spec.revocation_list_ref = Some(LocalObjectReference { name: "strict".into() });
    let store = vec![gw_with("payments", None, None), other];
    let list = |name: &str| MCPGRevocationList {
        metadata: named(name, None),
        ..Default::default()
    };
    let hits = map_revocation_list_to_gateways(&store, &list("strict"));
    assert_eq!(hits.len(), 1);
    assert_eq!(hits[0].namespace.as_deref(), Some("staging"));
    let hits = map_revocation_list_to_gateways(&store, &list("cluster-default"));
    assert_eq!(hits.len(), 1);
    assert_eq!(hits[0].namespace.as_deref(), Some("payments"));
}

#[test]
fn a_route_wakes_the_gateway_it_targets() {
    let store = vec![gw_with("payments", None, None), gw_with("staging", None, None)];
    let route = |target: Option<&str>| MCPGRoute {
        metadata: named("r", Some("staging")),
        spec: MCPGRouteSpec {
            gateway_ref: GatewayRef {
                name: "payments-gateway".into(),
                namespace: target.map(str::to_owned),
            },
            ..Default::default()
        },
        status: None,
    };
    let hits = map_route_to_gateways(&store, &route(Some("payments")));
    assert_eq!(hits.len(), 1);
    assert_eq!(hits[0].namespace.as_deref(), Some("payments"));
    let hits = map_route_to_gateways(&store, &route(None));
    assert_eq!(hits.len(), 1);
    assert_eq!(hits[0].namespace.as_deref(), Some("staging"));
}

#[test]
fn a_server_wakes_the_gateway_it_joins() {
    let store = vec![gw_with("payments", None, None), gw_with("staging", None, None)];
    let server = |federate: Option<ServerFederate>| MCPGServer {
        metadata: named("s", Some("staging")),
        spec: MCPGServerSpec {
            federate,
            ..Default::default()
        },
        status: None,
    };
    let joined = ServerFederate {
        gateway_ref: LocalObjectReference { name: "payments-gateway".into() },
        ..Default::default()
    };
    let hits = map_server_to_gateways(&store, &server(Some(joined)));
    assert_eq!(hits.len(), 1);
    assert_eq!(hits[0].namespace.as_deref(), Some("staging"));
    assert!(map_server_to_gateways(&store, &server(None)).is_empty());
}
