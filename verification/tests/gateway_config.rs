use mcpg_operator::api::objects::ObjectMeta;
use mcpg_operator::api::resources::{
    GatewayCloud, GatewayRef, LocalObjectReference, MCPGGateway, MCPGGatewaySpec, MCPGRoute,
    MCPGRouteSpec, MCPGServer, MCPGServerSpec, RouteToolRef, ServerFederate,
};
use mcpg_operator::controllers::gateway::cluster::{merge_cluster_block, ResolvedCluster};
use mcpg_operator::controllers::gateway::config::{
    apply_cloud_default_plugins, compose_config, inject_resource_metadata,
};
use mcpg_operator::controllers::gateway::routes::{apply_routes_to_config, cel_quote};
use mcpg_operator::controllers::gateway::servers::apply_servers_to_config;
use mcpg_operator::api::conditions::Condition;
use mcpg_operator::duration::jittered_resync;
use mcpg_operator::json::Json;
use serde_json::Value;

fn json(text: &str) -> Json {
    Json::parse(text).unwrap()
}

#[test]
fn jittered_resync_within_bounds() {
    for _ in 0..100 {
        let d = jittered_resync(600);
        let s = d.as_secs_f64();
        assert!((480.0..=720.0).contains(&s), "out of range: {s}");
    }
}

#[test]
fn inject_resource_metadata_creates_path() {
    let mut cfg = json("{}");
    inject_resource_metadata(&mut cfg, "https://edge-1.mcpg.cloud/mcp");
    assert_eq!(
        cfg.to_value()["governance"]["access"]["resource_metadata"]["resource"],
        "https://edge-1.mcpg.cloud/mcp"
    );
}

#[test]
fn inject_resource_metadata_overwrites_published_value() {
    let mut cfg = json(
        r#"{
            "governance": { "access": { "resource_metadata": {
                "resource": "https://victim.mcpg.cloud/mcp",
                "authorization_servers": ["https://idp.example/"]
            }}}
        }"#,
    );
    inject_resource_metadata(&mut cfg, "https://attacker.mcpg.cloud/mcp");
    let cfg = cfg.to_value();
    let rm = &cfg["governance"]["access"]["resource_metadata"];
    assert_eq!(rm["resource"], "https://attacker.mcpg.cloud/mcp");
    assert_eq!(
        rm["authorization_servers"],
        Value::Array(vec![Value::String("https://idp.example/".to_owned())])
    );
}

#[test]
fn inject_resource_metadata_replaces_non_object_node() {
    let mut cfg = json(r#"{ "governance": { "access": { "resource_metadata": "bogus" }} }"#);
    inject_resource_metadata(&mut cfg, "https://edge-1.mcpg.cloud/mcp");
    assert_eq!(
        cfg.to_value()["governance"]["access"]["resource_metadata"]["resource"],
        "https://edge-1.mcpg.cloud/mcp"
    );
}

fn gw_cloudness(cloud: bool) -> MCPGGateway {
    MCPGGateway {
        metadata: ObjectMeta {
            name: Some("edge-1".to_owned()),
            ..Default::default()
        },
        spec: MCPGGatewaySpec {
            cloud: cloud.then_some(GatewayCloud {
                org_slug: "acme".into(),
                instance_slug: "edge-1".into(),
                external_url: "https://edge-1.mcpg.cloud/mcp".into(),
                custom_domains: Vec::new(),
            }),
            ..Default::default()
        },
        status: None,
    }
}

#[test]
fn self_host_cr_gets_no_default_backend_entries() {
    let gw = gw_cloudness(false);
    let mut cfg = json(r#"{"gateway": {"server": {}}}"#);
    let before = cfg.to_value();
    apply_cloud_default_plugins(&gw, json(r#"{"plugins": []}"#), &mut cfg);
    assert_eq!(cfg.to_value(), before);
}

#[test]
fn a_cloud_gateway_takes_the_default_plugins() {
    let gw = gw_cloudness(true);
    let mut cfg = json("{}");
    let with_defaults = json(r#"{"plugins": [{"id": "dev.mcpg.backend.http"}]}"#);
    apply_cloud_default_plugins(&gw, with_defaults, &mut cfg);
    assert_eq!(cfg.to_value()["plugins"][0]["id"], "dev.mcpg.backend.http");
}

#[test]
fn merge_cluster_block_sets_config_cluster() {
    let mut config = json(r#"{ "gateway": { "server": {} } }"#);
    let block = json(r#"{ "kind": "redis", "url": "redis://r:6379" }"#);
    merge_cluster_block(&mut config, &block);
    let config = config.to_value();
    assert_eq!(config["cluster"]["kind"], "redis");
    assert_eq!(config["cluster"]["url"], "redis://r:6379");
    assert!(config["gateway"]["server"].is_object());
}

#[test]
fn merge_cluster_block_replaces_inline_cluster() {
    let mut config = json(r#"{ "cluster": { "kind": "single_node" } }"#);
    let block = json(r#"{ "kind": "nats", "servers": "nats://n:4222" }"#);
    merge_cluster_block(&mut config, &block);
    let config = config.to_value();
    assert_eq!(config["cluster"]["kind"], "nats");
    assert!(config["cluster"].get("servers").is_some());
}

#[test]
fn merge_cluster_block_null_is_noop() {
    let mut config = json(r#"{ "cluster": { "kind": "single_node" } }"#);
    merge_cluster_block(&mut config, &Json::Null);
    assert_eq!(config.to_value()["cluster"]["kind"], "single_node");
}

#[test]
fn merge_cluster_block_initialises_non_object_config() {
    let mut config = Json::Null;
    let block = json(r#"{ "kind": "etcd", "endpoints": ["http://e:2379"] }"#);
    merge_cluster_block(&mut config, &block);
    assert_eq!(config.to_value()["cluster"]["kind"], "etcd");
}

fn route(ns: &str, gw_name: &str, gw_ns: &str, tenant: Option<&str>, tools: &[&str]) -> MCPGRoute {
    MCPGRoute {
        metadata: ObjectMeta {
            name: Some(format!("route-{ns}")),
            namespace: Some(ns.into()),
            ..Default::default()
        },
        spec: MCPGRouteSpec {
            gateway_ref: GatewayRef {
                name: gw_name.into(),
                namespace: Some(gw_ns.into()),
            },
            tools: tools
                .iter()
                .map(|t| RouteToolRef { id: t.to_string() })
                .collect(),
            tenant: tenant.map(str::to_owned),
            ..Default::default()
        },
        status: None,
    }
}

fn rules(config: &Json) -> Vec<Value> {
    config.to_value()["governance"]["policy"]["tool_access"]["rules"]
        .as_array()
        .expect("rules array present")
        .clone()
}

#[test]
fn route_fan_in_renders_tenant_scoped_rule() {
    let routes = vec![route(
        "tenant-payments",
        "shared",
        "shared-gw",
        Some("payments"),
        &["orders.list", "orders.get"],
    )];
    let accepted = vec!["tenant-payments".to_owned()];
    let mut config = json("{}");
    let n = apply_routes_to_config(&routes, "shared", "shared-gw", &accepted, &mut config);
    assert_eq!(n, 1);
    let r = rules(&config);
    assert_eq!(r.len(), 2);
    let orders_list = r.iter().find(|x| x["tool_name"] == "orders.list").unwrap();
    assert_eq!(orders_list["minimum_trust"], "verified");
    assert_eq!(
        orders_list["cel_allow_if"],
        "identity.attributes.tenant == \"payments\""
    );
}

#[test]
fn route_fan_in_skips_unaccepted_namespace() {
    let routes = vec![route(
        "tenant-rogue",
        "shared",
        "shared-gw",
        Some("rogue"),
        &["secrets.read"],
    )];
    let accepted = vec!["tenant-payments".to_owned()];
    let mut config = json("{}");
    let n = apply_routes_to_config(&routes, "shared", "shared-gw", &accepted, &mut config);
    assert_eq!(n, 0);
    assert!(
        config.get("governance").is_none(),
        "no rule should be rendered"
    );
}

#[test]
fn route_fan_in_skips_other_gateway() {
    let routes = vec![route(
        "tenant-payments",
        "other-gw",
        "shared-gw",
        Some("payments"),
        &["orders.list"],
    )];
    let accepted = vec!["tenant-payments".to_owned()];
    let mut config = json("{}");
    let n = apply_routes_to_config(&routes, "shared", "shared-gw", &accepted, &mut config);
    assert_eq!(n, 0);
}

#[test]
fn route_fan_in_ors_tenants_sharing_a_tool() {
    let routes = vec![
        route("tenant-a", "shared", "shared-gw", Some("a"), &["common.tool"]),
        route("tenant-b", "shared", "shared-gw", Some("b"), &["common.tool"]),
    ];
    let accepted = vec!["tenant-a".to_owned(), "tenant-b".to_owned()];
    let mut config = json("{}");
    apply_routes_to_config(&routes, "shared", "shared-gw", &accepted, &mut config);
    let r = rules(&config);
    assert_eq!(r.len(), 1);
    let cel = r[0]["cel_allow_if"].as_str().unwrap();
    assert!(cel.contains("\"a\""), "got: {cel}");
    assert!(cel.contains("\"b\""), "got: {cel}");
    assert!(cel.contains("||"), "predicates OR-ed: {cel}");
}

#[test]
fn route_fan_in_ors_onto_existing_operator_rule() {
    let mut config = json(
        r#"{
            "governance": { "policy": { "tool_access": { "rules": [
                { "tool_name": "orders.list", "minimum_trust": "verified",
                  "cel_allow_if": "identity.roles.exists(r, r == \"admin\")" }
            ]}}}
        }"#,
    );
    let routes = vec![route(
        "tenant-payments",
        "shared",
        "shared-gw",
        Some("payments"),
        &["orders.list"],
    )];
    let accepted = vec!["tenant-payments".to_owned()];
    apply_routes_to_config(&routes, "shared", "shared-gw", &accepted, &mut config);
    let r = rules(&config);
    assert_eq!(r.len(), 1, "OR-ed onto existing, not duplicated");
    let cel = r[0]["cel_allow_if"].as_str().unwrap();
    assert!(cel.contains("admin"), "preserves operator rule: {cel}");
    assert!(cel.contains("payments"), "adds tenant rule: {cel}");
}

#[test]
fn route_fan_in_untenanted_route_renders_true() {
    let routes = vec![route("shared-gw", "shared", "shared-gw", None, &["t.x"])];
    let accepted: Vec<String> = vec![];
    let mut config = json("{}");
    let n = apply_routes_to_config(&routes, "shared", "shared-gw", &accepted, &mut config);
    assert_eq!(n, 1);
    assert_eq!(rules(&config)[0]["cel_allow_if"], "true");
}

#[test]
fn tenant_names_are_quoted() {
    assert_eq!(cel_quote("payments"), "\"payments\"");
    assert_eq!(cel_quote("a\"b\\c"), "\"a\\\"b\\\\c\"");
}

fn provisioned_server(
    name: &str,
    ns: &str,
    gateway: Option<&str>,
    fed_name: Option<&str>,
) -> MCPGServer {
    MCPGServer {
        metadata: ObjectMeta {
            name: Some(name.into()),
            namespace: Some(ns.into()),
            ..Default::default()
        },
        spec: MCPGServerSpec {
            image: "ghcr.io/acme/crm:1.0.0".into(),
            federate: gateway.map(|gw| ServerFederate {
                gateway_ref: LocalObjectReference { name: gw.into() },
                ..Default::default()
            }),
            federation_name: fed_name.unwrap_or(name).to_owned(),
            endpoint: format!("http://{name}.{ns}.svc.cluster.local:8080/mcp"),
            ..Default::default()
        },
        status: None,
    }
}

fn federations(config: &Json) -> Vec<Value> {
    config.to_value()["mcp"]["federations"]
        .as_array()
        .expect("federations")
        .clone()
}

#[test]
fn server_fan_in_synthesizes_federation() {
    let servers = vec![provisioned_server("crm", "team-a", Some("main"), None)];
    let mut config = json("{}");
    let n = apply_servers_to_config(&servers, "main", "team-a", &mut config);
    assert_eq!(n, 1);
    let feds = federations(&config);
    assert_eq!(feds[0]["name"], "crm");
    assert_eq!(
        feds[0]["upstream"]["url"],
        "http://crm.team-a.svc.cluster.local:8080/mcp"
    );
    assert_eq!(feds[0]["upstream"]["protocol_version"], "auto");
    assert_eq!(
        feds[0]["upstream"]["upstream_safety"]["allow_private_backends"],
        true
    );
    assert_eq!(feds[0]["naming"]["tool_prefix"], "crm.");
}

#[test]
fn server_fan_in_skips_other_gateways_and_namespaces() {
    let servers = vec![
        provisioned_server("a", "team-a", Some("other"), None),
        provisioned_server("b", "team-b", Some("main"), None),
        provisioned_server("c", "team-a", None, None),
    ];
    let mut config = json("{}");
    let n = apply_servers_to_config(&servers, "main", "team-a", &mut config);
    assert_eq!(n, 0);
    assert!(config.get("mcp").is_none() || federations(&config).is_empty());
}

#[test]
fn server_fan_in_inline_federation_wins_on_collision() {
    let servers = vec![provisioned_server("crm", "team-a", Some("main"), None)];
    let mut config = json(
        r#"{
            "mcp": { "federations": [ { "name": "crm", "upstream": { "url": "https://inline.example/mcp" } } ] }
        }"#,
    );
    let n = apply_servers_to_config(&servers, "main", "team-a", &mut config);
    assert_eq!(n, 0);
    let feds = federations(&config);
    assert_eq!(feds.len(), 1);
    assert_eq!(feds[0]["upstream"]["url"], "https://inline.example/mcp");
}

#[test]
fn server_fan_in_honours_name_override_and_passthrough_blocks() {
    let mut server = provisioned_server("crm", "team-a", Some("main"), Some("crm-prod"));
    server.spec.federate = Some(ServerFederate {
        gateway_ref: LocalObjectReference { name: "main".into() },
        tool_prefix: Some("crm_".into()),
        governance: Some(json(r#"{ "minimum_trust": "verified" }"#)),
        auth: Some(json(r#"{ "mode": "pass_through" }"#)),
        ..Default::default()
    });
    let mut config = json("{}");
    let n = apply_servers_to_config(&vec![server], "main", "team-a", &mut config);
    assert_eq!(n, 1);
    let feds = federations(&config);
    assert_eq!(feds[0]["name"], "crm-prod");
    assert_eq!(feds[0]["naming"]["tool_prefix"], "crm_");
    assert_eq!(feds[0]["governance"]["minimum_trust"], "verified");
    assert_eq!(feds[0]["upstream"]["auth"]["mode"], "pass_through");
}

#[test]
fn a_composed_config_holds_every_part() {
    let mut gw = gw_cloudness(true);
    gw.spec.accepted_route_namespaces = vec!["tenant-a".to_owned()];
    let base = json(
        r#"{"governance": {"access": {"resource_metadata": {"resource": "https://victim/mcp"}}}}"#,
    );
    let cluster = Some(ResolvedCluster {
        cluster_block: json(r#"{"kind": "redis"}"#),
        condition: Condition::new("ClusterReady", "True", "Resolved", "", None),
    });
    let routes = Some(vec![
        route("tenant-a", "edge-1", "cloud", Some("a"), &["x.y"]),
        route("tenant-b", "edge-1", "cloud", Some("b"), &["x.y"]),
    ]);
    let servers = Some(vec![provisioned_server("crm", "cloud", Some("edge-1"), None)]);
    let (config, route_count, server_count) =
        compose_config(&gw, "cloud", base, &cluster, &routes, &servers);
    assert_eq!((route_count, server_count), (1, 1));
    let v = config.to_value();
    assert_eq!(v["cluster"]["kind"], "redis");
    assert_eq!(
        rules(&config)[0]["cel_allow_if"],
        "identity.attributes.tenant == \"a\""
    );
    assert_eq!(federations(&config)[0]["name"], "crm");
    assert_eq!(
        v["governance"]["access"]["resource_metadata"]["resource"],
        "https://edge-1.mcpg.cloud/mcp"
    );
}

#[test]
fn lists_that_could_not_be_fetched_are_skipped() {
    let gw = gw_cloudness(false);
    let base = json(r#"{"a": 1}"#);
    let (config, route_count, server_count) =
        compose_config(&gw, "cloud", base, &None, &None, &None);
    assert_eq!((route_count, server_count), (0, 0));
    assert_eq!(config.to_value(), json(r#"{"a": 1}"#).to_value());
}
