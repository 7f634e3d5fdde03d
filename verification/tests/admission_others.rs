use mcpg_operator::admission::decision::{malformed, Decision};
use mcpg_operator::admission::server::{listen_plan, metrics_routes, routes, Listen, ServerConfig, ServerError};
use mcpg_operator::admission::validators::cluster;
use mcpg_operator::admission::validators::plugin_mirror;
use mcpg_operator::admission::validators::revocation_list;
use mcpg_operator::admission::validators::route;
use mcpg_operator::admission::validators::server;
use mcpg_operator::admission::validators::tenant;
use mcpg_operator::api::objects::ObjectMeta;
use mcpg_operator::api::resources::{
    AllowedPlugin, ClusterBackend, ClusterCredentialRef, CosignIdentity, GatewayRef,
    LocalObjectReference, MCPGCluster, MCPGClusterSpec, MCPGPluginMirror, MCPGPluginMirrorSpec,
    MCPGRevocationList, MCPGRevocationListSpec, MCPGRoute, MCPGRouteSpec, MCPGServer,
    MCPGServerSpec, MCPGTenant, MCPGTenantSpec, MirrorEndpoint, MirrorService, MirrorUpstream,
    RevocationEntry, RouteToolRef, ServerFederate, TenantIdentityAttribute, TenantQuotas,
};
use mcpg_operator::json::Json;

fn meta(name: &str) -> ObjectMeta {
    ObjectMeta {
        name: Some(name.into()),
        ..Default::default()
    }
}

fn backend(kind: &str) -> ClusterBackend {
    ClusterBackend {
        config_kind: kind.into(),
        single_node: kind == "single_node",
        plugin_id: None,
    }
}

fn cluster_spec(kind: &str, config: &[(&str, &str)]) -> MCPGClusterSpec {
    MCPGClusterSpec {
        backend: backend(kind),
        config: config
            .iter()
            .map(|(k, v)| (k.to_string(), Json::parse(v).unwrap()))
            .collect(),
        ..Default::default()
    }
}

fn check_cluster(spec: MCPGClusterSpec) -> Result<(), String> {
    cluster::validate_spec(&MCPGCluster {
        metadata: meta("c"),
        spec,
        status: None,
    })
}

#[test]
fn single_node_with_config_rejected() {
    let s = cluster_spec("single_node", &[("url", "\"x\"")]);
    assert!(check_cluster(s).unwrap_err().contains("single_node"));
}

#[test]
fn single_node_empty_config_ok() {
    check_cluster(cluster_spec("single_node", &[])).unwrap();
}

#[test]
fn external_backend_empty_config_rejected() {
    let s = cluster_spec("redis", &[]);
    assert!(check_cluster(s).unwrap_err().contains("must not be empty"));
}

#[test]
fn external_backend_with_config_ok() {
    check_cluster(cluster_spec("nats", &[("servers", "\"nats://n:4222\"")])).unwrap();
}

fn credential(name: &str, secret_name: &str) -> ClusterCredentialRef {
    ClusterCredentialRef {
        name: name.into(),
        secret_name: secret_name.into(),
    }
}

#[test]
fn duplicate_credential_name_rejected() {
    let s = MCPGClusterSpec {
        credential_refs: vec![credential("password", "s1"), credential("password", "s2")],
        ..cluster_spec("redis", &[("url", "\"rediss://r:6379\"")])
    };
    assert!(check_cluster(s).unwrap_err().contains("duplicated"));
}

#[test]
fn rediss_redis_ok() {
    check_cluster(cluster_spec("redis", &[("url", "\"rediss://r:6379\"")])).unwrap();
}

#[test]
fn https_etcd_ok() {
    check_cluster(cluster_spec(
        "etcd",
        &[("endpoints", "[\"https://etcd-0:2379\"]"), ("tls", "{}")],
    ))
    .unwrap();
}

#[test]
fn empty_credential_secret_name_rejected() {
    let s = MCPGClusterSpec {
        credential_refs: vec![credential("password", "  ")],
        ..cluster_spec("redis", &[("url", "\"rediss://r:6379\"")])
    };
    assert!(check_cluster(s).unwrap_err().contains("secretName"));
}

#[test]
fn an_insecure_transport_is_refused() {
    let s = MCPGClusterSpec {
        insecure_transport_reason: Some("url must use rediss://".into()),
        ..cluster_spec("redis", &[("url", "\"redis://r:6379\"")])
    };
    assert!(check_cluster(s).unwrap_err().contains("rediss://"));
}

fn mirror_base() -> MCPGPluginMirrorSpec {
    MCPGPluginMirrorSpec {
        endpoint: MirrorEndpoint {
            service: MirrorService {
                namespace: "oci-mirror".into(),
                name: "harbor".into(),
                port: 80,
                host: "harbor.oci-mirror.svc.cluster.local:80".into(),
            },
            insecure: true,
        },
        upstream: MirrorUpstream {
            registry: "ghcr.io".into(),
            namespace: "mcpg-dev/source-code".into(),
        },
        auth: None,
    }
}

fn check_mirror(spec: MCPGPluginMirrorSpec) -> Result<(), String> {
    plugin_mirror::validate_spec(&MCPGPluginMirror {
        metadata: meta("m"),
        spec,
        status: None,
    })
}

#[test]
fn valid_mirror_admits() {
    check_mirror(mirror_base()).unwrap();
}

#[test]
fn zero_port_rejected() {
    let mut s = mirror_base();
    s.endpoint.service.port = 0;
    assert!(check_mirror(s).unwrap_err().contains("port"));
}

#[test]
fn empty_service_name_rejected() {
    let mut s = mirror_base();
    s.endpoint.service.name = "  ".into();
    assert!(check_mirror(s).unwrap_err().contains("service.name"));
}

#[test]
fn bare_word_registry_rejected() {
    let mut s = mirror_base();
    s.upstream.registry = "ghcr".into();
    assert!(check_mirror(s).unwrap_err().contains("registry host"));
}

#[test]
fn host_port_registry_ok() {
    let mut s = mirror_base();
    s.upstream.registry = "localhost:5000".into();
    check_mirror(s).unwrap();
}

#[test]
fn empty_upstream_namespace_rejected() {
    let mut s = mirror_base();
    s.upstream.namespace = "".into();
    assert!(check_mirror(s).unwrap_err().contains("upstream.namespace"));
}

fn revoked(sha: String, reason: &str) -> RevocationEntry {
    RevocationEntry {
        artifact_sha256: sha,
        reason: reason.into(),
        revoked_at: None,
    }
}

fn good_revocation() -> RevocationEntry {
    revoked("abcdef0123456789".repeat(4), "test reason")
}

fn check_list(version: u8, revocations: Vec<RevocationEntry>) -> Result<(), String> {
    revocation_list::validate_spec(&MCPGRevocationList {
        metadata: meta("cluster-default"),
        spec: MCPGRevocationListSpec {
            version,
            issued_at: None,
            revocations,
        },
        status: None,
    })
}

#[test]
fn rejects_unknown_version() {
    let err = check_list(99, vec![]).unwrap_err();
    assert!(err.contains("version"), "{err}");
}

#[test]
fn accepts_v1_with_zero_entries() {
    check_list(1, vec![]).unwrap();
}

#[test]
fn rejects_short_sha256() {
    let err = check_list(1, vec![revoked("abcd".into(), "x")]).unwrap_err();
    assert!(err.contains("64 hex"), "{err}");
}

#[test]
fn rejects_non_hex_sha256() {
    let err = check_list(1, vec![revoked("Z".repeat(64), "x")]).unwrap_err();
    assert!(err.contains("hex"), "{err}");
}

#[test]
fn accepts_uppercase_hex() {
    check_list(1, vec![revoked("ABCDEF0123456789".repeat(4), "test")]).unwrap();
}

#[test]
fn rejects_duplicate_entries_case_insensitive() {
    let err = check_list(
        1,
        vec![
            good_revocation(),
            revoked("ABCDEF0123456789".repeat(4), "duplicate"),
        ],
    )
    .unwrap_err();
    assert!(err.contains("duplicate"), "{err}");
}

#[test]
fn rejects_empty_reason() {
    let err = check_list(1, vec![revoked(good_revocation().artifact_sha256, "  ")]).unwrap_err();
    assert!(err.contains("reason"), "{err}");
}

#[test]
fn accepts_well_formed_full_spec() {
    check_list(1, vec![good_revocation()]).unwrap();
}

fn route_base() -> MCPGRouteSpec {
    MCPGRouteSpec {
        gateway_ref: GatewayRef {
            name: "shared".into(),
            namespace: Some("shared-gw".into()),
        },
        tools: vec![RouteToolRef {
            id: "orders.list".into(),
        }],
        tenant: Some("payments".into()),
        ..Default::default()
    }
}

fn check_route(spec: MCPGRouteSpec) -> Result<Vec<String>, String> {
    route::validate_spec(&MCPGRoute {
        metadata: ObjectMeta {
            name: Some("r".into()),
            namespace: Some("tenant-a".into()),
            ..Default::default()
        },
        spec,
        status: None,
    })
}

#[test]
fn valid_route_admits_without_warnings() {
    assert_eq!(check_route(route_base()).unwrap(), Vec::<String>::new());
}

#[test]
fn empty_gateway_ref_rejected() {
    let mut s = route_base();
    s.gateway_ref.name = "  ".into();
    assert!(check_route(s).unwrap_err().contains("gatewayRef.name"));
}

#[test]
fn empty_tools_rejected() {
    let mut s = route_base();
    s.tools.clear();
    assert!(check_route(s).unwrap_err().contains("match.tools"));
}

#[test]
fn duplicate_tool_rejected() {
    let mut s = route_base();
    s.tools = vec![
        RouteToolRef {
            id: "orders.list".into(),
        },
        RouteToolRef {
            id: "orders.list".into(),
        },
    ];
    assert!(check_route(s).unwrap_err().contains("duplicate"));
}

#[test]
fn empty_chain_entry_rejected() {
    let mut s = route_base();
    s.identity_chain = vec!["".into()];
    assert!(check_route(s).unwrap_err().contains("identityChain"));
}

#[test]
fn missing_tenant_warns_not_rejects() {
    let mut s = route_base();
    s.tenant = None;
    let warnings = check_route(s).unwrap();
    assert_eq!(warnings.len(), 1);
    assert!(warnings[0].contains("tenant"));
}

#[test]
fn a_review_of_a_route_passes_its_warnings_on() {
    let mut s = route_base();
    s.tenant = None;
    let obj = MCPGRoute {
        metadata: meta("r"),
        spec: s,
        status: None,
    };
    assert!(matches!(
        route::validate(Some(&obj)),
        Decision::Admit { warnings } if warnings.len() == 1
    ));
    assert!(matches!(malformed(), Decision::Invalid(_)));
}

fn minimal_server() -> MCPGServerSpec {
    MCPGServerSpec {
        image: "ghcr.io/acme/crm:1.0.0".into(),
        port: 8080,
        desired_replicas: 1,
        federation_name: "crm".into(),
        ..Default::default()
    }
}

fn check_server(spec: MCPGServerSpec) -> Result<Vec<String>, String> {
    server::validate_spec(&MCPGServer {
        metadata: ObjectMeta {
            name: Some("crm".into()),
            namespace: Some("team-a".into()),
            ..Default::default()
        },
        spec,
        status: None,
    })
}

#[test]
fn tag_image_without_verify_warns_but_admits() {
    let warnings = check_server(minimal_server()).expect("admitted");
    assert_eq!(warnings.len(), 1);
    assert!(warnings[0].contains("digest-pinned"));
}

#[test]
fn verify_requires_digest_pin() {
    let mut spec = minimal_server();
    spec.verify = Some(CosignIdentity {
        oidc_issuer: "https://token.actions.githubusercontent.com".into(),
        certificate_identity_regexp: "^https://github.com/acme/".into(),
    });
    let err = check_server(spec).unwrap_err();
    assert!(err.contains("digest-pinned"), "got: {err}");
}

#[test]
fn digest_pin_admits_without_warning() {
    let mut spec = minimal_server();
    spec.image = format!("ghcr.io/acme/crm@sha256:{}", "a".repeat(64));
    let warnings = check_server(spec).expect("admitted");
    assert!(warnings.is_empty());
}

#[test]
fn federate_gateway_name_required() {
    let mut spec = minimal_server();
    spec.federate = Some(ServerFederate {
        gateway_ref: LocalObjectReference { name: "  ".into() },
        ..Default::default()
    });
    let err = check_server(spec).unwrap_err();
    assert!(err.contains("gatewayRef.name"), "got: {err}");
}

#[test]
fn federate_blocks_reject_non_objects() {
    let mut spec = minimal_server();
    spec.federate = Some(ServerFederate {
        gateway_ref: LocalObjectReference {
            name: "main".into(),
        },
        governance: Some(Json::parse("\"not-an-object\"").unwrap()),
        ..Default::default()
    });
    let err = check_server(spec).unwrap_err();
    assert!(err.contains("governance"), "got: {err}");
}

#[test]
fn invalid_port_rejected() {
    let mut spec = minimal_server();
    spec.port = 0;
    assert!(check_server(spec).is_err());
}

fn tenant_base() -> MCPGTenantSpec {
    MCPGTenantSpec {
        namespaces: vec!["payments".into()],
        allowed_plugins: vec![AllowedPlugin {
            name: Some("identity-workload".into()),
            registry_prefix: None,
        }],
        ..Default::default()
    }
}

fn tenant_named(name: &str, spec: MCPGTenantSpec) -> MCPGTenant {
    MCPGTenant {
        metadata: meta(name),
        spec,
        status: None,
    }
}

fn check_tenant(spec: MCPGTenantSpec) -> Result<(), String> {
    tenant::validate_spec(&tenant_named("team-payments", spec))
}

#[test]
fn valid_tenant_admits() {
    check_tenant(tenant_base()).unwrap();
}

#[test]
fn empty_namespaces_rejected() {
    let mut s = tenant_base();
    s.namespaces.clear();
    assert!(check_tenant(s).unwrap_err().contains("namespaces"));
}

#[test]
fn duplicate_namespace_rejected() {
    let mut s = tenant_base();
    s.namespaces = vec!["a".into(), "a".into()];
    assert!(check_tenant(s).unwrap_err().contains("more than once"));
}

#[test]
fn empty_allowlist_matcher_rejected() {
    let mut s = tenant_base();
    s.allowed_plugins = vec![AllowedPlugin::default()];
    assert!(check_tenant(s).unwrap_err().contains("matches nothing"));
}

#[test]
fn negative_quota_rejected() {
    let mut s = tenant_base();
    s.quotas = Some(TenantQuotas {
        max_gateways: Some(-1),
        ..Default::default()
    });
    assert!(check_tenant(s).unwrap_err().contains("maxGateways"));
}

#[test]
fn empty_identity_key_rejected() {
    let mut s = tenant_base();
    s.identity_attribute = Some(TenantIdentityAttribute {
        key: "  ".into(),
        value: "x".into(),
    });
    assert!(check_tenant(s).unwrap_err().contains("identityAttribute.key"));
}

#[test]
fn empty_allowlist_is_allowed_shape() {
    let mut s = tenant_base();
    s.allowed_plugins.clear();
    check_tenant(s).unwrap();
}

#[test]
fn a_namespace_has_one_tenant() {
    let mut other = tenant_base();
    other.namespaces = vec!["a".into(), "payments".into()];
    let others = vec![tenant_named("acme", other)];
    let mine = tenant_named("team-payments", tenant_base());
    assert!(matches!(
        tenant::validate(Some(&mine), Some(&others)),
        Decision::Deny(m) if m.contains("payments") && m.contains("acme")
    ));
    let same_name = tenant_named("acme", tenant_base());
    assert!(matches!(
        tenant::validate(Some(&same_name), Some(&others)),
        Decision::Admit { .. }
    ));
    assert!(matches!(
        tenant::validate(Some(&mine), None),
        Decision::Admit { .. }
    ));
}

#[test]
fn tls_needs_both_files() {
    let plain = ServerConfig {
        bind: "0.0.0.0:9443".into(),
        tls_cert_dir: None,
    };
    assert!(matches!(listen_plan(&plain, false, false), Ok(Listen::Plain)));
    let tls = ServerConfig {
        bind: "0.0.0.0:9443".into(),
        tls_cert_dir: Some("/tls".into()),
    };
    assert!(matches!(
        listen_plan(&tls, true, true),
        Ok(Listen::Tls { cert, key }) if cert == "/tls/tls.crt" && key == "/tls/tls.key"
    ));
    assert!(matches!(
        listen_plan(&tls, true, false),
        Err(ServerError::MissingTls(_))
    ));
}

#[test]
fn webhooks_are_never_served_in_the_clear() {
    let plain = routes(&Listen::Plain);
    assert_eq!(plain, ["/metrics", "/healthz", "/readyz", "/reconcilez"]);
    assert_eq!(metrics_routes(), plain);
    let tls = routes(&Listen::Tls {
        cert: "c".into(),
        key: "k".into(),
    });
    assert_eq!(tls.len(), 13);
    assert_eq!(tls[..4], plain[..]);
    assert!(tls[4..]
        .iter()
        .all(|p| p.starts_with("/validate-mcpg-dev-v1alpha1-mcpg")));
}

#[test]
fn a_padded_hash_is_rejected() {
    let list = MCPGRevocationList {
        metadata: meta("cluster-default"),
        spec: MCPGRevocationListSpec {
            version: 1,
            issued_at: None,
            revocations: vec![RevocationEntry {
                artifact_sha256: format!(" {}", "abcdef0123456789".repeat(4)),
                reason: "x".into(),
                revoked_at: None,
            }],
        },
        status: None,
    };
    let err = revocation_list::validate_spec(&list).unwrap_err();
    assert!(err.contains("64 hex characters (got 65)"), "{err}");
}
