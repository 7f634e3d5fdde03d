use mcpg_operator::admission::decision::Decision;
use mcpg_operator::admission::tenant_guard::enforce_gateway_replica_cap;
use mcpg_operator::admission::validators::dns::{validate_dns_hostname, validate_dns_label};
use mcpg_operator::admission::validators::gateway::{
    binding_already_admitted, cluster_to_look_up, coordination_path, judge_referenced_cluster,
    validate, validate_spec, ClusterLookup, CoordinationPath,
};
use mcpg_operator::api::conditions::Condition;
use mcpg_operator::api::objects::ObjectMeta;
use mcpg_operator::api::resources::{
    ClusterBackend, GatewayCloud, GatewayImage, GatewayIngress, GatewayIngressHost,
    GatewayIngressPath, GatewayWorkloadIdentity, LocalObjectReference, MCPGCluster,
    MCPGClusterSpec, MCPGGateway, MCPGGatewaySpec, MCPGTenant, MCPGTenantSpec, ReplicaCeiling,
    ResourceStatus, SecretMount, TenantQuotas,
};
use mcpg_operator::json::Json;

fn fixture(spec: MCPGGatewaySpec) -> MCPGGateway {
    MCPGGateway {
        metadata: ObjectMeta {
            name: Some("test".into()),
            namespace: Some("test".into()),
            ..Default::default()
        },
        spec,
        status: None,
    }
}

fn ceiling(count: i32) -> ReplicaCeiling {
    ReplicaCeiling { count, field: "spec.replicas".into() }
}

fn valid_spec() -> MCPGGatewaySpec {
    MCPGGatewaySpec {
        image: GatewayImage {
            repository: Some("ghcr.io/mcpg-dev/mcpg".into()),
            tag: Some("v1.0.0".into()),
            pull_policy: None,
        },
        replicas: 1,
        replica_ceiling: ceiling(1),
        config: Json::Null,
        ..Default::default()
    }
}

#[test]
fn rejects_zero_replicas() {
    let mut s = valid_spec();
    s.replicas = 0;
    let err = validate_spec(&fixture(s)).unwrap_err();
    assert!(err.contains("replicas"), "{err}");
}

#[test]
fn rejects_empty_image_tag() {
    let mut s = valid_spec();
    s.image.tag = None;
    let err = validate_spec(&fixture(s)).unwrap_err();
    assert!(err.contains("image.tag"), "{err}");
}

#[test]
fn rejects_multiple_workload_identity_providers() {
    let s = MCPGGatewaySpec {
        workload_identity: Some(GatewayWorkloadIdentity {
            aws: Some("arn:1".into()),
            gcp: Some("sa@p".into()),
            ..Default::default()
        }),
        ..valid_spec()
    };
    let err = validate_spec(&fixture(s)).unwrap_err();
    assert!(err.contains("workloadIdentity"), "{err}");
}

#[test]
fn accepts_single_workload_identity_provider() {
    let s = MCPGGatewaySpec {
        workload_identity: Some(GatewayWorkloadIdentity {
            aws: Some("arn:1".into()),
            ..Default::default()
        }),
        ..valid_spec()
    };
    validate_spec(&fixture(s)).unwrap();
}

#[test]
fn rejects_ingress_without_class_name() {
    let s = MCPGGatewaySpec {
        ingress: Some(GatewayIngress {
            ingress_class_name: "  ".into(),
            hosts: vec![],
        }),
        ..valid_spec()
    };
    let err = validate_spec(&fixture(s)).unwrap_err();
    assert!(err.contains("ingressClassName"), "{err}");
}

#[test]
fn rejects_ingress_with_empty_hosts() {
    let s = MCPGGatewaySpec {
        ingress: Some(GatewayIngress {
            ingress_class_name: "nginx".into(),
            hosts: vec![],
        }),
        ..valid_spec()
    };
    let err = validate_spec(&fixture(s)).unwrap_err();
    assert!(err.contains("hosts"), "{err}");
}

fn ingress(host: &str) -> GatewayIngress {
    GatewayIngress {
        ingress_class_name: "nginx".into(),
        hosts: vec![GatewayIngressHost {
            host: host.into(),
            paths: vec![GatewayIngressPath {
                path: "/".into(),
                path_type: "Prefix".into(),
            }],
        }],
    }
}

#[test]
fn accepts_well_formed_ingress() {
    let s = MCPGGatewaySpec {
        ingress: Some(ingress("example.com")),
        ..valid_spec()
    };
    validate_spec(&fixture(s)).unwrap();
}

#[test]
fn accepts_minimal_valid_spec() {
    validate_spec(&fixture(valid_spec())).unwrap();
}

fn named(name: &str) -> LocalObjectReference {
    LocalObjectReference { name: name.into() }
}

#[test]
fn rejects_env_from_secret_with_empty_name() {
    let s = MCPGGatewaySpec {
        env_from_secrets: vec![named("mcpg-cluster-coordination"), named("  ")],
        ..valid_spec()
    };
    let err = validate_spec(&fixture(s)).unwrap_err();
    assert!(err.contains("envFromSecrets[1]"), "{err}");
}

#[test]
fn accepts_named_env_from_secrets() {
    let s = MCPGGatewaySpec {
        env_from_secrets: vec![named("mcpg-cluster-coordination")],
        ..valid_spec()
    };
    validate_spec(&fixture(s)).unwrap();
}

fn secret_mount(name: &str, mount_path: &str) -> SecretMount {
    SecretMount {
        name: name.into(),
        mount_path: mount_path.into(),
    }
}

#[test]
fn accepts_well_formed_secret_mounts() {
    let s = MCPGGatewaySpec {
        secret_mounts: vec![
            secret_mount("mcpg-tenant-secrets", "/var/run/mcpg/secrets"),
            secret_mount("gateway-tls", "/etc/mcpg/tls"),
        ],
        ..valid_spec()
    };
    validate_spec(&fixture(s)).unwrap();
}

#[test]
fn rejects_secret_mount_with_empty_name() {
    let s = MCPGGatewaySpec {
        secret_mounts: vec![secret_mount(" ", "/var/run/mcpg/secrets")],
        ..valid_spec()
    };
    let err = validate_spec(&fixture(s)).unwrap_err();
    assert!(err.contains("secretMounts[0].name"), "{err}");
}

#[test]
fn rejects_secret_mount_with_relative_path() {
    let s = MCPGGatewaySpec {
        secret_mounts: vec![secret_mount("mcpg-tenant-secrets", "secrets")],
        ..valid_spec()
    };
    let err = validate_spec(&fixture(s)).unwrap_err();
    assert!(err.contains("secretMounts[0].mountPath"), "{err}");
}

#[test]
fn rejects_repeated_secret_mount_name_or_path() {
    let s = MCPGGatewaySpec {
        secret_mounts: vec![
            secret_mount("mcpg-tenant-secrets", "/var/run/mcpg/secrets"),
            secret_mount("mcpg-tenant-secrets", "/etc/mcpg/tls"),
        ],
        ..valid_spec()
    };
    let err = validate_spec(&fixture(s)).unwrap_err();
    assert!(err.contains("secretMounts[1].name"), "{err}");

    let s = MCPGGatewaySpec {
        secret_mounts: vec![
            secret_mount("mcpg-tenant-secrets", "/var/run/mcpg/secrets"),
            secret_mount("gateway-tls", "/var/run/mcpg/secrets/"),
        ],
        ..valid_spec()
    };
    let err = validate_spec(&fixture(s)).unwrap_err();
    assert!(err.contains("secretMounts[1].mountPath"), "{err}");
}

fn valid_cloud() -> GatewayCloud {
    GatewayCloud {
        org_slug: "acme".into(),
        instance_slug: "edge-1".into(),
        external_url: "https://edge-1.mcpg.cloud/mcp".into(),
        custom_domains: vec!["mcp.acme.com".into()],
    }
}

#[test]
fn accepts_well_formed_cloud() {
    let s = MCPGGatewaySpec {
        cloud: Some(valid_cloud()),
        ..valid_spec()
    };
    validate_spec(&fixture(s)).unwrap();
}

#[test]
fn rejects_cloud_with_invalid_instance_slug() {
    let too_long = "a".repeat(64);
    for bad in ["Edge_1", "-edge", "edge-", "EDGE", too_long.as_str()] {
        let mut c = valid_cloud();
        c.instance_slug = bad.into();
        let s = MCPGGatewaySpec {
            cloud: Some(c),
            ..valid_spec()
        };
        let err = validate_spec(&fixture(s)).unwrap_err();
        assert!(
            err.contains("instanceSlug"),
            "expected slug rejection: {err}"
        );
    }
}

#[test]
fn rejects_cloud_with_non_http_external_url() {
    let mut c = valid_cloud();
    c.external_url = "ftp://edge-1.mcpg.cloud/mcp".into();
    let s = MCPGGatewaySpec {
        cloud: Some(c),
        ..valid_spec()
    };
    let err = validate_spec(&fixture(s)).unwrap_err();
    assert!(err.contains("externalUrl"), "{err}");
}

#[test]
fn rejects_cloud_with_malformed_custom_domain() {
    let mut c = valid_cloud();
    c.custom_domains = vec!["bad_domain.example".into()];
    let s = MCPGGatewaySpec {
        cloud: Some(c),
        ..valid_spec()
    };
    let err = validate_spec(&fixture(s)).unwrap_err();
    assert!(err.contains("customDomains"), "{err}");
}

#[test]
fn rejects_ingress_and_cloud_together() {
    let s = MCPGGatewaySpec {
        cloud: Some(valid_cloud()),
        ingress: Some(ingress("x.example")),
        ..valid_spec()
    };
    let err = validate_spec(&fixture(s)).unwrap_err();
    assert!(err.contains("mutually exclusive"), "{err}");
}

fn coordination_spec(replicas: i32, cluster_ref: Option<&str>, config: Json) -> MCPGGatewaySpec {
    MCPGGatewaySpec {
        replicas,
        replica_ceiling: ceiling(replicas),
        cluster_ref: cluster_ref.map(named),
        config,
        ..valid_spec()
    }
}

#[test]
fn single_replica_needs_no_backend() {
    assert!(matches!(
        coordination_path(&coordination_spec(1, None, Json::Null)),
        Ok(CoordinationPath::SingleReplica)
    ));
}

#[test]
fn multi_replica_without_backend_denied() {
    let err = coordination_path(&coordination_spec(3, None, Json::Null)).expect_err("must deny");
    assert!(err.contains("3 independent"), "{err}");
    assert!(err.contains("spec.replicas is 3"), "{err}");
    assert!(err.contains("spec.clusterRef"), "{err}");
    assert!(err.contains("spec.config.cluster"), "{err}");
}

#[test]
fn hpa_ceiling_above_one_triggers_the_guard() {
    let spec = MCPGGatewaySpec {
        replica_ceiling: ReplicaCeiling {
            count: 5,
            field: "spec.autoscaling.maxReplicas".into(),
        },
        ..coordination_spec(1, None, Json::Null)
    };
    let err = coordination_path(&spec).expect_err("must deny");
    assert!(err.contains("spec.autoscaling.maxReplicas"), "{err}");
}

fn json(text: &str) -> Json {
    Json::parse(text).unwrap()
}

#[test]
fn inline_non_single_node_backend_accepted() {
    let cfg = json(r#"{ "cluster": { "kind": "nats", "servers": ["nats://n"] } }"#);
    assert!(matches!(
        coordination_path(&coordination_spec(3, None, cfg)),
        Ok(CoordinationPath::Inline)
    ));
}

#[test]
fn inline_single_node_backend_denied() {
    let cfg = json(r#"{ "cluster": { "kind": "single_node" } }"#);
    let err = coordination_path(&coordination_spec(3, None, cfg)).expect_err("must deny");
    assert!(err.contains("MultiReplicaWithSingleNodeBackend"), "{err}");
    let cfg = json(r#"{ "cluster": { "url": "rediss://r" } }"#);
    let err = coordination_path(&coordination_spec(3, None, cfg)).expect_err("must deny");
    assert!(err.contains("MultiReplicaWithSingleNodeBackend"), "{err}");
}

#[test]
fn cluster_ref_defers_to_the_live_lookup() {
    let cfg = json(r#"{ "cluster": { "kind": "redis" } }"#);
    assert!(matches!(
        coordination_path(&coordination_spec(3, Some("prod"), cfg)),
        Ok(CoordinationPath::Ref(name)) if name == "prod"
    ));
}

fn cluster_fixture(kind: &str, single_node: bool, ready: Option<bool>) -> MCPGCluster {
    MCPGCluster {
        metadata: ObjectMeta {
            name: Some("prod".into()),
            ..Default::default()
        },
        spec: MCPGClusterSpec {
            backend: ClusterBackend {
                config_kind: kind.into(),
                single_node,
                plugin_id: None,
            },
            effectively_single_node: single_node,
            ..Default::default()
        },
        status: ready.map(|r| ResourceStatus {
            conditions: vec![if r {
                Condition::new("Ready", "True", "Reconciled", "", None)
            } else {
                Condition::new("Ready", "False", "DependencyPending", "plugin unverified", None)
            }],
        }),
    }
}

#[test]
fn missing_cluster_denied() {
    let err = judge_referenced_cluster("prod", 3, "spec.replicas", None).expect_err("must deny");
    assert!(err.contains("does not exist"), "{err}");
    assert!(err.contains("3 independent"), "{err}");
}

#[test]
fn single_node_cluster_denied() {
    let c = cluster_fixture("single_node", true, Some(true));
    let err =
        judge_referenced_cluster("prod", 3, "spec.replicas", Some(&c)).expect_err("must deny");
    assert!(err.contains("MultiReplicaWithSingleNodeBackend"), "{err}");
}

#[test]
fn unready_cluster_denied() {
    for status in [Some(false), None] {
        let c = cluster_fixture("redis", false, status);
        let err =
            judge_referenced_cluster("prod", 3, "spec.replicas", Some(&c)).expect_err("must deny");
        assert!(err.contains("not Ready"), "{err}");
    }
}

#[test]
fn ready_non_single_node_cluster_admitted() {
    let c = cluster_fixture("nats", false, Some(true));
    judge_referenced_cluster("prod", 3, "spec.replicas", Some(&c)).unwrap();
}

#[test]
fn unchanged_binding_skips_the_live_lookup() {
    let new = fixture(coordination_spec(5, Some("prod"), Json::Null));
    let old = fixture(coordination_spec(3, Some("prod"), Json::Null));
    assert!(binding_already_admitted(Some(&old), &new));
    assert!(!binding_already_admitted(None, &new));
    let old = fixture(coordination_spec(1, Some("prod"), Json::Null));
    assert!(!binding_already_admitted(Some(&old), &new));
    let old = fixture(coordination_spec(3, Some("other"), Json::Null));
    assert!(!binding_already_admitted(Some(&old), &new));
}

#[test]
fn a_gateway_is_held_to_the_cluster_it_names() {
    let gw = fixture(coordination_spec(5, Some("prod"), Json::Null));
    assert_eq!(cluster_to_look_up(&gw, None).as_deref(), Some("prod"));
    let decide = |lookup: &ClusterLookup| validate(Some(&gw), None, lookup, None);
    assert!(matches!(decide(&ClusterLookup::Missing), Decision::Deny(m) if m.contains("does not exist")));
    assert!(matches!(decide(&ClusterLookup::Failed), Decision::Admit { .. }));
    let ready = ClusterLookup::Found(cluster_fixture("redis", false, Some(true)));
    assert!(matches!(decide(&ready), Decision::Admit { warnings } if warnings.is_empty()));
    let old = fixture(coordination_spec(3, Some("prod"), Json::Null));
    assert_eq!(cluster_to_look_up(&gw, Some(&old)), None);
    assert!(matches!(
        validate(Some(&gw), Some(&old), &ClusterLookup::Missing, None),
        Decision::Admit { .. }
    ));
    assert!(matches!(
        validate(None, None, &ClusterLookup::Missing, None),
        Decision::Admit { .. }
    ));
}

#[test]
fn a_gateway_stays_within_its_tenants_cap() {
    let tenant = MCPGTenant {
        metadata: ObjectMeta {
            name: Some("acme".into()),
            ..Default::default()
        },
        spec: MCPGTenantSpec {
            namespaces: vec!["test".into()],
            quotas: Some(TenantQuotas {
                max_replicas_per_gateway: Some(2),
                ..Default::default()
            }),
            ..Default::default()
        },
        status: None,
    };
    let tenants = vec![tenant];
    let gw = fixture(coordination_spec(3, None, Json::Null));
    assert_eq!(
        enforce_gateway_replica_cap(&gw, Some(&tenants)).unwrap_err(),
        "spec.replicas 3 exceeds tenant `acme`'s maxReplicasPerGateway 2"
    );
    let gw = fixture(coordination_spec(2, None, Json::Null));
    enforce_gateway_replica_cap(&gw, Some(&tenants)).unwrap();
    let gw = fixture(coordination_spec(3, None, Json::Null));
    enforce_gateway_replica_cap(&gw, None).unwrap();
}

#[test]
fn names_follow_the_rules_of_dns() {
    validate_dns_label("a").unwrap();
    validate_dns_label(&"a".repeat(63)).unwrap();
    assert_eq!(validate_dns_label("").unwrap_err(), "must not be empty");
    assert!(validate_dns_label(&"a".repeat(64)).unwrap_err().contains("63"));
    validate_dns_hostname("mcp.acme.com").unwrap();
    assert!(validate_dns_hostname("mcp..com").is_err());
    assert!(validate_dns_hostname("").is_err());
}
