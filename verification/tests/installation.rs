use mcpg_operator::config::{LogFormat, OperatorConfig};
use mcpg_operator::rbac::{
    build_tenant_binding, ensure_tenant_secret_binding, TENANT_SECRETS_BINDING_NAME,
    TENANT_SECRETS_CLUSTER_ROLE,
};
use mcpg_operator::{
    default_gateway_image_repository, default_gateway_image_tag, resolve_image_default,
    resolve_once, DEFAULT_GATEWAY_IMAGE_REPOSITORY, DEFAULT_GATEWAY_IMAGE_TAG,
};

#[test]
fn gateway_pod_annotations_parse_and_skip_malformed() {
    let cfg = OperatorConfig {
        gateway_pod_annotations: Some(
            "prometheus.io/scrape=true, prometheus.io/port=8080 ,broken,=novalue".to_owned(),
        ),
        ..OperatorConfig::default()
    };
    let map = cfg.gateway_pod_annotations_map();
    assert_eq!(
        map.get("prometheus.io/scrape").map(String::as_str),
        Some("true")
    );
    assert_eq!(
        map.get("prometheus.io/port").map(String::as_str),
        Some("8080")
    );
    assert_eq!(map.entries.len(), 2, "malformed pairs are skipped: {map:?}");
}

#[test]
fn no_annotations_without_the_setting() {
    assert!(OperatorConfig::default().gateway_pod_annotations_map().is_empty());
}

#[test]
fn defaults_sane() {
    let cfg = OperatorConfig::default();
    assert_eq!(cfg.metrics_bind, "0.0.0.0:8443");
    assert_eq!(cfg.webhook_bind, "0.0.0.0:9443");
    assert!(cfg.leader_election);
    assert_eq!(cfg.lease_name, "mcpg-operator");
    assert_eq!(cfg.resync_interval_secs, 600);
    assert!(!cfg.webhook_enabled());
    assert_eq!(cfg.log_format, LogFormat::Json);
}

#[test]
fn a_certificate_directory_enables_the_webhook() {
    let cfg = OperatorConfig {
        tls_cert_dir: Some("/tls".to_owned()),
        ..OperatorConfig::default()
    };
    assert!(cfg.webhook_enabled());
}

#[test]
fn fleet_attach_is_off_by_default() {
    let cfg = OperatorConfig::default();
    assert!(!cfg.fleet_attach);
    assert_eq!(cfg.fleet_endpoint, None);
    assert_eq!(cfg.fleet_heartbeat_secs, 30);
}

#[test]
fn cloud_default_plugins_unset_is_none() {
    assert_eq!(OperatorConfig::default().cloud_default_plugins, None);
}

#[test]
fn unset_env_yields_the_compiled_default() {
    assert_eq!(
        resolve_image_default(None, DEFAULT_GATEWAY_IMAGE_REPOSITORY),
        "ghcr.io/mcpg-dev/source-code/gateway"
    );
    assert_eq!(
        resolve_image_default(None, DEFAULT_GATEWAY_IMAGE_TAG),
        DEFAULT_GATEWAY_IMAGE_TAG
    );
}

#[test]
fn env_repoints_the_repository() {
    assert_eq!(
        resolve_image_default(
            Some("registry.airgap.internal/mcpg/gateway"),
            DEFAULT_GATEWAY_IMAGE_REPOSITORY
        ),
        "registry.airgap.internal/mcpg/gateway"
    );
}

#[test]
fn env_repoints_to_the_public_channel() {
    assert_eq!(
        resolve_image_default(
            Some("ghcr.io/mcpg-dev/gateway"),
            DEFAULT_GATEWAY_IMAGE_REPOSITORY
        ),
        "ghcr.io/mcpg-dev/gateway"
    );
}

#[test]
fn env_repoints_the_tag() {
    assert_eq!(
        resolve_image_default(Some("v9.9.9"), DEFAULT_GATEWAY_IMAGE_TAG),
        "v9.9.9"
    );
}

#[test]
fn blank_env_falls_back_to_the_compiled_default() {
    for blank in ["", "   ", "\t\n"] {
        assert_eq!(
            resolve_image_default(Some(blank), DEFAULT_GATEWAY_IMAGE_REPOSITORY),
            DEFAULT_GATEWAY_IMAGE_REPOSITORY
        );
    }
}

#[test]
fn surrounding_whitespace_and_trailing_slash_are_trimmed() {
    assert_eq!(
        resolve_image_default(
            Some("  registry.airgap.internal/mcpg/gateway/  "),
            DEFAULT_GATEWAY_IMAGE_REPOSITORY
        ),
        "registry.airgap.internal/mcpg/gateway"
    );
}

#[test]
fn a_value_of_slashes_alone_falls_back() {
    assert_eq!(
        default_gateway_image_repository(&mut None, Some(" // ")),
        "ghcr.io/mcpg-dev/source-code/gateway"
    );
}

#[test]
fn the_build_pin_is_weaker_than_the_environment() {
    assert_eq!(default_gateway_image_tag(&mut None, None, None), "v1.0.0-dev");
    assert_eq!(default_gateway_image_tag(&mut None, None, Some("v1.2.3")), "v1.2.3");
    assert_eq!(
        default_gateway_image_tag(&mut None, Some("v9.9.9"), Some("v1.2.3")),
        "v9.9.9"
    );
}

#[test]
fn accessors_are_resolved_once_and_stay_stable() {
    let mut kept_repo = None;
    let mut kept_tag = None;
    let repo = default_gateway_image_repository(&mut kept_repo, None);
    let tag = default_gateway_image_tag(&mut kept_tag, None, None);
    assert!(!repo.is_empty() && !tag.is_empty());
    assert_eq!(
        default_gateway_image_repository(
            &mut kept_repo,
            Some("registry.late.example/mcpg/gateway")
        ),
        repo,
        "a late env mutation must not change an already-resolved default"
    );
    assert_eq!(default_gateway_image_tag(&mut kept_tag, Some("v9.9.9"), None), tag);
    assert_eq!(default_gateway_image_tag(&mut kept_tag, None, None), tag);
}

#[test]
fn the_first_override_stays() {
    let mut kept = None;
    assert_eq!(resolve_once(&mut kept, Some(" early/gateway/ "), "built/in"), "early/gateway");
    assert_eq!(kept.as_deref(), Some("early/gateway"));
    assert_eq!(resolve_once(&mut kept, None, "built/in"), "early/gateway");
    assert_eq!(resolve_once(&mut kept, Some("late/gateway"), "built/in"), "early/gateway");
    assert_eq!(kept.as_deref(), Some("early/gateway"));
}

#[test]
fn heartbeats_are_not_too_close() {
    for (told, expected) in [(0, 5), (4, 5), (5, 5), (15, 15)] {
        let cfg = OperatorConfig {
            fleet_heartbeat_secs: told,
            ..OperatorConfig::default()
        };
        assert_eq!(cfg.heartbeat_secs(), expected);
    }
}

#[test]
fn binding_targets_tenant_cluster_role() {
    let b = build_tenant_binding("tenant-a", "mcpg-operator-system", "mcpg-operator");
    assert_eq!(b.role_ref.kind, "ClusterRole");
    assert_eq!(b.role_ref.name, TENANT_SECRETS_CLUSTER_ROLE);
    assert_eq!(b.role_ref.api_group, "rbac.authorization.k8s.io");
}

#[test]
fn binding_subject_is_operator_service_account() {
    let b = build_tenant_binding("tenant-a", "mcpg-operator-system", "mcpg-operator");
    let subjects = b.subjects.expect("subjects present");
    assert_eq!(subjects.len(), 1);
    let s = &subjects[0];
    assert_eq!(s.kind, "ServiceAccount");
    assert_eq!(s.name, "mcpg-operator");
    assert_eq!(s.namespace.as_deref(), Some("mcpg-operator-system"));
}

#[test]
fn binding_namespace_is_tenant_not_operator() {
    let b = build_tenant_binding("payments", "mcpg-operator-system", "mcpg-operator");
    assert_eq!(b.metadata.namespace.as_deref(), Some("payments"));
}

#[test]
fn binding_has_managed_by_label_for_audit_filtering() {
    let b = build_tenant_binding("tenant-a", "mcpg-operator-system", "mcpg-operator");
    let labels = b.metadata.labels.expect("labels present");
    assert_eq!(
        labels
            .get("app.kubernetes.io/managed-by")
            .map(String::as_str),
        Some("mcpg-operator")
    );
    assert_eq!(
        labels
            .get("app.kubernetes.io/component")
            .map(String::as_str),
        Some("tenant-rbac")
    );
}

#[test]
fn binding_name_is_constant_per_namespace() {
    let b1 = build_tenant_binding("a", "op", "sa");
    let b2 = build_tenant_binding("b", "op", "sa");
    assert_eq!(b1.metadata.name, b2.metadata.name);
    assert_eq!(
        b1.metadata.name.as_deref(),
        Some(TENANT_SECRETS_BINDING_NAME)
    );
}

#[test]
fn the_operators_own_namespace_needs_no_binding() {
    assert!(ensure_tenant_secret_binding("op", "op", "sa").is_none());
    let b = ensure_tenant_secret_binding("a", "op", "sa").expect("binding");
    assert_eq!(b.metadata.namespace.as_deref(), Some("a"));
}
