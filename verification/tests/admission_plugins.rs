use mcpg_operator::admission::decision::Decision;
use mcpg_operator::admission::tenant_guard::{enforce_pluginset_allowlist, owning_tenant};
use mcpg_operator::admission::validators::plugin;
use mcpg_operator::admission::validators::plugin_set;
use mcpg_operator::api::objects::ObjectMeta;
use mcpg_operator::api::resources::{
    CosignIdentity, LocalObjectReference, MCPGPlugin, MCPGPluginSet, MCPGPluginSetEntry,
    MCPGPluginSetSpec, MCPGPluginSpec, MCPGTenant, MCPGTenantSpec, OciImageRef, PluginTrust,
    SigningKeyRef,
};

fn known() -> Vec<String> {
    vec!["identity_provider".into(), "policy".into(), "audit".into()]
}

fn fixture(spec: MCPGPluginSpec) -> MCPGPlugin {
    MCPGPlugin {
        metadata: ObjectMeta {
            name: Some("identity-workload-1.2.3-linux-amd64".into()),
            ..Default::default()
        },
        spec,
        status: None,
    }
}

fn check(spec: MCPGPluginSpec) -> Result<(), String> {
    plugin::validate_spec(&fixture(spec), &known())
}

fn good_spec() -> MCPGPluginSpec {
    MCPGPluginSpec {
        plugin_id: "dev.mcpg.identity.workload".into(),
        version: "1.2.3".into(),
        plugin_class: "identity_provider".into(),
        oci: OciImageRef {
            image: "ghcr.io/mcpg-dev/source-code/plugins/identity-workload:1.2.3-linux-amd64@sha256:abcd1234".into(),
            pull_secret_ref: None,
            mirror_ref: None,
        },
        trust: PluginTrust {
            signing_key_ref: SigningKeyRef {
                secret_name: "release-trust".into(),
                key: "release.pub".into(),
            },
            cosign_identity: None,
            slsa_provenance: None,
        },
    }
}

fn with_cosign(regexp: &str) -> MCPGPluginSpec {
    let mut s = good_spec();
    s.oci.image = "ghcr.io/foo/bar:1.0.0".into();
    s.trust.cosign_identity = Some(CosignIdentity {
        certificate_identity_regexp: regexp.into(),
        oidc_issuer: "https://token.actions.githubusercontent.com".into(),
    });
    s
}

#[test]
fn plugin_accepts_well_formed_minimal() {
    check(good_spec()).unwrap();
}

#[test]
fn rejects_empty_plugin_id() {
    let mut s = good_spec();
    s.plugin_id = "  ".into();
    let err = check(s).unwrap_err();
    assert!(err.contains("pluginId"), "{err}");
}

#[test]
fn rejects_plugin_id_without_dot() {
    let mut s = good_spec();
    s.plugin_id = "identityworkload".into();
    let err = check(s).unwrap_err();
    assert!(err.contains("reverse-DNS"), "{err}");
}

#[test]
fn rejects_unknown_plugin_class() {
    let mut s = good_spec();
    s.plugin_class = "frobnicator".into();
    let err = check(s).unwrap_err();
    assert!(err.contains("PluginClass"), "{err}");
}

#[test]
fn rejects_oci_without_tag_or_digest() {
    let mut s = good_spec();
    s.oci.image = "ghcr.io/foo/bar".into();
    let err = check(s).unwrap_err();
    assert!(err.contains("tag or digest"), "{err}");
}

#[test]
fn rejects_oci_without_registry() {
    let mut s = good_spec();
    s.oci.image = "image:tag".into();
    let err = check(s).unwrap_err();
    assert!(err.contains("registry component"), "{err}");
}

#[test]
fn rejects_tag_only_image_without_cosign() {
    let mut s = good_spec();
    s.oci.image = "ghcr.io/foo/bar:1.0.0".into();
    s.trust.cosign_identity = None;
    let err = check(s).unwrap_err();
    assert!(err.contains("digest"), "{err}");
    assert!(err.contains("cosignIdentity"), "{err}");
}

#[test]
fn accepts_tag_only_image_with_cosign() {
    check(with_cosign("^https://github.com/foo/.*$")).unwrap();
}

#[test]
fn rejects_unanchored_cosign_regex_at_start() {
    let err = check(with_cosign("https://github.com/foo/.*$")).unwrap_err();
    assert!(err.contains("must start"), "{err}");
    assert!(err.contains("anchored"), "{err}");
}

#[test]
fn rejects_unanchored_cosign_regex_at_end() {
    let err = check(with_cosign("^https://github.com/foo/")).unwrap_err();
    assert!(err.contains("must end"), "{err}");
    assert!(err.contains("anchored"), "{err}");
}

#[test]
fn rejects_invalid_cosign_regex() {
    let err = check(with_cosign("^[invalid(")).unwrap_err();
    assert!(err.contains("not a valid regex"), "{err}");
    assert!(err.contains("unclosed character class"), "{err}");
}

#[test]
fn rejects_empty_signing_key_secret() {
    let mut s = good_spec();
    s.trust.signing_key_ref.secret_name = "  ".into();
    let err = check(s).unwrap_err();
    assert!(err.contains("signingKeyRef.secretName"), "{err}");
}

#[test]
fn rejects_empty_cosign_identity_when_set() {
    let mut s = good_spec();
    s.trust.cosign_identity = Some(CosignIdentity {
        certificate_identity_regexp: "  ".into(),
        oidc_issuer: "https://issuer".into(),
    });
    let err = check(s).unwrap_err();
    assert!(err.contains("certificateIdentityRegexp"), "{err}");
}

#[test]
fn a_review_of_a_plugin_denies_what_is_wrong() {
    let bad = fixture(with_cosign("unanchored"));
    assert!(matches!(
        plugin::validate(Some(&bad), &known()),
        Decision::Deny(m) if m.contains("must start")
    ));
    assert!(matches!(
        plugin::validate(Some(&fixture(good_spec())), &known()),
        Decision::Admit { .. }
    ));
    assert!(matches!(
        plugin::validate(None, &known()),
        Decision::Admit { .. }
    ));
}

fn set_fixture(spec: MCPGPluginSetSpec) -> MCPGPluginSet {
    MCPGPluginSet {
        metadata: ObjectMeta {
            name: Some("payments-plugins".into()),
            namespace: Some("payments".into()),
            ..Default::default()
        },
        spec,
        status: None,
    }
}

fn good_entry(id: &str, plugin_name: &str) -> MCPGPluginSetEntry {
    MCPGPluginSetEntry {
        id: id.into(),
        plugin_ref: LocalObjectReference {
            name: plugin_name.into(),
        },
        enabled: true,
        enforce: true,
        config: None,
    }
}

fn capabilities() -> plugin_set::Capabilities {
    plugin_set::Capabilities {
        known_names: vec!["network_outbound".into(), "transport_listen".into()],
        errors: vec![(
            "cap.host.outbound_network".into(),
            "unknown capability".into(),
        )],
    }
}

fn check_set(spec: MCPGPluginSetSpec) -> Result<(), String> {
    plugin_set::validate_spec(&set_fixture(spec), &capabilities())
}

fn set_of(entries: Vec<MCPGPluginSetEntry>) -> MCPGPluginSetSpec {
    MCPGPluginSetSpec {
        entries,
        ..Default::default()
    }
}

fn granting(id: &str, caps: &[&str]) -> MCPGPluginSetSpec {
    MCPGPluginSetSpec {
        entries: vec![good_entry("dev.mcpg.identity.workload", "p1")],
        capability_grants: vec![(id.into(), caps.iter().map(|c| c.to_string()).collect())],
    }
}

#[test]
fn rejects_empty_entries() {
    let err = check_set(MCPGPluginSetSpec::default()).unwrap_err();
    assert!(err.contains("entries must not be empty"), "{err}");
}

#[test]
fn plugin_set_accepts_well_formed_minimal() {
    check_set(set_of(vec![good_entry(
        "dev.mcpg.identity.workload",
        "identity-workload-1.2.3-linux-amd64",
    )]))
    .unwrap();
}

#[test]
fn rejects_duplicate_ids() {
    let err = check_set(set_of(vec![
        good_entry("dev.mcpg.identity.workload", "p1"),
        good_entry("dev.mcpg.identity.workload", "p2"),
    ]))
    .unwrap_err();
    assert!(err.contains("duplicate plugin id"), "{err}");
}

#[test]
fn rejects_id_without_dot() {
    let err = check_set(set_of(vec![good_entry("identityworkload", "p1")])).unwrap_err();
    assert!(err.contains("reverse-DNS"), "{err}");
}

#[test]
fn rejects_empty_plugin_ref() {
    let mut entry = good_entry("dev.mcpg.identity.workload", "p1");
    entry.plugin_ref.name = "  ".into();
    let err = check_set(set_of(vec![entry])).unwrap_err();
    assert!(err.contains("pluginRef.name"), "{err}");
}

#[test]
fn rejects_capability_grant_for_missing_plugin() {
    let err = check_set(granting("dev.mcpg.policy.cedar", &["network_outbound"])).unwrap_err();
    assert!(err.contains("policy.cedar"), "{err}");
    assert!(err.contains("not in spec.entries"), "{err}");
}

#[test]
fn rejects_empty_capability_grant_list() {
    let err = check_set(granting("dev.mcpg.identity.workload", &[])).unwrap_err();
    assert!(err.contains("empty"), "{err}");
}

#[test]
fn accepts_well_formed_grants() {
    check_set(granting("dev.mcpg.identity.workload", &["transport_listen"])).unwrap();
}

#[test]
fn rejects_unknown_capability_kind() {
    let err = check_set(granting(
        "dev.mcpg.identity.workload",
        &["cap.host.outbound_network"],
    ))
    .unwrap_err();
    assert!(err.contains("cap.host.outbound_network"), "{err}");
    assert!(err.contains("not a valid"), "{err}");
    assert!(
        err.contains("valid kinds: network_outbound, transport_listen"),
        "{err}"
    );
}

fn tenant(name: &str, ns: &str) -> MCPGTenant {
    MCPGTenant {
        metadata: ObjectMeta {
            name: Some(name.into()),
            ..Default::default()
        },
        spec: MCPGTenantSpec {
            namespaces: vec![ns.into()],
            ..Default::default()
        },
        status: None,
    }
}

#[test]
fn a_tenant_decides_which_plugins_its_sets_use() {
    let tenants = vec![tenant("other", "staging"), tenant("acme", "payments")];
    let set = set_fixture(set_of(vec![
        good_entry("a.b", "p1"),
        good_entry("c.d", "p2"),
    ]));
    assert_eq!(
        owning_tenant(Some(&tenants), "payments").unwrap().metadata.name.as_deref(),
        Some("acme")
    );
    assert!(owning_tenant(Some(&tenants), "elsewhere").is_none());
    assert_eq!(
        enforce_pluginset_allowlist(&set, Some(&tenants), &vec![true, false]).unwrap_err(),
        "plugin `p2` (id `c.d`) is not in tenant `acme`'s allowedPlugins; namespace `payments` is governed by that tenant"
    );
    enforce_pluginset_allowlist(&set, Some(&tenants), &vec![true, true]).unwrap();
    enforce_pluginset_allowlist(&set, None, &Vec::new()).unwrap();
    assert!(matches!(
        plugin_set::validate(Some(&set), &capabilities(), Some(&tenants), &vec![false, true]),
        Decision::Deny(m) if m.contains("`p1`")
    ));
}
