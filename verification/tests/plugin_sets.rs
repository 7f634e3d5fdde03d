use mcpg_operator::api::conditions::Condition;
use mcpg_operator::api::objects::{ByteMap, ObjectMeta, Secret};
use mcpg_operator::api::resources::{
    LocalObjectReference, MCPGPlugin, MCPGPluginSet, MCPGPluginSetEntry, MCPGPluginSetSpec,
    MCPGPluginSpec, MCPGPluginStatus,
};
use mcpg_operator::controllers::gateway::plugin_set::parse_resolved_plugins_json;
use mcpg_operator::controllers::plugin_set::document::render_resolved_set;
use mcpg_operator::controllers::plugin_set::objects::{
    build_namespace_copy, build_resolved_configmap, desired_secret_names, stale_secrets,
    MANAGED_BY_SET_LABEL, RESOLVED_HASH_LABEL,
};
use mcpg_operator::controllers::plugin_set::report::report_plugin_set;
use mcpg_operator::controllers::plugin_set::resolve::{
    map_plugin_to_plugin_sets, plugin_set_references, resolve_entries, resolve_entry,
    EntryRejection, FailedEntry, PluginLookup, ResolvedEntry,
};
use mcpg_operator::json::Json;
use mcpg_operator::reconcile::flow::Requeue;
use mcpg_operator::telemetry::ReconcileOutcome;

fn fixture_set(entries: Vec<MCPGPluginSetEntry>) -> MCPGPluginSet {
    MCPGPluginSet {
        metadata: ObjectMeta {
            name: Some("payments-plugins".into()),
            namespace: Some("payments".into()),
            uid: Some("set-uid-1".into()),
            ..Default::default()
        },
        spec: MCPGPluginSetSpec {
            entries,
            capability_grants: Default::default(),
        },
        status: None,
    }
}

fn fixture_entry(id: &str, plugin_name: &str) -> MCPGPluginSetEntry {
    MCPGPluginSetEntry {
        id: id.into(),
        plugin_ref: LocalObjectReference {
            name: plugin_name.into(),
        },
        enabled: true,
        enforce: true,
        config: None,
    }
}

fn fixture_resolved(id: &str) -> ResolvedEntry {
    ResolvedEntry {
        entry_id: id.into(),
        plugin_name: format!("{id}-resource"),
        plugin_version: "1.2.3".into(),
        plugin_class: "identity_provider".into(),
        artefact_secret_name: format!("mcpg-plugin-{}-abcd1234", id.replace('.', "-")),
        resolved_digest: "abcd1234".repeat(8),
        config: Json::parse("{}").unwrap(),
    }
}

#[test]
fn render_resolved_set_includes_every_entry_with_grants() {
    let mut set = fixture_set(vec![fixture_entry("dev.mcpg.identity.workload", "p")]);
    set.spec.capability_grants = vec![(
        "dev.mcpg.identity.workload".into(),
        vec!["transport_listen".into()],
    )];

    let resolved = vec![fixture_resolved("dev.mcpg.identity.workload")];
    let (json, hash) = render_resolved_set(&set, &resolved);

    let parsed: serde_json::Value = serde_json::from_str(&json).unwrap();
    assert_eq!(parsed["version"], 1);
    let entries = parsed["entries"].as_array().unwrap();
    assert_eq!(entries.len(), 1);
    let entry = &entries[0];
    assert_eq!(entry["id"], "dev.mcpg.identity.workload");
    assert_eq!(entry["pluginName"], "dev.mcpg.identity.workload-resource");
    assert_eq!(entry["pluginVersion"], "1.2.3");
    assert_eq!(entry["pluginClass"], "identity_provider");
    assert_eq!(entry["capabilityGrants"][0], "transport_listen");
    assert_eq!(hash.len(), 64);
}

#[test]
fn resolved_hash_is_deterministic_for_same_input() {
    let set = fixture_set(vec![fixture_entry("dev.mcpg.identity.workload", "p")]);
    let resolved = vec![fixture_resolved("dev.mcpg.identity.workload")];
    let (_, h1) = render_resolved_set(&set, &resolved);
    let (_, h2) = render_resolved_set(&set, &resolved);
    assert_eq!(h1, h2);
}

#[test]
fn resolved_hash_changes_on_any_change() {
    let set = fixture_set(vec![fixture_entry("dev.mcpg.identity.workload", "p")]);
    let r1 = vec![fixture_resolved("dev.mcpg.identity.workload")];
    let mut r2 = vec![fixture_resolved("dev.mcpg.identity.workload")];
    r2[0].plugin_version = "1.2.4".into();
    let (_, h1) = render_resolved_set(&set, &r1);
    let (_, h2) = render_resolved_set(&set, &r2);
    assert_ne!(h1, h2);
}

#[test]
fn resolved_hash_changes_on_grant_addition() {
    let set1 = fixture_set(vec![fixture_entry("dev.mcpg.identity.workload", "p")]);
    let mut set2 = fixture_set(vec![fixture_entry("dev.mcpg.identity.workload", "p")]);
    set2.spec.capability_grants.push((
        "dev.mcpg.identity.workload".into(),
        vec!["transport_listen".into()],
    ));
    let resolved = vec![fixture_resolved("dev.mcpg.identity.workload")];
    let (_, h1) = render_resolved_set(&set1, &resolved);
    let (_, h2) = render_resolved_set(&set2, &resolved);
    assert_ne!(h1, h2);
}

#[test]
fn a_gateway_reads_back_what_a_set_publishes() {
    let mut set = fixture_set(vec![fixture_entry("dev.mcpg.identity.workload", "p")]);
    set.spec.capability_grants = vec![(
        "dev.mcpg.identity.workload".into(),
        vec!["transport_listen".into()],
    )];
    let mut resolved = vec![
        fixture_resolved("dev.mcpg.identity.workload"),
        fixture_resolved("dev.mcpg.policy.cedar"),
    ];
    resolved[1].config = Json::parse(r#"{"a": ["b", null, true], "n": [-5, -9223372036854775808, 7]}"#).unwrap();
    let (json, _) = render_resolved_set(&set, &resolved);
    let view = parse_resolved_plugins_json(&json, &set).unwrap();
    assert_eq!(view.entries.len(), 2);
    assert_eq!(view.entries[0].id, "dev.mcpg.identity.workload");
    assert_eq!(view.entries[1].id, "dev.mcpg.policy.cedar");
    assert_eq!(
        view.entries[1].artefact_secret_name,
        "mcpg-plugin-dev-mcpg-policy-cedar-abcd1234"
    );
    assert_eq!(view.entries[1].resolved_digest, "abcd1234".repeat(8));
    assert_eq!(view.entries[1].config.to_value()["a"][0], "b");
    assert_eq!(view.entries[1].config.to_value()["n"][0], -5);
    assert_eq!(view.entries[1].config.to_value()["n"][1], i64::MIN);
    assert_eq!(Json::signed(-5).compact(), "-5");
    assert_eq!(Json::signed(7).compact(), Json::integer(7).compact());
    assert_eq!(view.capability_grants[0].1[0], "transport_listen");
}

#[test]
fn a_fraction_in_a_config_leaves_the_rest_of_the_set_readable() {
    let set = fixture_set(vec![fixture_entry("dev.mcpg.identity.workload", "p")]);
    let mut resolved = vec![
        fixture_resolved("dev.mcpg.identity.workload"),
        fixture_resolved("dev.mcpg.policy.cedar"),
    ];
    resolved[0].config = Json::parse(r#"{"ratio": 0.5, "limit": 7}"#).unwrap();
    let (json, _) = render_resolved_set(&set, &resolved);
    let view = parse_resolved_plugins_json(&json, &set).unwrap();
    assert_eq!(view.entries.len(), 2);
    assert_eq!(view.entries[0].id, "dev.mcpg.identity.workload");
    assert_eq!(view.entries[1].id, "dev.mcpg.policy.cedar");
    assert_eq!(view.entries[1].resolved_digest, "abcd1234".repeat(8));
    assert_eq!(view.entries[0].config.to_value()["ratio"], 0.5);
    assert_eq!(view.entries[0].config.to_value()["limit"], 7);
}

fn secret(data: Option<ByteMap>) -> Secret {
    Secret {
        metadata: ObjectMeta {
            name: Some("src".into()),
            ..Default::default()
        },
        type_: None,
        immutable: None,
        data,
    }
}

#[test]
fn build_namespace_copy_carries_owner_ref_to_set() {
    let set = fixture_set(vec![]);
    let mut data = ByteMap::new();
    data.insert("plugin.so", vec![1, 2, 3]);
    let source = secret(Some(data));
    let entry = fixture_resolved("dev.mcpg.identity.workload");
    let copy = build_namespace_copy(&set, "payments", &source, &entry);
    let orefs = copy.metadata.owner_references.unwrap();
    assert_eq!(orefs[0].kind, "MCPGPluginSet");
    assert_eq!(orefs[0].name, "payments-plugins");
    assert_eq!(orefs[0].uid, "set-uid-1");
    assert!(orefs[0].controller);
}

#[test]
fn build_namespace_copy_propagates_source_data() {
    let set = fixture_set(vec![]);
    let mut data = ByteMap::new();
    data.insert("plugin.so", vec![0xDE, 0xAD]);
    data.insert("plugin.yaml", b"id: x".to_vec());
    let expected = data.entries.clone();
    let source = secret(Some(data));
    let entry = fixture_resolved("dev.mcpg.identity.workload");
    let copy = build_namespace_copy(&set, "payments", &source, &entry);
    assert_eq!(copy.data.unwrap().entries, expected);
}

#[test]
fn build_namespace_copy_labels_include_managed_by_set() {
    let set = fixture_set(vec![]);
    let entry = fixture_resolved("dev.mcpg.identity.workload");
    let copy = build_namespace_copy(&set, "payments", &secret(None), &entry);
    let labels = copy.metadata.labels.unwrap();
    assert_eq!(
        labels.get(MANAGED_BY_SET_LABEL).unwrap(),
        "payments-plugins"
    );
    assert_eq!(
        labels.get("mcpg.dev/plugin").unwrap(),
        "dev-mcpg-identity-workload"
    );
}

#[test]
fn build_namespace_copy_marks_secret_immutable() {
    let set = fixture_set(vec![]);
    let entry = fixture_resolved("dev.mcpg.identity.workload");
    let copy = build_namespace_copy(&set, "payments", &secret(None), &entry);
    assert_eq!(copy.immutable, Some(true));
}

#[test]
fn build_resolved_configmap_carries_resolved_hash_label() {
    let set = fixture_set(vec![]);
    let cm = build_resolved_configmap(&set, "payments", "{}", "abcd1234");
    let labels = cm.metadata.labels.unwrap();
    assert_eq!(labels.get(RESOLVED_HASH_LABEL).unwrap(), "abcd1234");
    assert_eq!(
        labels.get(MANAGED_BY_SET_LABEL).unwrap(),
        "payments-plugins"
    );
}

#[test]
fn build_resolved_configmap_name_suffixed_with_resolved() {
    let set = fixture_set(vec![]);
    let cm = build_resolved_configmap(&set, "payments", "{}", "h");
    assert_eq!(
        cm.metadata.name.as_deref(),
        Some("payments-plugins-resolved")
    );
}

#[test]
fn build_resolved_configmap_data_holds_plugins_json() {
    let set = fixture_set(vec![]);
    let cm = build_resolved_configmap(&set, "payments", "{\"a\":1}", "h");
    assert_eq!(cm.data.get("plugins.json").unwrap(), "{\"a\":1}");
}

fn ready_plugin(id: &str) -> MCPGPlugin {
    MCPGPlugin {
        metadata: ObjectMeta {
            name: Some("p".into()),
            ..Default::default()
        },
        spec: MCPGPluginSpec {
            plugin_id: id.into(),
            version: "1.2.3".into(),
            plugin_class: "policy".into(),
            ..Default::default()
        },
        status: Some(MCPGPluginStatus {
            conditions: vec![Condition::new("Ready", "True", "Reconciled", "", Some(1))],
            revoked_by_sha: None,
            artefact_secret_name: Some("mcpg-plugin-p-abcd1234".into()),
            resolved_digest: Some("sha256:abcd".into()),
        }),
    }
}

fn rejected(entry: &MCPGPluginSetEntry, lookup: &PluginLookup) -> EntryRejection {
    resolve_entry(entry, lookup).unwrap_err()
}

#[test]
fn entry_rejection_id_mismatch_message_format() {
    let r = rejected(
        &fixture_entry("a", "p"),
        &PluginLookup::Found(ready_plugin("b")),
    );
    assert!(r.message.starts_with("entry.id `a` != "), "{}", r.message);
    let fe = FailedEntry {
        id: "a".into(),
        reason: r.reason.into(),
        message: r.message,
    };
    assert_eq!(fe.reason, "PluginIdMismatch");
}

#[test]
fn an_entry_resolves_to_its_plugin() {
    let r = resolve_entry(
        &fixture_entry("a.b", "p"),
        &PluginLookup::Found(ready_plugin("a.b")),
    )
    .unwrap();
    assert_eq!(r.entry_id, "a.b");
    assert_eq!(r.plugin_name, "p");
    assert_eq!(r.plugin_version, "1.2.3");
    assert_eq!(r.plugin_class, "policy");
    assert_eq!(r.artefact_secret_name, "mcpg-plugin-p-abcd1234");
    assert_eq!(r.resolved_digest, "sha256:abcd");
    assert!(r.config.is_null());
}

#[test]
fn each_way_to_be_unusable_has_its_reason() {
    let e = fixture_entry("a", "p");
    let r = rejected(&e, &PluginLookup::Missing);
    assert_eq!(r.reason, "PluginNotFound");
    assert_eq!(r.message, "MCPGPlugin/p does not exist");
    let r = rejected(&e, &PluginLookup::Failed("boom".into()));
    assert_eq!(r.reason, "PluginNotFound");
    assert_eq!(r.message, "MCPGPlugin/p lookup failed: boom");
    let mut p = ready_plugin("a");
    p.status.as_mut().unwrap().revoked_by_sha = Some(true);
    assert_eq!(rejected(&e, &PluginLookup::Found(p)).reason, "PluginRevoked");
    let mut p = ready_plugin("a");
    p.status.as_mut().unwrap().conditions.clear();
    assert_eq!(rejected(&e, &PluginLookup::Found(p)).reason, "PluginNotReady");
    let mut p = ready_plugin("a");
    p.status.as_mut().unwrap().artefact_secret_name = None;
    assert_eq!(
        rejected(&e, &PluginLookup::Found(p)).reason,
        "ArtefactSecretMissing"
    );
}

#[test]
fn disabled_entries_are_left_out() {
    let mut off = fixture_entry("c", "p");
    off.enabled = false;
    let entries = vec![fixture_entry("a", "p"), off, fixture_entry("b", "q")];
    let lookups = vec![
        PluginLookup::Found(ready_plugin("a")),
        PluginLookup::Missing,
        PluginLookup::Missing,
    ];
    let (resolved, failed) = resolve_entries(&entries, &lookups);
    assert_eq!(resolved.len(), 1);
    assert_eq!(resolved[0].entry_id, "a");
    assert_eq!(failed.len(), 1);
    assert_eq!(failed[0].id, "b");
}

#[test]
fn plugin_set_references_matches_referenced_plugin() {
    let set = fixture_set(vec![fixture_entry(
        "dev.mcpg.identity.workload",
        "identity-workload-1.2.3",
    )]);
    assert!(plugin_set_references(&set, "identity-workload-1.2.3"));
}

#[test]
fn plugin_set_references_rejects_unrelated_plugin() {
    let set = fixture_set(vec![fixture_entry(
        "dev.mcpg.identity.workload",
        "identity-workload-1.2.3",
    )]);
    assert!(!plugin_set_references(&set, "policy-cedar-1.0.0"));
}

#[test]
fn plugin_set_references_handles_empty_set() {
    let set = fixture_set(vec![]);
    assert!(!plugin_set_references(&set, "anything"));
}

#[test]
fn plugin_set_references_matches_any_of_multiple_entries() {
    let set = fixture_set(vec![
        fixture_entry("dev.mcpg.identity.workload", "identity-workload"),
        fixture_entry("dev.mcpg.policy.cedar", "policy-cedar"),
    ]);
    assert!(plugin_set_references(&set, "policy-cedar"));
}

#[test]
fn a_plugin_wakes_the_sets_that_use_it() {
    let store = vec![
        fixture_set(vec![fixture_entry("a", "q")]),
        fixture_set(vec![fixture_entry("a", "p")]),
    ];
    let hits = map_plugin_to_plugin_sets(&store, &ready_plugin("a"));
    assert_eq!(hits.len(), 1);
    assert_eq!(hits[0].name, "payments-plugins");
    assert_eq!(hits[0].namespace.as_deref(), Some("payments"));
}

#[test]
fn only_unwanted_secrets_are_pruned() {
    let resolved = vec![fixture_resolved("a"), fixture_resolved("b")];
    let wanted = desired_secret_names(&resolved);
    assert_eq!(
        wanted,
        vec!["mcpg-plugin-a-abcd1234", "mcpg-plugin-b-abcd1234"]
    );
    let existing: Vec<ObjectMeta> = ["mcpg-plugin-a-abcd1234", "mcpg-plugin-z-abcd1234"]
        .iter()
        .map(|n| ObjectMeta {
            name: Some(n.to_string()),
            ..Default::default()
        })
        .collect();
    assert_eq!(
        stale_secrets(&existing, &wanted),
        vec!["mcpg-plugin-z-abcd1234"]
    );
}

#[test]
fn a_failed_entry_keeps_the_set_from_being_ready() {
    let set = fixture_set(vec![fixture_entry("a", "p"), fixture_entry("b", "q")]);
    let failed = vec![FailedEntry {
        id: "b".into(),
        reason: "PluginNotFound".into(),
        message: "m".into(),
    }];
    let r = report_plugin_set(&set, 4, 1, failed, "h");
    assert_eq!(r.resolved_hash, "h");
    assert_eq!((r.resolved_entries, r.total_entries), (1, 2));
    let ready = &r.report.conditions[0];
    assert_eq!(ready.type_, "Ready");
    assert_eq!(ready.status, "False");
    assert_eq!(ready.message, "1/2 entries resolved; 1 failed");
    assert_eq!(ready.observed_generation, Some(4));
    assert_eq!(r.report.verdict.outcome, ReconcileOutcome::DependencyPending);

    let r = report_plugin_set(&set, 4, 2, Vec::new(), "h");
    assert_eq!(r.report.conditions[0].status, "True");
    assert_eq!(r.report.event.unwrap().note, "2/2 entries resolved");
    assert_eq!(r.report.verdict.requeue, Requeue::AfterSecs(300));
}
