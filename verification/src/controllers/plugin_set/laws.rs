//! What holds of plugin sets, from their entries to the document that
//! gateways read.
use vstd::prelude::*;

use crate::api::conditions::{conditions_view, lemma_upserts_are_told, told};
use crate::api::objects::{ObjectMeta, Secret};
use crate::api::resources::{
    object_ref, MCPGPlugin, MCPGPluginSet, MCPGPluginSetEntry, ObjectRefView,
};
use crate::controllers::gateway::edge::{law_stale, stale};
use crate::controllers::gateway::plugin_set::{entry_mounts, plugins_text, resolved_cm_name};
use crate::controllers::plugin_set::document::{all_seen, document, grants_for};
use crate::controllers::plugin_set::flow::{
    copies_from, is_resolution, passed_over, step_is, SetAction, SetEvent, SetState,
};
use crate::controllers::plugin_set::objects::{
    names_of, namespace_copy, resolved_configmap, wanted_secrets,
};
use crate::controllers::plugin_set::report::set_report;
use crate::controllers::plugin_set::resolve::{
    failed_views, rejected, rejection, resolution, resolved_views, sets_with, usable, FailedEntry,
    PluginLookup, ResolvedEntry, ResolvedView,
};
use crate::hashing::text_hash;
use crate::json::{get, get_str, pretty_text, strings, JsonView};
use crate::rbac::tenant_binding;
use crate::reconcile::flow::{Begin, ReconcileError, Requeue};
use crate::telemetry::ReconcileOutcome;
use crate::text::{decimal, starts_with, texts};
use crate::text_laws::law_parts_are_found;

verus! {

/// An entry is resolved with its own config, its own id and the name of the
/// plugin it refers to, and with the version, the class, the Secret and the
/// digest of that plugin. Without a config of its own its config is null.
pub proof fn law_entry_resolves_to_its_plugin(e: MCPGPluginSetEntry, p: MCPGPlugin)
    ensures
        e.config matches Some(c) ==> resolution(e, p).config == c.view(),
        e.config is None ==> resolution(e, p).config == JsonView::Null,
        resolution(e, p).entry_id == e.id@,
        resolution(e, p).plugin_name == e.plugin_ref.name@,
        resolution(e, p).plugin_version == p.spec.version@,
        resolution(e, p).plugin_class == p.spec.plugin_class@,
        p.status matches Some(s) ==> {
            &&& s.artefact_secret_name matches Some(n) ==> resolution(e, p).artefact_secret_name
                == n@
            &&& s.resolved_digest matches Some(d) ==> resolution(e, p).resolved_digest == d@
        },
{
}

/// Entries of the same plugin with different configs resolve differently.
pub proof fn law_config_is_told_apart(a: MCPGPluginSetEntry, b: MCPGPluginSetEntry, p: MCPGPlugin)
    requires
        a.config matches Some(c) && b.config matches Some(d) && c.view() != d.view(),
    ensures
        resolution(a, p) != resolution(b, p),
{
    law_entry_resolves_to_its_plugin(a, p);
    law_entry_resolves_to_its_plugin(b, p);
}

/// Whether a plugin may be used by an entry: it has the declared id, its
/// status says `Ready` and names a Secret, and it is not revoked.
pub open spec fn may_use(e: MCPGPluginSetEntry, p: MCPGPlugin) -> bool {
    &&& p.spec.plugin_id@ == e.id@
    &&& p.status matches Some(s) && {
        &&& s.revoked_by_sha != Some(true)
        &&& exists|i: int|
            0 <= i < s.conditions@.len() && (#[trigger] s.conditions@[i]).type_@ == "Ready"@
                && s.conditions@[i].status@ == "True"@
        &&& s.artefact_secret_name matches Some(n) && n@.len() > 0
    }
}

/// An entry is used exactly when its plugin was found and may be used; any
/// other is rejected with the first reason there is.
pub proof fn law_entry_is_used_iff_it_may_be(e: MCPGPluginSetEntry, l: PluginLookup)
    ensures
        rejection(e, l) is None <==> (l matches PluginLookup::Found(p) && may_use(e, p)),
        match l {
            PluginLookup::Found(p) => {
                &&& p.spec.plugin_id@ != e.id@ ==> rejection(e, l)->0.reason
                    == "PluginIdMismatch"@
                &&& p.spec.plugin_id@ == e.id@ ==> (p.status matches Some(s) ==> (
                s.revoked_by_sha == Some(true) ==> rejection(e, l)->0.reason == "PluginRevoked"@))
                &&& p.spec.plugin_id@ == e.id@ && p.status is None ==> rejection(e, l)->0.reason
                    == "PluginNotReady"@
            },
            _ => rejection(e, l) is Some && rejection(e, l)->0.reason == "PluginNotFound"@,
        },
{
    if let PluginLookup::Found(p) = l {
        if let Some(s) = p.status {
            let v = conditions_view(s.conditions@);
            assert forall|i: int| 0 <= i < v.len() implies #[trigger] v[i].type_
                == s.conditions@[i].type_@ && v[i].status == s.conditions@[i].status@ by {}
            if exists|i: int|
                0 <= i < s.conditions@.len() && (#[trigger] s.conditions@[i]).type_@ == "Ready"@
                    && s.conditions@[i].status@ == "True"@ {
                let i = choose|i: int|
                    0 <= i < s.conditions@.len() && (#[trigger] s.conditions@[i]).type_@
                        == "Ready"@ && s.conditions@[i].status@ == "True"@;
                assert(v[i].type_ == "Ready"@);
            }
            if exists|i: int|
                0 <= i < v.len() && (#[trigger] v[i]).type_ == "Ready"@ && v[i].status == "True"@ {
                let i = choose|i: int|
                    0 <= i < v.len() && (#[trigger] v[i]).type_ == "Ready"@ && v[i].status
                        == "True"@;
                assert(s.conditions@[i].type_@ == "Ready"@);
            }
        }
    }
}

proof fn lemma_usable_take(e: Seq<MCPGPluginSetEntry>, l: Seq<PluginLookup>, n: int)
    requires
        0 <= n <= e.len(),
    ensures
        usable(e.take(n), l).is_prefix_of(usable(e, l)),
        rejected(e.take(n), l).is_prefix_of(rejected(e, l)),
    decreases e.len() - n,
{
    if n < e.len() {
        lemma_usable_take(e, l, n + 1);
        assert(e.take(n + 1).drop_last() =~= e.take(n));
    } else {
        assert(e.take(n) =~= e);
    }
}

/// Each enabled entry is resolved or reported, in the order of the entries:
/// after what came of the entries before it stands what it resolves to, or its
/// id with the reason and the message of its rejection. A disabled entry adds
/// nothing.
pub proof fn law_entries_keep_their_order(
    e: Seq<MCPGPluginSetEntry>,
    l: Seq<PluginLookup>,
    i: int,
)
    requires
        0 <= i < e.len() == l.len(),
    ensures
        e[i].enabled && rejection(e[i], l[i]) is None ==> {
            let k = usable(e.take(i), l).len() as int;
            k < usable(e, l).len() && usable(e, l)[k] == resolution(e[i], l[i]->Found_0)
        },
        e[i].enabled && rejection(e[i], l[i]) is Some ==> {
            let k = rejected(e.take(i), l).len() as int;
            &&& k < rejected(e, l).len()
            &&& rejected(e, l)[k].id == e[i].id@
            &&& rejected(e, l)[k].reason == rejection(e[i], l[i])->0.reason
            &&& rejected(e, l)[k].message == rejection(e[i], l[i])->0.message
        },
        !e[i].enabled ==> usable(e.take(i + 1), l) == usable(e.take(i), l) && rejected(
            e.take(i + 1),
            l,
        ) == rejected(e.take(i), l),
{
    lemma_usable_take(e, l, i + 1);
    assert(e.take(i + 1).drop_last() =~= e.take(i));
    assert(e.take(i + 1).last() == e[i]);
    let u = usable(e.take(i + 1), l);
    let r = rejected(e.take(i + 1), l);
    assert(u == usable(e, l).subrange(0, u.len() as int));
    assert(r == rejected(e, l).subrange(0, r.len() as int));
    if u.len() > 0 {
        assert(u[u.len() - 1] == usable(e, l)[u.len() - 1]);
    }
    if r.len() > 0 {
        assert(r[r.len() - 1] == rejected(e, l)[r.len() - 1]);
    }
}

proof fn lemma_entry_keys()
    ensures
        "id"@ != "pluginName"@,
        "id"@ != "pluginVersion"@,
        "id"@ != "pluginClass"@,
        "id"@ != "artefactSecretName"@,
        "id"@ != "resolvedDigest"@,
        "id"@ != "config"@,
        "id"@ != "capabilityGrants"@,
        "id"@ != "version"@,
        "id"@ != "entries"@,
        "pluginName"@ != "pluginVersion"@,
        "pluginName"@ != "pluginClass"@,
        "pluginName"@ != "artefactSecretName"@,
        "pluginName"@ != "resolvedDigest"@,
        "pluginName"@ != "config"@,
        "pluginName"@ != "capabilityGrants"@,
        "pluginName"@ != "version"@,
        "pluginName"@ != "entries"@,
        "pluginVersion"@ != "pluginClass"@,
        "pluginVersion"@ != "artefactSecretName"@,
        "pluginVersion"@ != "resolvedDigest"@,
        "pluginVersion"@ != "config"@,
        "pluginVersion"@ != "capabilityGrants"@,
        "pluginVersion"@ != "version"@,
        "pluginVersion"@ != "entries"@,
        "pluginClass"@ != "artefactSecretName"@,
        "pluginClass"@ != "resolvedDigest"@,
        "pluginClass"@ != "config"@,
        "pluginClass"@ != "capabilityGrants"@,
        "pluginClass"@ != "version"@,
        "pluginClass"@ != "entries"@,
        "artefactSecretName"@ != "resolvedDigest"@,
        "artefactSecretName"@ != "config"@,
        "artefactSecretName"@ != "capabilityGrants"@,
        "artefactSecretName"@ != "version"@,
        "artefactSecretName"@ != "entries"@,
        "resolvedDigest"@ != "config"@,
        "resolvedDigest"@ != "capabilityGrants"@,
        "resolvedDigest"@ != "version"@,
        "resolvedDigest"@ != "entries"@,
        "config"@ != "capabilityGrants"@,
        "config"@ != "version"@,
        "config"@ != "entries"@,
        "capabilityGrants"@ != "version"@,
        "capabilityGrants"@ != "entries"@,
        "version"@ != "entries"@,
{
    reveal_strlit("id");
    reveal_strlit("pluginName");
    reveal_strlit("pluginVersion");
    reveal_strlit("pluginClass");
    reveal_strlit("artefactSecretName");
    reveal_strlit("resolvedDigest");
    reveal_strlit("config");
    reveal_strlit("capabilityGrants");
    reveal_strlit("version");
    reveal_strlit("entries");
    assert("id"@.len() == 2);
    assert("pluginName"@.len() == 10);
    assert("pluginVersion"@.len() == 13);
    assert("pluginClass"@.len() == 11);
    assert("artefactSecretName"@.len() == 18);
    assert("resolvedDigest"@.len() == 14);
    assert("config"@.len() == 6);
    assert("capabilityGrants"@.len() == 16);
    assert("version"@.len() == 7);
    assert("entries"@.len() == 7);
    assert("version"@[0] == 'v');
    assert("entries"@[0] == 'e');
}

/// The document names each resolved entry in its order, with the name of its
/// plugin and the capabilities that the set grants to it.
pub proof fn law_document_lists_the_entries(
    set: MCPGPluginSet,
    entries: Seq<ResolvedView>,
    i: int,
)
    requires
        0 <= i < entries.len(),
    ensures
        get(document(set, entries), "entries"@) matches Some(JsonView::Array(items))
            && items.len() == entries.len() && {
            &&& get_str(items[i], "id"@) == Some(entries[i].entry_id)
            &&& get_str(items[i], "pluginName"@) == Some(entries[i].plugin_name)
            &&& get_str(items[i], "pluginVersion"@) == Some(entries[i].plugin_version)
            &&& get_str(items[i], "pluginClass"@) == Some(entries[i].plugin_class)
            &&& get_str(items[i], "artefactSecretName"@) == Some(entries[i].artefact_secret_name)
            &&& get_str(items[i], "resolvedDigest"@) == Some(entries[i].resolved_digest)
            &&& get(items[i], "config"@) == Some(entries[i].config)
            &&& get(items[i], "capabilityGrants"@) == Some(
                strings(grants_for(set.spec.capability_grants@, entries[i].entry_id)),
            )
        },
{
    lemma_entry_keys();
}

proof fn lemma_grant_take(grants: Seq<(String, Vec<String>)>, id: Seq<char>, n: int)
    requires
        0 <= n <= grants.len(),
        forall|j: int| n <= j < grants.len() ==> (#[trigger] grants[j]).0@ != id,
    ensures
        grants_for(grants, id) == grants_for(grants.take(n), id),
    decreases grants.len() - n,
{
    if n < grants.len() {
        lemma_grant_take(grants, id, n + 1);
        assert(grants.take(n + 1).drop_last() =~= grants.take(n));
        assert(grants.take(n + 1).last() == grants[n]);
    } else {
        assert(grants.take(n) =~= grants);
    }
}

/// A plugin is granted what the set grants to its id, and nothing where the
/// set grants nothing to it.
pub proof fn law_grants_go_by_id(grants: Seq<(String, Vec<String>)>, id: Seq<char>, i: int)
    ensures
        0 <= i < grants.len() && grants[i].0@ == id && (forall|j: int|
            i < j < grants.len() ==> (#[trigger] grants[j]).0@ != id) ==> grants_for(grants, id)
            == texts(grants[i].1@),
        (forall|j: int| 0 <= j < grants.len() ==> (#[trigger] grants[j]).0@ != id) ==> grants_for(
            grants,
            id,
        ).len() == 0,
{
    if 0 <= i < grants.len() && grants[i].0@ == id && (forall|j: int|
        i < j < grants.len() ==> (#[trigger] grants[j]).0@ != id) {
        lemma_grant_take(grants, id, i + 1);
        assert(grants.take(i + 1).last() == grants[i]);
    }
    if forall|j: int| 0 <= j < grants.len() ==> (#[trigger] grants[j]).0@ != id {
        lemma_grant_take(grants, id, 0);
        assert(grants.take(0) =~= Seq::empty());
    }
}

proof fn lemma_label_keys()
    ensures
        "app.kubernetes.io/managed-by"@ != "mcpg.dev/managed-by-set"@,
        "app.kubernetes.io/managed-by"@ != "mcpg.dev/plugin"@,
        "app.kubernetes.io/managed-by"@ != "mcpg.dev/version"@,
        "app.kubernetes.io/managed-by"@ != "mcpg.dev/source-namespace"@,
        "app.kubernetes.io/managed-by"@ != "mcpg.dev/resolved-hash"@,
        "mcpg.dev/managed-by-set"@ != "mcpg.dev/plugin"@,
        "mcpg.dev/managed-by-set"@ != "mcpg.dev/version"@,
        "mcpg.dev/managed-by-set"@ != "mcpg.dev/source-namespace"@,
        "mcpg.dev/managed-by-set"@ != "mcpg.dev/resolved-hash"@,
        "mcpg.dev/plugin"@ != "mcpg.dev/version"@,
        "mcpg.dev/plugin"@ != "mcpg.dev/source-namespace"@,
        "mcpg.dev/plugin"@ != "mcpg.dev/resolved-hash"@,
        "mcpg.dev/version"@ != "mcpg.dev/source-namespace"@,
        "mcpg.dev/version"@ != "mcpg.dev/resolved-hash"@,
        "mcpg.dev/source-namespace"@ != "mcpg.dev/resolved-hash"@,
{
    reveal_strlit("app.kubernetes.io/managed-by");
    reveal_strlit("mcpg.dev/managed-by-set");
    reveal_strlit("mcpg.dev/plugin");
    reveal_strlit("mcpg.dev/version");
    reveal_strlit("mcpg.dev/source-namespace");
    reveal_strlit("mcpg.dev/resolved-hash");
    assert("app.kubernetes.io/managed-by"@.len() == 28);
    assert("mcpg.dev/managed-by-set"@.len() == 23);
    assert("mcpg.dev/plugin"@.len() == 15);
    assert("mcpg.dev/version"@.len() == 16);
    assert("mcpg.dev/source-namespace"@.len() == 25);
    assert("mcpg.dev/resolved-hash"@.len() == 22);
}

/// The copy of a plugin's Secret stands in the set's namespace under the name
/// that the document gives, holds the data of the source, cannot be changed,
/// and goes when the set goes; its label lets pruning find it.
pub proof fn law_copy_holds_the_source(
    set: MCPGPluginSet,
    namespace: Seq<char>,
    source: Secret,
    e: ResolvedEntry,
)
    ensures
        ({
            let c = namespace_copy(set, namespace, source, e);
            &&& c.metadata.name == Some(e.artefact_secret_name@)
            &&& c.metadata.namespace == Some(namespace)
            &&& c.data == source@.data
            &&& c.immutable == Some(true)
            &&& c.type_ == Some("mcpg.dev/plugin"@)
            &&& c.metadata.labels matches Some(labels)
            &&& set.metadata@.name is None ==> labels["mcpg.dev/managed-by-set"@] == "unknown"@
            &&& labels["app.kubernetes.io/managed-by"@] == "mcpg-operator"@
            &&& labels["mcpg.dev/source-namespace"@] == "mcpg-system"@
            &&& labels["mcpg.dev/plugin"@].len() == e.entry_id@.len()
            &&& forall|i: int|
                0 <= i < e.entry_id@.len() ==> #[trigger] labels["mcpg.dev/plugin"@][i] == (
                if e.entry_id@[i] == '.' {
                    '-'
                } else {
                    e.entry_id@[i]
                })
            &&& labels.dom().contains("mcpg.dev/managed-by-set"@)
            &&& set.metadata@.name matches Some(n) ==> labels["mcpg.dev/managed-by-set"@] == n
            &&& labels.dom().contains("mcpg.dev/version"@)
            &&& labels["mcpg.dev/version"@] == e.plugin_version@
            &&& c.metadata.owner_references matches Some(owners)
            &&& owners.len() == 1
            &&& owners[0].kind == "MCPGPluginSet"@
            &&& set.metadata@.name matches Some(n) ==> owners[0].name == n
            &&& set.metadata@.uid matches Some(u) ==> owners[0].uid == u
            &&& owners[0].controller
        }),
{
    lemma_label_keys();
}

/// A gateway finds the document where the set puts it: in the set's namespace,
/// in the ConfigMap that a gateway looks up for a set of this name, and under
/// the key that it reads. The hash stands on its label.
pub proof fn law_gateway_finds_the_document(
    set: MCPGPluginSet,
    namespace: Seq<char>,
    rendered: Seq<char>,
    hash: Seq<char>,
)
    requires
        set.metadata@.name is Some,
    ensures
        ({
            let c = resolved_configmap(set, namespace, rendered, hash);
            &&& c.metadata.name == Some(resolved_cm_name(set.metadata@.name->0))
            &&& c.metadata.name == Some(set.metadata@.name->0 + "-resolved"@)
            &&& c.metadata.namespace == Some(namespace)
            &&& plugins_text(c.data) == rendered
            &&& c.data.dom().contains("plugins.json"@) && c.data["plugins.json"@] == rendered
            &&& c.metadata.labels matches Some(labels)
            &&& labels.dom().contains("mcpg.dev/resolved-hash"@)
            &&& labels["mcpg.dev/resolved-hash"@] == hash
            &&& c.metadata.owner_references matches Some(owners)
            &&& owners.len() == 1
            &&& owners[0].kind == "MCPGPluginSet"@
            &&& owners[0].name == set.metadata@.name->0
            &&& set.metadata@.uid matches Some(u) ==> owners[0].uid == u
        }),
{
    lemma_label_keys();
}

/// A gateway's pods mount, for each entry that it reads, the Secret that the
/// set copied for it, under the plugin's id.
pub proof fn law_each_plugin_is_mounted(entries: Seq<ResolvedView>, i: int)
    requires
        0 <= i < entries.len(),
    ensures
        entry_mounts(all_seen(entries)).len() == entries.len(),
        entry_mounts(all_seen(entries))[i].0 == entries[i].entry_id,
        entry_mounts(all_seen(entries))[i].1 == entries[i].artefact_secret_name,
{
}

proof fn lemma_names_of(v: Seq<ObjectMeta>, x: Seq<char>)
    ensures
        names_of(v).contains(x) <==> exists|i: int|
            0 <= i < v.len() && (#[trigger] v[i])@.name == Some(x),
    decreases v.len(),
{
    if v.len() > 0 {
        let init = v.drop_last();
        lemma_names_of(init, x);
        if names_of(v).contains(x) {
            let k = choose|k: int| 0 <= k < names_of(v).len() && names_of(v)[k] == x;
            if k < names_of(init).len() {
                assert(names_of(init)[k] == x);
                let i = choose|i: int| 0 <= i < init.len() && (#[trigger] init[i])@.name == Some(x);
                assert(v[i]@.name == Some(x));
            } else {
                assert(v[v.len() - 1]@.name == Some(x));
            }
        }
        if exists|i: int| 0 <= i < v.len() && (#[trigger] v[i])@.name == Some(x) {
            let i = choose|i: int| 0 <= i < v.len() && (#[trigger] v[i])@.name == Some(x);
            if i < v.len() - 1 {
                assert(init[i]@.name == Some(x));
                let k = choose|k: int| 0 <= k < names_of(init).len() && names_of(init)[k] == x;
                assert(names_of(v)[k] == x);
            } else {
                assert(names_of(v)[names_of(init).len() as int] == x);
            }
        }
    }
}

/// Pruning takes exactly the Secrets of the set that no resolved entry needs.
pub proof fn law_prune_takes_the_rest(
    existing: Seq<ObjectMeta>,
    resolved: Seq<ResolvedEntry>,
    x: Seq<char>,
)
    ensures
        stale(names_of(existing), wanted_secrets(resolved)).contains(x) <==> {
            &&& exists|i: int| 0 <= i < existing.len() && (#[trigger] existing[i])@.name == Some(x)
            &&& forall|k: int|
                0 <= k < resolved.len() ==> (#[trigger] resolved[k]).artefact_secret_name@ != x
        },
{
    law_stale(names_of(existing), wanted_secrets(resolved), x);
    lemma_names_of(existing, x);
    let w = wanted_secrets(resolved);
    if w.contains(x) {
        let k = choose|k: int| 0 <= k < w.len() && w[k] == x;
        assert(resolved[k].artefact_secret_name@ == x);
    }
    if exists|k: int| 0 <= k < resolved.len() && (#[trigger] resolved[k]).artefact_secret_name@ == x {
        let k = choose|k: int|
            0 <= k < resolved.len() && (#[trigger] resolved[k]).artefact_secret_name@ == x;
        assert(w[k] == x);
    }
}

proof fn lemma_types()
    ensures
        "Ready"@ != "EntriesResolved"@,
        "Ready"@ != "True"@,
        "Ready"@ != "False"@,
        "EntriesResolved"@ != "True"@,
        "EntriesResolved"@ != "False"@,
        "True"@ != "False"@,
{
    reveal_strlit("Ready");
    reveal_strlit("EntriesResolved");
    reveal_strlit("True");
    reveal_strlit("False");
    assert("Ready"@.len() == 5);
    assert("EntriesResolved"@.len() == 15);
    assert("True"@.len() == 4);
    assert("False"@.len() == 5);
    assert("Ready"@[0] == 'R');
    assert("False"@[0] == 'F');
}

/// A plugin set is reported ready, and all its entries resolved, exactly when
/// no entry failed; the reconcile then succeeded, and otherwise waits for its
/// plugins. Either way the set is looked at again after a while.
pub proof fn law_set_is_ready_iff_nothing_failed(
    set: MCPGPluginSet,
    generation: i64,
    resolved: nat,
    failed: nat,
)
    ensures
        ({
            let r = set_report(set, generation, resolved, failed);
            &&& told(r.conditions, "Ready"@) matches Some(c)
            &&& c.status == (if failed == 0 {
                "True"@
            } else {
                "False"@
            })
            &&& c.observed_generation == Some(generation)
            &&& c.reason == (if failed == 0 {
                "Reconciled"@
            } else {
                "Progressing"@
            })
            &&& starts_with(
                c.message,
                decimal(resolved) + "/"@ + decimal(set.spec.entries@.len()),
            )
            &&& r.event is Some <==> failed == 0
            &&& r.event matches Some(e) ==> e.type_ is Normal && e.reason == "Reconciled"@
                && e.action == "Resolve"@ && e.note == c.message
            &&& told(r.conditions, "EntriesResolved"@) matches Some(d)
            &&& failed > 0 ==> d.reason == "EntriesFailed"@
            &&& d.status == c.status
            &&& d.observed_generation == Some(generation)
            &&& r.verdict.outcome == (if failed == 0 {
                ReconcileOutcome::Success
            } else {
                ReconcileOutcome::DependencyPending
            })
            &&& r.verdict.requeue == Requeue::AfterSecs(300)
        }),
{
    lemma_types();
    lemma_upserts_are_told();
    let counts = decimal(resolved) + "/"@ + decimal(set.spec.entries@.len());
    law_parts_are_found(Seq::empty(), counts, " entries resolved"@);
    let failing = " entries resolved"@ + "; "@ + decimal(failed) + " failed"@;
    law_parts_are_found(Seq::empty(), counts, failing);
    assert(counts + failing =~= counts + " entries resolved"@ + "; "@ + decimal(failed)
        + " failed"@);
}

/// Whether lookups are one for each entry, nothing being looked up for a
/// disabled one.
spec fn covers(entries: Seq<MCPGPluginSetEntry>, l: Seq<PluginLookup>, from: int) -> bool {
    &&& from <= l.len() <= entries.len()
    &&& forall|j: int| from <= j < l.len() ==> !(#[trigger] entries[j]).enabled
}

proof fn lemma_passed_over(entries: Seq<MCPGPluginSetEntry>, l: Seq<PluginLookup>)
    requires
        l.len() <= entries.len(),
    ensures
        ({
            let m = crate::controllers::plugin_set::flow::passed_over(entries, l);
            &&& m.take(l.len() as int) == l
            &&& covers(entries, m, l.len() as int)
            &&& m.len() < entries.len() ==> entries[m.len() as int].enabled
        }),
    decreases entries.len() - l.len(),
{
    if l.len() < entries.len() && !entries[l.len() as int].enabled {
        let m = l.push(PluginLookup::Missing);
        lemma_passed_over(entries, m);
        let r = crate::controllers::plugin_set::flow::passed_over(entries, m);
        assert(r.take(l.len() as int) =~= r.take(m.len() as int).take(l.len() as int));
        assert(m.take(l.len() as int) =~= l);
        assert forall|j: int| l.len() <= j < r.len() implies !(#[trigger] entries[j]).enabled by {}
    } else {
        assert(l.take(l.len() as int) =~= l);
    }
}

/// A plugin is looked up for each enabled entry, by the name that the entry
/// refers to, and what is found counts for that entry: it joins the lookups
/// after those of the entries before it, and only disabled entries are passed
/// over.
pub proof fn law_each_entry_gets_its_own_plugin(
    obj: MCPGPluginSet,
    b: Begin,
    account: Seq<char>,
    l: Vec<PluginLookup>,
    found: PluginLookup,
    n: SetState,
    x: SetAction,
)
    requires
        l@.len() < obj.spec.entries@.len(),
        step_is(
            obj,
            b,
            account,
            SetState::FindingPlugin(l),
            SetEvent::PluginFound(found),
            n,
            x,
        ),
    ensures
        match n {
            SetState::FindingPlugin(m) => {
                &&& m@.take(l@.len() + 1int) == l@.push(found)
                &&& l@.len() < m@.len() < obj.spec.entries@.len()
                &&& forall|j: int|
                    l@.len() < j < m@.len() ==> !(#[trigger] obj.spec.entries@[j]).enabled
                &&& obj.spec.entries@[m@.len() as int].enabled
                &&& x matches SetAction::FindPlugin(name) && name@
                    == obj.spec.entries@[m@.len() as int].plugin_ref.name@
            },
            _ => exists|m: Seq<PluginLookup>|
                {
                    &&& m.len() == obj.spec.entries@.len()
                    &&& m.take(l@.len() + 1int) == l@.push(found)
                    &&& forall|j: int|
                        l@.len() < j < m.len() ==> !(#[trigger] obj.spec.entries@[j]).enabled
                    &&& #[trigger] resolves_to(n, usable(obj.spec.entries@, m))
                },
        },
{
    let all = l@.push(found);
    lemma_passed_over(obj.spec.entries@, all);
    let m = crate::controllers::plugin_set::flow::passed_over(obj.spec.entries@, all);
    if m.len() >= obj.spec.entries@.len() {
        assert(resolves_to(n, usable(obj.spec.entries@, m)));
    }
}

/// Whether a state works on these resolved entries.
pub open spec fn resolves_to(s: SetState, entries: Seq<ResolvedView>) -> bool {
    match s {
        SetState::Binding(r, _) => resolved_views(r@) == entries,
        SetState::FindingSource { resolved, next, .. } => resolved_views(resolved@) == entries
            && next == 0,
        SetState::Publishing { resolved, .. } => resolved_views(resolved@) == entries,
        _ => false,
    }
}

/// Each success brings the reconcile of a set further: the source of each
/// resolved entry is looked up in turn and copied, a missing one is passed
/// over, and after the last the document of exactly these entries is
/// published. A failed request is an error, so that the reconcile is tried
/// again.
pub proof fn law_set_is_published(
    obj: MCPGPluginSet,
    b: Begin,
    account: Seq<char>,
    s: SetState,
    e: SetEvent,
    n: SetState,
    x: SetAction,
)
    requires
        step_is(obj, b, account, s, e, n, x),
    ensures
        match (s, e) {
            (SetState::Binding(r, f), SetEvent::Bound(Ok(_))) => goes_on(obj, b, r@, 0, n, x),
            (
                SetState::FindingSource { resolved, next, .. },
                SetEvent::SourceFound(Ok(None)),
            ) => next < resolved@.len() ==> goes_on(obj, b, resolved@, next + 1, n, x),
            (
                SetState::FindingSource { resolved, next, .. },
                SetEvent::SourceFound(Ok(Some(source))),
            ) => next < resolved@.len() ==> {
                &&& n matches SetState::Copying { resolved: r2, next: k, .. }
                &&& r2 == resolved && k == next
                &&& x matches SetAction::Copy(copy)
                &&& copy@.data == source@.data
                &&& copy@.metadata.name == Some(resolved@[next as int].artefact_secret_name@)
                &&& copy@.metadata.namespace == Some(b.namespace@)
            },
            (SetState::Copying { resolved, next, .. }, SetEvent::Copied(Ok(_))) => next
                < resolved@.len() ==> goes_on(obj, b, resolved@, next + 1, n, x),
            (
                SetState::Publishing { resolved, failed, hash },
                SetEvent::Published(Ok(_)),
            ) => x is ListSecrets && n == (SetState::ListingSecrets { resolved, failed, hash }),
            (
                SetState::ListingSecrets { resolved, failed, hash },
                SetEvent::SecretsListed(listed),
            ) => {
                &&& x matches SetAction::Complete { prune, report }
                &&& report.resolved_entries == resolved@.len()
                &&& report.total_entries == obj.spec.entries@.len()
                &&& report.resolved_hash@ == hash@
                &&& report.observed_generation == b.generation
                &&& report.failed_entries@.len() == failed@.len()
                &&& forall|k: int|
                    0 <= k < failed@.len() ==> {
                        &&& (#[trigger] report.failed_entries@[k]).id@ == failed@[k].id@
                        &&& report.failed_entries@[k].reason@ == failed@[k].reason@
                        &&& report.failed_entries@[k].message@ == failed@[k].message@
                    }
                &&& listed is None ==> prune@.len() == 0
                &&& listed matches Some(v) ==> forall|y: Seq<char>| #[trigger]
                    texts(prune@).contains(y) <==> names_of(v@).contains(y) && !wanted_secrets(
                        resolved@,
                    ).contains(y)
            },
            (SetState::AddingFinalizer, SetEvent::FinalizerAdded(Err(d))) => x
                == SetAction::Fail(ReconcileError::Finalizer(d)),
            (SetState::RemovingFinalizer, SetEvent::FinalizerRemoved(Err(d))) => x
                == SetAction::Fail(ReconcileError::Finalizer(d)),
            (SetState::Binding(_, _), SetEvent::Bound(Err(d))) => x == SetAction::Fail(
                ReconcileError::TenantRbac(d),
            ),
            (SetState::Publishing { .. }, SetEvent::Published(Err(d))) => x == SetAction::Fail(
                ReconcileError::Apply(d),
            ),
            _ => true,
        },
{
    use_views(s, e, x);
}

/// Whether the set goes on with the entry at this position: its source is
/// looked up, or, after the last, the document of these entries is published.
pub open spec fn goes_on(
    obj: MCPGPluginSet,
    b: Begin,
    resolved: Seq<ResolvedEntry>,
    next: int,
    n: SetState,
    x: SetAction,
) -> bool {
    if next < resolved.len() {
        &&& x matches SetAction::FindSource(name) && name@ == resolved[next].artefact_secret_name@
        &&& n matches SetState::FindingSource { resolved: r2, next: k, .. } && r2@ == resolved && k
            == next
    } else {
        let text = pretty_text(document(obj, resolved_views(resolved)));
        &&& x matches SetAction::Publish(cm) && cm@.data.dom().contains("plugins.json"@)
            && cm@.data["plugins.json"@] == text && cm@.metadata.namespace == Some(b.namespace@)
        &&& n matches SetState::Publishing { resolved: r2, hash, .. } && r2@ == resolved && hash@
            == text_hash(text)
    }
}

proof fn use_views(s: SetState, e: SetEvent, x: SetAction)
    ensures
        s matches SetState::ListingSecrets { resolved, failed, hash } ==> (
        x matches SetAction::Complete { prune, report } ==> (
        crate::controllers::plugin_set::resolve::failed_views(report.failed_entries@)
            == crate::controllers::plugin_set::resolve::failed_views(failed@) ==> {
            &&& report.failed_entries@.len() == failed@.len()
            &&& forall|k: int|
                0 <= k < failed@.len() ==> {
                    &&& (#[trigger] report.failed_entries@[k]).id@ == failed@[k].id@
                    &&& report.failed_entries@[k].reason@ == failed@[k].reason@
                    &&& report.failed_entries@[k].message@ == failed@[k].message@
                }
        })),
        s matches SetState::ListingSecrets { resolved, .. } ==> (
        e matches SetEvent::SecretsListed(Some(v)) ==> forall|y: Seq<char>| #[trigger]
            stale(names_of(v@), wanted_secrets(resolved@)).contains(y) <==> names_of(v@).contains(y)
                && !wanted_secrets(resolved@).contains(y)),
        x matches SetAction::Complete { prune, .. } ==> texts(prune@).len() == prune@.len(),
{
    if let SetState::ListingSecrets { resolved, failed, hash } = s {
        if let SetAction::Complete { prune, report } = x {
            let a = crate::controllers::plugin_set::resolve::failed_views(report.failed_entries@);
            let c = crate::controllers::plugin_set::resolve::failed_views(failed@);
            if a == c {
                assert(a.len() == c.len());
                assert forall|k: int| 0 <= k < failed@.len() implies {
                    &&& (#[trigger] report.failed_entries@[k]).id@ == failed@[k].id@
                    &&& report.failed_entries@[k].reason@ == failed@[k].reason@
                    &&& report.failed_entries@[k].message@ == failed@[k].message@
                } by {
                    assert(a[k] == c[k]);
                }
            }
        }
        if let SetEvent::SecretsListed(Some(v)) = e {
            assert forall|y: Seq<char>| #[trigger]
                stale(names_of(v@), wanted_secrets(resolved@)).contains(y) <==> names_of(
                    v@,
                ).contains(y) && !wanted_secrets(resolved@).contains(y) by {
                law_stale(names_of(v@), wanted_secrets(resolved@), y);
            }
        }
    }
}

proof fn lemma_binding_keys()
    ensures
        "app.kubernetes.io/managed-by"@ != "app.kubernetes.io/component"@,
{
    reveal_strlit("app.kubernetes.io/managed-by");
    reveal_strlit("app.kubernetes.io/component");
    assert("app.kubernetes.io/managed-by"@.len() == 28);
    assert("app.kubernetes.io/component"@.len() == 27);
}

/// The binding gives the operator's own account, and nobody else, the role
/// that lets it write Secrets, in one namespace only. Nothing owns it, so that
/// it stays when a plugin set goes that is not the last.
pub proof fn law_binding_is_for_the_operator_alone(
    namespace: Seq<char>,
    operator_namespace: Seq<char>,
    account: Seq<char>,
)
    ensures
        ({
            let r = tenant_binding(namespace, operator_namespace, account);
            &&& r.metadata.namespace == Some(namespace)
            &&& r.metadata.name == Some("mcpg-operator-tenant-secrets"@)
            &&& r.metadata.owner_references is None
            &&& r.role_kind == "ClusterRole"@
            &&& r.role_name == "mcpg-operator-tenant-secrets"@
            &&& r.role_api_group == "rbac.authorization.k8s.io"@
            &&& r.subjects matches Some(s)
            &&& s.len() == 1
            &&& s[0].kind == "ServiceAccount"@
            &&& s[0].name == account
            &&& s[0].namespace == Some(operator_namespace)
            &&& r.metadata.labels matches Some(labels)
            &&& labels.dom().contains("app.kubernetes.io/managed-by"@)
            &&& labels["app.kubernetes.io/managed-by"@] == "mcpg-operator"@
        }),
{
    lemma_binding_keys();
}

/// After the last lookup the operator first takes the right to write Secrets in
/// the set's namespace. Only in its own namespace does it go on at once, with the
/// first Secret, or with the document where there is none to copy. Either way with
/// the entries that the lookups resolve to, and those that they do not.
pub proof fn law_operator_is_bound_away_from_home(
    obj: MCPGPluginSet,
    b: Begin,
    account: Seq<char>,
    l: Vec<PluginLookup>,
    found: PluginLookup,
    n: SetState,
    x: SetAction,
)
    requires
        l@.len() + 1 == obj.spec.entries@.len(),
        step_is(obj, b, account, SetState::FindingPlugin(l), SetEvent::PluginFound(found), n, x),
    ensures
        ({
            let all = l@.push(found);
            let used = usable(obj.spec.entries@, all);
            &&& b.namespace@ != "mcpg-system"@ ==> {
                &&& x matches SetAction::Bind(rb)
                &&& rb@.metadata.namespace == Some(b.namespace@)
                &&& n matches SetState::Binding(r, f)
                &&& resolved_views(r@) == used
                &&& failed_views(f@) == rejected(obj.spec.entries@, all)
            }
            &&& b.namespace@ == "mcpg-system"@ && used.len() > 0 ==> {
                &&& x matches SetAction::FindSource(name)
                &&& name@ == used[0].artefact_secret_name
                &&& n matches SetState::FindingSource { resolved, failed, next }
                &&& next == 0
                &&& resolved_views(resolved@) == used
                &&& failed_views(failed@) == rejected(obj.spec.entries@, all)
            }
            &&& b.namespace@ == "mcpg-system"@ && used.len() == 0 ==> x is Publish
        }),
{
    let all = l@.push(found);
    assert(passed_over(obj.spec.entries@, all) == all);
    if b.namespace@ == "mcpg-system"@ {
        let (r, f) = choose|r: Vec<ResolvedEntry>, f: Vec<FailedEntry>|
            is_resolution(obj, all, r, f) && #[trigger] copies_from(obj, b, r, f, 0, n, x);
        assert(resolved_views(r@).len() == r@.len());
        if r@.len() > 0 {
            assert(resolved_views(r@)[0] == r@[0]@);
        }
    }
}

/// Two resolved entries that say the same hold the same, and so do two failed
/// ones.
pub proof fn law_entries_hide_nothing(
    a: ResolvedEntry,
    b: ResolvedEntry,
    f: FailedEntry,
    g: FailedEntry,
)
    requires
        a@ == b@,
        f@ == g@,
    ensures
        a.entry_id@ == b.entry_id@,
        a.plugin_name@ == b.plugin_name@,
        a.plugin_version@ == b.plugin_version@,
        a.plugin_class@ == b.plugin_class@,
        a.artefact_secret_name@ == b.artefact_secret_name@,
        a.resolved_digest@ == b.resolved_digest@,
        a.config.view() == b.config.view(),
        f.id@ == g.id@,
        f.reason@ == g.reason@,
        f.message@ == g.message@,
{
}

/// What a gateway sees of an entry is what the entry resolved to, each text and
/// the config in its own place.
pub proof fn law_gateway_sees_the_entry(entries: Seq<ResolvedView>, i: int)
    requires
        0 <= i < entries.len(),
    ensures
        all_seen(entries).len() == entries.len(),
        all_seen(entries)[i].id == entries[i].entry_id,
        all_seen(entries)[i].plugin_class == entries[i].plugin_class,
        all_seen(entries)[i].plugin_version == entries[i].plugin_version,
        all_seen(entries)[i].artefact_secret_name == entries[i].artefact_secret_name,
        all_seen(entries)[i].resolved_digest == entries[i].resolved_digest,
        all_seen(entries)[i].config == entries[i].config,
{
}

/// A changed plugin concerns exactly the plugin sets with an entry for it.
pub proof fn law_plugin_concerns_its_sets(
    store: Seq<MCPGPluginSet>,
    plugin: Seq<char>,
    r: ObjectRefView,
)
    ensures
        sets_with(store, plugin).contains(r) <==> exists|i: int, j: int|
            0 <= i < store.len() && 0 <= j < store[i].spec.entries@.len() && (
            #[trigger] store[i].spec.entries@[j]).plugin_ref.name@ == plugin && object_ref(
                store[i].metadata,
            ) == r,
    decreases store.len(),
{
    if store.len() > 0 {
        let init = store.drop_last();
        let last = store.len() - 1;
        let before = sets_with(init, plugin);
        let all = sets_with(store, plugin);
        law_plugin_concerns_its_sets(init, plugin, r);
        assert forall|k: int| 0 <= k < init.len() implies #[trigger] store[k] == init[k] by {}
        if all.contains(r) {
            let k = choose|k: int| 0 <= k < all.len() && all[k] == r;
            if k < before.len() {
                assert(before[k] == r);
                let (i, j) = choose|i: int, j: int|
                    0 <= i < init.len() && 0 <= j < init[i].spec.entries@.len() && (
                    #[trigger] init[i].spec.entries@[j]).plugin_ref.name@ == plugin && object_ref(
                        init[i].metadata,
                    ) == r;
                assert(store[i].spec.entries@[j].plugin_ref.name@ == plugin);
            } else {
                let j = choose|j: int|
                    0 <= j < store.last().spec.entries@.len() && (
                    #[trigger] store.last().spec.entries@[j]).plugin_ref.name@ == plugin;
                assert(store[last].spec.entries@[j].plugin_ref.name@ == plugin);
            }
        }
        if exists|i: int, j: int|
            0 <= i < store.len() && 0 <= j < store[i].spec.entries@.len() && (
            #[trigger] store[i].spec.entries@[j]).plugin_ref.name@ == plugin && object_ref(
                store[i].metadata,
            ) == r {
            let (i, j) = choose|i: int, j: int|
                0 <= i < store.len() && 0 <= j < store[i].spec.entries@.len() && (
                #[trigger] store[i].spec.entries@[j]).plugin_ref.name@ == plugin && object_ref(
                    store[i].metadata,
                ) == r;
            if i < last {
                assert(init[i].spec.entries@[j].plugin_ref.name@ == plugin);
                let k = choose|k: int| 0 <= k < before.len() && before[k] == r;
                assert(all[k] == r);
            } else {
                assert(store.last().spec.entries@[j].plugin_ref.name@ == plugin);
                assert(all[before.len() as int] == r);
            }
        }
    }
}

} // verus!
