//! The objects that a plugin set keeps in its namespace.
use vstd::prelude::*;

use crate::api::objects::{
    child_meta, opt_bytes, or_empty, or_text, owner, owner_reference, ConfigMap, ConfigMapView,
    ObjectMeta, Secret, SecretView,
};
use crate::api::resources::MCPGPluginSet;
use crate::controllers::gateway::edge::{stale, stale_names};
use crate::controllers::gateway::plugin_set::resolved_cm_name;
use crate::controllers::plugin_set::resolve::ResolvedEntry;
use crate::strmap::StringMap;
use crate::text::{replace_char, replaced, texts};

verus! {

/// Label: the plugin set that an object was made for. Pruning goes by it.
pub const MANAGED_BY_SET_LABEL: &'static str = "mcpg.dev/managed-by-set";

/// Label: the hash of the plugin set's document.
pub const RESOLVED_HASH_LABEL: &'static str = "mcpg.dev/resolved-hash";

/// The name of a plugin set in labels and names.
pub open spec fn set_name(set: MCPGPluginSet) -> Seq<char> {
    or_text(set.metadata@.name, "unknown"@)
}

/// The labels of a copied Secret.
pub open spec fn copy_labels(set: MCPGPluginSet, e: ResolvedEntry) -> Map<Seq<char>, Seq<char>> {
    Map::<Seq<char>, Seq<char>>::empty().insert(
        "app.kubernetes.io/managed-by"@,
        "mcpg-operator"@,
    ).insert("mcpg.dev/managed-by-set"@, set_name(set)).insert(
        "mcpg.dev/plugin"@,
        replaced(e.entry_id@, '.', '-'),
    ).insert("mcpg.dev/version"@, e.plugin_version@).insert(
        "mcpg.dev/source-namespace"@,
        "mcpg-system"@,
    )
}

/// The copy of a plugin's Secret in the namespace of a plugin set: the same
/// data under the same name, owned by the set, never to change.
pub open spec fn namespace_copy(
    set: MCPGPluginSet,
    namespace: Seq<char>,
    source: Secret,
    e: ResolvedEntry,
) -> SecretView {
    SecretView {
        metadata: child_meta(
            e.artefact_secret_name@,
            Some(namespace),
            copy_labels(set, e),
            Some(
                owner("MCPGPluginSet"@, or_empty(set.metadata@.name), or_empty(set.metadata@.uid)),
            ),
        ),
        type_: Some("mcpg.dev/plugin"@),
        immutable: Some(true),
        data: opt_bytes(source.data),
    }
}

/// Copies a plugin's Secret into the namespace of a plugin set.
pub fn build_namespace_copy(
    parent: &MCPGPluginSet,
    namespace: &str,
    source: &Secret,
    entry: &ResolvedEntry,
) -> (r: Secret)
    ensures
        r@ == namespace_copy(*parent, namespace@, *source, *entry),
{
    let mut labels = StringMap::new();
    labels.insert("app.kubernetes.io/managed-by", "mcpg-operator");
    labels.insert(MANAGED_BY_SET_LABEL, parent.metadata.name_or("unknown").as_str());
    labels.insert(
        "mcpg.dev/plugin",
        replace_char(entry.entry_id.as_str(), '.', '-').as_str(),
    );
    labels.insert("mcpg.dev/version", entry.plugin_version.as_str());
    labels.insert("mcpg.dev/source-namespace", "mcpg-system");
    let owner_ref = owner_reference(
        "MCPGPluginSet",
        parent.metadata.name_or_empty().as_str(),
        parent.metadata.uid_or_empty().as_str(),
    );
    Secret {
        metadata: ObjectMeta::child(
            entry.artefact_secret_name.as_str(),
            Some(namespace.to_owned()),
            labels,
            Some(owner_ref),
        ),
        type_: Some("mcpg.dev/plugin".to_owned()),
        immutable: Some(true),
        data: match &source.data {
            Some(d) => Some(d.clone()),
            None => None,
        },
    }
}

/// The ConfigMap in which a plugin set hands its document to gateways.
pub open spec fn resolved_configmap(
    set: MCPGPluginSet,
    namespace: Seq<char>,
    rendered: Seq<char>,
    hash: Seq<char>,
) -> ConfigMapView {
    ConfigMapView {
        metadata: child_meta(
            resolved_cm_name(set_name(set)),
            Some(namespace),
            Map::<Seq<char>, Seq<char>>::empty().insert(
                "app.kubernetes.io/managed-by"@,
                "mcpg-operator"@,
            ).insert("mcpg.dev/managed-by-set"@, set_name(set)).insert(
                "mcpg.dev/resolved-hash"@,
                hash,
            ),
            Some(owner("MCPGPluginSet"@, set_name(set), or_empty(set.metadata@.uid))),
        ),
        data: Map::<Seq<char>, Seq<char>>::empty().insert("plugins.json"@, rendered),
    }
}

/// Builds the ConfigMap in which a plugin set hands its document to
/// gateways.
pub fn build_resolved_configmap(
    parent: &MCPGPluginSet,
    namespace: &str,
    rendered: &str,
    resolved_hash: &str,
) -> (r: ConfigMap)
    ensures
        r@ == resolved_configmap(*parent, namespace@, rendered@, resolved_hash@),
{
    let name = parent.metadata.name_or("unknown");
    let mut labels = StringMap::new();
    labels.insert("app.kubernetes.io/managed-by", "mcpg-operator");
    labels.insert(MANAGED_BY_SET_LABEL, name.as_str());
    labels.insert(RESOLVED_HASH_LABEL, resolved_hash);
    let owner_ref = owner_reference(
        "MCPGPluginSet",
        name.as_str(),
        parent.metadata.uid_or_empty().as_str(),
    );
    let mut data = StringMap::new();
    data.insert("plugins.json", rendered);
    let cm_name = name.concat("-resolved");
    ConfigMap {
        metadata: ObjectMeta::child(
            cm_name.as_str(),
            Some(namespace.to_owned()),
            labels,
            Some(owner_ref),
        ),
        data,
    }
}

/// The names of the objects that have one, in their order.
pub open spec fn names_of(v: Seq<ObjectMeta>) -> Seq<Seq<char>>
    decreases v.len(),
{
    if v.len() == 0 {
        Seq::empty()
    } else {
        match v.last()@.name {
            Some(n) => names_of(v.drop_last()).push(n),
            None => names_of(v.drop_last()),
        }
    }
}

/// The names of the objects that have one.
pub fn object_names(v: &Vec<ObjectMeta>) -> (r: Vec<String>)
    ensures
        texts(r@) == names_of(v@),
{
    let mut out: Vec<String> = Vec::new();
    let mut i: usize = 0;
    proof {
        assert(v@.take(0) =~= Seq::empty());
        assert(texts(out@) =~= Seq::empty());
    }
    while i < v.len()
        invariant
            i <= v.len(),
            texts(out@) == names_of(v@.take(i as int)),
        decreases v.len() - i,
    {
        assert(v@.take(i + 1).drop_last() =~= v@.take(i as int));
        match &v[i].name {
            Some(n) => {
                let s = n.clone();
                assert(texts(out@.push(s)) =~= texts(out@).push(s@));
                out.push(s);
            },
            None => {},
        }
        i = i + 1;
    }
    assert(v@.take(i as int) =~= v@);
    out
}

/// The Secrets of a plugin set that it no longer wants: those among the
/// existing ones whose names are not desired.
pub fn stale_secrets(existing: &Vec<ObjectMeta>, desired: &Vec<String>) -> (r: Vec<String>)
    ensures
        texts(r@) == stale(names_of(existing@), texts(desired@)),
{
    let names = object_names(existing);
    stale_names(&names, desired)
}

/// The Secrets that a plugin set wants: one for each resolved entry.
pub open spec fn wanted_secrets(v: Seq<ResolvedEntry>) -> Seq<Seq<char>> {
    v.map_values(|e: ResolvedEntry| e.artefact_secret_name@)
}

/// The Secrets that a plugin set wants.
pub fn desired_secret_names(resolved: &Vec<ResolvedEntry>) -> (r: Vec<String>)
    ensures
        texts(r@) == wanted_secrets(resolved@),
{
    let mut out: Vec<String> = Vec::new();
    let mut i: usize = 0;
    assert(texts(out@) =~= wanted_secrets(resolved@).take(0));
    while i < resolved.len()
        invariant
            i <= resolved.len(),
            texts(out@) == wanted_secrets(resolved@).take(i as int),
        decreases resolved.len() - i,
    {
        let s = resolved[i].artefact_secret_name.clone();
        proof {
            assert(texts(out@.push(s)) =~= texts(out@).push(s@));
            assert(wanted_secrets(resolved@).take(i + 1) =~= wanted_secrets(resolved@).take(
                i as int,
            ).push(s@));
        }
        out.push(s);
        i = i + 1;
    }
    assert(wanted_secrets(resolved@).take(i as int) =~= wanted_secrets(resolved@));
    out
}

/// Pruning never takes a Secret that a resolved entry needs.
pub proof fn law_prune_keeps_wanted(
    existing: Seq<ObjectMeta>,
    resolved: Seq<ResolvedEntry>,
    i: int,
)
    requires
        0 <= i < resolved.len(),
    ensures
        !stale(names_of(existing), wanted_secrets(resolved)).contains(
            resolved[i].artefact_secret_name@,
        ),
{
    let name = resolved[i].artefact_secret_name@;
    crate::controllers::gateway::edge::law_stale(
        names_of(existing),
        wanted_secrets(resolved),
        name,
    );
    assert(wanted_secrets(resolved)[i] == name);
}

} // verus!
