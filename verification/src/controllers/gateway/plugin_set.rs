//! Resolving a gateway's plugin set into what its config and pods need.
use vstd::prelude::*;

use crate::api::conditions::{
    cond, condition_true, conditions_view, is_true, Condition, ConditionView,
};
use crate::api::resources::{MCPGGateway, MCPGPluginSet};
use crate::json::{
    get, get_str, items_view, lemma_items, parsed, Json, JsonView,
};
use crate::strmap::StringMap;
use crate::text::{decimal, decimal_text, texts};

verus! {

/// One entry of a resolved plugin set.
#[derive(Debug)]
pub struct ResolvedSetEntry {
    pub id: String,
    pub plugin_class: String,
    pub plugin_version: String,
    pub artefact_secret_name: String,
    pub resolved_digest: String,
    pub config: Json,
}

/// What an entry says.
pub struct EntryView {
    pub id: Seq<char>,
    pub plugin_class: Seq<char>,
    pub plugin_version: Seq<char>,
    pub artefact_secret_name: Seq<char>,
    pub resolved_digest: Seq<char>,
    pub config: JsonView,
}

impl View for ResolvedSetEntry {
    type V = EntryView;

    open spec fn view(&self) -> EntryView {
        EntryView {
            id: self.id@,
            plugin_class: self.plugin_class@,
            plugin_version: self.plugin_version@,
            artefact_secret_name: self.artefact_secret_name@,
            resolved_digest: self.resolved_digest@,
            config: self.config.view(),
        }
    }
}

/// What a list of entries says.
pub open spec fn entries_view(v: Seq<ResolvedSetEntry>) -> Seq<EntryView> {
    v.map_values(|e: ResolvedSetEntry| e@)
}

/// A resolved plugin set: its entries, and the capabilities granted to each
/// plugin.
#[derive(Debug)]
pub struct ResolvedSetView {
    pub entries: Vec<ResolvedSetEntry>,
    pub capability_grants: Vec<(String, Vec<String>)>,
}

/// What a list of capability grants says.
pub open spec fn grants_view(v: Seq<(String, Vec<String>)>) -> Seq<(Seq<char>, Seq<Seq<char>>)> {
    v.map_values(|g: (String, Vec<String>)| (g.0@, texts(g.1@)))
}

/// A plugin's Secret, mounted into the gateway's pods.
#[derive(Debug)]
pub struct PluginSecretMount {
    pub plugin_id: String,
    pub secret_name: String,
}

/// What a list of mounts says.
pub open spec fn mounts_view(v: Seq<PluginSecretMount>) -> Seq<(Seq<char>, Seq<char>)> {
    v.map_values(|m: PluginSecretMount| (m.plugin_id@, m.secret_name@))
}

/// A string field that must be there.
pub open spec fn required(e: JsonView, key: Seq<char>, index: nat) -> Result<Seq<char>, Seq<char>> {
    match get_str(e, key) {
        Some(s) => Ok(s),
        None => Err(
            "entries["@ + decimal(index) + "]."@ + key + " missing or not a string"@,
        ),
    }
}

/// One entry of the resolved-set document. Its fields are required, and
/// checked in this order; a missing config is null.
pub open spec fn read_entry(e: JsonView, index: nat) -> Result<EntryView, Seq<char>> {
    match required(e, "id"@, index) {
        Err(m) => Err(m),
        Ok(id) => match required(e, "pluginClass"@, index) {
            Err(m) => Err(m),
            Ok(plugin_class) => match required(e, "pluginVersion"@, index) {
                Err(m) => Err(m),
                Ok(plugin_version) => match required(e, "artefactSecretName"@, index) {
                    Err(m) => Err(m),
                    Ok(artefact_secret_name) => match required(e, "resolvedDigest"@, index) {
                        Err(m) => Err(m),
                        Ok(resolved_digest) => Ok(
                            EntryView {
                                id,
                                plugin_class,
                                plugin_version,
                                artefact_secret_name,
                                resolved_digest,
                                config: match get(e, "config"@) {
                                    Some(c) => c,
                                    None => JsonView::Null,
                                },
                            },
                        ),
                    },
                },
            },
        },
    }
}

/// The entries of the resolved-set document, or what is wrong with the
/// first bad one.
pub open spec fn read_entries(items: Seq<JsonView>) -> Result<Seq<EntryView>, Seq<char>>
    decreases items.len(),
{
    if items.len() == 0 {
        Ok(Seq::empty())
    } else {
        match read_entries(items.drop_last()) {
            Err(m) => Err(m),
            Ok(before) => match read_entry(items.last(), (items.len() - 1) as nat) {
                Err(m) => Err(m),
                Ok(e) => Ok(before.push(e)),
            },
        }
    }
}

/// What a resolved-set document says, or what is wrong with it.
pub open spec fn read_document(doc: JsonView) -> Result<Seq<EntryView>, Seq<char>> {
    match get(doc, "entries"@) {
        Some(JsonView::Array(items)) => read_entries(items),
        _ => Err("plugins.json missing `entries` array"@),
    }
}

/// A string field that must be there.
pub fn required_string(obj: &Json, key: &str, index: usize) -> (r: Result<String, String>)
    ensures
        match r {
            Ok(s) => required(obj.view(), key@, index as nat) == Ok::<Seq<char>, Seq<char>>(s@),
            Err(m) => required(obj.view(), key@, index as nat) == Err::<Seq<char>, Seq<char>>(m@),
        },
{
    match obj.get_str(key) {
        Some(s) => Ok(s.to_owned()),
        None => Err(
            "entries[".to_owned().concat(decimal_text(index as u64).as_str()).concat("].").concat(
                key,
            ).concat(" missing or not a string"),
        ),
    }
}

fn read_one(e: &Json, index: usize) -> (r: Result<ResolvedSetEntry, String>)
    ensures
        match r {
            Ok(s) => read_entry(e.view(), index as nat) == Ok::<EntryView, Seq<char>>(s@),
            Err(m) => read_entry(e.view(), index as nat) == Err::<EntryView, Seq<char>>(m@),
        },
{
    let id = match required_string(e, "id", index) {
        Ok(s) => s,
        Err(m) => return Err(m),
    };
    let plugin_class = match required_string(e, "pluginClass", index) {
        Ok(s) => s,
        Err(m) => return Err(m),
    };
    let plugin_version = match required_string(e, "pluginVersion", index) {
        Ok(s) => s,
        Err(m) => return Err(m),
    };
    let artefact_secret_name = match required_string(e, "artefactSecretName", index) {
        Ok(s) => s,
        Err(m) => return Err(m),
    };
    let resolved_digest = match required_string(e, "resolvedDigest", index) {
        Ok(s) => s,
        Err(m) => return Err(m),
    };
    let config = match e.get("config") {
        Some(c) => c.clone(),
        None => Json::Null,
    };
    Ok(
        ResolvedSetEntry {
            id,
            plugin_class,
            plugin_version,
            artefact_secret_name,
            resolved_digest,
            config,
        },
    )
}

proof fn lemma_read_entries_prefix(items: Seq<JsonView>, n: int)
    requires
        0 <= n <= items.len(),
        read_entries(items.take(n)) is Err,
    ensures
        read_entries(items) == read_entries(items.take(n)),
    decreases items.len() - n,
{
    if n < items.len() {
        assert(items.take(n + 1).drop_last() =~= items.take(n));
        lemma_read_entries_prefix(items, n + 1);
    } else {
        assert(items.take(n) =~= items);
    }
}

/// A copy of the capability grants.
pub fn clone_grants(v: &Vec<(String, Vec<String>)>) -> (r: Vec<(String, Vec<String>)>)
    ensures
        grants_view(r@) == grants_view(v@),
{
    let mut out: Vec<(String, Vec<String>)> = Vec::new();
    let mut i: usize = 0;
    while i < v.len()
        invariant
            i <= v.len(),
            grants_view(out@) == grants_view(v@.take(i as int)),
        decreases v.len() - i,
    {
        let names = crate::text::clone_texts(&v[i].1);
        let g = (v[i].0.clone(), names);
        proof {
            assert(grants_view(out@.push(g)) =~= grants_view(out@).push((g.0@, texts(g.1@))));
            assert(grants_view(v@.take(i + 1)) =~= grants_view(v@.take(i as int)).push(
                (v@[i as int].0@, texts(v@[i as int].1@)),
            ));
        }
        out.push(g);
        i = i + 1;
    }
    assert(v@.take(i as int) =~= v@);
    out
}

/// Reads the resolved-set document into the entries a gateway needs. The
/// grants come from the plugin set's own spec.
pub fn read_resolved_set(doc: &Json, set: &MCPGPluginSet) -> (r: Result<ResolvedSetView, String>)
    ensures
        match r {
            Ok(v) => read_document(doc.view()) == Ok::<Seq<EntryView>, Seq<char>>(
                entries_view(v.entries@),
            ) && grants_view(v.capability_grants@) == grants_view(set.spec.capability_grants@),
            Err(m) => read_document(doc.view()) == Err::<Seq<EntryView>, Seq<char>>(m@),
        },
{
    let items = match doc.get("entries") {
        Some(e) => match e.as_array() {
            Some(a) => a,
            None => return Err("plugins.json missing `entries` array".to_owned()),
        },
        None => return Err("plugins.json missing `entries` array".to_owned()),
    };
    let mut out: Vec<ResolvedSetEntry> = Vec::new();
    let mut i: usize = 0;
    let ghost all = items_view(items@);
    proof {
        lemma_items(items@);
        assert(all.take(0) =~= Seq::empty());
        assert(entries_view(out@) =~= Seq::empty());
    }
    while i < items.len()
        invariant
            i <= items.len(),
            all == items_view(items@),
            all.len() == items@.len(),
            get(doc.view(), "entries"@) == Some(JsonView::Array(all)),
            read_entries(all.take(i as int)) == Ok::<Seq<EntryView>, Seq<char>>(
                entries_view(out@),
            ),
        decreases items.len() - i,
    {
        proof {
            lemma_items(items@);
            assert(all.take(i + 1).drop_last() =~= all.take(i as int));
            assert(all[i as int] == items@[i as int].view());
        }
        match read_one(&items[i], i) {
            Ok(e) => {
                proof {
                    assert(entries_view(out@.push(e)) =~= entries_view(out@).push(e@));
                }
                out.push(e);
            },
            Err(m) => {
                proof {
                    lemma_read_entries_prefix(all, i + 1);
                }
                return Err(m);
            },
        }
        i = i + 1;
    }
    assert(all.take(i as int) =~= all);
    Ok(
        ResolvedSetView {
            entries: out,
            capability_grants: clone_grants(&set.spec.capability_grants),
        },
    )
}

/// What the text of a resolved-set document says, or what is wrong with it.
pub open spec fn read_text(text: Seq<char>) -> Result<Seq<EntryView>, Seq<char>> {
    match parsed(text) {
        Ok(doc) => read_document(doc),
        Err(m) => Err("invalid JSON: "@ + m),
    }
}

/// Parses the `plugins.json` that the plugin-set controller wrote.
pub fn parse_resolved_plugins_json(json: &str, set: &MCPGPluginSet) -> (r: Result<
    ResolvedSetView,
    String,
>)
    ensures
        match r {
            Ok(v) => read_text(json@) == Ok::<Seq<EntryView>, Seq<char>>(entries_view(v.entries@))
                && grants_view(v.capability_grants@) == grants_view(set.spec.capability_grants@),
            Err(m) => read_text(json@) == Err::<Seq<EntryView>, Seq<char>>(m@),
        },
{
    match Json::parse(json) {
        Ok(doc) => read_resolved_set(&doc, set),
        Err(m) => Err("invalid JSON: ".to_owned().concat(m.as_str())),
    }
}

/// What a gateway's plugin set resolved to. Without a view there is nothing
/// to mount, and the condition says why.
#[derive(Debug)]
pub struct ResolvedPluginSet {
    pub resolved_hash: String,
    pub view: Option<ResolvedSetView>,
    pub mounts: Vec<PluginSecretMount>,
    pub condition: Condition,
}

/// The hash a plugin set reports, or the empty text.
pub open spec fn reported_hash(set: MCPGPluginSet) -> Seq<char> {
    match set.status {
        Some(s) => match s.resolved_hash {
            Some(h) => h@,
            None => Seq::empty(),
        },
        None => Seq::empty(),
    }
}

/// Whether a plugin set is ready to be used: it says so, and has a hash.
pub open spec fn set_usable(set: MCPGPluginSet) -> bool {
    &&& match set.status {
        Some(s) => is_true(conditions_view(s.conditions@), "Ready"@),
        None => false,
    }
    &&& reported_hash(set).len() > 0
}

/// The name of the ConfigMap that holds a plugin set's resolved document.
pub open spec fn resolved_cm_name(set_name: Seq<char>) -> Seq<char> {
    set_name + "-resolved"@
}

/// The text of the resolved document; a ConfigMap without it holds the
/// empty text.
pub open spec fn plugins_text(data: Map<Seq<char>, Seq<char>>) -> Seq<char> {
    if data.dom().contains("plugins.json"@) {
        data["plugins.json"@]
    } else {
        Seq::empty()
    }
}

/// The condition `PluginSetReady` with the given parts.
pub open spec fn set_condition_view(
    ok: bool,
    reason: Seq<char>,
    message: Seq<char>,
) -> ConditionView {
    cond("PluginSetReady"@, crate::api::conditions::status_text(ok), reason, message, None)
}

/// What is known about a gateway's plugin set, as the status of the gateway
/// reports it.
pub open spec fn plugin_set_condition(
    name: Seq<char>,
    namespace: Seq<char>,
    set: Option<MCPGPluginSet>,
    data: Option<Map<Seq<char>, Seq<char>>>,
) -> ConditionView {
    match set {
        None => set_condition_view(
            false,
            "PluginSetNotFound"@,
            "MCPGPluginSet/"@ + name + " not found in namespace "@ + namespace,
        ),
        Some(set) => if !set_usable(set) {
            set_condition_view(
                false,
                "PluginSetNotReady"@,
                "MCPGPluginSet/"@ + name + ".status.conditions[Ready] != True"@,
            )
        } else {
            match data {
                None => set_condition_view(
                    false,
                    "ResolvedConfigMapMissing"@,
                    "ConfigMap/"@ + resolved_cm_name(name)
                        + " missing — plugin-set controller hasn't materialised yet"@,
                ),
                Some(data) => match read_text(plugins_text(data)) {
                    Err(m) => set_condition_view(
                        false,
                        "ResolvedConfigMapParseFailed"@,
                        "ConfigMap/"@ + resolved_cm_name(name) + " plugins.json parse failed: "@
                            + m,
                    ),
                    Ok(_) => set_condition_view(
                        true,
                        "PluginSetResolved"@,
                        "MCPGPluginSet/"@ + name + " resolved with "@ + decimal(
                            set.spec.entries@.len(),
                        ) + " entries"@,
                    ),
                },
            }
        },
    }
}

/// The entries a gateway may use of its plugin set: none unless the set is
/// there and usable, and its document is there and readable.
pub open spec fn usable_entries(
    set: Option<MCPGPluginSet>,
    data: Option<Map<Seq<char>, Seq<char>>>,
) -> Option<Seq<EntryView>> {
    match (set, data) {
        (Some(set), Some(data)) => if set_usable(set) {
            match read_text(plugins_text(data)) {
                Ok(entries) => Some(entries),
                Err(_) => None,
            }
        } else {
            None
        },
        _ => None,
    }
}

/// The entries of an optional resolved set.
pub open spec fn view_entries(v: Option<ResolvedSetView>) -> Option<Seq<EntryView>> {
    match v {
        Some(v) => Some(entries_view(v.entries@)),
        None => None,
    }
}

/// One mount for each entry.
pub open spec fn entry_mounts(entries: Seq<EntryView>) -> Seq<(Seq<char>, Seq<char>)> {
    entries.map_values(|e: EntryView| (e.id, e.artefact_secret_name))
}

/// Whether the document of a plugin set is worth looking up.
pub fn plugin_set_usable(set: &MCPGPluginSet) -> (r: bool)
    ensures
        r == set_usable(*set),
{
    match &set.status {
        Some(s) => condition_true(&s.conditions, "Ready") && match &s.resolved_hash {
            Some(h) => !h.as_str().is_empty(),
            None => false,
        },
        None => false,
    }
}

/// The name of the ConfigMap that holds a plugin set's resolved document.
pub fn resolved_configmap_name(set_name: &str) -> (r: String)
    ensures
        r@ == resolved_cm_name(set_name@),
{
    set_name.to_owned().concat("-resolved")
}

fn unresolved(hash: String, reason: &str, message: &str) -> (r: ResolvedPluginSet)
    ensures
        r.resolved_hash == hash,
        r.view is None,
        mounts_view(r.mounts@) == Seq::<(Seq<char>, Seq<char>)>::empty(),
        r.condition@ == set_condition_view(false, reason@, message@),
{
    let mounts: Vec<PluginSecretMount> = Vec::new();
    assert(mounts_view(mounts@) =~= Seq::empty());
    ResolvedPluginSet {
        resolved_hash: hash,
        view: None,
        mounts,
        condition: Condition::new("PluginSetReady", "False", reason, message, None),
    }
}

fn mounts_of(entries: &Vec<ResolvedSetEntry>) -> (r: Vec<PluginSecretMount>)
    ensures
        mounts_view(r@) == entry_mounts(entries_view(entries@)),
{
    let mut out: Vec<PluginSecretMount> = Vec::new();
    let mut i: usize = 0;
    while i < entries.len()
        invariant
            i <= entries.len(),
            mounts_view(out@) == entry_mounts(entries_view(entries@).take(i as int)),
        decreases entries.len() - i,
    {
        let m = PluginSecretMount {
            plugin_id: entries[i].id.clone(),
            secret_name: entries[i].artefact_secret_name.clone(),
        };
        proof {
            let v = entries_view(entries@);
            assert(mounts_view(out@.push(m)) =~= mounts_view(out@).push(
                (m.plugin_id@, m.secret_name@),
            ));
            assert(entry_mounts(v.take(i + 1)) =~= entry_mounts(v.take(i as int)).push(
                (v[i as int].id, v[i as int].artefact_secret_name),
            ));
        }
        out.push(m);
        i = i + 1;
    }
    assert(entries_view(entries@).take(i as int) =~= entries_view(entries@));
    out
}

/// The plugin set that was looked up.
pub open spec fn found_set(set: Option<&MCPGPluginSet>) -> Option<MCPGPluginSet> {
    match set {
        Some(s) => Some(*s),
        None => None,
    }
}

/// The data that was looked up.
pub open spec fn found_data(data: Option<&StringMap>) -> Option<Map<Seq<char>, Seq<char>>> {
    match data {
        Some(d) => Some(d@),
        None => None,
    }
}

/// Whether `r` is what a gateway's plugin set resolves to, given what was
/// found of it.
pub open spec fn set_resolved(
    obj: MCPGGateway,
    namespace: Seq<char>,
    set: Option<MCPGPluginSet>,
    data: Option<Map<Seq<char>, Seq<char>>>,
    r: Option<ResolvedPluginSet>,
) -> bool {
    &&& r is Some == obj.spec.plugin_set_ref is Some
    &&& r matches Some(p) ==> {
        &&& p.condition@ == plugin_set_condition(
            obj.spec.plugin_set_ref->0.name@,
            namespace,
            set,
            data,
        )
        &&& view_entries(p.view) == usable_entries(set, data)
        &&& p.view matches Some(v) ==> grants_view(v.capability_grants@) == grants_view(
            set->0.spec.capability_grants@,
        )
        &&& mounts_view(p.mounts@) == (match usable_entries(set, data) {
            Some(e) => entry_mounts(e),
            None => Seq::empty(),
        })
        &&& p.resolved_hash@ == (match set {
            Some(s) => reported_hash(s),
            None => Seq::empty(),
        })
    }
}

/// Resolves a gateway's plugin set from what was found of it: the set of
/// that name, and the data of its resolved ConfigMap. `None` when the
/// gateway names no set.
///
/// The ConfigMap counts only where [`plugin_set_usable`] holds of the set.
pub fn resolve_plugin_set(
    obj: &MCPGGateway,
    namespace: &str,
    set: Option<&MCPGPluginSet>,
    data: Option<&StringMap>,
) -> (r: Option<ResolvedPluginSet>)
    ensures
        set_resolved(*obj, namespace@, found_set(set), found_data(data), r),
{
    let name = match &obj.spec.plugin_set_ref {
        Some(r) => r.name.as_str(),
        None => return None,
    };
    let set = match set {
        Some(s) => s,
        None => {
            return Some(
                unresolved(
                    String::new(),
                    "PluginSetNotFound",
                    "MCPGPluginSet/".to_owned().concat(name).concat(
                        " not found in namespace ",
                    ).concat(namespace).as_str(),
                ),
            );
        },
    };
    let hash = match &set.status {
        Some(s) => match &s.resolved_hash {
            Some(h) => h.clone(),
            None => String::new(),
        },
        None => String::new(),
    };
    if !plugin_set_usable(set) {
        return Some(
            unresolved(
                hash,
                "PluginSetNotReady",
                "MCPGPluginSet/".to_owned().concat(name).concat(
                    ".status.conditions[Ready] != True",
                ).as_str(),
            ),
        );
    }
    let cm_name = resolved_configmap_name(name);
    let data = match data {
        Some(d) => d,
        None => {
            return Some(
                unresolved(
                    hash,
                    "ResolvedConfigMapMissing",
                    "ConfigMap/".to_owned().concat(cm_name.as_str()).concat(
                        " missing — plugin-set controller hasn't materialised yet",
                    ).as_str(),
                ),
            );
        },
    };
    let text = match data.get("plugins.json") {
        Some(t) => t.clone(),
        None => String::new(),
    };
    match parse_resolved_plugins_json(text.as_str(), set) {
        Err(m) => Some(
            unresolved(
                hash,
                "ResolvedConfigMapParseFailed",
                "ConfigMap/".to_owned().concat(cm_name.as_str()).concat(
                    " plugins.json parse failed: ",
                ).concat(m.as_str()).as_str(),
            ),
        ),
        Ok(view) => {
            let mounts = mounts_of(&view.entries);
            let message = "MCPGPluginSet/".to_owned().concat(name).concat(" resolved with ").concat(
                decimal_text(set.spec.entries.len() as u64).as_str(),
            ).concat(" entries");
            Some(
                ResolvedPluginSet {
                    resolved_hash: hash,
                    view: Some(view),
                    mounts,
                    condition: Condition::new(
                        "PluginSetReady",
                        "True",
                        "PluginSetResolved",
                        message.as_str(),
                        None,
                    ),
                },
            )
        },
    }
}

/// The gateway's plugin set is reported ready exactly when there are
/// entries to use.
pub proof fn law_ready_iff_usable(
    name: Seq<char>,
    namespace: Seq<char>,
    set: Option<MCPGPluginSet>,
    data: Option<Map<Seq<char>, Seq<char>>>,
)
    ensures
        plugin_set_condition(name, namespace, set, data).status == "True"@ <==> usable_entries(
            set,
            data,
        ) is Some,
{
    reveal_strlit("True");
    reveal_strlit("False");
    assert("True"@.len() != "False"@.len());
}

} // verus!
