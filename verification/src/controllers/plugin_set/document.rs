//! The document in which a plugin set hands its entries to gateways.
use vstd::prelude::*;

use crate::api::resources::MCPGPluginSet;
use crate::controllers::gateway::plugin_set::{
    read_document, read_entries, read_entry, read_text, EntryView,
};
use crate::controllers::plugin_set::resolve::{resolved_views, ResolvedEntry, ResolvedView};
use crate::hashing::{hash_text, text_hash};
use crate::json::{
    integer, is_reserved, items_view, law_integers_read_back, pretty_text, readable, reread,
    strings, whole, whole_numbers, Json, JsonView,
};
use crate::text::{clone_texts, same, texts};

verus! {

/// The capabilities that a plugin set grants to a plugin.
pub open spec fn grants_for(grants: Seq<(String, Vec<String>)>, id: Seq<char>) -> Seq<Seq<char>>
    decreases grants.len(),
{
    if grants.len() == 0 {
        Seq::empty()
    } else if grants.last().0@ == id {
        texts(grants.last().1@)
    } else {
        grants_for(grants.drop_last(), id)
    }
}

fn granted(grants: &Vec<(String, Vec<String>)>, id: &str) -> (r: Vec<String>)
    ensures
        texts(r@) == grants_for(grants@, id@),
{
    let mut i: usize = grants.len();
    assert(grants@.take(i as int) =~= grants@);
    while i > 0
        invariant
            i <= grants.len(),
            grants_for(grants@, id@) == grants_for(grants@.take(i as int), id@),
        decreases i,
    {
        proof {
            let s = grants@.take(i as int);
            assert(s.drop_last() =~= grants@.take(i - 1));
            assert(s.last() == grants@[i - 1]);
        }
        if same(grants[i - 1].0.as_str(), id) {
            return clone_texts(&grants[i - 1].1);
        }
        i = i - 1;
    }
    let none: Vec<String> = Vec::new();
    assert(texts(none@) =~= Seq::empty());
    none
}

/// One entry of the document.
pub open spec fn entry_json(set: MCPGPluginSet, e: ResolvedView) -> JsonView {
    JsonView::Object(
        Map::<Seq<char>, JsonView>::empty().insert("id"@, JsonView::Str(e.entry_id)).insert(
            "pluginName"@,
            JsonView::Str(e.plugin_name),
        ).insert("pluginVersion"@, JsonView::Str(e.plugin_version)).insert(
            "pluginClass"@,
            JsonView::Str(e.plugin_class),
        ).insert("artefactSecretName"@, JsonView::Str(e.artefact_secret_name)).insert(
            "resolvedDigest"@,
            JsonView::Str(e.resolved_digest),
        ).insert("config"@, e.config).insert(
            "capabilityGrants"@,
            strings(grants_for(set.spec.capability_grants@, e.entry_id)),
        ),
    )
}

/// The document: a version, and the entries in their order.
pub open spec fn document(set: MCPGPluginSet, entries: Seq<ResolvedView>) -> JsonView {
    JsonView::Object(
        Map::<Seq<char>, JsonView>::empty().insert(
            "version"@,
            JsonView::Number(integer(1)),
        ).insert(
            "entries"@,
            JsonView::Array(entries.map_values(|e: ResolvedView| entry_json(set, e))),
        ),
    )
}

fn entry_value(set: &MCPGPluginSet, e: &ResolvedEntry) -> (r: Json)
    ensures
        r.view() == entry_json(*set, e@),
{
    let mut o = Json::Object(Vec::new());
    o.set("id", Json::str(e.entry_id.as_str()));
    o.set("pluginName", Json::str(e.plugin_name.as_str()));
    o.set("pluginVersion", Json::str(e.plugin_version.as_str()));
    o.set("pluginClass", Json::str(e.plugin_class.as_str()));
    o.set("artefactSecretName", Json::str(e.artefact_secret_name.as_str()));
    o.set("resolvedDigest", Json::str(e.resolved_digest.as_str()));
    o.set("config", e.config.clone());
    let grants = granted(&set.spec.capability_grants, e.entry_id.as_str());
    o.set("capabilityGrants", Json::strings(&grants));
    o
}

/// The document of a plugin set.
pub fn resolved_document(parent: &MCPGPluginSet, resolved: &Vec<ResolvedEntry>) -> (r: Json)
    ensures
        r.view() == document(*parent, resolved_views(resolved@)),
{
    let ghost all = resolved_views(resolved@).map_values(
        |e: ResolvedView| entry_json(*parent, e),
    );
    let mut entries: Vec<Json> = Vec::new();
    let mut i: usize = 0;
    assert(items_view(entries@) =~= all.take(0));
    while i < resolved.len()
        invariant
            i <= resolved.len(),
            all == resolved_views(resolved@).map_values(
                |e: ResolvedView| entry_json(*parent, e),
            ),
            items_view(entries@) == all.take(i as int),
        decreases resolved.len() - i,
    {
        let e = entry_value(parent, &resolved[i]);
        proof {
            assert(entries@.push(e).drop_last() =~= entries@);
            assert(all.take(i + 1) =~= all.take(i as int).push(all[i as int]));
        }
        entries.push(e);
        i = i + 1;
    }
    assert(all.take(i as int) =~= all);
    let mut doc = Json::Object(Vec::new());
    doc.set("version", Json::integer(1));
    doc.set("entries", Json::Array(entries));
    doc
}

/// What a gateway reads of an entry.
pub open spec fn seen(e: ResolvedView) -> EntryView {
    EntryView {
        id: e.entry_id,
        plugin_class: e.plugin_class,
        plugin_version: e.plugin_version,
        artefact_secret_name: e.artefact_secret_name,
        resolved_digest: e.resolved_digest,
        config: e.config,
    }
}

/// What a gateway reads of a list of entries.
pub open spec fn all_seen(entries: Seq<ResolvedView>) -> Seq<EntryView> {
    entries.map_values(|e: ResolvedView| seen(e))
}

proof fn lemma_keys()
    ensures
        "id"@.len() == 2,
        "pluginName"@.len() == 10,
        "pluginVersion"@.len() == 13,
        "pluginClass"@.len() == 11,
        "artefactSecretName"@.len() == 18,
        "resolvedDigest"@.len() == 14,
        "config"@.len() == 6,
        "capabilityGrants"@.len() == 16,
        "version"@.len() == 7,
        "entries"@.len() == 7,
        "version"@ != "entries"@,
        "$serde_json::private::RawValue"@.len() == 30,
        "$serde_json::private::Number"@.len() == 28,
{
    reveal_strlit("id");
    reveal_strlit("pluginName");
    reveal_strlit("pluginVersion");
    reveal_strlit("pluginClass");
    reveal_strlit("artefactSecretName");
    reveal_strlit("resolvedDigest");
    reveal_strlit("config");
    reveal_strlit("capabilityGrants");
    reveal_strlit("version");
    reveal_strlit("entries");
    reveal_strlit("$serde_json::private::RawValue");
    reveal_strlit("$serde_json::private::Number");
    assert("version"@[0] == 'v');
    assert("entries"@[0] == 'e');
}

proof fn lemma_entry_read(set: MCPGPluginSet, e: ResolvedView, index: nat)
    ensures
        read_entry(entry_json(set, e), index) == Ok::<EntryView, Seq<char>>(seen(e)),
{
    lemma_keys();
}

proof fn lemma_entries_read(set: MCPGPluginSet, entries: Seq<ResolvedView>)
    ensures
        read_entries(entries.map_values(|e: ResolvedView| entry_json(set, e))) == Ok::<
            Seq<EntryView>,
            Seq<char>,
        >(all_seen(entries)),
    decreases entries.len(),
{
    let items = entries.map_values(|e: ResolvedView| entry_json(set, e));
    if entries.len() == 0 {
        assert(all_seen(entries) =~= Seq::empty());
    } else {
        let init = entries.drop_last();
        lemma_entries_read(set, init);
        assert(items.drop_last() =~= init.map_values(|e: ResolvedView| entry_json(set, e)));
        lemma_entry_read(set, entries.last(), (items.len() - 1) as nat);
        assert(all_seen(entries) =~= all_seen(init).push(seen(entries.last())));
    }
}

/// A gateway reads the entries that the plugin set wrote, in their order.
pub proof fn law_document_reads_back(set: MCPGPluginSet, entries: Seq<ResolvedView>)
    ensures
        read_document(document(set, entries)) == Ok::<Seq<EntryView>, Seq<char>>(
            all_seen(entries),
        ),
{
    lemma_keys();
    lemma_entries_read(set, entries);
}

proof fn lemma_strings(s: Seq<Seq<char>>, depth: nat)
    requires
        depth > 0,
    ensures
        readable(strings(s), depth),
        reread(strings(s), depth) == strings(s),
{
    reveal_with_fuel(readable, 2);
    reveal_with_fuel(reread, 2);
    assert(reread(strings(s), depth)->Array_0 =~= strings(s)->Array_0);
}

/// A resolved entry whose config was written and read again.
pub open spec fn reread_entry(e: ResolvedView) -> ResolvedView {
    ResolvedView { config: reread(e.config, 124), ..e }
}

/// Resolved entries whose configs were written and read again.
pub open spec fn reread_entries(entries: Seq<ResolvedView>) -> Seq<ResolvedView> {
    entries.map_values(|e: ResolvedView| reread_entry(e))
}

proof fn lemma_entry_reread(set: MCPGPluginSet, e: ResolvedView)
    requires
        readable(e.config, 124),
    ensures
        readable(entry_json(set, e), 125),
        reread(entry_json(set, e), 125) == entry_json(set, reread_entry(e)),
{
    lemma_keys();
    lemma_strings(grants_for(set.spec.capability_grants@, e.entry_id), 124);
    let m = entry_json(set, e)->Object_0;
    let r = entry_json(set, reread_entry(e))->Object_0;
    assert forall|k: Seq<char>| m.dom().contains(k) implies !is_reserved(k) && readable(
        #[trigger] m[k],
        124,
    ) by {
        assert(readable(JsonView::Str(e.entry_id), 124));
    }
    assert forall|k: Seq<char>| m.dom().contains(k) implies reread(#[trigger] m[k], 124)
        == r[k] by {
        assert(reread(JsonView::Str(e.entry_id), 124) == JsonView::Str(e.entry_id));
    }
    assert(reread(entry_json(set, e), 125)->Object_0 =~= r);
}

proof fn lemma_document_reread(set: MCPGPluginSet, entries: Seq<ResolvedView>)
    requires
        forall|i: int| 0 <= i < entries.len() ==> readable((#[trigger] entries[i]).config, 124),
    ensures
        readable(document(set, entries), 127),
        reread(document(set, entries), 127) == document(set, reread_entries(entries)),
{
    lemma_keys();
    let items = entries.map_values(|e: ResolvedView| entry_json(set, e));
    let again = reread_entries(entries).map_values(|e: ResolvedView| entry_json(set, e));
    assert forall|i: int| 0 <= i < items.len() implies readable(#[trigger] items[i], 125) && reread(
        items[i],
        125,
    ) == again[i] by {
        lemma_entry_reread(set, entries[i]);
    }
    let array = JsonView::Array(items);
    assert(readable(array, 126));
    assert(reread(array, 126)->Array_0 =~= again);
    let version = JsonView::Number(integer(1));
    assert(whole(integer(1)));
    assert(readable(version, 126));
    assert(reread(version, 126) == version);
    let d = document(set, entries)->Object_0;
    let r = document(set, reread_entries(entries))->Object_0;
    assert forall|k: Seq<char>| d.dom().contains(k) implies !is_reserved(k) && readable(
        #[trigger] d[k],
        126,
    ) && reread(d[k], 126) == r[k] by {}
    assert(reread(document(set, entries), 127)->Object_0 =~= r);
}

/// Renders the document of a plugin set, and the hash of its text. A gateway
/// that reads the text finds the entries that were written, with each config
/// as the JSON reader reads it: the same but for numbers that are not integers
/// of 64 bits. A config that the reader refuses, for its depth or for a number
/// out of range, is left out.
pub fn render_resolved_set(parent: &MCPGPluginSet, resolved: &Vec<ResolvedEntry>) -> (r: (
    String,
    String,
))
    ensures
        r.0@ == pretty_text(document(*parent, resolved_views(resolved@))),
        r.1@ == text_hash(r.0@),
        r.1@.len() == 64,
        (forall|i: int|
            0 <= i < resolved@.len() ==> readable((#[trigger] resolved@[i]).config.view(), 124))
            ==> read_text(r.0@) == Ok::<Seq<EntryView>, Seq<char>>(
            all_seen(reread_entries(resolved_views(resolved@))),
        ),
{
    let json = resolved_document(parent, resolved).pretty();
    let hash = hash_text(json.as_str());
    proof {
        let entries = resolved_views(resolved@);
        law_document_reads_back(*parent, reread_entries(entries));
        if forall|i: int|
            0 <= i < resolved@.len() ==> readable((#[trigger] resolved@[i]).config.view(), 124) {
            assert forall|i: int| 0 <= i < entries.len() implies readable(
                (#[trigger] entries[i]).config,
                124,
            ) by {
                assert(readable(resolved@[i].config.view(), 124));
            }
            lemma_document_reread(*parent, entries);
        }
    }
    (json, hash)
}

/// What a gateway reads of an entry, but for its config, is what the plugin
/// set wrote; the config too, where its numbers are integers of 64 bits.
pub proof fn law_entries_keep_their_names(entries: Seq<ResolvedView>, i: int)
    requires
        0 <= i < entries.len(),
    ensures
        all_seen(reread_entries(entries)).len() == entries.len(),
        all_seen(reread_entries(entries))[i] == (EntryView {
            config: reread(entries[i].config, 124),
            ..seen(entries[i])
        }),
        whole_numbers(entries[i].config, 124) ==> all_seen(reread_entries(entries))[i] == seen(
            entries[i],
        ),
{
    if whole_numbers(entries[i].config, 124) {
        law_integers_read_back(entries[i].config, 124);
    }
}

/// The hash of a plugin set's document depends on what it says alone.
pub proof fn law_same_entries_same_hash(
    a: MCPGPluginSet,
    b: MCPGPluginSet,
    entries: Seq<ResolvedView>,
)
    requires
        forall|i: int|
            0 <= i < entries.len() ==> grants_for(
                a.spec.capability_grants@,
                (#[trigger] entries[i]).entry_id,
            ) == grants_for(b.spec.capability_grants@, entries[i].entry_id),
    ensures
        text_hash(pretty_text(document(a, entries))) == text_hash(
            pretty_text(document(b, entries)),
        ),
{
    let x = entries.map_values(|e: ResolvedView| entry_json(a, e));
    let y = entries.map_values(|e: ResolvedView| entry_json(b, e));
    assert(x =~= y);
}

} // verus!
