//! Which entries of a plugin set can be used.
use vstd::prelude::*;

use crate::api::conditions::{condition_true, conditions_view, is_true};
use crate::api::objects::or_empty;
use crate::api::resources::{
    object_ref, refs_view, MCPGPlugin, MCPGPluginSet, MCPGPluginSetEntry, MCPGPluginStatus,
    ObjectRef, ObjectRefView,
};
use crate::json::{Json, JsonView};
use crate::text::{opt_text, same};

verus! {

/// How looking up the plugin of an entry ended.
#[derive(Debug)]
pub enum PluginLookup {
    Found(MCPGPlugin),
    Missing,
    /// The lookup failed with this message.
    Failed(String),
}

/// An entry whose plugin can be used.
#[derive(Debug)]
pub struct ResolvedEntry {
    /// The plugin's id; the entry declares the same.
    pub entry_id: String,
    /// The name of the plugin resource.
    pub plugin_name: String,
    pub plugin_version: String,
    pub plugin_class: String,
    /// The Secret that holds the verified plugin.
    pub artefact_secret_name: String,
    pub resolved_digest: String,
    pub config: Json,
}

/// What a resolved entry says.
#[verifier::ext_equal]
pub struct ResolvedView {
    pub entry_id: Seq<char>,
    pub plugin_name: Seq<char>,
    pub plugin_version: Seq<char>,
    pub plugin_class: Seq<char>,
    pub artefact_secret_name: Seq<char>,
    pub resolved_digest: Seq<char>,
    pub config: JsonView,
}

impl View for ResolvedEntry {
    type V = ResolvedView;

    open spec fn view(&self) -> ResolvedView {
        ResolvedView {
            entry_id: self.entry_id@,
            plugin_name: self.plugin_name@,
            plugin_version: self.plugin_version@,
            plugin_class: self.plugin_class@,
            artefact_secret_name: self.artefact_secret_name@,
            resolved_digest: self.resolved_digest@,
            config: self.config.view(),
        }
    }
}

/// What a list of resolved entries says.
pub open spec fn resolved_views(v: Seq<ResolvedEntry>) -> Seq<ResolvedView> {
    v.map_values(|e: ResolvedEntry| e@)
}

/// Why an entry cannot be used.
#[derive(Debug)]
pub struct EntryRejection {
    pub reason: &'static str,
    pub message: String,
}

/// What a rejection says.
pub struct RejectionView {
    pub reason: Seq<char>,
    pub message: Seq<char>,
}

impl View for EntryRejection {
    type V = RejectionView;

    open spec fn view(&self) -> RejectionView {
        RejectionView { reason: self.reason@, message: self.message@ }
    }
}

/// The entry of the status that reports a rejection.
#[derive(Debug)]
pub struct FailedEntry {
    pub id: String,
    pub reason: String,
    pub message: String,
}

/// What a failed entry says.
pub struct FailedView {
    pub id: Seq<char>,
    pub reason: Seq<char>,
    pub message: Seq<char>,
}

impl View for FailedEntry {
    type V = FailedView;

    open spec fn view(&self) -> FailedView {
        FailedView { id: self.id@, reason: self.reason@, message: self.message@ }
    }
}

/// What a list of failed entries says.
pub open spec fn failed_views(v: Seq<FailedEntry>) -> Seq<FailedView> {
    v.map_values(|e: FailedEntry| e@)
}

/// Whether a plugin is known to be revoked.
pub open spec fn is_revoked(s: Option<MCPGPluginStatus>) -> bool {
    match s {
        Some(s) => s.revoked_by_sha == Some(true),
        None => false,
    }
}

/// Whether a plugin says that it is ready.
pub open spec fn says_ready(s: Option<MCPGPluginStatus>) -> bool {
    match s {
        Some(s) => is_true(conditions_view(s.conditions@), "Ready"@),
        None => false,
    }
}

/// The name of the Secret that holds a plugin; empty when there is none.
pub open spec fn secret_of(s: Option<MCPGPluginStatus>) -> Seq<char> {
    match s {
        Some(s) => or_empty(opt_text(s.artefact_secret_name)),
        None => Seq::empty(),
    }
}

/// The digest of a plugin; empty when it is not known.
pub open spec fn digest_of_plugin(s: Option<MCPGPluginStatus>) -> Seq<char> {
    match s {
        Some(s) => or_empty(opt_text(s.resolved_digest)),
        None => Seq::empty(),
    }
}

/// The config of an entry; null when it has none.
pub open spec fn config_of(e: MCPGPluginSetEntry) -> JsonView {
    match e.config {
        Some(c) => c.view(),
        None => JsonView::Null,
    }
}

/// Why an entry cannot be used: its plugin is not there, has another id, is
/// revoked, is not ready, or has no Secret yet. The first of these counts.
pub open spec fn rejection(e: MCPGPluginSetEntry, l: PluginLookup) -> Option<RejectionView> {
    let plugin = "MCPGPlugin/"@ + e.plugin_ref.name@;
    match l {
        PluginLookup::Missing => Some(
            RejectionView {
                reason: "PluginNotFound"@,
                message: plugin + " does not exist"@,
            },
        ),
        PluginLookup::Failed(m) => Some(
            RejectionView {
                reason: "PluginNotFound"@,
                message: plugin + " lookup failed: "@ + m@,
            },
        ),
        PluginLookup::Found(p) => if p.spec.plugin_id@ != e.id@ {
            Some(
                RejectionView {
                    reason: "PluginIdMismatch"@,
                    message: "entry.id `"@ + e.id@ + "` != MCPGPlugin/"@ + e.plugin_ref.name@
                        + ".spec.pluginId `"@ + p.spec.plugin_id@ + "`"@,
                },
            )
        } else if is_revoked(p.status) {
            Some(
                RejectionView {
                    reason: "PluginRevoked"@,
                    message: plugin
                        + " status.revokedBySha=true; consuming sets refuse to render"@,
                },
            )
        } else if !says_ready(p.status) {
            Some(
                RejectionView {
                    reason: "PluginNotReady"@,
                    message: plugin + " status.conditions[Ready] != True"@,
                },
            )
        } else if secret_of(p.status).len() == 0 {
            Some(
                RejectionView {
                    reason: "ArtefactSecretMissing"@,
                    message: plugin
                        + " status.artefactSecretName is unset (controller hasn't materialised yet)"@,
                },
            )
        } else {
            None
        },
    }
}

/// What an entry that can be used resolves to.
pub open spec fn resolution(e: MCPGPluginSetEntry, p: MCPGPlugin) -> ResolvedView {
    ResolvedView {
        entry_id: e.id@,
        plugin_name: e.plugin_ref.name@,
        plugin_version: p.spec.version@,
        plugin_class: p.spec.plugin_class@,
        artefact_secret_name: secret_of(p.status),
        resolved_digest: digest_of_plugin(p.status),
        config: config_of(e),
    }
}

fn revoked(s: &Option<MCPGPluginStatus>) -> (r: bool)
    ensures
        r == is_revoked(*s),
{
    match s {
        Some(s) => match s.revoked_by_sha {
            Some(b) => b,
            None => false,
        },
        None => false,
    }
}

fn ready(s: &Option<MCPGPluginStatus>) -> (r: bool)
    ensures
        r == says_ready(*s),
{
    match s {
        Some(s) => condition_true(&s.conditions, "Ready"),
        None => false,
    }
}

/// Whether a plugin may be used: it says that it is ready, and it is not
/// revoked.
pub fn plugin_is_ready(p: &MCPGPlugin) -> (r: bool)
    ensures
        r == (says_ready(p.status) && !is_revoked(p.status)),
{
    !revoked(&p.status) && ready(&p.status)
}

fn secret_name_of(s: &Option<MCPGPluginStatus>) -> (r: String)
    ensures
        r@ == secret_of(*s),
{
    match s {
        Some(s) => match &s.artefact_secret_name {
            Some(n) => n.clone(),
            None => String::new(),
        },
        None => String::new(),
    }
}

fn digest_text(s: &Option<MCPGPluginStatus>) -> (r: String)
    ensures
        r@ == digest_of_plugin(*s),
{
    match s {
        Some(s) => match &s.resolved_digest {
            Some(n) => n.clone(),
            None => String::new(),
        },
        None => String::new(),
    }
}

/// Resolves one entry of a plugin set.
pub fn resolve_entry(entry: &MCPGPluginSetEntry, lookup: &PluginLookup) -> (r: Result<
    ResolvedEntry,
    EntryRejection,
>)
    ensures
        match r {
            Ok(x) => *lookup matches PluginLookup::Found(p) && rejection(*entry, *lookup) is None
                && x@ == resolution(*entry, p),
            Err(x) => rejection(*entry, *lookup) == Some(x@),
        },
{
    let plugin_name = entry.plugin_ref.name.as_str();
    let label = "MCPGPlugin/".to_owned().concat(plugin_name);
    let plugin = match lookup {
        PluginLookup::Found(p) => p,
        PluginLookup::Missing => {
            return Err(
                EntryRejection {
                    reason: "PluginNotFound",
                    message: label.concat(" does not exist"),
                },
            );
        },
        PluginLookup::Failed(m) => {
            return Err(
                EntryRejection {
                    reason: "PluginNotFound",
                    message: label.concat(" lookup failed: ").concat(m.as_str()),
                },
            );
        },
    };
    if !same(plugin.spec.plugin_id.as_str(), entry.id.as_str()) {
        return Err(
            EntryRejection {
                reason: "PluginIdMismatch",
                message: "entry.id `".to_owned().concat(entry.id.as_str()).concat(
                    "` != MCPGPlugin/",
                ).concat(plugin_name).concat(".spec.pluginId `").concat(
                    plugin.spec.plugin_id.as_str(),
                ).concat("`"),
            },
        );
    }
    if revoked(&plugin.status) {
        return Err(
            EntryRejection {
                reason: "PluginRevoked",
                message: label.concat(
                    " status.revokedBySha=true; consuming sets refuse to render",
                ),
            },
        );
    }
    if !ready(&plugin.status) {
        return Err(
            EntryRejection {
                reason: "PluginNotReady",
                message: label.concat(" status.conditions[Ready] != True"),
            },
        );
    }
    let artefact_secret_name = secret_name_of(&plugin.status);
    if artefact_secret_name.as_str().is_empty() {
        return Err(
            EntryRejection {
                reason: "ArtefactSecretMissing",
                message: label.concat(
                    " status.artefactSecretName is unset (controller hasn't materialised yet)",
                ),
            },
        );
    }
    Ok(
        ResolvedEntry {
            entry_id: entry.id.clone(),
            plugin_name: entry.plugin_ref.name.clone(),
            plugin_version: plugin.spec.version.clone(),
            plugin_class: plugin.spec.plugin_class.clone(),
            artefact_secret_name,
            resolved_digest: digest_text(&plugin.status),
            config: match &entry.config {
                Some(c) => c.clone(),
                None => Json::Null,
            },
        },
    )
}

/// The entries that can be used, in their order: the enabled ones that are
/// not rejected.
pub open spec fn usable(e: Seq<MCPGPluginSetEntry>, l: Seq<PluginLookup>) -> Seq<ResolvedView>
    decreases e.len(),
{
    if e.len() == 0 {
        Seq::empty()
    } else {
        let before = usable(e.drop_last(), l);
        let entry = e.last();
        let lookup = l[e.len() - 1];
        if entry.enabled && rejection(entry, lookup) is None {
            before.push(resolution(entry, lookup->Found_0))
        } else {
            before
        }
    }
}

/// The entries that cannot be used, in their order: the enabled ones that
/// are rejected.
pub open spec fn rejected(e: Seq<MCPGPluginSetEntry>, l: Seq<PluginLookup>) -> Seq<FailedView>
    decreases e.len(),
{
    if e.len() == 0 {
        Seq::empty()
    } else {
        let before = rejected(e.drop_last(), l);
        let entry = e.last();
        match rejection(entry, l[e.len() - 1]) {
            Some(x) => if entry.enabled {
                before.push(FailedView { id: entry.id@, reason: x.reason, message: x.message })
            } else {
                before
            },
            None => before,
        }
    }
}

/// Resolves the entries of a plugin set, given what looking up the plugin of
/// each came to. A disabled entry is skipped, whatever its plugin.
pub fn resolve_entries(entries: &Vec<MCPGPluginSetEntry>, lookups: &Vec<PluginLookup>) -> (r: (
    Vec<ResolvedEntry>,
    Vec<FailedEntry>,
))
    requires
        lookups@.len() == entries@.len(),
    ensures
        resolved_views(r.0@) == usable(entries@, lookups@),
        failed_views(r.1@) == rejected(entries@, lookups@),
        r.0@.len() + r.1@.len() <= entries@.len(),
{
    let mut resolved: Vec<ResolvedEntry> = Vec::new();
    let mut failed: Vec<FailedEntry> = Vec::new();
    let mut i: usize = 0;
    proof {
        assert(entries@.take(0) =~= Seq::empty());
        assert(resolved_views(resolved@) =~= Seq::empty());
        assert(failed_views(failed@) =~= Seq::empty());
    }
    while i < entries.len()
        invariant
            i <= entries.len(),
            lookups@.len() == entries@.len(),
            resolved_views(resolved@) == usable(entries@.take(i as int), lookups@),
            failed_views(failed@) == rejected(entries@.take(i as int), lookups@),
            resolved@.len() + failed@.len() <= i,
        decreases entries.len() - i,
    {
        proof {
            assert(entries@.take(i + 1).drop_last() =~= entries@.take(i as int));
            assert(entries@.take(i + 1).last() == entries@[i as int]);
        }
        if entries[i].enabled {
            match resolve_entry(&entries[i], &lookups[i]) {
                Ok(x) => {
                    proof {
                        assert(resolved_views(resolved@.push(x)) =~= resolved_views(
                            resolved@,
                        ).push(x@));
                    }
                    resolved.push(x);
                },
                Err(x) => {
                    let f = FailedEntry {
                        id: entries[i].id.clone(),
                        reason: x.reason.to_owned(),
                        message: x.message,
                    };
                    proof {
                        assert(failed_views(failed@.push(f)) =~= failed_views(failed@).push(f@));
                    }
                    failed.push(f);
                },
            }
        }
        i = i + 1;
    }
    assert(entries@.take(i as int) =~= entries@);
    (resolved, failed)
}

/// Only a plugin that is there under the declared id, says that it is ready,
/// is not revoked and has a Secret can be used.
pub proof fn law_only_ready_plugins_are_used(e: MCPGPluginSetEntry, l: PluginLookup)
    requires
        rejection(e, l) is None,
    ensures
        l matches PluginLookup::Found(p) && {
            &&& p.spec.plugin_id@ == e.id@
            &&& !is_revoked(p.status)
            &&& says_ready(p.status)
            &&& secret_of(p.status).len() > 0
        },
{
}

/// The number of enabled entries.
pub open spec fn enabled_count(e: Seq<MCPGPluginSetEntry>) -> nat
    decreases e.len(),
{
    if e.len() == 0 {
        0
    } else {
        enabled_count(e.drop_last()) + (if e.last().enabled {
            1nat
        } else {
            0nat
        })
    }
}

/// No enabled entry is lost: each is either used or reported.
pub proof fn law_every_enabled_entry_counts(e: Seq<MCPGPluginSetEntry>, l: Seq<PluginLookup>)
    ensures
        usable(e, l).len() + rejected(e, l).len() == enabled_count(e),
    decreases e.len(),
{
    if e.len() > 0 {
        law_every_enabled_entry_counts(e.drop_last(), l);
    }
}

/// Whether a plugin set has an entry for the plugin of the given name.
pub open spec fn references(set: MCPGPluginSet, plugin: Seq<char>) -> bool {
    exists|i: int|
        0 <= i < set.spec.entries@.len() && (#[trigger] set.spec.entries@[i]).plugin_ref.name@
            == plugin
}

/// Whether a plugin set has an entry for the plugin of the given name.
pub fn plugin_set_references(set: &MCPGPluginSet, plugin_name: &str) -> (r: bool)
    ensures
        r == references(*set, plugin_name@),
{
    let mut i: usize = 0;
    while i < set.spec.entries.len()
        invariant
            i <= set.spec.entries.len(),
            forall|j: int|
                0 <= j < i ==> (#[trigger] set.spec.entries@[j]).plugin_ref.name@ != plugin_name@,
        decreases set.spec.entries.len() - i,
    {
        if same(set.spec.entries[i].plugin_ref.name.as_str(), plugin_name) {
            return true;
        }
        i = i + 1;
    }
    false
}

/// The plugin sets with an entry for the plugin of the given name, in their
/// order.
pub open spec fn sets_with(store: Seq<MCPGPluginSet>, plugin: Seq<char>) -> Seq<ObjectRefView>
    decreases store.len(),
{
    if store.len() == 0 {
        Seq::empty()
    } else {
        let before = sets_with(store.drop_last(), plugin);
        if references(store.last(), plugin) {
            before.push(object_ref(store.last().metadata))
        } else {
            before
        }
    }
}

/// The plugin sets that a changed plugin concerns: those with an entry for
/// it.
pub fn map_plugin_to_plugin_sets(store: &Vec<MCPGPluginSet>, plugin: &MCPGPlugin) -> (r: Vec<
    ObjectRef,
>)
    ensures
        refs_view(r@) == (match plugin.metadata@.name {
            Some(name) => sets_with(store@, name),
            None => Seq::empty(),
        }),
{
    let mut out: Vec<ObjectRef> = Vec::new();
    assert(refs_view(out@) =~= Seq::empty());
    let name = match &plugin.metadata.name {
        Some(n) => n.as_str(),
        None => return out,
    };
    let mut i: usize = 0;
    assert(store@.take(0) =~= Seq::empty());
    while i < store.len()
        invariant
            i <= store.len(),
            refs_view(out@) == sets_with(store@.take(i as int), name@),
        decreases store.len() - i,
    {
        proof {
            assert(store@.take(i + 1).drop_last() =~= store@.take(i as int));
            assert(store@.take(i + 1).last() == store@[i as int]);
        }
        if plugin_set_references(&store[i], name) {
            let x = ObjectRef::from_meta(&store[i].metadata);
            assert(refs_view(out@.push(x)) =~= refs_view(out@).push(x@));
            out.push(x);
        }
        i = i + 1;
    }
    assert(store@.take(i as int) =~= store@);
    out
}

} // verus!
