//! The revocation list a gateway's pods read.
use vstd::prelude::*;

use crate::api::conditions::{cond, status_text, Condition, ConditionView};
use crate::api::objects::{
    child_meta, or_empty, owner, owner_reference, ConfigMap, ConfigMapView, ObjectMeta,
};
use crate::api::resources::{clone_opt, MCPGGateway, MCPGRevocationList, RevocationEntry};
use crate::clock::{format_time, time_text, Timestamp};
use crate::hashing::{hash_text, text_hash};
use crate::json::{integer, items_view, pretty_text, Json, JsonView};
use crate::strmap::StringMap;
use crate::text::{decimal, decimal_text};

verus! {

/// The revocation list of a gateway that names none.
pub const DEFAULT_REVOCATION_LIST_NAME: &'static str = "cluster-default";

/// The ConfigMap that a gateway's pods mount, and the hash of its content.
#[derive(Debug, Clone)]
pub struct RevocationListMount {
    pub config_map_name: String,
    pub content_hash: String,
}

/// What a gateway's revocation list resolved to.
#[derive(Debug)]
pub struct ResolvedRevocationList {
    pub mount: RevocationListMount,
    pub condition: Condition,
}

/// The list a gateway names, or the default one.
pub open spec fn target_list(obj: MCPGGateway) -> Seq<char> {
    match obj.spec.revocation_list_ref {
        Some(r) => r.name@,
        None => "cluster-default"@,
    }
}

/// The list a gateway names, or the default one.
pub fn revocation_target(obj: &MCPGGateway) -> (r: String)
    ensures
        r@ == target_list(*obj),
{
    match &obj.spec.revocation_list_ref {
        Some(r) => r.name.clone(),
        None => DEFAULT_REVOCATION_LIST_NAME.to_owned(),
    }
}

/// A point in time as JSON: its RFC 3339 text, or null.
pub open spec fn time_json(t: Option<Timestamp>) -> JsonView {
    match time_text(t) {
        Some(s) => JsonView::Str(s),
        None => JsonView::Null,
    }
}

/// One revoked artefact as JSON.
pub open spec fn entry_json(e: RevocationEntry) -> JsonView {
    JsonView::Object(
        Map::<Seq<char>, JsonView>::empty().insert(
            "artifact_sha256"@,
            JsonView::Str(e.artifact_sha256@),
        ).insert("reason"@, JsonView::Str(e.reason@)).insert(
            "revoked_at"@,
            time_json(e.revoked_at),
        ),
    )
}

/// The document that a gateway reads.
pub open spec fn list_json(rl: MCPGRevocationList) -> JsonView {
    JsonView::Object(
        Map::<Seq<char>, JsonView>::empty().insert(
            "version"@,
            JsonView::Number(integer(rl.spec.version as u64)),
        ).insert("issued_at"@, time_json(rl.spec.issued_at)).insert(
            "revocations"@,
            JsonView::Array(
                rl.spec.revocations@.map_values(|e: RevocationEntry| entry_json(e)),
            ),
        ),
    )
}

fn time_value(t: Option<Timestamp>) -> (r: Json)
    ensures
        r.view() == time_json(t),
{
    match format_time(t) {
        Some(s) => Json::Str(s),
        None => Json::Null,
    }
}

fn entry_value(e: &RevocationEntry) -> (r: Json)
    ensures
        r.view() == entry_json(*e),
{
    let mut o = Json::Object(Vec::new());
    o.set("artifact_sha256", Json::str(e.artifact_sha256.as_str()));
    o.set("reason", Json::str(e.reason.as_str()));
    o.set("revoked_at", time_value(e.revoked_at));
    o
}

/// The document that a gateway reads.
pub fn revocation_list_document(rl: &MCPGRevocationList) -> (r: Json)
    ensures
        r.view() == list_json(*rl),
{
    let mut entries: Vec<Json> = Vec::new();
    let mut i: usize = 0;
    let ghost all = rl.spec.revocations@.map_values(|e: RevocationEntry| entry_json(e));
    assert(items_view(entries@) =~= all.take(0));
    while i < rl.spec.revocations.len()
        invariant
            i <= rl.spec.revocations.len(),
            all == rl.spec.revocations@.map_values(|e: RevocationEntry| entry_json(e)),
            items_view(entries@) == all.take(i as int),
        decreases rl.spec.revocations.len() - i,
    {
        let e = entry_value(&rl.spec.revocations[i]);
        proof {
            assert(entries@.push(e).drop_last() =~= entries@);
            assert(all.take(i + 1) =~= all.take(i as int).push(all[i as int]));
        }
        entries.push(e);
        i = i + 1;
    }
    assert(all.take(i as int) =~= all);
    let mut doc = Json::Object(Vec::new());
    doc.set("version", Json::integer(rl.spec.version as u64));
    doc.set("issued_at", time_value(rl.spec.issued_at));
    doc.set("revocations", Json::Array(entries));
    doc
}

/// Renders a revocation list into the text a gateway reads, and the hash of
/// that text.
pub fn render_revocation_list_json(rl: &MCPGRevocationList) -> (r: (String, String))
    ensures
        r.0@ == pretty_text(list_json(*rl)),
        r.1@ == text_hash(pretty_text(list_json(*rl))),
        r.1@.len() == 64,
{
    let json = revocation_list_document(rl).pretty();
    let hash = hash_text(json.as_str());
    (json, hash)
}

/// The name of the ConfigMap that holds a gateway's revocation list.
pub open spec fn cm_name(obj: MCPGGateway) -> Seq<char> {
    or_empty(obj.metadata@.name) + "-revocations"@
}

/// The name of the ConfigMap that holds a gateway's revocation list.
pub fn revocation_cm_name(obj: &MCPGGateway) -> (r: String)
    ensures
        r@ == cm_name(*obj),
{
    obj.metadata.name_or_empty().concat("-revocations")
}

/// The ConfigMap that holds a gateway's revocation list, owned by the
/// gateway.
pub open spec fn revocation_configmap(
    parent: MCPGGateway,
    name: Seq<char>,
    json: Seq<char>,
    hash: Seq<char>,
) -> ConfigMapView {
    ConfigMapView {
        metadata: child_meta(
            name,
            parent.metadata@.namespace,
            Map::<Seq<char>, Seq<char>>::empty().insert(
                "app.kubernetes.io/managed-by"@,
                "mcpg-operator"@,
            ).insert("mcpg.dev/gateway"@, or_empty(parent.metadata@.name)).insert(
                "mcpg.dev/revocation-list-hash"@,
                hash,
            ),
            Some(
                owner("MCPGGateway"@, or_empty(parent.metadata@.name), or_empty(parent.metadata@.uid)),
            ),
        ),
        data: Map::<Seq<char>, Seq<char>>::empty().insert("list.json"@, json),
    }
}

/// Builds the ConfigMap that holds a gateway's revocation list.
pub fn build_revocation_configmap(
    parent: &MCPGGateway,
    name: &str,
    json: &str,
    hash: &str,
) -> (r: ConfigMap)
    ensures
        r@ == revocation_configmap(*parent, name@, json@, hash@),
{
    let mut labels = StringMap::new();
    let parent_name = parent.metadata.name_or_empty();
    let parent_uid = parent.metadata.uid_or_empty();
    labels.insert("app.kubernetes.io/managed-by", "mcpg-operator");
    labels.insert("mcpg.dev/gateway", parent_name.as_str());
    labels.insert("mcpg.dev/revocation-list-hash", hash);
    let mut data = StringMap::new();
    data.insert("list.json", json);
    ConfigMap {
        metadata: ObjectMeta::child(
            name,
            clone_opt(&parent.metadata.namespace),
            labels,
            Some(owner_reference("MCPGGateway", parent_name.as_str(), parent_uid.as_str())),
        ),
        data,
    }
}

/// The condition `RevocationListReady` with the given parts.
pub open spec fn list_condition(ok: bool, reason: Seq<char>, message: Seq<char>) -> ConditionView {
    cond("RevocationListReady"@, status_text(ok), reason, message, None)
}

/// The revocation list that was looked up.
pub open spec fn found_list(rl: Option<&MCPGRevocationList>) -> Option<MCPGRevocationList> {
    match rl {
        Some(l) => Some(*l),
        None => None,
    }
}

/// Whether `r` is what a gateway's revocation list resolves to, given what
/// was found and how applying its ConfigMap went.
pub open spec fn list_resolved(
    obj: MCPGGateway,
    rl: Option<MCPGRevocationList>,
    applied: Result<(), String>,
    r: Option<ResolvedRevocationList>,
) -> bool {
    &&& r is None <==> rl is None && obj.spec.revocation_list_ref is None
    &&& r matches Some(l) ==> match rl {
        None => {
            &&& l.mount.config_map_name@ == Seq::<char>::empty()
            &&& l.mount.content_hash@ == Seq::<char>::empty()
            &&& l.condition@ == list_condition(
                false,
                "RevocationListNotFound"@,
                "MCPGRevocationList/"@ + target_list(obj) + " not found"@,
            )
        },
        Some(rl) => {
            let hash = text_hash(pretty_text(list_json(rl)));
            &&& l.mount.config_map_name@ == cm_name(obj)
            &&& l.mount.content_hash@ == hash
            &&& l.condition@ == (match applied {
                Err(e) => list_condition(
                    false,
                    "RevocationConfigMapApplyFailed"@,
                    "ConfigMap apply failed: "@ + e@,
                ),
                Ok(_) => list_condition(
                    true,
                    "RevocationListResolved"@,
                    "MCPGRevocationList/"@ + target_list(obj) + " materialised ("@ + decimal(
                        rl.spec.revocations@.len(),
                    ) + " entries, hash "@ + hash + ")"@,
                ),
            })
        },
    }
}

/// Resolves a gateway's revocation list from what was found: the list of
/// that name, and how applying the ConfigMap went (the error's message when
/// it failed).
///
/// A missing list is reported when the gateway names it; the default list
/// may be missing, which means that nothing is revoked.
pub fn resolve_revocation_list(
    obj: &MCPGGateway,
    rl: Option<&MCPGRevocationList>,
    applied: Result<(), String>,
) -> (r: Option<ResolvedRevocationList>)
    ensures
        list_resolved(*obj, found_list(rl), applied, r),
{
    let target = revocation_target(obj);
    let rl = match rl {
        Some(rl) => rl,
        None => {
            if obj.spec.revocation_list_ref.is_some() {
                return Some(
                    ResolvedRevocationList {
                        mount: RevocationListMount {
                            config_map_name: String::new(),
                            content_hash: String::new(),
                        },
                        condition: Condition::new(
                            "RevocationListReady",
                            "False",
                            "RevocationListNotFound",
                            "MCPGRevocationList/".to_owned().concat(target.as_str()).concat(
                                " not found",
                            ).as_str(),
                            None,
                        ),
                    },
                );
            }
            return None;
        },
    };
    let (_, hash) = render_revocation_list_json(rl);
    let condition = match applied {
        Err(e) => Condition::new(
            "RevocationListReady",
            "False",
            "RevocationConfigMapApplyFailed",
            "ConfigMap apply failed: ".to_owned().concat(e.as_str()).as_str(),
            None,
        ),
        Ok(_) => Condition::new(
            "RevocationListReady",
            "True",
            "RevocationListResolved",
            "MCPGRevocationList/".to_owned().concat(target.as_str()).concat(
                " materialised (",
            ).concat(decimal_text(rl.spec.revocations.len() as u64).as_str()).concat(
                " entries, hash ",
            ).concat(hash.as_str()).concat(")").as_str(),
            None,
        ),
    };
    Some(
        ResolvedRevocationList {
            mount: RevocationListMount {
                config_map_name: revocation_cm_name(obj),
                content_hash: hash,
            },
            condition,
        },
    )
}

/// The ConfigMap to apply for a gateway whose revocation list was found.
pub fn materialise_revocation_list(obj: &MCPGGateway, rl: &MCPGRevocationList) -> (r: ConfigMap)
    ensures
        r@ == revocation_configmap(
            *obj,
            cm_name(*obj),
            pretty_text(list_json(*rl)),
            text_hash(pretty_text(list_json(*rl))),
        ),
{
    let (json, hash) = render_revocation_list_json(rl);
    let name = revocation_cm_name(obj);
    build_revocation_configmap(obj, name.as_str(), json.as_str(), hash.as_str())
}

/// The hash of a list depends on what it holds alone: two lists with the
/// same spec have the same hash, whatever they are called.
pub proof fn law_hash_by_content(a: MCPGRevocationList, b: MCPGRevocationList)
    requires
        a.spec == b.spec,
    ensures
        text_hash(pretty_text(list_json(a))) == text_hash(pretty_text(list_json(b))),
{
}

} // verus!
