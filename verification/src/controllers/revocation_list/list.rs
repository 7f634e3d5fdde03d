//! The revocation-list controller: hand the list to every namespace that
//! runs a gateway.
use vstd::prelude::*;

use crate::api::conditions::{event, Event, EventType};
use crate::api::objects::{child_meta, or_text, ConfigMap, ConfigMapView, ObjectMeta};
use crate::api::resources::{
    existing_conditions, status_conditions, MCPGGateway, MCPGRevocationList, MCPGRevocationListSpec,
    RevocationEntry,
};
use crate::clock::{format_time, time_text};
use crate::controllers::report::{put, set_cond, Report, ReportView};
use crate::hashing::{hash_text, text_hash};
use crate::json::{integer, items_view, pretty_text, Json, JsonView};
use crate::ordered::{law_sorted_set, sorted_set, sorted_unique};
use crate::reconcile::flow::{Requeue, Verdict};
use crate::strmap::StringMap;
use crate::telemetry::ReconcileOutcome;
use crate::text::{decimal, decimal_text, lower, lowered, texts};

verus! {

/// The name of the ConfigMap in each namespace.
pub const CONFIGMAP_NAME: &'static str = "mcpg-revocation-list";

/// The key of the list in the ConfigMap.
pub const REVOCATIONS_FILE: &'static str = "revocations.json";

/// One revoked artefact: the hash in lower case, and the time of the
/// revocation where it is known.
pub open spec fn entry_json(e: RevocationEntry) -> JsonView {
    let base = Map::<Seq<char>, JsonView>::empty().insert(
        "artifact_sha256"@,
        JsonView::Str(lower(e.artifact_sha256@)),
    ).insert("reason"@, JsonView::Str(e.reason@));
    JsonView::Object(
        match time_text(e.revoked_at) {
            Some(t) => base.insert("revoked_at"@, JsonView::Str(t)),
            None => base,
        },
    )
}

/// The document that a revocation list is handed out as.
pub open spec fn list_json(spec: MCPGRevocationListSpec) -> JsonView {
    let base = Map::<Seq<char>, JsonView>::empty().insert(
        "version"@,
        JsonView::Number(integer(spec.version as u64)),
    );
    let timed = match time_text(spec.issued_at) {
        Some(t) => base.insert("issued_at"@, JsonView::Str(t)),
        None => base,
    };
    JsonView::Object(
        timed.insert(
            "revocations"@,
            JsonView::Array(spec.revocations@.map_values(|e: RevocationEntry| entry_json(e))),
        ),
    )
}

fn entry_value(e: &RevocationEntry) -> (r: Json)
    ensures
        r.view() == entry_json(*e),
{
    let mut o = Json::Object(Vec::new());
    o.set("artifact_sha256", Json::Str(lowered(e.artifact_sha256.as_str())));
    o.set("reason", Json::str(e.reason.as_str()));
    match format_time(e.revoked_at) {
        Some(t) => {
            o.set("revoked_at", Json::Str(t));
        },
        None => {},
    }
    o
}

/// The document that a revocation list is handed out as.
pub fn revocation_document(spec: &MCPGRevocationListSpec) -> (r: Json)
    ensures
        r.view() == list_json(*spec),
{
    let ghost all = spec.revocations@.map_values(|e: RevocationEntry| entry_json(e));
    let mut entries: Vec<Json> = Vec::new();
    let mut i: usize = 0;
    assert(items_view(entries@) =~= all.take(0));
    while i < spec.revocations.len()
        invariant
            i <= spec.revocations.len(),
            all == spec.revocations@.map_values(|e: RevocationEntry| entry_json(e)),
            items_view(entries@) == all.take(i as int),
        decreases spec.revocations.len() - i,
    {
        let e = entry_value(&spec.revocations[i]);
        proof {
            assert(entries@.push(e).drop_last() =~= entries@);
            assert(all.take(i + 1) =~= all.take(i as int).push(all[i as int]));
        }
        entries.push(e);
        i = i + 1;
    }
    assert(all.take(i as int) =~= all);
    let mut doc = Json::Object(Vec::new());
    doc.set("version", Json::integer(spec.version as u64));
    match format_time(spec.issued_at) {
        Some(t) => {
            doc.set("issued_at", Json::Str(t));
        },
        None => {},
    }
    doc.set("revocations", Json::Array(entries));
    doc
}

/// Renders a revocation list into its text, and the hash of that text.
pub fn render_revocation_json(spec: &MCPGRevocationListSpec) -> (r: (String, String))
    ensures
        r.0@ == pretty_text(list_json(*spec)),
        r.1@ == text_hash(r.0@),
        r.1@.len() == 64,
{
    let json = revocation_document(spec).pretty();
    let hash = hash_text(json.as_str());
    (json, hash)
}

/// Whether two lists revoke the same artefacts, in the same order, up to the
/// case of the hashes.
pub open spec fn same_list(a: MCPGRevocationListSpec, b: MCPGRevocationListSpec) -> bool {
    &&& a.version == b.version
    &&& a.issued_at == b.issued_at
    &&& a.revocations@.len() == b.revocations@.len()
    &&& forall|i: int|
        0 <= i < a.revocations@.len() ==> {
            &&& lower((#[trigger] a.revocations@[i]).artifact_sha256@) == lower(
                b.revocations@[i].artifact_sha256@,
            )
            &&& a.revocations@[i].reason@ == b.revocations@[i].reason@
            &&& a.revocations@[i].revoked_at == b.revocations@[i].revoked_at
        }
}

/// The hash of a list depends on what it revokes alone, and not on the case
/// in which its hashes were written.
pub proof fn law_hash_by_content(a: MCPGRevocationListSpec, b: MCPGRevocationListSpec)
    requires
        same_list(a, b),
    ensures
        text_hash(pretty_text(list_json(a))) == text_hash(pretty_text(list_json(b))),
{
    let x = a.revocations@.map_values(|e: RevocationEntry| entry_json(e));
    let y = b.revocations@.map_values(|e: RevocationEntry| entry_json(e));
    assert(x =~= y) by {
        assert forall|i: int| 0 <= i < x.len() implies x[i] == y[i] by {
            assert(lower(a.revocations@[i].artifact_sha256@) == lower(
                b.revocations@[i].artifact_sha256@,
            ));
        }
    }
}

/// The ConfigMap that holds a revocation list in a namespace. The list is
/// not its owner: owners of namespaced objects cannot be cluster-scoped.
pub open spec fn list_configmap(
    list: MCPGRevocationList,
    namespace: Seq<char>,
    rendered: Seq<char>,
    hash: Seq<char>,
) -> ConfigMapView {
    ConfigMapView {
        metadata: child_meta(
            "mcpg-revocation-list"@,
            Some(namespace),
            Map::<Seq<char>, Seq<char>>::empty().insert(
                "app.kubernetes.io/managed-by"@,
                "mcpg-operator"@,
            ).insert(
                "mcpg.dev/revocation-list"@,
                or_text(list.metadata@.name, "unknown"@),
            ).insert("mcpg.dev/content-hash"@, hash),
            None,
        ),
        data: Map::<Seq<char>, Seq<char>>::empty().insert("revocations.json"@, rendered),
    }
}

/// Builds the ConfigMap that holds a revocation list in a namespace.
pub fn build_configmap(
    parent: &MCPGRevocationList,
    namespace: &str,
    rendered: &str,
    content_hash: &str,
) -> (r: ConfigMap)
    ensures
        r@ == list_configmap(*parent, namespace@, rendered@, content_hash@),
{
    let mut labels = StringMap::new();
    labels.insert("app.kubernetes.io/managed-by", "mcpg-operator");
    labels.insert("mcpg.dev/revocation-list", parent.metadata.name_or("unknown").as_str());
    labels.insert("mcpg.dev/content-hash", content_hash);
    let mut data = StringMap::new();
    data.insert(REVOCATIONS_FILE, rendered);
    ConfigMap {
        metadata: ObjectMeta::child(
            CONFIGMAP_NAME,
            Some(namespace.to_owned()),
            labels,
            None,
        ),
        data,
    }
}

/// The namespaces of the gateways that have one, in their order.
pub open spec fn gateway_namespaces(gws: Seq<MCPGGateway>) -> Seq<Seq<char>>
    decreases gws.len(),
{
    if gws.len() == 0 {
        Seq::empty()
    } else {
        match gws.last().metadata@.namespace {
            Some(n) => gateway_namespaces(gws.drop_last()).push(n),
            None => gateway_namespaces(gws.drop_last()),
        }
    }
}

/// The namespaces that run a gateway: each once, in ascending order.
pub fn namespaces_with_gateways(gateways: &Vec<MCPGGateway>) -> (r: Vec<String>)
    ensures
        texts(r@) == sorted_set(gateway_namespaces(gateways@)),
{
    let mut all: Vec<String> = Vec::new();
    let mut i: usize = 0;
    proof {
        assert(gateways@.take(0) =~= Seq::empty());
        assert(texts(all@) =~= Seq::empty());
    }
    while i < gateways.len()
        invariant
            i <= gateways.len(),
            texts(all@) == gateway_namespaces(gateways@.take(i as int)),
        decreases gateways.len() - i,
    {
        assert(gateways@.take(i + 1).drop_last() =~= gateways@.take(i as int));
        match &gateways[i].metadata.namespace {
            Some(n) => {
                let s = n.clone();
                assert(texts(all@.push(s)) =~= texts(all@).push(s@));
                all.push(s);
            },
            None => {},
        }
        i = i + 1;
    }
    assert(gateways@.take(i as int) =~= gateways@);
    sorted_unique(&all)
}

proof fn lemma_gateway_namespaces(gws: Seq<MCPGGateway>, n: Seq<char>)
    ensures
        gateway_namespaces(gws).contains(n) <==> exists|i: int|
            0 <= i < gws.len() && (#[trigger] gws[i]).metadata@.namespace == Some(n),
    decreases gws.len(),
{
    if gws.len() > 0 {
        let init = gws.drop_last();
        let w = gateway_namespaces(init);
        let all = gateway_namespaces(gws);
        lemma_gateway_namespaces(init, n);
        if all.contains(n) {
            let k = choose|k: int| 0 <= k < all.len() && all[k] == n;
            if k < w.len() {
                assert(w[k] == n);
                let i = choose|i: int|
                    0 <= i < init.len() && (#[trigger] init[i]).metadata@.namespace == Some(n);
                assert(gws[i].metadata@.namespace == Some(n));
            } else {
                assert(gws[gws.len() - 1].metadata@.namespace == Some(n));
            }
        }
        if exists|i: int|
            0 <= i < gws.len() && (#[trigger] gws[i]).metadata@.namespace == Some(n) {
            let i = choose|i: int|
                0 <= i < gws.len() && (#[trigger] gws[i]).metadata@.namespace == Some(n);
            if i < gws.len() - 1 {
                assert(init[i].metadata@.namespace == Some(n));
                let k = choose|k: int| 0 <= k < w.len() && w[k] == n;
                assert(all[k] == n);
            } else {
                assert(all[w.len() as int] == n);
            }
        }
    }
}

/// The list reaches the namespace of every gateway, and no other namespace.
pub proof fn law_list_reaches_every_gateway(gws: Seq<MCPGGateway>, n: Seq<char>)
    ensures
        sorted_set(gateway_namespaces(gws)).contains(n) <==> exists|i: int|
            0 <= i < gws.len() && (#[trigger] gws[i]).metadata@.namespace == Some(n),
{
    lemma_gateway_namespaces(gws, n);
    law_sorted_set(gateway_namespaces(gws));
}

/// The report on a revocation list that reached `done` of `targets`
/// namespaces: it is ready exactly when it reached them all.
pub open spec fn list_report(
    list: MCPGRevocationList,
    generation: i64,
    done: nat,
    targets: nat,
) -> ReportView {
    let ready = done == targets;
    let reached = decimal(done) + "/"@ + decimal(targets);
    ReportView {
        conditions: if ready {
            put(
                status_conditions(list.status),
                "Ready"@,
                true,
                "Reconciled"@,
                decimal(done) + " namespaces synced"@,
                generation,
            )
        } else {
            put(
                status_conditions(list.status),
                "Ready"@,
                false,
                "Progressing"@,
                reached + " namespaces synced"@,
                generation,
            )
        },
        event: Some(
            event(
                if ready {
                    EventType::Normal
                } else {
                    EventType::Warning
                },
                if ready {
                    "Materialised"@
                } else {
                    "PartialMaterialisation"@
                },
                "Revocation list materialised in "@ + reached + " namespaces (entries: "@ + decimal(
                    list.spec.revocations@.len(),
                ) + ")"@,
                "Materialise"@,
            ),
        ),
        verdict: Verdict {
            requeue: Requeue::AfterSecs(60),
            outcome: if ready {
                ReconcileOutcome::Success
            } else {
                ReconcileOutcome::DependencyPending
            },
        },
    }
}

/// The status of a revocation list, and what else follows its reconcile.
#[derive(Debug)]
pub struct RevocationListReport {
    pub report: Report,
    pub observed_generation: i64,
    pub observed_revocations: u64,
    pub materialised_namespaces: u64,
    pub content_hash: String,
}

/// Whether a report is the one on a revocation list that reached `done` of
/// `targets` namespaces.
pub open spec fn reports(
    obj: MCPGRevocationList,
    generation: i64,
    done: nat,
    targets: nat,
    content_hash: Seq<char>,
    r: RevocationListReport,
) -> bool {
    &&& r.report@ == list_report(obj, generation, done, targets)
    &&& r.observed_generation == generation
    &&& r.observed_revocations == obj.spec.revocations@.len()
    &&& r.materialised_namespaces == done
    &&& r.content_hash@ == content_hash
}

/// Reports on a revocation list that reached `materialised` of `targets`
/// namespaces.
pub fn report_revocation_list(
    obj: &MCPGRevocationList,
    generation: i64,
    materialised: usize,
    targets: usize,
    content_hash: &str,
) -> (r: RevocationListReport)
    ensures
        reports(
            *obj,
            generation,
            materialised as nat,
            targets as nat,
            content_hash@,
            r,
        ),
{
    let ready = materialised == targets;
    let reached = decimal_text(materialised as u64).concat("/").concat(
        decimal_text(targets as u64).as_str(),
    );
    let mut conditions = existing_conditions(&obj.status);
    if ready {
        set_cond(
            &mut conditions,
            "Ready",
            true,
            "Reconciled",
            decimal_text(materialised as u64).concat(" namespaces synced").as_str(),
            generation,
        );
    } else {
        set_cond(
            &mut conditions,
            "Ready",
            false,
            "Progressing",
            reached.clone().concat(" namespaces synced").as_str(),
            generation,
        );
    }
    let note = "Revocation list materialised in ".to_owned().concat(reached.as_str()).concat(
        " namespaces (entries: ",
    ).concat(decimal_text(obj.spec.revocations.len() as u64).as_str()).concat(")");
    let event = if ready {
        Event::new(EventType::Normal, "Materialised", note.as_str(), "Materialise")
    } else {
        Event::new(EventType::Warning, "PartialMaterialisation", note.as_str(), "Materialise")
    };
    RevocationListReport {
        report: Report {
            conditions,
            event: Some(event),
            verdict: Verdict {
                requeue: Requeue::AfterSecs(60),
                outcome: if ready {
                    ReconcileOutcome::Success
                } else {
                    ReconcileOutcome::DependencyPending
                },
            },
        },
        observed_generation: generation,
        observed_revocations: obj.spec.revocations.len() as u64,
        materialised_namespaces: materialised as u64,
        content_hash: content_hash.to_owned(),
    }
}

} // verus!
