//! What holds of the steps of a gateway's reconcile and of those at the
//! shared edge.
use vstd::prelude::*;

use crate::strmap::StringMap;
use crate::controllers::gateway::cluster::{found_cluster, ResolvedCluster};
use crate::api::resources::{MCPGCluster, MCPGGateway, MCPGPluginSet, MCPGRevocationList, MCPGRoute};
use crate::controllers::gateway::config::{binding_block, composed_config, listed};
use crate::controllers::gateway::edge::{law_stale, wants_at_edge, EdgePlan};
use crate::controllers::gateway::edge_flow::{EdgeAction, EdgeEvent, EdgeState};
use crate::controllers::gateway::flow::{starts, step_is, GatewayAction, GatewayEvent, GatewayState};
use crate::controllers::gateway::plan::{order, GatewayChild};
use crate::controllers::gateway::plugin_set::{
    found_data, found_set, grants_view, mounts_view, read_document, read_entries, read_entry,
    read_text, set_resolved, view_entries, EntryView, ResolvedPluginSet,
};
use crate::controllers::gateway::revocation::{
    found_list, list_json,
};
use crate::json::{get, get_str, parsed, pretty_text, JsonView};
use crate::reconcile::flow::{Begin, ReconcileError, Requeue};
use crate::telemetry::ReconcileOutcome;
use crate::text::texts;

verus! {

/// A gateway that is being deleted gives up what it has at the edge first, as
/// far as it can have anything there, and then its finalizer; any other one
/// gets its finalizer first.
pub proof fn law_gateway_begins_with_its_finalizer(
    gw: MCPGGateway,
    b: Begin,
    s: GatewayState,
    x: GatewayAction,
)
    requires
        starts(gw, b, s, x),
    ensures
        !b.deleting ==> x is AddFinalizer,
        b.deleting && gw.spec.cloud is None ==> x is RemoveFinalizer,
        b.deleting && gw.spec.cloud is Some ==> x is ReleaseEdge && (
        gw.metadata@.uid matches Some(u) ==> x->uid@ == u),
{
}

/// A gateway looks up exactly what it names: its plugin set, the document of
/// that set, the revocation list that it goes by, and its cluster. The
/// revocation list that was found is put beside the gateway as it is.
pub proof fn law_gateway_looks_up_what_it_names(
    gw: MCPGGateway,
    b: Begin,
    s: GatewayState,
    e: GatewayEvent,
    n: GatewayState,
    x: GatewayAction,
)
    requires
        step_is(gw, b, s, e, n, x),
    ensures
        x matches GatewayAction::FindPluginSet(name) ==> gw.spec.plugin_set_ref matches Some(r)
            && name@ == r.name@,
        x matches GatewayAction::FindDocument(name) ==> (
        gw.spec.plugin_set_ref matches Some(r) ==> name@ == r.name@ + "-resolved"@),
        x matches GatewayAction::FindRevocationList(name) ==> name@ == (match gw.spec.revocation_list_ref {
            Some(r) => r.name@,
            None => "cluster-default"@,
        }),
        x matches GatewayAction::FindCluster(name) ==> gw.spec.cluster_ref matches Some(r) && name@
            == r.name@,
        x matches GatewayAction::ApplyRevocationList(cm) ==> {
            &&& e matches GatewayEvent::RevocationListFound(Ok(Some(list)))
            &&& cm@.data.dom().contains("list.json"@)
            &&& cm@.data["list.json"@] == pretty_text(list_json(list))
            &&& cm@.metadata.namespace == gw.metadata@.namespace
            &&& gw.metadata@.name matches Some(name) ==> cm@.metadata.name == Some(
                name + "-revocations"@,
            )
        },
{
}

/// Each thing that was found brings the reconcile of a gateway one step
/// further, and is kept for what follows; a failed request is an error, so
/// that the reconcile is tried again. Lists that could not be fetched and a
/// release that did not work hold up nothing.
pub proof fn law_gateway_goes_on(
    gw: MCPGGateway,
    b: Begin,
    s: GatewayState,
    e: GatewayEvent,
    n: GatewayState,
    x: GatewayAction,
)
    requires
        step_is(gw, b, s, e, n, x),
    ensures
        match (s, e) {
            (GatewayState::ReleasingEdge, GatewayEvent::EdgeReleased) => x is RemoveFinalizer
                && n is RemovingFinalizer,
            (GatewayState::RemovingFinalizer, GatewayEvent::FinalizerRemoved(Ok(_))) => {
                x matches GatewayAction::Stop(v) && v.outcome == ReconcileOutcome::Success
                    && v.requeue == Requeue::AwaitChange
            },
            (GatewayState::AddingFinalizer, GatewayEvent::FinalizerAdded(Ok(_))) => {
                if gw.spec.plugin_set_ref is Some {
                    x is FindPluginSet && n is FindingPluginSet
                } else {
                    x is FindRevocationList && n == GatewayState::FindingRevocationList(None)
                }
            },
            (GatewayState::FindingPluginSet, GatewayEvent::PluginSetFound(Ok(Some(set)))) => {
                (x is FindDocument && n == GatewayState::FindingDocument(set)) || (
                x is FindRevocationList && n is FindingRevocationList)
            },
            (GatewayState::FindingPluginSet, GatewayEvent::PluginSetFound(Ok(None))) => {
                &&& x is FindRevocationList
                &&& n matches GatewayState::FindingRevocationList(p) && set_resolved(
                    gw,
                    b.namespace@,
                    None,
                    None,
                    p,
                )
            },
            (GatewayState::FindingDocument(set), GatewayEvent::DocumentFound(Ok(found))) => {
                &&& x is FindRevocationList
                &&& n matches GatewayState::FindingRevocationList(p) && set_resolved(
                    gw,
                    b.namespace@,
                    Some(set),
                    match found {
                        Some(data) => Some(data@),
                        None => None,
                    },
                    p,
                )
            },
            (
                GatewayState::FindingRevocationList(p),
                GatewayEvent::RevocationListFound(Ok(Some(list))),
            ) => x is ApplyRevocationList && n == GatewayState::ApplyingRevocationList(p, list),
            (
                GatewayState::FindingRevocationList(p),
                GatewayEvent::RevocationListFound(Ok(None)),
            ) => keeps_set(gw, p, n, x),
            (
                GatewayState::ApplyingRevocationList(p, _),
                GatewayEvent::RevocationListApplied(_),
            ) => keeps_set(gw, p, n, x),
            (GatewayState::FindingCluster(p, l), GatewayEvent::ClusterFound(Ok(_))) => {
                &&& x is MergePlugins
                &&& n matches GatewayState::MergingPlugins(d) && d.plugin_set == p
                    && d.revocation_list == l
            },
            (GatewayState::MergingPlugins(d), GatewayEvent::PluginsMerged(base)) => x is ListRoutes
                && n == GatewayState::ListingRoutes(d, base),
            (GatewayState::ListingRoutes(d, base), GatewayEvent::RoutesListed(routes)) => x
                is ListServers && n == GatewayState::ListingServers(d, base, routes),
            (
                GatewayState::ListingServers(d, base, routes),
                GatewayEvent::ServersListed(servers),
            ) => {
                let config = composed_config(
                    gw,
                    b.namespace@,
                    base.view(),
                    binding_block(d.cluster),
                    listed(routes),
                    listed(servers),
                );
                if gw.spec.cloud is Some {
                    x matches GatewayAction::AddDefaults(c) && c.view() == config && (
                    n matches GatewayState::AddingDefaults(d2, _) && d2 == d)
                } else {
                    x matches GatewayAction::Render(c) && c.view() == config && n
                        == GatewayState::Rendering(d)
                }
            },
            (GatewayState::AddingDefaults(d, _), GatewayEvent::DefaultsAdded(with)) => {
                gw.spec.cloud is Some ==> (x matches GatewayAction::Render(c) && c.view()
                    == with.view() && n == GatewayState::Rendering(d))
            },
            (GatewayState::Rendering(d), GatewayEvent::Rendered { config_hash, has }) => {
                &&& x == GatewayAction::Apply(GatewayChild::ConfigMap)
                &&& n matches GatewayState::Applying {
                    dependencies,
                    config_hash: h,
                    children,
                    next,
                    deployment,
                } && dependencies == d && h == config_hash && children@ == order(has) && next == 0
                    && deployment.replicas is None && deployment.ready_replicas is None
                    && deployment.updated_replicas is None && deployment.available_replicas is None
            },
            (
                GatewayState::Applying { dependencies, config_hash, children, next, deployment },
                GatewayEvent::ChildApplied(Ok(came_back)),
            ) => next + 1 < children@.len() ==> {
                &&& x == GatewayAction::Apply(children@[next + 1])
                &&& n matches GatewayState::Applying {
                    dependencies: d2,
                    config_hash: h2,
                    children: c2,
                    next: k,
                    deployment: s2,
                }
                &&& d2 == dependencies && h2 == config_hash && c2 == children && k == next + 1
                &&& s2 == (if children@[next as int] is Deployment {
                    came_back
                } else {
                    deployment
                })
            },
            (
                GatewayState::Applying { .. },
                GatewayEvent::ChildApplied(Err(err)),
            ) => x == GatewayAction::Fail(err) || x is Nothing,
            (GatewayState::RemovingFinalizer, GatewayEvent::FinalizerRemoved(Err(d))) => x
                == GatewayAction::Fail(ReconcileError::Finalizer(d)),
            (GatewayState::AddingFinalizer, GatewayEvent::FinalizerAdded(Err(d))) => x
                == GatewayAction::Fail(ReconcileError::Finalizer(d)),
            (GatewayState::FindingPluginSet, GatewayEvent::PluginSetFound(Err(d))) => x
                == GatewayAction::Fail(ReconcileError::Kube(d)),
            (GatewayState::FindingDocument(_), GatewayEvent::DocumentFound(Err(d))) => x
                == GatewayAction::Fail(ReconcileError::Kube(d)),
            (
                GatewayState::FindingRevocationList(_),
                GatewayEvent::RevocationListFound(Err(d)),
            ) => x == GatewayAction::Fail(ReconcileError::Kube(d)),
            (GatewayState::FindingCluster(_, _), GatewayEvent::ClusterFound(Err(d))) => x
                == GatewayAction::Fail(ReconcileError::Kube(d)),
            _ => true,
        },
{
}

/// Whether the reconcile goes on with the resolved plugin set: to the cluster
/// when the gateway names one, and to the plugins otherwise.
pub open spec fn keeps_set(
    gw: MCPGGateway,
    p: Option<ResolvedPluginSet>,
    n: GatewayState,
    x: GatewayAction,
) -> bool {
    if gw.spec.cluster_ref is Some {
        x is FindCluster && (n matches GatewayState::FindingCluster(q, _) && q == p)
    } else {
        x is MergePlugins && (n matches GatewayState::MergingPlugins(d) && d.plugin_set == p
            && d.cluster is None)
    }
}

/// The report on a gateway is about the counts that its Deployment came back
/// with.
pub proof fn law_report_is_about_the_deployment(
    gw: MCPGGateway,
    b: Begin,
    s: GatewayState,
    e: GatewayEvent,
    n: GatewayState,
    x: GatewayAction,
)
    requires
        step_is(gw, b, s, e, n, x),
        x is Complete,
        s->deployment.available_replicas is Some,
        !(s->children@[s->next as int] is Deployment),
    ensures
        s is Applying,
        x->Complete_0.status.available_replicas == s->deployment.available_replicas,
        x->Complete_0.status.observed_generation == Some(b.generation),
{
}

proof fn lemma_truth()
    ensures
        "True"@ != "False"@,
{
    reveal_strlit("True");
    reveal_strlit("False");
    assert("True"@.len() == 4);
    assert("False"@.len() == 5);
}

/// Whether a plugin set says that it is ready and names its document by a
/// hash.
pub open spec fn offers_document(set: MCPGPluginSet) -> bool {
    set.status matches Some(s) && {
        &&& exists|i: int|
            0 <= i < s.conditions@.len() && (#[trigger] s.conditions@[i]).type_@ == "Ready"@
                && s.conditions@[i].status@ == "True"@
        &&& s.resolved_hash matches Some(h) && h@.len() > 0
    }
}

/// A gateway uses the plugins of its set exactly when the set is there and
/// ready and its document is there and can be read; its condition says so. It
/// then uses the entries of the document with the capabilities that the set
/// grants, and mounts one Secret for each; otherwise it mounts none.
pub proof fn law_gateway_uses_a_ready_set(
    gw: MCPGGateway,
    ns: Seq<char>,
    set: Option<MCPGPluginSet>,
    data: Option<Map<Seq<char>, Seq<char>>>,
    r: Option<ResolvedPluginSet>,
)
    requires
        set_resolved(gw, ns, set, data, r),
    ensures
        r is Some <==> gw.spec.plugin_set_ref is Some,
        r matches Some(p) ==> {
            let text = match data {
                Some(d) => if d.dom().contains("plugins.json"@) {
                    d["plugins.json"@]
                } else {
                    Seq::empty()
                },
                None => Seq::empty(),
            };
            let usable = set is Some && offers_document(set->0) && data is Some && read_text(
                text,
            ) is Ok;
            &&& p.view is Some <==> usable
            &&& p.condition@.status == "True"@ <==> usable
            &&& p.condition@.type_ == "PluginSetReady"@
            &&& p.view matches Some(v) ==> {
                &&& view_entries(p.view) == Some(read_text(text)->Ok_0)
                &&& grants_view(v.capability_grants@) == grants_view(
                    set->0.spec.capability_grants@,
                )
                &&& p.mounts@.len() == v.entries@.len()
                &&& forall|i: int|
                    0 <= i < v.entries@.len() ==> (#[trigger] p.mounts@[i]).plugin_id@
                        == v.entries@[i].id@ && p.mounts@[i].secret_name@
                        == v.entries@[i].artefact_secret_name@
            }
            &&& p.view is None ==> p.mounts@.len() == 0
            &&& set matches Some(s) ==> (s.status matches Some(st) ==> (
            st.resolved_hash matches Some(h) ==> p.resolved_hash@ == h@))
            &&& set is None ==> p.resolved_hash@.len() == 0
        },
{
    lemma_truth();
    if let Some(s) = set {
        if let Some(st) = s.status {
            let v = crate::api::conditions::conditions_view(st.conditions@);
            assert forall|i: int| 0 <= i < v.len() implies #[trigger] v[i].type_
                == st.conditions@[i].type_@ && v[i].status == st.conditions@[i].status@ by {}
            if offers_document(s) {
                let i = choose|i: int|
                    0 <= i < st.conditions@.len() && (#[trigger] st.conditions@[i]).type_@
                        == "Ready"@ && st.conditions@[i].status@ == "True"@;
                assert(v[i].type_ == "Ready"@);
            }
            if crate::api::conditions::is_true(v, "Ready"@) {
                let i = choose|i: int|
                    0 <= i < v.len() && (#[trigger] v[i]).type_ == "Ready"@ && v[i].status
                        == "True"@;
                assert(st.conditions@[i].type_@ == "Ready"@);
            }
        }
    }
    if let Some(p) = r {
        let m = mounts_view(p.mounts@);
        assert(m.len() == p.mounts@.len());
        if let Some(v) = p.view {
            let es = crate::controllers::gateway::plugin_set::entries_view(v.entries@);
            assert(m == crate::controllers::gateway::plugin_set::entry_mounts(es));
            assert forall|i: int| 0 <= i < v.entries@.len() implies (
            #[trigger] p.mounts@[i]).plugin_id@ == v.entries@[i].id@ && p.mounts@[i].secret_name@
                == v.entries@[i].artefact_secret_name@ by {
                assert(m[i] == (es[i].id, es[i].artefact_secret_name));
            }
        }
    }
}

/// A managed-cloud gateway wants a listener for each of its domains, and a
/// certificate for each exactly when there is an issuer; others want nothing
/// at the edge.
pub proof fn law_every_domain_is_wanted(gw: MCPGGateway, issuer: bool, r: Option<EdgePlan>)
    requires
        wants_at_edge(gw, issuer, r),
    ensures
        r is Some <==> gw.spec.cloud is Some,
        r matches Some(p) ==> {
            let domains = texts(gw.spec.cloud->0.custom_domains@);
            &&& texts(p.domains@) == domains
            &&& issuer ==> texts(p.certificates@) == domains
            &&& !issuer ==> p.certificates@.len() == 0
            &&& gw.metadata@.uid matches Some(u) ==> p.uid@ == u
        },
{
    if let Some(p) = r {
        assert(texts(p.certificates@).len() == p.certificates@.len());
    }
}

/// At the edge a gateway gets listeners for exactly the domains that it wants,
/// then one certificate after the other; those that it has and does not want
/// go at the end. Where it wants listeners and they fail, that is an error;
/// where it wants none, nothing is held up.
pub proof fn law_edge_gets_what_is_wanted(s: EdgeState, e: EdgeEvent, n: EdgeState, x: EdgeAction)
    requires
        crate::controllers::gateway::edge_flow::step_is(s, e, n, x),
    ensures
        match (s, e) {
            (EdgeState::Listening(plan), EdgeEvent::ListenersApplied(r)) => {
                if r is Err && plan.domains@.len() > 0 {
                    x == EdgeAction::Fail(ReconcileError::Kube(r->Err_0))
                } else if plan.certificates@.len() > 0 {
                    &&& x matches EdgeAction::ApplyCertificate(d) && d@ == plan.certificates@[0]@
                    &&& n matches EdgeState::Certifying { plan: p, next: k, wanted: w } && p == plan
                        && k == 0 && w@.len() == 0
                } else {
                    &&& x matches EdgeAction::ListCertificates { uid } && uid@ == plan.uid@
                    &&& n matches EdgeState::Listing { wanted: w } && w@.len() == 0
                }
            },
            (
                EdgeState::Certifying { plan, next, wanted },
                EdgeEvent::CertificateApplied(Ok(name)),
            ) => next < plan.certificates@.len() ==> if next + 1 < plan.certificates@.len() {
                &&& x matches EdgeAction::ApplyCertificate(d) && d@ == plan.certificates@[next
                    + 1]@
                &&& n matches EdgeState::Certifying { plan: p, next: k, wanted: w } && p == plan
                    && k == next + 1 && texts(w@) == texts(wanted@).push(name@)
            } else {
                &&& x matches EdgeAction::ListCertificates { uid } && uid@ == plan.uid@
                &&& n matches EdgeState::Listing { wanted: w } && texts(w@) == texts(
                    wanted@,
                ).push(name@)
            },
            (
                EdgeState::Certifying { plan, next, .. },
                EdgeEvent::CertificateApplied(Err(d)),
            ) => next < plan.certificates@.len() ==> x == EdgeAction::Fail(
                ReconcileError::Apply(d),
            ),
            (EdgeState::Listing { wanted }, EdgeEvent::CertificatesListed(found)) => {
                &&& x matches EdgeAction::Finish { prune }
                &&& found is None ==> prune@.len() == 0
                &&& found matches Some(existing) ==> forall|y: Seq<char>| #[trigger]
                    texts(prune@).contains(y) <==> texts(existing@).contains(y) && !texts(
                        wanted@,
                    ).contains(y)
            },
            _ => x is Nothing && n == s,
        },
        x is Fail || x is Finish ==> n is Done,
{
    if let EdgeState::Certifying { wanted: w, .. } = n {
        assert(texts(w@).len() == w@.len());
    }
    if let EdgeState::Listing { wanted: w } = n {
        assert(texts(w@).len() == w@.len());
    }
    if let EdgeState::Listing { wanted } = s {
        if let EdgeEvent::CertificatesListed(found) = e {
            if let EdgeAction::Finish { prune } = x {
                assert(texts(prune@).len() == prune@.len());
                if let Some(existing) = found {
                    assert forall|y: Seq<char>| #[trigger] texts(prune@).contains(y) <==> texts(
                        existing@,
                    ).contains(y) && !texts(wanted@).contains(y) by {
                        law_stale(texts(existing@), texts(wanted@), y);
                    }
                }
            }
        }
    }
}

/// An entry of the document is read exactly when its five texts are there, and
/// what is read of it is what is there; a missing config is null.
pub proof fn law_entry_is_read_iff_whole(e: JsonView, index: nat)
    ensures
        read_entry(e, index) is Ok <==> get_str(e, "id"@) is Some && get_str(
            e,
            "pluginClass"@,
        ) is Some && get_str(e, "pluginVersion"@) is Some && get_str(
            e,
            "artefactSecretName"@,
        ) is Some && get_str(e, "resolvedDigest"@) is Some,
        read_entry(e, index) matches Ok(r) ==> {
            &&& get_str(e, "id"@) == Some(r.id)
            &&& get_str(e, "pluginClass"@) == Some(r.plugin_class)
            &&& get_str(e, "pluginVersion"@) == Some(r.plugin_version)
            &&& get_str(e, "artefactSecretName"@) == Some(r.artefact_secret_name)
            &&& get_str(e, "resolvedDigest"@) == Some(r.resolved_digest)
            &&& get(e, "config"@) matches Some(c) ==> r.config == c
            &&& get(e, "config"@) is None ==> r.config is Null
        },
{
}

/// The entries of a document are read exactly when each of them is, each at its
/// place; otherwise the first that is not says what is wrong.
pub proof fn law_entries_are_read_in_order(items: Seq<JsonView>)
    ensures
        read_entries(items) is Ok <==> forall|i: int|
            0 <= i < items.len() ==> read_entry(#[trigger] items[i], i as nat) is Ok,
        read_entries(items) matches Ok(r) ==> r.len() == items.len() && forall|i: int|
            0 <= i < items.len() ==> read_entry(#[trigger] items[i], i as nat) == Ok::<
                EntryView,
                Seq<char>,
            >(r[i]),
        read_entries(items) matches Err(m) ==> exists|i: int|
            0 <= i < items.len() && read_entry(#[trigger] items[i], i as nat) == Err::<
                EntryView,
                Seq<char>,
            >(m) && forall|j: int|
                0 <= j < i ==> read_entry(#[trigger] items[j], j as nat) is Ok,
    decreases items.len(),
{
    if items.len() > 0 {
        let init = items.drop_last();
        let last = items.len() - 1;
        law_entries_are_read_in_order(init);
        assert forall|j: int| 0 <= j < init.len() implies #[trigger] items[j] == init[j] by {}
        assert(items[last] == items.last());
        if let Err(m) = read_entries(init) {
            let i = choose|i: int|
                0 <= i < init.len() && read_entry(#[trigger] init[i], i as nat) == Err::<
                    EntryView,
                    Seq<char>,
                >(m) && forall|j: int|
                    0 <= j < i ==> read_entry(#[trigger] init[j], j as nat) is Ok;
            assert(read_entry(items[i], i as nat) == Err::<EntryView, Seq<char>>(m));
        }
    }
}

/// What was looked up is what counts, and what was not found is missing.
pub proof fn law_what_was_found_counts(
    set: MCPGPluginSet,
    list: MCPGRevocationList,
    cluster: MCPGCluster,
    data: StringMap,
)
    ensures
        found_set(Some(&set)) == Some(set) && found_set(None) is None,
        found_list(Some(&list)) == Some(list) && found_list(None) is None,
        found_cluster(Some(&cluster)) == Some(cluster) && found_cluster(None) is None,
        found_data(Some(&data)) == Some(data@) && found_data(None) is None,
{
}

/// A document is read by its list of entries, and one without such a list is not
/// read; neither is a text that is no document.
pub proof fn law_document_is_its_entries(doc: JsonView, items: Seq<JsonView>, text: Seq<char>)
    ensures
        get(doc, "entries"@) == Some(JsonView::Array(items)) ==> read_document(doc) == read_entries(
            items,
        ),
        !(get(doc, "entries"@) matches Some(JsonView::Array(_))) ==> read_document(doc) is Err,
        parsed(text) == Ok::<JsonView, Seq<char>>(doc) ==> read_text(text) == read_document(doc),
        parsed(text) is Err ==> read_text(text) is Err,
{
}

/// The block of a cluster is the one that the cluster resolved to, and nothing
/// without a cluster; a list that could not be fetched is empty, and any other is
/// the list that was fetched.
pub proof fn law_missing_parts_are_empty(c: ResolvedCluster, routes: Vec<MCPGRoute>)
    ensures
        binding_block(Some(c)) == c.cluster_block.view(),
        binding_block(None) is Null,
        listed(Some(routes)) == routes@,
        listed(None::<Vec<MCPGRoute>>).len() == 0,
{
}

} // verus!
