//! What holds of the reconciles of revocation lists, clusters, mirrors, routes
//! and servers.
use vstd::prelude::*;

use crate::api::conditions::{conditions_view, lemma_upserts_are_told, told, EventType};
use crate::api::resources::{
    MCPGCluster, MCPGGateway, MCPGPlugin, MCPGPluginMirror, MCPGRevocationList,
    MCPGRevocationListSpec, MCPGRoute, MCPGServer,
};
use crate::clock::time_text;
use crate::controllers::cluster;
use crate::controllers::cluster::flow::{ClusterAction, ClusterEvent, ClusterState};
use crate::controllers::plugin_mirror;
use crate::controllers::plugin_mirror::flow::{MirrorAction, MirrorEvent, MirrorState};
use crate::controllers::revocation_list;
use crate::controllers::revocation_list::flow::{ListAction, ListEvent, ListState};
use crate::controllers::route;
use crate::controllers::route::flow::{RouteAction, RouteEvent, RouteState};
use crate::controllers::server;
use crate::controllers::server::flow::{ServerAction, ServerEvent, ServerState};
use crate::controllers::server::report::{ImageCheck, ImageVerdict, ServerReport};
use crate::hashing::text_hash;
use crate::json::{get, get_str, integer, pretty_text, JsonView};
use crate::oci_pull::pinned_digest;
use crate::reconcile::flow::{Begin, ReconcileError, Requeue};
use crate::telemetry::ReconcileOutcome;
use crate::text::{occurs, opt_text, texts, trim};

verus! {

proof fn lemma_list_keys()
    ensures
        "artifact_sha256"@ != "reason"@,
        "artifact_sha256"@ != "revoked_at"@,
        "artifact_sha256"@ != "version"@,
        "artifact_sha256"@ != "issued_at"@,
        "artifact_sha256"@ != "revocations"@,
        "reason"@ != "revoked_at"@,
        "reason"@ != "version"@,
        "reason"@ != "issued_at"@,
        "reason"@ != "revocations"@,
        "revoked_at"@ != "version"@,
        "revoked_at"@ != "issued_at"@,
        "revoked_at"@ != "revocations"@,
        "version"@ != "issued_at"@,
        "version"@ != "revocations"@,
        "issued_at"@ != "revocations"@,
{
    reveal_strlit("artifact_sha256");
    reveal_strlit("reason");
    reveal_strlit("revoked_at");
    reveal_strlit("version");
    reveal_strlit("issued_at");
    reveal_strlit("revocations");
    assert("artifact_sha256"@.len() == 15);
    assert("reason"@.len() == 6);
    assert("revoked_at"@.len() == 10);
    assert("version"@.len() == 7);
    assert("issued_at"@.len() == 9);
    assert("revocations"@.len() == 11);
}

/// Every revocation of a list is handed out, in its place: the document has as
/// many entries as the list, each with the digest in lower case, the reason,
/// and the time where it is known.
pub proof fn law_every_revocation_is_handed_out(spec: MCPGRevocationListSpec, i: int)
    requires
        0 <= i < spec.revocations@.len(),
    ensures
        get(revocation_list::list::list_json(spec), "revocations"@) matches Some(
            JsonView::Array(items),
        ) && {
            &&& items.len() == spec.revocations@.len()
            &&& get_str(items[i], "artifact_sha256"@) matches Some(digest)
            &&& digest.len() == spec.revocations@[i].artifact_sha256@.len()
            &&& forall|k: int|
                0 <= k < digest.len() ==> {
                    let c = spec.revocations@[i].artifact_sha256@[k];
                    if 'A' <= c <= 'Z' {
                        #[trigger] digest[k] as u32 == c as u32 + 32
                    } else {
                        digest[k] == c
                    }
                }
            &&& get_str(items[i], "reason"@) == Some(spec.revocations@[i].reason@)
            &&& get_str(items[i], "revoked_at"@) == time_text(spec.revocations@[i].revoked_at)
        },
{
    lemma_list_keys();
}

/// The document has as many entries as the list, the version of the list, and
/// the time of its issue where it is known.
pub proof fn law_document_is_the_list(spec: MCPGRevocationListSpec)
    ensures
        get(revocation_list::list::list_json(spec), "revocations"@) matches Some(
            JsonView::Array(items),
        ) && items.len() == spec.revocations@.len(),
        get(revocation_list::list::list_json(spec), "version"@) == Some(
            JsonView::Number(integer(spec.version as u64)),
        ),
        get_str(revocation_list::list::list_json(spec), "issued_at"@) == time_text(spec.issued_at),
{
    lemma_list_keys();
}

proof fn lemma_map_labels()
    ensures
        "app.kubernetes.io/managed-by"@ != "mcpg.dev/revocation-list"@,
        "app.kubernetes.io/managed-by"@ != "mcpg.dev/content-hash"@,
        "mcpg.dev/revocation-list"@ != "mcpg.dev/content-hash"@,
{
    reveal_strlit("app.kubernetes.io/managed-by");
    reveal_strlit("mcpg.dev/revocation-list");
    reveal_strlit("mcpg.dev/content-hash");
    assert("app.kubernetes.io/managed-by"@.len() == 28);
    assert("mcpg.dev/revocation-list"@.len() == 24);
    assert("mcpg.dev/content-hash"@.len() == 21);
}

proof fn lemma_truth()
    ensures
        "True"@ != "False"@,
        "True"@ != "Ready"@,
        "True"@ != "GatewayBound"@,
        "True"@ != "ChainsEnforced"@,
        "True"@ != "ImageVerified"@,
        "False"@ != "Ready"@,
        "False"@ != "GatewayBound"@,
        "False"@ != "ChainsEnforced"@,
        "False"@ != "ImageVerified"@,
        "Ready"@ != "GatewayBound"@,
        "Ready"@ != "ChainsEnforced"@,
        "Ready"@ != "ImageVerified"@,
        "GatewayBound"@ != "ChainsEnforced"@,
        "GatewayBound"@ != "ImageVerified"@,
        "ChainsEnforced"@ != "ImageVerified"@,
{
    reveal_strlit("True");
    reveal_strlit("False");
    reveal_strlit("Ready");
    reveal_strlit("GatewayBound");
    reveal_strlit("ChainsEnforced");
    reveal_strlit("ImageVerified");
    assert("True"@.len() == 4);
    assert("False"@.len() == 5);
    assert("Ready"@.len() == 5);
    assert("GatewayBound"@.len() == 12);
    assert("ChainsEnforced"@.len() == 14);
    assert("ImageVerified"@.len() == 13);
    assert("False"@[0] == 'F');
    assert("Ready"@[0] == 'R');
}

/// The ConfigMap of a revocation list stands in the namespace that it is for,
/// under the name and the key that pods mount, and carries the list's name and
/// the hash of its content.
pub proof fn law_list_map_holds_the_list(
    list: MCPGRevocationList,
    ns: Seq<char>,
    rendered: Seq<char>,
    hash: Seq<char>,
)
    ensures
        ({
            let c = revocation_list::list::list_configmap(list, ns, rendered, hash);
            &&& c.metadata.name == Some("mcpg-revocation-list"@)
            &&& c.metadata.namespace == Some(ns)
            &&& c.metadata.owner_references is None
            &&& c.data.dom().contains("revocations.json"@) && c.data["revocations.json"@]
                == rendered
            &&& c.metadata.labels matches Some(labels)
            &&& labels.dom().contains("mcpg.dev/content-hash"@)
            &&& labels["mcpg.dev/content-hash"@] == hash
            &&& list.metadata@.name matches Some(n) ==> labels.dom().contains(
                "mcpg.dev/revocation-list"@,
            ) && labels["mcpg.dev/revocation-list"@] == n
        }),
{
    lemma_map_labels();
}

/// A list is reported ready exactly when it reached every namespace that it is
/// for; the report says how many it reached and how many it revokes.
pub proof fn law_list_is_ready_iff_it_reached_all(
    list: MCPGRevocationList,
    generation: i64,
    done: nat,
    targets: nat,
    hash: Seq<char>,
    r: revocation_list::list::RevocationListReport,
)
    requires
        revocation_list::list::reports(list, generation, done, targets, hash, r),
    ensures
        told(r.report@.conditions, "Ready"@) matches Some(c) && c.status == (if done == targets {
            "True"@
        } else {
            "False"@
        }) && c.observed_generation == Some(generation),
        r.report@.verdict.outcome == (if done == targets {
            ReconcileOutcome::Success
        } else {
            ReconcileOutcome::DependencyPending
        }),
        r.report@.verdict.requeue == Requeue::AfterSecs(60),
        r.report@.event matches Some(e) && (e.type_ == EventType::Normal <==> done == targets),
        r.observed_generation == generation,
        r.materialised_namespaces == done,
        r.observed_revocations == list.spec.revocations@.len(),
        r.content_hash@ == hash,
{
    lemma_truth();
    lemma_upserts_are_told();
}

/// A list is put into the namespace of each gateway in turn, whether or not
/// that worked for the one before; only those where it worked count. A failed
/// request is an error, so that the reconcile is tried again.
pub proof fn law_list_is_served_in_turn(
    list: MCPGRevocationList,
    b: Begin,
    s: ListState,
    e: ListEvent,
    n: ListState,
    x: ListAction,
)
    requires
        revocation_list::flow::step_is(list, b, s, e, n, x),
    ensures
        match (s, e) {
            (ListState::AddingFinalizer, ListEvent::FinalizerAdded(Ok(_))) => x is ListGateways,
            (ListState::ListingGateways, ListEvent::GatewaysListed(Ok(gws))) => {
                match n {
                    ListState::Applying { targets, next, materialised } => {
                        &&& next == 0 && materialised == 0
                        &&& puts_list(list, targets@[0]@, x)
                        &&& forall|y: Seq<char>| #[trigger]
                            texts(targets@).contains(y) <==> exists|i: int|
                                0 <= i < gws@.len() && (#[trigger] gws@[i]).metadata@.namespace
                                    == Some(y)
                    },
                    _ => x is Complete && forall|i: int|
                        0 <= i < gws@.len() ==> (#[trigger] gws@[i]).metadata@.namespace is None,
                }
            },
            (ListState::Applying { targets, next, materialised }, ListEvent::Applied(r)) => {
                materialised <= next < targets@.len() ==> {
                    let done = if r is Ok {
                        materialised + 1
                    } else {
                        materialised as int
                    };
                    if next + 1 < targets@.len() {
                        &&& puts_list(list, targets@[next + 1]@, x)
                        &&& n matches ListState::Applying { next: k, materialised: m, targets: t }
                            && k == next + 1 && m == done && texts(t@) == texts(targets@)
                    } else {
                        x matches ListAction::Complete(report) && report.materialised_namespaces
                            == done && report.observed_generation == b.generation
                    }
                }
            },
            (ListState::RemovingFinalizer, ListEvent::FinalizerRemoved(Ok(_))) => {
                x matches ListAction::Stop(v) && v.outcome == ReconcileOutcome::Success
                    && v.requeue == Requeue::AwaitChange
            },
            (ListState::RemovingFinalizer, ListEvent::FinalizerRemoved(Err(d))) => x
                == ListAction::Fail(ReconcileError::Finalizer(d)),
            (ListState::AddingFinalizer, ListEvent::FinalizerAdded(Err(d))) => x
                == ListAction::Fail(ReconcileError::Finalizer(d)),
            (ListState::ListingGateways, ListEvent::GatewaysListed(Err(d))) => x
                == ListAction::Fail(ReconcileError::Kube(d)),
            _ => x is Nothing,
        },
{
    lemma_map_labels();
    match (s, e) {
        (ListState::ListingGateways, ListEvent::GatewaysListed(Ok(gws))) => {
            let all = crate::ordered::sorted_set(
                revocation_list::list::gateway_namespaces(gws@),
            );
            assert forall|y: Seq<char>| #[trigger] all.contains(y) <==> exists|i: int|
                0 <= i < gws@.len() && (#[trigger] gws@[i]).metadata@.namespace == Some(y) by {
                revocation_list::list::law_list_reaches_every_gateway(gws@, y);
            }
            if all.len() == 0 {
                assert forall|i: int| 0 <= i < gws@.len() implies (
                #[trigger] gws@[i]).metadata@.namespace is None by {
                    if let Some(y) = gws@[i].metadata@.namespace {
                        assert(gws@[i].metadata@.namespace == Some(y));
                        assert(all.contains(y));
                    }
                }
            } else if let ListState::Applying { targets, .. } = n {
                assert(texts(targets@)[0] == targets@[0]@);
            }
        },
        (ListState::Applying { targets, next, .. }, _) => {
            assert(texts(targets@).len() == targets@.len());
            if next + 1 < targets@.len() {
                assert(texts(targets@)[next + 1] == targets@[next + 1]@);
            }
        },
        _ => {},
    }
}

/// Whether an action puts a list into a namespace.
pub open spec fn puts_list(list: MCPGRevocationList, ns: Seq<char>, x: ListAction) -> bool {
    let text = pretty_text(revocation_list::list::list_json(list.spec));
    &&& x matches ListAction::Apply(cm)
    &&& cm@.metadata.namespace == Some(ns)
    &&& cm@.data.dom().contains("revocations.json"@)
    &&& cm@.data["revocations.json"@] == text
    &&& cm@.metadata.labels matches Some(labels) && labels.dom().contains(
        "mcpg.dev/content-hash"@,
    ) && labels["mcpg.dev/content-hash"@] == text_hash(text)
}

/// Whether a plugin says in its status that it is ready, and is not revoked.
pub open spec fn plugin_usable(p: MCPGPlugin) -> bool {
    p.status matches Some(s) && {
        &&& s.revoked_by_sha != Some(true)
        &&& exists|i: int|
            0 <= i < s.conditions@.len() && (#[trigger] s.conditions@[i]).type_@ == "Ready"@
                && s.conditions@[i].status@ == "True"@
    }
}

proof fn lemma_plugin_usable(p: MCPGPlugin)
    ensures
        plugin_usable(p) <==> crate::controllers::plugin_set::resolve::says_ready(p.status)
            && !crate::controllers::plugin_set::resolve::is_revoked(p.status),
{
    if let Some(s) = p.status {
        let v = conditions_view(s.conditions@);
        assert forall|i: int| 0 <= i < v.len() implies #[trigger] v[i].type_
            == s.conditions@[i].type_@ && v[i].status == s.conditions@[i].status@ by {}
        if plugin_usable(p) {
            let i = choose|i: int|
                0 <= i < s.conditions@.len() && (#[trigger] s.conditions@[i]).type_@ == "Ready"@
                    && s.conditions@[i].status@ == "True"@;
            assert(v[i].type_ == "Ready"@);
        }
        if crate::api::conditions::is_true(v, "Ready"@) {
            let i = choose|i: int|
                0 <= i < v.len() && (#[trigger] v[i]).type_ == "Ready"@ && v[i].status == "True"@;
            assert(s.conditions@[i].type_@ == "Ready"@);
        }
    }
}

/// A cluster can be bound exactly when it names no plugin, or the plugin that
/// it names is there, says that it is ready and is not revoked; it is reported
/// so, with the reason, and a cluster that cannot be bound is warned about.
pub proof fn law_cluster_is_ready_iff_bindable(
    c: MCPGCluster,
    generation: i64,
    plugin: Option<MCPGPlugin>,
    gateways: nat,
    r: cluster::report::ClusterReport,
)
    requires
        cluster::report::reports(c, generation, plugin, gateways, r),
    ensures
        ({
            let ok = c.spec.plugin_ref is None || (plugin is Some && plugin_usable(plugin->0));
            &&& told(r.report@.conditions, "Ready"@) matches Some(x)
            &&& x.status == (if ok {
                "True"@
            } else {
                "False"@
            })
            &&& x.observed_generation == Some(generation)
            &&& x.reason == (if ok {
                "Bindable"@
            } else if plugin is None {
                "ClusterPluginNotFound"@
            } else {
                "ClusterPluginNotReady"@
            })
            &&& r.report@.event is None <==> ok
            &&& r.report@.verdict.outcome == (if ok {
                ReconcileOutcome::Success
            } else {
                ReconcileOutcome::DependencyPending
            })
            &&& r.report@.verdict.requeue == Requeue::Resync
        }),
        r.observed_generation == generation,
        r.bound_gateways == gateways,
        opt_text(r.plugin_id) == opt_text(c.spec.backend.plugin_id),
{
    lemma_truth();
    lemma_upserts_are_told();
    if let Some(p) = plugin {
        lemma_plugin_usable(p);
    }
}

/// The gateways that are counted for a cluster are those that name it.
pub proof fn law_bound_gateways_are_counted(
    gws: Seq<MCPGGateway>,
    g: MCPGGateway,
    name: Seq<char>,
)
    ensures
        cluster::report::bound(Seq::empty(), name) == 0,
        cluster::report::bound(gws.push(g), name) == cluster::report::bound(gws, name) + (if (
        g.spec.cluster_ref matches Some(r) && r.name@ == name) {
            1nat
        } else {
            0nat
        }),
{
    assert(gws.push(g).drop_last() =~= gws);
}

/// The plugins that are counted for a mirror are those that name it.
pub proof fn law_proxied_plugins_are_counted(
    plugins: Seq<MCPGPlugin>,
    p: MCPGPlugin,
    name: Seq<char>,
)
    ensures
        plugin_mirror::report::proxied(Seq::empty(), name) == 0,
        plugin_mirror::report::proxied(plugins.push(p), name) == plugin_mirror::report::proxied(
            plugins,
            name,
        ) + (if (p.spec.oci.mirror_ref matches Some(r) && r.name@ == name) {
            1nat
        } else {
            0nat
        }),
{
    assert(plugins.push(p).drop_last() =~= plugins);
}

/// A cluster looks up the plugin that it names and counts the gateways that
/// name it; what was found is what it reports on.
pub proof fn law_cluster_looks_up_its_plugin(
    c: MCPGCluster,
    b: Begin,
    s: ClusterState,
    e: ClusterEvent,
    n: ClusterState,
    x: ClusterAction,
)
    requires
        cluster::flow::step_is(c, b, s, e, n, x),
    ensures
        match (s, e) {
            (ClusterState::AddingFinalizer, ClusterEvent::FinalizerAdded(Ok(_))) => {
                match c.spec.plugin_ref {
                    Some(p) => x matches ClusterAction::FindPlugin(name) && name@ == p.name@ && n
                        is FindingPlugin,
                    None => x is ListGateways && n == ClusterState::ListingGateways(None),
                }
            },
            (ClusterState::FindingPlugin, ClusterEvent::PluginFound(Ok(found))) => x
                is ListGateways && n == ClusterState::ListingGateways(found),
            (ClusterState::ListingGateways(plugin), ClusterEvent::GatewaysListed(Ok(gws))) => {
                x matches ClusterAction::Complete(r) && cluster::report::reports(
                    c,
                    b.generation,
                    plugin,
                    cluster::report::bound(gws@, b.name@),
                    r,
                )
            },
            (ClusterState::RemovingFinalizer, ClusterEvent::FinalizerRemoved(Ok(_))) => {
                x matches ClusterAction::Stop(v) && v.outcome == ReconcileOutcome::Success
                    && v.requeue == Requeue::AwaitChange
            },
            (ClusterState::RemovingFinalizer, ClusterEvent::FinalizerRemoved(Err(d))) => x
                == ClusterAction::Fail(ReconcileError::Finalizer(d)),
            (ClusterState::AddingFinalizer, ClusterEvent::FinalizerAdded(Err(d))) => x
                == ClusterAction::Fail(ReconcileError::Finalizer(d)),
            (ClusterState::FindingPlugin, ClusterEvent::PluginFound(Err(d))) => x
                == ClusterAction::Fail(ReconcileError::Kube(d)),
            (ClusterState::ListingGateways(_), ClusterEvent::GatewaysListed(Err(d))) => x
                == ClusterAction::Fail(ReconcileError::Kube(d)),
            _ => x is Nothing,
        },
{
}

/// A mirror is ready exactly when its Service is there. It looks up that
/// Service by its name and namespace, counts the plugins that name the mirror,
/// and reports where pulls are sent.
pub proof fn law_mirror_is_ready_iff_its_service_is_there(
    m: MCPGPluginMirror,
    b: Begin,
    s: MirrorState,
    e: MirrorEvent,
    n: MirrorState,
    x: MirrorAction,
)
    requires
        plugin_mirror::flow::step_is(m, b, s, e, n, x),
    ensures
        match (s, e) {
            (MirrorState::AddingFinalizer, MirrorEvent::FinalizerAdded(Ok(_))) => {
                x matches MirrorAction::FindService { namespace, name } && namespace@
                    == m.spec.endpoint.service.namespace@ && name@ == m.spec.endpoint.service.name@
            },
            (MirrorState::FindingService, MirrorEvent::ServiceFound(Ok(there))) => x is ListPlugins
                && n == MirrorState::ListingPlugins(there),
            (MirrorState::ListingPlugins(there), MirrorEvent::PluginsListed(Ok(plugins))) => {
                &&& x matches MirrorAction::Complete(r)
                &&& r.reachable == there
                &&& r.proxied_references == plugin_mirror::report::proxied(plugins@, b.name@)
                &&& r.endpoint_host@ == m.spec.endpoint.service.host@
                &&& r.observed_generation == b.generation
                &&& told(r.report@.conditions, "Ready"@) matches Some(c)
                &&& c.status == (if there {
                    "True"@
                } else {
                    "False"@
                })
                &&& c.observed_generation == Some(b.generation)
                &&& r.report@.event is None <==> there
                &&& r.report@.verdict.outcome == (if there {
                    ReconcileOutcome::Success
                } else {
                    ReconcileOutcome::DependencyPending
                })
                &&& r.report@.verdict.requeue == Requeue::Resync
            },
            (MirrorState::RemovingFinalizer, MirrorEvent::FinalizerRemoved(Ok(_))) => {
                x matches MirrorAction::Stop(v) && v.outcome == ReconcileOutcome::Success
                    && v.requeue == Requeue::AwaitChange
            },
            (MirrorState::RemovingFinalizer, MirrorEvent::FinalizerRemoved(Err(d))) => x
                == MirrorAction::Fail(ReconcileError::Finalizer(d)),
            (MirrorState::AddingFinalizer, MirrorEvent::FinalizerAdded(Err(d))) => x
                == MirrorAction::Fail(ReconcileError::Finalizer(d)),
            (MirrorState::FindingService, MirrorEvent::ServiceFound(Err(d))) => x
                == MirrorAction::Fail(ReconcileError::Kube(d)),
            (MirrorState::ListingPlugins(_), MirrorEvent::PluginsListed(Err(d))) => x
                == MirrorAction::Fail(ReconcileError::Kube(d)),
            _ => x is Nothing,
        },
{
    lemma_truth();
    lemma_upserts_are_told();
}

/// Whether a route is bound to a gateway that was found: the gateway stands in
/// the route's namespace, or accepts routes from there.
pub open spec fn is_accepted(r: MCPGRoute, ns: Seq<char>, gw: MCPGGateway) -> bool {
    (match r.spec.gateway_ref.namespace {
        Some(n) => n@ == ns,
        None => true,
    }) || texts(gw.spec.accepted_route_namespaces@).contains(ns)
}

/// A route is reported as bound exactly when its gateway was found and accepts
/// it, and as ready exactly when it also names a tool and no plugin by an empty
/// id. That its chains are enforced is never claimed.
pub proof fn law_route_is_ready_iff_bound_and_whole(
    r: MCPGRoute,
    ns: Seq<char>,
    generation: i64,
    gateway: Option<MCPGGateway>,
    x: route::report::RouteReport,
)
    requires
        route::report::reports(r, ns, generation, gateway, x),
    ensures
        ({
            let bound = gateway matches Some(gw) && is_accepted(r, ns, gw);
            let whole = r.spec.tools@.len() > 0 && (forall|i: int|
                0 <= i < r.spec.identity_chain@.len() ==> trim(
                    (#[trigger] r.spec.identity_chain@[i])@,
                ).len() > 0) && (forall|i: int|
                0 <= i < r.spec.policy_chain@.len() ==> trim(
                    (#[trigger] r.spec.policy_chain@[i])@,
                ).len() > 0) && (forall|i: int|
                0 <= i < r.spec.audit_chain@.len() ==> trim(
                    (#[trigger] r.spec.audit_chain@[i])@,
                ).len() > 0);
            let c = x.report@.conditions;
            &&& told(c, "GatewayBound"@) matches Some(g) && g.status == (if bound {
                "True"@
            } else {
                "False"@
            }) && g.observed_generation == Some(generation)
            &&& told(c, "Ready"@) matches Some(g) && g.status == (if bound && whole {
                "True"@
            } else {
                "False"@
            }) && g.observed_generation == Some(generation)
            &&& told(c, "ChainsEnforced"@) matches Some(g) && g.status == "False"@
            &&& x.report@.event is None <==> bound
            &&& x.report@.verdict.outcome == (if bound && whole {
                ReconcileOutcome::Success
            } else {
                ReconcileOutcome::DependencyPending
            })
            &&& x.report@.verdict.requeue == Requeue::Resync
        }),
        x.matched_tools == r.spec.tools@.len(),
        x.observed_generation == generation,
        x.bound_gateway@ == (match r.spec.gateway_ref.namespace {
            Some(n) => n@,
            None => ns,
        }) + "/"@ + r.spec.gateway_ref.name@,
{
    lemma_truth();
    lemma_upserts_are_told();
    lemma_chain(r.spec.identity_chain@);
    lemma_chain(r.spec.policy_chain@);
    lemma_chain(r.spec.audit_chain@);
}

proof fn lemma_chain(chain: Seq<String>)
    ensures
        route::report::has_empty_id(texts(chain)) <==> !(forall|i: int|
            0 <= i < chain.len() ==> trim((#[trigger] chain[i])@).len() > 0),
{
    if route::report::has_empty_id(texts(chain)) {
        let i = choose|i: int| 0 <= i < texts(chain).len() && trim(
            #[trigger] texts(chain)[i],
        ).len() == 0;
        assert(trim(chain[i]@).len() == 0);
    }
    if exists|i: int| 0 <= i < chain.len() && trim((#[trigger] chain[i])@).len() == 0 {
        let i = choose|i: int| 0 <= i < chain.len() && trim((#[trigger] chain[i])@).len() == 0;
        assert(trim(texts(chain)[i]).len() == 0);
    }
}

/// A route looks up the gateway that it targets, in the namespace that it
/// names or its own, and reports on what was found.
pub proof fn law_route_looks_up_its_gateway(
    r: MCPGRoute,
    b: Begin,
    s: RouteState,
    e: RouteEvent,
    n: RouteState,
    x: RouteAction,
)
    requires
        route::flow::step_is(r, b, s, e, n, x),
    ensures
        match (s, e) {
            (RouteState::AddingFinalizer, RouteEvent::FinalizerAdded(Ok(_))) => {
                x matches RouteAction::FindGateway { namespace, name } && name@
                    == r.spec.gateway_ref.name@ && namespace@ == (match r.spec.gateway_ref.namespace {
                    Some(ns) => ns@,
                    None => b.namespace@,
                })
            },
            (RouteState::FindingGateway, RouteEvent::GatewayFound(Ok(gw))) => {
                x matches RouteAction::Complete(report) && route::report::reports(
                    r,
                    b.namespace@,
                    b.generation,
                    gw,
                    report,
                )
            },
            (RouteState::RemovingFinalizer, RouteEvent::FinalizerRemoved(Ok(_))) => {
                x matches RouteAction::Stop(v) && v.outcome == ReconcileOutcome::Success
                    && v.requeue == Requeue::AwaitChange
            },
            (RouteState::RemovingFinalizer, RouteEvent::FinalizerRemoved(Err(d))) => x
                == RouteAction::Fail(ReconcileError::Finalizer(d)),
            (RouteState::AddingFinalizer, RouteEvent::FinalizerAdded(Err(d))) => x
                == RouteAction::Fail(ReconcileError::Finalizer(d)),
            (RouteState::FindingGateway, RouteEvent::GatewayFound(Err(d))) => x
                == RouteAction::Fail(ReconcileError::Kube(d)),
            _ => x is Nothing,
        },
{
}

/// An image is checked exactly when the server asks for it and pins the image
/// to a digest: the server's own image, for the identity that it declares, at
/// the digest that it pins. One that is not pinned is refused.
pub proof fn law_server_image_is_checked_as_declared(s: MCPGServer, r: ImageCheck)
    requires
        server::report::checks(s, r),
    ensures
        s.spec.verify is None <==> r is NotConfigured,
        s.spec.verify is Some && !occurs(s.spec.image@, "@sha256:"@) <==> r is DigestRequired,
        r matches ImageCheck::Check { image, identity, digest } ==> {
            &&& image@ == s.spec.image@
            &&& s.spec.verify matches Some(wanted)
            &&& identity.certificate_identity_regexp@ == wanted.certificate_identity_regexp@
            &&& identity.oidc_issuer@ == wanted.oidc_issuer@
            &&& pinned_digest(s.spec.image@) matches Some(d) ==> digest@ == d
        },
{
}

/// A server is reported as verified exactly when its image needs no check or
/// passed it; as ready exactly when it may run and as many replicas are ready
/// as it asks for; and as bound exactly when it joins a gateway that is there.
pub proof fn law_server_reports_its_state(
    s: MCPGServer,
    ns: Seq<char>,
    generation: i64,
    v: ImageVerdict,
    replicas: i32,
    gateway: bool,
    r: ServerReport,
)
    requires
        server::report::reports(s, ns, generation, v, replicas, gateway, r),
    ensures
        ({
            let c = conditions_view(r.conditions@);
            let may = v is NotConfigured || v is Verified;
            let ready = may && replicas >= s.spec.desired_replicas;
            let bound = s.spec.federate is Some && gateway;
            &&& told(c, "ImageVerified"@) matches Some(x) && x.status == (if may {
                "True"@
            } else {
                "False"@
            }) && x.observed_generation == Some(generation)
            &&& told(c, "Ready"@) matches Some(x) && x.status == (if ready {
                "True"@
            } else {
                "False"@
            }) && x.observed_generation == Some(generation)
            &&& told(c, "GatewayBound"@) matches Some(x) && x.status == (if bound {
                "True"@
            } else {
                "False"@
            }) && x.observed_generation == Some(generation)
            &&& r.verify_event is None <==> may
            &&& r.bind_event is Some <==> s.spec.federate is Some && !gateway
            &&& r.bound_gateway is Some <==> bound
            &&& s.spec.federate matches Some(f) ==> (gateway ==> opt_text(r.bound_gateway) == Some(
                ns + "/"@ + f.gateway_ref.name@,
            ))
            &&& r.verdict.outcome == (if ready {
                ReconcileOutcome::Success
            } else {
                ReconcileOutcome::DependencyPending
            })
            &&& r.verdict.requeue == Requeue::Resync
        }),
        r.ready_replicas == replicas,
        r.endpoint@ == s.spec.endpoint@,
        r.observed_generation == generation,
{
    lemma_truth();
    lemma_upserts_are_told();
}

/// A server whose image may run is applied, first its Deployment and then its
/// Service; one whose image may not run is left as it is. Either way its
/// replicas are counted, the gateway that it joins is looked up, and what was
/// found is what it reports on.
pub proof fn law_server_is_applied_and_reported(
    obj: MCPGServer,
    b: Begin,
    s: ServerState,
    e: ServerEvent,
    n: ServerState,
    x: ServerAction,
)
    requires
        server::flow::step_is(obj, b, s, e, n, x),
    ensures
        match (s, e) {
            (ServerState::AddingFinalizer, ServerEvent::FinalizerAdded(Ok(_))) => {
                if obj.spec.verify is None {
                    x is ApplyDeployment && n == ServerState::ApplyingDeployment(
                        ImageVerdict::NotConfigured,
                    )
                } else if !occurs(obj.spec.image@, "@sha256:"@) {
                    x is FindDeployment && n == ServerState::FindingDeployment(
                        ImageVerdict::DigestRequired,
                    )
                } else {
                    x is CheckImage && n is CheckingImage && x->image@ == obj.spec.image@
                }
            },
            (ServerState::CheckingImage, ServerEvent::ImageChecked(Ok(_))) => x is ApplyDeployment
                && n == ServerState::ApplyingDeployment(ImageVerdict::Verified),
            (ServerState::CheckingImage, ServerEvent::ImageChecked(Err(d))) => x is FindDeployment
                && n == ServerState::FindingDeployment(ImageVerdict::Failed(d)),
            (ServerState::ApplyingDeployment(v), ServerEvent::DeploymentApplied(Ok(_))) => x
                is ApplyService && n == ServerState::ApplyingService(v),
            (ServerState::ApplyingService(v), ServerEvent::ServiceApplied(Ok(_))) => {
                &&& x matches ServerAction::FindDeployment(name) && name@ == obj.spec.child_name@
                &&& n == ServerState::FindingDeployment(v)
            },
            (ServerState::FindingDeployment(v), ServerEvent::DeploymentFound(Ok(ready))) => {
                let replicas: i32 = match ready {
                    Some(k) => k,
                    None => 0,
                };
                match obj.spec.federate {
                    Some(f) => {
                        &&& x matches ServerAction::FindGateway(name) && name@
                            == f.gateway_ref.name@
                        &&& n == ServerState::FindingGateway(v, replicas)
                    },
                    None => x matches ServerAction::Complete(r) && server::report::reports(
                        obj,
                        b.namespace@,
                        b.generation,
                        v,
                        replicas,
                        false,
                        r,
                    ),
                }
            },
            (ServerState::FindingGateway(v, replicas), ServerEvent::GatewayFound(Ok(there))) => {
                x matches ServerAction::Complete(r) && server::report::reports(
                    obj,
                    b.namespace@,
                    b.generation,
                    v,
                    replicas,
                    there,
                    r,
                )
            },
            (ServerState::RemovingFinalizer, ServerEvent::FinalizerRemoved(Ok(_))) => {
                x matches ServerAction::Stop(v) && v.outcome == ReconcileOutcome::Success
                    && v.requeue == Requeue::AwaitChange
            },
            (ServerState::RemovingFinalizer, ServerEvent::FinalizerRemoved(Err(d))) => x
                == ServerAction::Fail(ReconcileError::Finalizer(d)),
            (ServerState::AddingFinalizer, ServerEvent::FinalizerAdded(Err(d))) => x
                == ServerAction::Fail(ReconcileError::Finalizer(d)),
            (ServerState::ApplyingDeployment(_), ServerEvent::DeploymentApplied(Err(d))) => x
                == ServerAction::Fail(ReconcileError::Apply(d)),
            (ServerState::ApplyingService(_), ServerEvent::ServiceApplied(Err(d))) => x
                == ServerAction::Fail(ReconcileError::Apply(d)),
            (ServerState::FindingDeployment(_), ServerEvent::DeploymentFound(Err(d))) => x
                == ServerAction::Fail(ReconcileError::Kube(d)),
            (ServerState::FindingGateway(_, _), ServerEvent::GatewayFound(Err(d))) => x
                == ServerAction::Fail(ReconcileError::Kube(d)),
            _ => x is Nothing,
        },
{
}

/// What was looked up is what counts, and what was not found is missing.
pub proof fn law_found_resources_count(plugin: MCPGPlugin, gateway: MCPGGateway)
    ensures
        crate::controllers::cluster::report::found(Some(&plugin)) == Some(plugin),
        crate::controllers::cluster::report::found(None) is None,
        crate::controllers::route::report::found(Some(&gateway)) == Some(gateway),
        crate::controllers::route::report::found(None) is None,
{
}

} // verus!
