//! The steps of a gateway's reconcile, from its finalizer to its status.
//!
//! The caller performs one action at a time and hands back what came of it.
use vstd::prelude::*;

use crate::api::objects::{or_empty, ConfigMap};
use crate::api::resources::{
    MCPGCluster, MCPGGateway, MCPGPluginSet, MCPGRevocationList, MCPGRoute, MCPGServer,
};
use crate::controllers::gateway::cluster::{cluster_resolved, resolve_cluster, ResolvedCluster};
use crate::controllers::gateway::config::{
    apply_cloud_default_plugins, binding_block, compose_config, composed_config, listed,
};
use crate::controllers::gateway::edge::cleanup_edge_domains;
use crate::controllers::gateway::plan::{apply_order, order, GatewayChild, OptionalChildren};
use crate::controllers::gateway::plugin_set::{
    found_data, found_set, plugin_set_usable, resolve_plugin_set, resolved_cm_name,
    resolved_configmap_name, set_resolved, set_usable, ResolvedPluginSet,
};
use crate::controllers::gateway::revocation::{
    cm_name, found_list, list_json, list_resolved, materialise_revocation_list,
    resolve_revocation_list, revocation_configmap, revocation_target, target_list,
    ResolvedRevocationList,
};
use crate::controllers::gateway::status::{
    cluster_cond, dependencies_view, list_cond, list_unresolved, report_gateway, reports, set_cond,
    set_unresolved, unresolved_dependencies, DeploymentStatus, GatewayReport,
};
use crate::hashing::text_hash;
use crate::json::{pretty_text, Json, JsonView};
use crate::reconcile::flow::{released, Begin, ReconcileError, Requeue, Verdict};
use crate::strmap::StringMap;
use crate::telemetry::{DependencyLabels, ReconcileOutcome};

verus! {

/// What a gateway's references resolved to.
#[derive(Debug)]
pub struct Dependencies {
    pub plugin_set: Option<ResolvedPluginSet>,
    pub revocation_list: Option<ResolvedRevocationList>,
    pub cluster: Option<ResolvedCluster>,
}

/// Where the reconcile of a gateway stands: what it waits for.
#[derive(Debug)]
pub enum GatewayState {
    /// The release of what a deleted gateway has at the shared edge.
    ReleasingEdge,
    /// The removal of a deleted gateway's finalizer.
    RemovingFinalizer,
    /// The finalizer.
    AddingFinalizer,
    /// The plugin set that the gateway names.
    FindingPluginSet,
    /// The resolved document of that plugin set.
    FindingDocument(MCPGPluginSet),
    /// The revocation list.
    FindingRevocationList(Option<ResolvedPluginSet>),
    /// The ConfigMap with the revocation list.
    ApplyingRevocationList(Option<ResolvedPluginSet>, MCPGRevocationList),
    /// The cluster that the gateway names.
    FindingCluster(Option<ResolvedPluginSet>, Option<ResolvedRevocationList>),
    /// The config with the plugins merged in.
    MergingPlugins(Dependencies),
    /// The routes.
    ListingRoutes(Dependencies, Json),
    /// The servers.
    ListingServers(Dependencies, Json, Option<Vec<MCPGRoute>>),
    /// The config with the standard plugins of the managed cloud.
    AddingDefaults(Dependencies, Json),
    /// The rendered children.
    Rendering(Dependencies),
    /// The child at position `next`.
    Applying {
        dependencies: Dependencies,
        config_hash: String,
        children: Vec<GatewayChild>,
        next: usize,
        deployment: DeploymentStatus,
    },
    /// Nothing any more.
    Done,
}

/// What came of an action. A lookup that failed carries its message.
#[derive(Debug)]
pub enum GatewayEvent {
    /// The release was tried; whether it worked does not matter.
    EdgeReleased,
    FinalizerRemoved(Result<(), String>),
    FinalizerAdded(Result<(), String>),
    PluginSetFound(Result<Option<MCPGPluginSet>, String>),
    DocumentFound(Result<Option<StringMap>, String>),
    RevocationListFound(Result<Option<MCPGRevocationList>, String>),
    RevocationListApplied(Result<(), String>),
    ClusterFound(Result<Option<MCPGCluster>, String>),
    PluginsMerged(Json),
    /// The routes, where they could be listed.
    RoutesListed(Option<Vec<MCPGRoute>>),
    /// The servers, where they could be listed.
    ServersListed(Option<Vec<MCPGServer>>),
    DefaultsAdded(Json),
    /// The children were rendered; the config has this hash.
    Rendered { config_hash: String, has: OptionalChildren },
    /// A child was applied. The Deployment comes back with its status.
    ChildApplied(Result<DeploymentStatus, ReconcileError>),
}

/// What is to be done next.
#[derive(Debug)]
pub enum GatewayAction {
    /// Give up what the gateway with this uid has at the shared edge.
    ReleaseEdge { uid: String },
    RemoveFinalizer,
    AddFinalizer,
    /// Look up the plugin set of this name in the gateway's namespace.
    FindPluginSet(String),
    /// Look up the ConfigMap of this name in the gateway's namespace.
    FindDocument(String),
    /// Look up the revocation list of this name.
    FindRevocationList(String),
    ApplyRevocationList(ConfigMap),
    /// Look up the cluster of this name.
    FindCluster(String),
    /// Count the unresolved dependencies, and merge the plugins in the state
    /// into the gateway's own config.
    MergePlugins { unresolved: Vec<DependencyLabels> },
    ListRoutes,
    ListServers,
    /// Add the standard plugins to this config.
    AddDefaults(Json),
    /// Render the children, with this config.
    Render(Json),
    Apply(GatewayChild),
    /// Patch the status, publish the event and end; the gateway's failures
    /// are forgotten.
    Complete(GatewayReport),
    /// End without a report.
    Stop(Verdict),
    /// End with an error.
    Fail(ReconcileError),
    /// Nothing: this event was not waited for.
    Nothing,
}

/// The reconcile ends with an error.
pub open spec fn fails(err: ReconcileError, n: GatewayState, x: GatewayAction) -> bool {
    n is Done && x == GatewayAction::Fail(err)
}

/// The plugin set is resolved: the revocation list is next.
pub open spec fn after_set(
    obj: MCPGGateway,
    ns: Seq<char>,
    set: Option<MCPGPluginSet>,
    data: Option<Map<Seq<char>, Seq<char>>>,
    n: GatewayState,
    x: GatewayAction,
) -> bool {
    &&& n matches GatewayState::FindingRevocationList(p)
    &&& set_resolved(obj, ns, set, data, p)
    &&& x matches GatewayAction::FindRevocationList(name)
    &&& name@ == target_list(obj)
}

/// Everything is resolved: the plugins are merged in.
pub open spec fn merges(n: GatewayState, x: GatewayAction) -> bool {
    &&& n matches GatewayState::MergingPlugins(d)
    &&& x matches GatewayAction::MergePlugins { unresolved }
    &&& dependencies_view(unresolved@) == unresolved_dependencies(
        set_unresolved(d.plugin_set),
        set_cond(d.plugin_set),
        list_cond(d.revocation_list),
        cluster_cond(d.cluster),
    )
}

/// The revocation list is resolved: the cluster is next, when the gateway
/// names one.
pub open spec fn after_list(
    obj: MCPGGateway,
    p: Option<ResolvedPluginSet>,
    list: Option<MCPGRevocationList>,
    applied: Result<(), String>,
    n: GatewayState,
    x: GatewayAction,
) -> bool {
    match obj.spec.cluster_ref {
        Some(c) => {
            &&& n matches GatewayState::FindingCluster(p2, l)
            &&& p2 == p
            &&& list_resolved(obj, list, applied, l)
            &&& x matches GatewayAction::FindCluster(name)
            &&& name@ == c.name@
        },
        None => {
            &&& merges(n, x)
            &&& n->MergingPlugins_0.plugin_set == p
            &&& list_resolved(obj, list, applied, n->MergingPlugins_0.revocation_list)
            &&& n->MergingPlugins_0.cluster is None
        },
    }
}

/// The config is complete: the children are rendered with it.
pub open spec fn renders(
    d: Dependencies,
    config: JsonView,
    n: GatewayState,
    x: GatewayAction,
) -> bool {
    &&& n == GatewayState::Rendering(d)
    &&& x matches GatewayAction::Render(c)
    &&& c.view() == config
}

/// The config is composed: a managed-cloud gateway takes the standard
/// plugins first.
pub open spec fn after_compose(
    obj: MCPGGateway,
    d: Dependencies,
    config: JsonView,
    n: GatewayState,
    x: GatewayAction,
) -> bool {
    if obj.spec.cloud is Some {
        &&& n matches GatewayState::AddingDefaults(d2, kept)
        &&& d2 == d
        &&& kept.view() == config
        &&& x matches GatewayAction::AddDefaults(c)
        &&& c.view() == config
    } else {
        renders(d, config, n, x)
    }
}

/// A child was applied: the next one follows, and the report after the last.
pub open spec fn after_child(
    obj: MCPGGateway,
    b: Begin,
    d: Dependencies,
    config_hash: String,
    children: Vec<GatewayChild>,
    next: usize,
    deployment: DeploymentStatus,
    n: GatewayState,
    x: GatewayAction,
) -> bool {
    if next + 1 < children@.len() {
        &&& n matches GatewayState::Applying {
            dependencies: d2,
            config_hash: h2,
            children: c2,
            next: k,
            deployment: s2,
        }
        &&& d2 == d
        &&& h2 == config_hash
        &&& c2 == children
        &&& k == next + 1
        &&& s2 == deployment
        &&& x == GatewayAction::Apply(children@[next + 1])
    } else {
        &&& n is Done
        &&& x matches GatewayAction::Complete(r)
        &&& reports(
            obj,
            b.generation,
            deployment,
            d.plugin_set,
            d.revocation_list,
            d.cluster,
            config_hash@,
            r,
        )
    }
}

/// The counts of the Deployment once a child was applied.
pub open spec fn counts_after(
    child: GatewayChild,
    before: DeploymentStatus,
    came_back: DeploymentStatus,
) -> DeploymentStatus {
    if child is Deployment {
        came_back
    } else {
        before
    }
}

/// Whether a reconcile begins in state `s` with action `x`: a gateway that
/// is being deleted gives up what it has, any other one gets its finalizer.
pub open spec fn starts(obj: MCPGGateway, b: Begin, s: GatewayState, x: GatewayAction) -> bool {
    if b.deleting {
        if obj.spec.cloud is Some {
            &&& s is ReleasingEdge
            &&& x matches GatewayAction::ReleaseEdge { uid }
            &&& uid@ == or_empty(obj.metadata@.uid)
        } else {
            s is RemovingFinalizer && x is RemoveFinalizer
        }
    } else {
        s is AddingFinalizer && x is AddFinalizer
    }
}

/// Whether an event in state `s` leads to state `n` and action `x`.
pub open spec fn step_is(
    obj: MCPGGateway,
    b: Begin,
    s: GatewayState,
    e: GatewayEvent,
    n: GatewayState,
    x: GatewayAction,
) -> bool {
    let ns = b.namespace@;
    match (s, e) {
        (GatewayState::ReleasingEdge, GatewayEvent::EdgeReleased) => n is RemovingFinalizer
            && x is RemoveFinalizer,
        (GatewayState::RemovingFinalizer, GatewayEvent::FinalizerRemoved(r)) => match r {
            Ok(_) => n is Done && x == GatewayAction::Stop(
                Verdict { requeue: Requeue::AwaitChange, outcome: ReconcileOutcome::Success },
            ),
            Err(d) => fails(ReconcileError::Finalizer(d), n, x),
        },
        (GatewayState::AddingFinalizer, GatewayEvent::FinalizerAdded(r)) => match r {
            Ok(_) => match obj.spec.plugin_set_ref {
                Some(p) => {
                    &&& n is FindingPluginSet
                    &&& x matches GatewayAction::FindPluginSet(name)
                    &&& name@ == p.name@
                },
                None => after_set(obj, ns, None, None, n, x),
            },
            Err(d) => fails(ReconcileError::Finalizer(d), n, x),
        },
        (GatewayState::FindingPluginSet, GatewayEvent::PluginSetFound(r)) => match r {
            Ok(found) => if found is Some && set_usable(found->0) {
                &&& n == GatewayState::FindingDocument(found->0)
                &&& x matches GatewayAction::FindDocument(name)
                &&& name@ == resolved_cm_name(set_ref_name(obj))
            } else {
                after_set(obj, ns, found, None, n, x)
            },
            Err(d) => fails(ReconcileError::Kube(d), n, x),
        },
        (GatewayState::FindingDocument(set), GatewayEvent::DocumentFound(r)) => match r {
            Ok(found) => after_set(
                obj,
                ns,
                Some(set),
                match found {
                    Some(data) => Some(data@),
                    None => None,
                },
                n,
                x,
            ),
            Err(d) => fails(ReconcileError::Kube(d), n, x),
        },
        (GatewayState::FindingRevocationList(p), GatewayEvent::RevocationListFound(r)) => match r {
            Ok(Some(list)) => {
                &&& n == GatewayState::ApplyingRevocationList(p, list)
                &&& x matches GatewayAction::ApplyRevocationList(cm)
                &&& cm@ == revocation_configmap(
                    obj,
                    cm_name(obj),
                    pretty_text(list_json(list)),
                    text_hash(pretty_text(list_json(list))),
                )
            },
            Ok(None) => after_list(obj, p, None, Ok(()), n, x),
            Err(d) => fails(ReconcileError::Kube(d), n, x),
        },
        (
            GatewayState::ApplyingRevocationList(p, list),
            GatewayEvent::RevocationListApplied(r),
        ) => after_list(obj, p, Some(list), r, n, x),
        (GatewayState::FindingCluster(p, l), GatewayEvent::ClusterFound(r)) => match r {
            Ok(found) => {
                &&& merges(n, x)
                &&& n->MergingPlugins_0.plugin_set == p
                &&& n->MergingPlugins_0.revocation_list == l
                &&& cluster_resolved(obj, found, n->MergingPlugins_0.cluster)
            },
            Err(d) => fails(ReconcileError::Kube(d), n, x),
        },
        (GatewayState::MergingPlugins(d), GatewayEvent::PluginsMerged(base)) => n
            == GatewayState::ListingRoutes(d, base) && x is ListRoutes,
        (GatewayState::ListingRoutes(d, base), GatewayEvent::RoutesListed(routes)) => n
            == GatewayState::ListingServers(d, base, routes) && x is ListServers,
        (
            GatewayState::ListingServers(d, base, routes),
            GatewayEvent::ServersListed(servers),
        ) => after_compose(
            obj,
            d,
            composed_config(
                obj,
                ns,
                base.view(),
                binding_block(d.cluster),
                listed(routes),
                listed(servers),
            ),
            n,
            x,
        ),
        (GatewayState::AddingDefaults(d, config), GatewayEvent::DefaultsAdded(with)) => renders(
            d,
            if obj.spec.cloud is Some {
                with.view()
            } else {
                config.view()
            },
            n,
            x,
        ),
        (GatewayState::Rendering(d), GatewayEvent::Rendered { config_hash, has }) => {
            &&& n matches GatewayState::Applying {
                dependencies: d2,
                config_hash: h2,
                children,
                next,
                deployment,
            }
            &&& d2 == d
            &&& h2 == config_hash
            &&& children@ == order(has)
            &&& next == 0
            &&& deployment == unreported()
            &&& x == GatewayAction::Apply(GatewayChild::ConfigMap)
        },
        (
            GatewayState::Applying { dependencies, config_hash, children, next, deployment },
            GatewayEvent::ChildApplied(r),
        ) => if next >= children@.len() {
            n == s && x is Nothing
        } else {
            match r {
                Ok(came_back) => after_child(
                    obj,
                    b,
                    dependencies,
                    config_hash,
                    children,
                    next,
                    counts_after(children@[next as int], deployment, came_back),
                    n,
                    x,
                ),
                Err(err) => fails(err, n, x),
            }
        },
        (_, _) => n == s && x is Nothing,
    }
}

/// The name of the plugin set that a gateway names; empty when it names
/// none.
pub open spec fn set_ref_name(obj: MCPGGateway) -> Seq<char> {
    match obj.spec.plugin_set_ref {
        Some(p) => p.name@,
        None => Seq::empty(),
    }
}

/// The counts of a Deployment that reports nothing.
pub open spec fn unreported() -> DeploymentStatus {
    DeploymentStatus {
        replicas: None,
        ready_replicas: None,
        updated_replicas: None,
        available_replicas: None,
    }
}

/// The first step of a gateway's reconcile.
pub fn start(obj: &MCPGGateway, begin: &Begin) -> (r: (GatewayState, GatewayAction))
    ensures
        starts(*obj, *begin, r.0, r.1),
{
    if begin.deleting {
        match cleanup_edge_domains(obj) {
            Some(uid) => (GatewayState::ReleasingEdge, GatewayAction::ReleaseEdge { uid }),
            None => (GatewayState::RemovingFinalizer, GatewayAction::RemoveFinalizer),
        }
    } else {
        (GatewayState::AddingFinalizer, GatewayAction::AddFinalizer)
    }
}

fn fail(err: ReconcileError) -> (r: (GatewayState, GatewayAction))
    ensures
        fails(err, r.0, r.1),
{
    (GatewayState::Done, GatewayAction::Fail(err))
}

fn go_on_after_set(
    obj: &MCPGGateway,
    ns: &str,
    set: Option<&MCPGPluginSet>,
    data: Option<&StringMap>,
) -> (r: (GatewayState, GatewayAction))
    ensures
        after_set(
            *obj,
            ns@,
            found_set(set),
            found_data(data),
            r.0,
            r.1,
        ),
{
    let resolved = resolve_plugin_set(obj, ns, set, data);
    (
        GatewayState::FindingRevocationList(resolved),
        GatewayAction::FindRevocationList(revocation_target(obj)),
    )
}

fn merge(d: Dependencies) -> (r: (GatewayState, GatewayAction))
    ensures
        merges(r.0, r.1),
        r.0 == GatewayState::MergingPlugins(d),
{
    let unresolved = list_unresolved(&d.plugin_set, &d.revocation_list, &d.cluster);
    (GatewayState::MergingPlugins(d), GatewayAction::MergePlugins { unresolved })
}

fn go_on_after_list(
    obj: &MCPGGateway,
    plugin_set: Option<ResolvedPluginSet>,
    list: Option<&MCPGRevocationList>,
    applied: Result<(), String>,
) -> (r: (GatewayState, GatewayAction))
    ensures
        after_list(
            *obj,
            plugin_set,
            found_list(list),
            applied,
            r.0,
            r.1,
        ),
{
    let revocation_list = resolve_revocation_list(obj, list, applied);
    match &obj.spec.cluster_ref {
        Some(c) => (
            GatewayState::FindingCluster(plugin_set, revocation_list),
            GatewayAction::FindCluster(c.name.clone()),
        ),
        None => merge(Dependencies { plugin_set, revocation_list, cluster: None }),
    }
}

fn go_on_after_child(
    obj: &MCPGGateway,
    begin: &Begin,
    dependencies: Dependencies,
    config_hash: String,
    children: Vec<GatewayChild>,
    next: usize,
    deployment: DeploymentStatus,
) -> (r: (GatewayState, GatewayAction))
    requires
        next < children@.len(),
    ensures
        after_child(
            *obj,
            *begin,
            dependencies,
            config_hash,
            children,
            next,
            deployment,
            r.0,
            r.1,
        ),
{
    if next < children.len() - 1 {
        let child = children[next + 1];
        (
            GatewayState::Applying {
                dependencies,
                config_hash,
                children,
                next: next + 1,
                deployment,
            },
            GatewayAction::Apply(child),
        )
    } else {
        let report = report_gateway(
            obj,
            begin.generation,
            deployment,
            &dependencies.plugin_set,
            &dependencies.revocation_list,
            &dependencies.cluster,
            config_hash.as_str(),
        );
        (GatewayState::Done, GatewayAction::Complete(report))
    }
}

/// One step of a gateway's reconcile: what an event leads to.
pub fn step(obj: &MCPGGateway, begin: &Begin, state: GatewayState, event: GatewayEvent) -> (r: (
    GatewayState,
    GatewayAction,
))
    ensures
        step_is(*obj, *begin, state, event, r.0, r.1),
{
    let ns = begin.namespace.as_str();
    match (state, event) {
        (GatewayState::ReleasingEdge, GatewayEvent::EdgeReleased) => (
            GatewayState::RemovingFinalizer,
            GatewayAction::RemoveFinalizer,
        ),
        (GatewayState::RemovingFinalizer, GatewayEvent::FinalizerRemoved(r)) => match r {
            Ok(_) => (GatewayState::Done, GatewayAction::Stop(released())),
            Err(d) => fail(ReconcileError::Finalizer(d)),
        },
        (GatewayState::AddingFinalizer, GatewayEvent::FinalizerAdded(r)) => match r {
            Ok(_) => match &obj.spec.plugin_set_ref {
                Some(p) => (
                    GatewayState::FindingPluginSet,
                    GatewayAction::FindPluginSet(p.name.clone()),
                ),
                None => go_on_after_set(obj, ns, None, None),
            },
            Err(d) => fail(ReconcileError::Finalizer(d)),
        },
        (GatewayState::FindingPluginSet, GatewayEvent::PluginSetFound(r)) => match r {
            Ok(Some(set)) => {
                if plugin_set_usable(&set) {
                    let name = match &obj.spec.plugin_set_ref {
                        Some(p) => resolved_configmap_name(p.name.as_str()),
                        None => resolved_configmap_name(""),
                    };
                    proof {
                        reveal_strlit("");
                        assert(""@ =~= Seq::<char>::empty());
                    }
                    (GatewayState::FindingDocument(set), GatewayAction::FindDocument(name))
                } else {
                    go_on_after_set(obj, ns, Some(&set), None)
                }
            },
            Ok(None) => go_on_after_set(obj, ns, None, None),
            Err(d) => fail(ReconcileError::Kube(d)),
        },
        (GatewayState::FindingDocument(set), GatewayEvent::DocumentFound(r)) => match r {
            Ok(Some(data)) => go_on_after_set(obj, ns, Some(&set), Some(&data)),
            Ok(None) => go_on_after_set(obj, ns, Some(&set), None),
            Err(d) => fail(ReconcileError::Kube(d)),
        },
        (GatewayState::FindingRevocationList(p), GatewayEvent::RevocationListFound(r)) => match r {
            Ok(Some(list)) => {
                let cm = materialise_revocation_list(obj, &list);
                (
                    GatewayState::ApplyingRevocationList(p, list),
                    GatewayAction::ApplyRevocationList(cm),
                )
            },
            Ok(None) => go_on_after_list(obj, p, None, Ok(())),
            Err(d) => fail(ReconcileError::Kube(d)),
        },
        (
            GatewayState::ApplyingRevocationList(p, list),
            GatewayEvent::RevocationListApplied(r),
        ) => go_on_after_list(obj, p, Some(&list), r),
        (GatewayState::FindingCluster(plugin_set, revocation_list), GatewayEvent::ClusterFound(r)) =>
        match r {
            Ok(found) => {
                let cluster = resolve_cluster(obj, found.as_ref());
                merge(Dependencies { plugin_set, revocation_list, cluster })
            },
            Err(d) => fail(ReconcileError::Kube(d)),
        },
        (GatewayState::MergingPlugins(d), GatewayEvent::PluginsMerged(base)) => (
            GatewayState::ListingRoutes(d, base),
            GatewayAction::ListRoutes,
        ),
        (GatewayState::ListingRoutes(d, base), GatewayEvent::RoutesListed(routes)) => (
            GatewayState::ListingServers(d, base, routes),
            GatewayAction::ListServers,
        ),
        (
            GatewayState::ListingServers(d, base, routes),
            GatewayEvent::ServersListed(servers),
        ) => {
            let (config, _, _) = compose_config(obj, ns, base, &d.cluster, &routes, &servers);
            if obj.spec.cloud.is_some() {
                let sent = config.clone();
                (GatewayState::AddingDefaults(d, config), GatewayAction::AddDefaults(sent))
            } else {
                (GatewayState::Rendering(d), GatewayAction::Render(config))
            }
        },
        (GatewayState::AddingDefaults(d, config), GatewayEvent::DefaultsAdded(with)) => {
            let mut config = config;
            apply_cloud_default_plugins(obj, with, &mut config);
            (GatewayState::Rendering(d), GatewayAction::Render(config))
        },
        (GatewayState::Rendering(d), GatewayEvent::Rendered { config_hash, has }) => (
            GatewayState::Applying {
                dependencies: d,
                config_hash,
                children: apply_order(has),
                next: 0,
                deployment: DeploymentStatus {
                    replicas: None,
                    ready_replicas: None,
                    updated_replicas: None,
                    available_replicas: None,
                },
            },
            GatewayAction::Apply(GatewayChild::ConfigMap),
        ),
        (
            GatewayState::Applying { dependencies, config_hash, children, next, deployment },
            GatewayEvent::ChildApplied(r),
        ) => {
            if next >= children.len() {
                return (
                    GatewayState::Applying { dependencies, config_hash, children, next, deployment },
                    GatewayAction::Nothing,
                );
            }
            match r {
                Ok(came_back) => {
                    let counts = match children[next] {
                        GatewayChild::Deployment => came_back,
                        _ => deployment,
                    };
                    go_on_after_child(
                        obj,
                        begin,
                        dependencies,
                        config_hash,
                        children,
                        next,
                        counts,
                    )
                },
                Err(err) => fail(err),
            }
        },
        (state, _) => (state, GatewayAction::Nothing),
    }
}

/// Whether the states, events and actions are those of a reconcile of `obj`:
/// each event leads from one state to the next. `actions[0]` is the first
/// action, and each further one answers an event.
pub open spec fn is_run(
    obj: MCPGGateway,
    b: Begin,
    states: Seq<GatewayState>,
    events: Seq<GatewayEvent>,
    actions: Seq<GatewayAction>,
) -> bool {
    &&& states.len() == events.len() + 1
    &&& actions.len() == events.len() + 1
    &&& starts(obj, b, states[0], actions[0])
    &&& forall|i: int|
        0 <= i < events.len() ==> step_is(
            obj,
            b,
            states[i],
            #[trigger] events[i],
            states[i + 1],
            actions[i + 1],
        )
}

/// Whether one of the first `n` events is the finalizer being in place.
pub open spec fn finalizer_added(events: Seq<GatewayEvent>, n: int) -> bool {
    exists|i: int| 0 <= i < n && (#[trigger] events[i]) matches GatewayEvent::FinalizerAdded(Ok(_))
}

/// Whether an action writes an object of the gateway's to the cluster.
pub open spec fn writes_child(x: GatewayAction) -> bool {
    x is Apply || x is ApplyRevocationList
}

/// Whether a state is one of a gateway that is being deleted, or at the end.
spec fn leaving(s: GatewayState) -> bool {
    s is ReleasingEdge || s is RemovingFinalizer || s is Done
}

proof fn lemma_finalizer(
    obj: MCPGGateway,
    b: Begin,
    states: Seq<GatewayState>,
    events: Seq<GatewayEvent>,
    actions: Seq<GatewayAction>,
    n: int,
)
    requires
        is_run(obj, b, states, events, actions),
        0 <= n <= events.len(),
    ensures
        leaving(states[n]) || states[n] is AddingFinalizer || finalizer_added(events, n),
        b.deleting ==> leaving(states[n]),
    decreases n,
{
    if n > 0 {
        lemma_finalizer(obj, b, states, events, actions, n - 1);
        assert(step_is(obj, b, states[n - 1], events[n - 1], states[n], actions[n]));
    }
}

/// A gateway's finalizer comes first: when a reconcile writes a child to the
/// cluster, the finalizer was put in place before. What the gateway leaves
/// behind can therefore always be given up when it is deleted.
pub proof fn law_finalizer_comes_first(
    obj: MCPGGateway,
    b: Begin,
    states: Seq<GatewayState>,
    events: Seq<GatewayEvent>,
    actions: Seq<GatewayAction>,
    k: int,
)
    requires
        is_run(obj, b, states, events, actions),
        0 <= k <= events.len(),
        writes_child(actions[k]),
    ensures
        finalizer_added(events, k),
{
    if k > 0 {
        lemma_finalizer(obj, b, states, events, actions, k - 1);
        assert(step_is(obj, b, states[k - 1], events[k - 1], states[k], actions[k]));
    }
}

/// A gateway that is being deleted gets no children any more.
pub proof fn law_deleted_gateway_gets_no_children(
    obj: MCPGGateway,
    b: Begin,
    states: Seq<GatewayState>,
    events: Seq<GatewayEvent>,
    actions: Seq<GatewayAction>,
    k: int,
)
    requires
        is_run(obj, b, states, events, actions),
        b.deleting,
        0 <= k <= events.len(),
    ensures
        !writes_child(actions[k]),
        !(actions[k] is Complete),
{
    if k > 0 {
        lemma_finalizer(obj, b, states, events, actions, k - 1);
        assert(step_is(obj, b, states[k - 1], events[k - 1], states[k], actions[k]));
    }
}

/// The children applied so far, once an action is done.
pub open spec fn grown(done: Seq<GatewayChild>, x: GatewayAction) -> Seq<GatewayChild> {
    match x {
        GatewayAction::Apply(c) => done.push(c),
        _ => done,
    }
}

/// The children that the first `n` actions apply, in their order.
pub open spec fn applied(actions: Seq<GatewayAction>, n: int) -> Seq<GatewayChild>
    decreases n,
{
    if n <= 0 {
        Seq::empty()
    } else {
        grown(applied(actions, n - 1), actions[n - 1])
    }
}

/// Whether one of the first `n` events is the rendering of a gateway with
/// these children.
pub open spec fn was_rendered(events: Seq<GatewayEvent>, n: int, has: OptionalChildren) -> bool {
    exists|i: int|
        0 <= i < n && ((#[trigger] events[i]) matches GatewayEvent::Rendered { has: h, .. } && h
            == has)
}

/// Whether a reconcile that applied these children can be in state `s`.
spec fn on_track(s: GatewayState, done: Seq<GatewayChild>) -> bool {
    match s {
        GatewayState::Applying { children, next, .. } => next < children@.len() && done
            == children@.take(next + 1),
        GatewayState::Done => true,
        _ => done.len() == 0,
    }
}

proof fn lemma_step_on_track(
    obj: MCPGGateway,
    b: Begin,
    s: GatewayState,
    e: GatewayEvent,
    n: GatewayState,
    x: GatewayAction,
    done: Seq<GatewayChild>,
)
    requires
        step_is(obj, b, s, e, n, x),
        on_track(s, done),
    ensures
        on_track(n, grown(done, x)),
{
    match n {
        GatewayState::Applying { children, next, .. } => {
            if x is Apply {
                assert(children@.take(next + 1) =~= children@.take(next as int).push(
                    children@[next as int],
                ));
                assert(s is Rendering ==> done =~= children@.take(0));
            }
        },
        _ => {},
    }
}

proof fn lemma_on_track(
    obj: MCPGGateway,
    b: Begin,
    states: Seq<GatewayState>,
    events: Seq<GatewayEvent>,
    actions: Seq<GatewayAction>,
    n: int,
)
    requires
        is_run(obj, b, states, events, actions),
        0 <= n <= events.len(),
    ensures
        on_track(states[n], applied(actions, n + 1)),
    decreases n,
{
    if n > 0 {
        lemma_on_track(obj, b, states, events, actions, n - 1);
        lemma_step_on_track(
            obj,
            b,
            states[n - 1],
            events[n - 1],
            states[n],
            actions[n],
            applied(actions, n),
        );
    } else {
        assert(applied(actions, 0) =~= Seq::empty());
        assert(applied(actions, 1) == grown(applied(actions, 0), actions[0]));
    }
}

/// The children of a state come from a rendering.
spec fn rendered_before(events: Seq<GatewayEvent>, n: int, s: GatewayState) -> bool {
    s matches GatewayState::Applying { children, .. } ==> exists|has: OptionalChildren| #[trigger]
        was_rendered(events, n, has) && children@ == order(has)
}

proof fn lemma_rendered(
    obj: MCPGGateway,
    b: Begin,
    states: Seq<GatewayState>,
    events: Seq<GatewayEvent>,
    actions: Seq<GatewayAction>,
    n: int,
)
    requires
        is_run(obj, b, states, events, actions),
        0 <= n <= events.len(),
    ensures
        rendered_before(events, n, states[n]),
    decreases n,
{
    if n > 0 {
        lemma_rendered(obj, b, states, events, actions, n - 1);
        let e = events[n - 1];
        assert(step_is(obj, b, states[n - 1], e, states[n], actions[n]));
        if states[n] is Applying {
            match states[n - 1] {
                GatewayState::Applying { children, .. } => {
                    let has = choose|has: OptionalChildren| #[trigger]
                        was_rendered(events, n - 1, has) && children@ == order(has);
                    assert(was_rendered(events, n, has));
                },
                _ => {
                    assert(was_rendered(events, n, e->Rendered_has));
                },
            }
        }
    }
}

/// A gateway is reported only when all of its children were applied, each
/// once and in their order.
pub proof fn law_report_follows_every_child(
    obj: MCPGGateway,
    b: Begin,
    states: Seq<GatewayState>,
    events: Seq<GatewayEvent>,
    actions: Seq<GatewayAction>,
    k: int,
)
    requires
        is_run(obj, b, states, events, actions),
        0 <= k <= events.len(),
        actions[k] is Complete,
    ensures
        exists|has: OptionalChildren| #[trigger]
            was_rendered(events, k, has) && applied(actions, k) == order(has),
{
    lemma_on_track(obj, b, states, events, actions, k - 1);
    lemma_rendered(obj, b, states, events, actions, k - 1);
    assert(step_is(obj, b, states[k - 1], events[k - 1], states[k], actions[k]));
    match states[k - 1] {
        GatewayState::Applying { children, next, .. } => {
            let has = choose|has: OptionalChildren| #[trigger]
                was_rendered(events, k - 1, has) && children@ == order(has);
            assert(was_rendered(events, k, has));
            assert(children@.take(next + 1) =~= children@);
        },
        _ => {},
    }
}

proof fn lemma_self_hosted(
    obj: MCPGGateway,
    b: Begin,
    states: Seq<GatewayState>,
    events: Seq<GatewayEvent>,
    actions: Seq<GatewayAction>,
    n: int,
)
    requires
        is_run(obj, b, states, events, actions),
        obj.spec.cloud is None,
        0 <= n <= events.len(),
    ensures
        !(states[n] is AddingDefaults),
    decreases n,
{
    if n > 0 {
        lemma_self_hosted(obj, b, states, events, actions, n - 1);
        assert(step_is(obj, b, states[n - 1], events[n - 1], states[n], actions[n]));
    }
}

/// A gateway outside the managed cloud is never given the standard plugins:
/// its children are rendered with the config that was composed of its own,
/// its cluster, its routes and its servers.
pub proof fn law_self_hosted_gets_no_defaults(
    obj: MCPGGateway,
    b: Begin,
    states: Seq<GatewayState>,
    events: Seq<GatewayEvent>,
    actions: Seq<GatewayAction>,
    k: int,
)
    requires
        is_run(obj, b, states, events, actions),
        obj.spec.cloud is None,
        0 <= k <= events.len(),
    ensures
        !(actions[k] is AddDefaults),
        actions[k] matches GatewayAction::Render(config) ==> {
            &&& k > 0
            &&& states[k - 1] matches GatewayState::ListingServers(d, base, routes)
            &&& events[k - 1] matches GatewayEvent::ServersListed(servers)
            &&& config.view() == composed_config(
                obj,
                b.namespace@,
                base.view(),
                binding_block(d.cluster),
                listed(routes),
                listed(servers),
            )
        },
{
    if k > 0 {
        lemma_self_hosted(obj, b, states, events, actions, k - 1);
        assert(step_is(obj, b, states[k - 1], events[k - 1], states[k], actions[k]));
    }
}

/// A reconcile that ended stays ended.
pub proof fn law_done_is_final(
    obj: MCPGGateway,
    b: Begin,
    e: GatewayEvent,
    n: GatewayState,
    x: GatewayAction,
)
    requires
        step_is(obj, b, GatewayState::Done, e, n, x),
    ensures
        n is Done,
        x is Nothing,
{
}

} // verus!
