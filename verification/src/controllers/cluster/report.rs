//! The cluster controller: can gateways bind a coordination backend?
use vstd::prelude::*;

use crate::api::conditions::{event, Event, EventType};
use crate::api::objects::or_empty;
use crate::api::resources::{
    clone_opt, existing_conditions, ref_name, refs_view, status_conditions, MCPGCluster,
    MCPGGateway, MCPGPlugin, ObjectRef, ObjectRefView,
};
use crate::controllers::plugin_set::resolve::{is_revoked, plugin_is_ready, says_ready};
use crate::controllers::report::{
    put, resync, resync_verdict, set_cond, Report, ReportView,
};
use crate::hashing::{hash_text, text_hash};
use crate::json::compact_text;
use crate::text::{opt_text, same};

verus! {

/// The clusters that a changed gateway concerns: the one it binds.
pub fn map_gateway_to_clusters(gw: &MCPGGateway) -> (r: Vec<ObjectRef>)
    ensures
        refs_view(r@) == (match ref_name(gw.spec.cluster_ref) {
            Some(name) => seq![ObjectRefView { name, namespace: None }],
            None => Seq::empty(),
        }),
{
    let mut out: Vec<ObjectRef> = Vec::new();
    match &gw.spec.cluster_ref {
        Some(c) => {
            out.push(ObjectRef { name: c.name.clone(), namespace: None });
            assert(refs_view(out@) =~= seq![ObjectRefView { name: c.name@, namespace: None }]);
        },
        None => {
            assert(refs_view(out@) =~= Seq::empty());
        },
    }
    out
}

/// The clusters that a changed plugin concerns: by convention, the one of
/// the same name.
pub fn map_plugin_to_clusters(plugin: &MCPGPlugin) -> (r: Vec<ObjectRef>)
    ensures
        refs_view(r@) == seq![
            ObjectRefView { name: or_empty(plugin.metadata@.name), namespace: None },
        ],
{
    let mut out: Vec<ObjectRef> = Vec::new();
    let x = ObjectRef { name: plugin.metadata.name_or_empty(), namespace: None };
    out.push(x);
    assert(refs_view(out@) =~= seq![x@]);
    out
}

/// How many gateways bind the cluster.
pub open spec fn bound(gws: Seq<MCPGGateway>, cluster: Seq<char>) -> nat
    decreases gws.len(),
{
    if gws.len() == 0 {
        0
    } else {
        bound(gws.drop_last(), cluster) + (if ref_name(gws.last().spec.cluster_ref) == Some(
            cluster,
        ) {
            1nat
        } else {
            0nat
        })
    }
}

/// How many gateways bind the cluster.
pub fn count_bound_gateways(gateways: &Vec<MCPGGateway>, cluster_name: &str) -> (r: usize)
    ensures
        r == bound(gateways@, cluster_name@),
{
    let mut n: usize = 0;
    let mut i: usize = 0;
    assert(gateways@.take(0) =~= Seq::empty());
    while i < gateways.len()
        invariant
            i <= gateways.len(),
            n <= i,
            n == bound(gateways@.take(i as int), cluster_name@),
        decreases gateways.len() - i,
    {
        assert(gateways@.take(i + 1).drop_last() =~= gateways@.take(i as int));
        let hit = match &gateways[i].spec.cluster_ref {
            Some(c) => same(c.name.as_str(), cluster_name),
            None => false,
        };
        if hit {
            n = n + 1;
        }
        i = i + 1;
    }
    assert(gateways@.take(i as int) =~= gateways@);
    n
}

/// The plugin that was looked up.
pub open spec fn found(p: Option<&MCPGPlugin>) -> Option<MCPGPlugin> {
    match p {
        Some(p) => Some(*p),
        None => None,
    }
}

/// Whether a cluster can be bound, and the reason and message that say so. A
/// cluster that names a plugin needs that plugin ready and not revoked.
pub open spec fn bindable(c: MCPGCluster, plugin: Option<MCPGPlugin>) -> (
    bool,
    Seq<char>,
    Seq<char>,
) {
    match ref_name(c.spec.plugin_ref) {
        Some(name) => match plugin {
            None => (
                false,
                "ClusterPluginNotFound"@,
                "clusterPlugin '"@ + name + "' not found"@,
            ),
            Some(p) => if says_ready(p.status) && !is_revoked(p.status) {
                (
                    true,
                    "Bindable"@,
                    "backend '"@ + c.spec.backend.config_kind@ + "' bindable via verified plugin '"@
                        + name + "'"@,
                )
            } else {
                (
                    false,
                    "ClusterPluginNotReady"@,
                    "clusterPlugin '"@ + name
                        + "' is not Ready (unverified / revoked / pulling)"@,
                )
            },
        },
        None => (
            true,
            "Bindable"@,
            if c.spec.backend.single_node {
                "in-process single_node coordinator"@
            } else {
                "backend '"@ + c.spec.backend.config_kind@
                    + "' bindable (cdylib supplied via gateway pluginSetRef)"@
            },
        ),
    }
}

/// The report on a cluster.
pub open spec fn cluster_report(
    c: MCPGCluster,
    generation: i64,
    plugin: Option<MCPGPlugin>,
) -> ReportView {
    let b = bindable(c, plugin);
    ReportView {
        conditions: put(status_conditions(c.status), "Ready"@, b.0, b.1, b.2, generation),
        event: if b.0 {
            None
        } else {
            Some(event(EventType::Warning, b.1, b.2, "Bind"@))
        },
        verdict: resync_verdict(b.0),
    }
}

/// The status of a cluster, and what else follows its reconcile.
#[derive(Debug)]
pub struct ClusterReport {
    pub report: Report,
    pub observed_generation: i64,
    pub plugin_id: Option<String>,
    pub bound_gateways: usize,
    /// The hash of the rendered block; a change of it rolls the gateways.
    pub config_hash: String,
}

/// Whether a report is the one on a cluster, given the plugin it names where
/// that was found, and how many gateways bind it.
pub open spec fn reports(
    obj: MCPGCluster,
    generation: i64,
    plugin: Option<MCPGPlugin>,
    bound_gateways: nat,
    r: ClusterReport,
) -> bool {
    &&& r.report@ == cluster_report(obj, generation, plugin)
    &&& r.observed_generation == generation
    &&& opt_text(r.plugin_id) == opt_text(obj.spec.backend.plugin_id)
    &&& r.bound_gateways == bound_gateways
    &&& r.config_hash@ == text_hash(compact_text(obj.spec.rendered_block.view()))
}

/// Reports on a cluster, given the plugin it names where that was found.
pub fn report_cluster(
    obj: &MCPGCluster,
    generation: i64,
    plugin: Option<&MCPGPlugin>,
    bound_gateways: usize,
) -> (r: ClusterReport)
    ensures
        reports(*obj, generation, found(plugin), bound_gateways as nat, r),
        r.config_hash@.len() == 64,
{
    let kind = obj.spec.backend.config_kind.as_str();
    let (ready, reason, message) = match &obj.spec.plugin_ref {
        Some(p) => match plugin {
            None => (
                false,
                "ClusterPluginNotFound",
                "clusterPlugin '".to_owned().concat(p.name.as_str()).concat("' not found"),
            ),
            Some(found) => if plugin_is_ready(found) {
                (
                    true,
                    "Bindable",
                    "backend '".to_owned().concat(kind).concat(
                        "' bindable via verified plugin '",
                    ).concat(p.name.as_str()).concat("'"),
                )
            } else {
                (
                    false,
                    "ClusterPluginNotReady",
                    "clusterPlugin '".to_owned().concat(p.name.as_str()).concat(
                        "' is not Ready (unverified / revoked / pulling)",
                    ),
                )
            },
        },
        None => (
            true,
            "Bindable",
            if obj.spec.backend.single_node {
                "in-process single_node coordinator".to_owned()
            } else {
                "backend '".to_owned().concat(kind).concat(
                    "' bindable (cdylib supplied via gateway pluginSetRef)",
                )
            },
        ),
    };
    let mut conditions = existing_conditions(&obj.status);
    set_cond(&mut conditions, "Ready", ready, reason, message.as_str(), generation);
    let event = if ready {
        None
    } else {
        Some(Event::new(EventType::Warning, reason, message.as_str(), "Bind"))
    };
    ClusterReport {
        report: Report { conditions, event, verdict: resync(ready) },
        observed_generation: generation,
        plugin_id: clone_opt(&obj.spec.backend.plugin_id),
        bound_gateways,
        config_hash: hash_text(obj.spec.rendered_block.compact().as_str()),
    }
}

/// A cluster that names a plugin is bindable only while that plugin is ready
/// and not revoked.
pub proof fn law_bindable_needs_ready_plugin(c: MCPGCluster, plugin: Option<MCPGPlugin>)
    requires
        c.spec.plugin_ref is Some,
        bindable(c, plugin).0,
    ensures
        plugin matches Some(p) && says_ready(p.status) && !is_revoked(p.status),
{
}

} // verus!
