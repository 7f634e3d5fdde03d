//! The steps of a cluster's reconcile, from its finalizer to its status.
//!
//! The caller performs one action at a time and hands back what came of it.
use vstd::prelude::*;

use crate::api::resources::{MCPGCluster, MCPGGateway, MCPGPlugin};
use crate::controllers::cluster::report::{
    bound, count_bound_gateways, report_cluster, reports, ClusterReport,
};
use crate::reconcile::flow::{released, Begin, ReconcileError, Requeue, Verdict};
use crate::telemetry::ReconcileOutcome;

verus! {

/// Where the reconcile of a cluster stands: what it waits for.
#[derive(Debug)]
pub enum ClusterState {
    /// The removal of a deleted cluster's finalizer.
    RemovingFinalizer,
    /// The finalizer.
    AddingFinalizer,
    /// The plugin that the cluster names.
    FindingPlugin,
    /// The gateways; the plugin was looked up.
    ListingGateways(Option<MCPGPlugin>),
    /// Nothing any more.
    Done,
}

/// What came of an action. One that failed carries its message.
#[derive(Debug)]
pub enum ClusterEvent {
    FinalizerRemoved(Result<(), String>),
    FinalizerAdded(Result<(), String>),
    PluginFound(Result<Option<MCPGPlugin>, String>),
    GatewaysListed(Result<Vec<MCPGGateway>, String>),
}

/// What is to be done next.
#[derive(Debug)]
pub enum ClusterAction {
    RemoveFinalizer,
    AddFinalizer,
    /// Look up the plugin of this name.
    FindPlugin(String),
    /// List the gateways of all namespaces.
    ListGateways,
    /// Patch the status, publish the event and end.
    Complete(ClusterReport),
    /// End without a report.
    Stop(Verdict),
    /// End with an error.
    Fail(ReconcileError),
    /// Nothing: this event was not waited for.
    Nothing,
}

/// The reconcile ends with an error.
pub open spec fn fails(err: ReconcileError, n: ClusterState, x: ClusterAction) -> bool {
    n is Done && x == ClusterAction::Fail(err)
}

/// The gateways are listed.
pub open spec fn lists(
    plugin: Option<MCPGPlugin>,
    n: ClusterState,
    x: ClusterAction,
) -> bool {
    n == ClusterState::ListingGateways(plugin) && x is ListGateways
}

/// Whether a reconcile begins in state `s` with action `x`.
pub open spec fn starts(b: Begin, s: ClusterState, x: ClusterAction) -> bool {
    if b.deleting {
        s is RemovingFinalizer && x is RemoveFinalizer
    } else {
        s is AddingFinalizer && x is AddFinalizer
    }
}

/// Whether an event in state `s` leads to state `n` and action `x`.
pub open spec fn step_is(
    obj: MCPGCluster,
    b: Begin,
    s: ClusterState,
    e: ClusterEvent,
    n: ClusterState,
    x: ClusterAction,
) -> bool {
    match (s, e) {
        (ClusterState::RemovingFinalizer, ClusterEvent::FinalizerRemoved(r)) => match r {
            Ok(_) => n is Done && x == ClusterAction::Stop(
                Verdict { requeue: Requeue::AwaitChange, outcome: ReconcileOutcome::Success },
            ),
            Err(d) => fails(ReconcileError::Finalizer(d), n, x),
        },
        (ClusterState::AddingFinalizer, ClusterEvent::FinalizerAdded(r)) => match r {
            Ok(_) => match obj.spec.plugin_ref {
                Some(p) => {
                    &&& n is FindingPlugin
                    &&& x matches ClusterAction::FindPlugin(name)
                    &&& name@ == p.name@
                },
                None => lists(None, n, x),
            },
            Err(d) => fails(ReconcileError::Finalizer(d), n, x),
        },
        (ClusterState::FindingPlugin, ClusterEvent::PluginFound(r)) => match r {
            Ok(found) => lists(found, n, x),
            Err(d) => fails(ReconcileError::Kube(d), n, x),
        },
        (ClusterState::ListingGateways(plugin), ClusterEvent::GatewaysListed(r)) => match r {
            Ok(gateways) => {
                &&& n is Done
                &&& x matches ClusterAction::Complete(report)
                &&& reports(obj, b.generation, plugin, bound(gateways@, b.name@), report)
            },
            Err(d) => fails(ReconcileError::Kube(d), n, x),
        },
        (_, _) => n == s && x is Nothing,
    }
}

/// The first step of a cluster's reconcile.
pub fn start(begin: &Begin) -> (r: (ClusterState, ClusterAction))
    ensures
        starts(*begin, r.0, r.1),
{
    if begin.deleting {
        (ClusterState::RemovingFinalizer, ClusterAction::RemoveFinalizer)
    } else {
        (ClusterState::AddingFinalizer, ClusterAction::AddFinalizer)
    }
}

fn fail(err: ReconcileError) -> (r: (ClusterState, ClusterAction))
    ensures
        fails(err, r.0, r.1),
{
    (ClusterState::Done, ClusterAction::Fail(err))
}

/// One step of a cluster's reconcile: what an event leads to.
pub fn step(obj: &MCPGCluster, begin: &Begin, state: ClusterState, event: ClusterEvent) -> (r: (
    ClusterState,
    ClusterAction,
))
    ensures
        step_is(*obj, *begin, state, event, r.0, r.1),
{
    match (state, event) {
        (ClusterState::RemovingFinalizer, ClusterEvent::FinalizerRemoved(r)) => match r {
            Ok(_) => (ClusterState::Done, ClusterAction::Stop(released())),
            Err(d) => fail(ReconcileError::Finalizer(d)),
        },
        (ClusterState::AddingFinalizer, ClusterEvent::FinalizerAdded(r)) => match r {
            Ok(_) => match &obj.spec.plugin_ref {
                Some(p) => (
                    ClusterState::FindingPlugin,
                    ClusterAction::FindPlugin(p.name.clone()),
                ),
                None => (ClusterState::ListingGateways(None), ClusterAction::ListGateways),
            },
            Err(d) => fail(ReconcileError::Finalizer(d)),
        },
        (ClusterState::FindingPlugin, ClusterEvent::PluginFound(r)) => match r {
            Ok(found) => (ClusterState::ListingGateways(found), ClusterAction::ListGateways),
            Err(d) => fail(ReconcileError::Kube(d)),
        },
        (ClusterState::ListingGateways(plugin), ClusterEvent::GatewaysListed(r)) => match r {
            Ok(gateways) => {
                let count = count_bound_gateways(&gateways, begin.name.as_str());
                let report = report_cluster(obj, begin.generation, plugin.as_ref(), count);
                (ClusterState::Done, ClusterAction::Complete(report))
            },
            Err(d) => fail(ReconcileError::Kube(d)),
        },
        (state, _) => (state, ClusterAction::Nothing),
    }
}

/// A reconcile that ended stays ended.
pub proof fn law_done_is_final(
    obj: MCPGCluster,
    b: Begin,
    e: ClusterEvent,
    n: ClusterState,
    x: ClusterAction,
)
    requires
        step_is(obj, b, ClusterState::Done, e, n, x),
    ensures
        n is Done,
        x is Nothing,
{
}

} // verus!
