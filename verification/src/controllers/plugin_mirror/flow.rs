//! The steps of a mirror's reconcile, from its finalizer to its status.
//!
//! The caller performs one action at a time and hands back what came of it.
use vstd::prelude::*;

use crate::api::resources::{MCPGPlugin, MCPGPluginMirror};
use crate::controllers::plugin_mirror::report::{
    count_proxied_plugins, proxied, report_plugin_mirror, reports, MirrorReport,
};
use crate::reconcile::flow::{released, Begin, ReconcileError, Requeue, Verdict};
use crate::telemetry::ReconcileOutcome;

verus! {

/// Where the reconcile of a mirror stands: what it waits for.
#[derive(Debug)]
pub enum MirrorState {
    /// The removal of a deleted mirror's finalizer.
    RemovingFinalizer,
    /// The finalizer.
    AddingFinalizer,
    /// The Service behind the mirror.
    FindingService,
    /// The plugins; whether the Service is there is known.
    ListingPlugins(bool),
    /// Nothing any more.
    Done,
}

/// What came of an action. One that failed carries its message.
#[derive(Debug)]
pub enum MirrorEvent {
    FinalizerRemoved(Result<(), String>),
    FinalizerAdded(Result<(), String>),
    /// Whether the Service is there.
    ServiceFound(Result<bool, String>),
    PluginsListed(Result<Vec<MCPGPlugin>, String>),
}

/// What is to be done next.
#[derive(Debug)]
pub enum MirrorAction {
    RemoveFinalizer,
    AddFinalizer,
    /// Look up this Service.
    FindService { namespace: String, name: String },
    ListPlugins,
    /// Patch the status, publish the event and end.
    Complete(MirrorReport),
    /// End without a report.
    Stop(Verdict),
    /// End with an error.
    Fail(ReconcileError),
    /// Nothing: this event was not waited for.
    Nothing,
}

/// The reconcile ends with an error.
pub open spec fn fails(err: ReconcileError, n: MirrorState, x: MirrorAction) -> bool {
    n is Done && x == MirrorAction::Fail(err)
}

/// Whether a reconcile begins in state `s` with action `x`.
pub open spec fn starts(b: Begin, s: MirrorState, x: MirrorAction) -> bool {
    if b.deleting {
        s is RemovingFinalizer && x is RemoveFinalizer
    } else {
        s is AddingFinalizer && x is AddFinalizer
    }
}

/// Whether an event in state `s` leads to state `n` and action `x`.
pub open spec fn step_is(
    obj: MCPGPluginMirror,
    b: Begin,
    s: MirrorState,
    e: MirrorEvent,
    n: MirrorState,
    x: MirrorAction,
) -> bool {
    match (s, e) {
        (MirrorState::RemovingFinalizer, MirrorEvent::FinalizerRemoved(r)) => match r {
            Ok(_) => n is Done && x == MirrorAction::Stop(
                Verdict { requeue: Requeue::AwaitChange, outcome: ReconcileOutcome::Success },
            ),
            Err(d) => fails(ReconcileError::Finalizer(d), n, x),
        },
        (MirrorState::AddingFinalizer, MirrorEvent::FinalizerAdded(r)) => match r {
            Ok(_) => {
                &&& n is FindingService
                &&& x matches MirrorAction::FindService { namespace, name }
                &&& namespace@ == obj.spec.endpoint.service.namespace@
                &&& name@ == obj.spec.endpoint.service.name@
            },
            Err(d) => fails(ReconcileError::Finalizer(d), n, x),
        },
        (MirrorState::FindingService, MirrorEvent::ServiceFound(r)) => match r {
            Ok(there) => n == MirrorState::ListingPlugins(there) && x is ListPlugins,
            Err(d) => fails(ReconcileError::Kube(d), n, x),
        },
        (MirrorState::ListingPlugins(there), MirrorEvent::PluginsListed(r)) => match r {
            Ok(plugins) => {
                &&& n is Done
                &&& x matches MirrorAction::Complete(report)
                &&& reports(obj, b.generation, there, proxied(plugins@, b.name@), report)
            },
            Err(d) => fails(ReconcileError::Kube(d), n, x),
        },
        (_, _) => n == s && x is Nothing,
    }
}

/// The first step of a mirror's reconcile.
pub fn start(begin: &Begin) -> (r: (MirrorState, MirrorAction))
    ensures
        starts(*begin, r.0, r.1),
{
    if begin.deleting {
        (MirrorState::RemovingFinalizer, MirrorAction::RemoveFinalizer)
    } else {
        (MirrorState::AddingFinalizer, MirrorAction::AddFinalizer)
    }
}

fn fail(err: ReconcileError) -> (r: (MirrorState, MirrorAction))
    ensures
        fails(err, r.0, r.1),
{
    (MirrorState::Done, MirrorAction::Fail(err))
}

/// One step of a mirror's reconcile: what an event leads to.
pub fn step(obj: &MCPGPluginMirror, begin: &Begin, state: MirrorState, event: MirrorEvent) -> (r: (
    MirrorState,
    MirrorAction,
))
    ensures
        step_is(*obj, *begin, state, event, r.0, r.1),
{
    match (state, event) {
        (MirrorState::RemovingFinalizer, MirrorEvent::FinalizerRemoved(r)) => match r {
            Ok(_) => (MirrorState::Done, MirrorAction::Stop(released())),
            Err(d) => fail(ReconcileError::Finalizer(d)),
        },
        (MirrorState::AddingFinalizer, MirrorEvent::FinalizerAdded(r)) => match r {
            Ok(_) => {
                let svc = &obj.spec.endpoint.service;
                let action = MirrorAction::FindService {
                    namespace: svc.namespace.clone(),
                    name: svc.name.clone(),
                };
                (MirrorState::FindingService, action)
            },
            Err(d) => fail(ReconcileError::Finalizer(d)),
        },
        (MirrorState::FindingService, MirrorEvent::ServiceFound(r)) => match r {
            Ok(there) => (MirrorState::ListingPlugins(there), MirrorAction::ListPlugins),
            Err(d) => fail(ReconcileError::Kube(d)),
        },
        (MirrorState::ListingPlugins(there), MirrorEvent::PluginsListed(r)) => match r {
            Ok(plugins) => {
                let count = count_proxied_plugins(&plugins, begin.name.as_str());
                let report = report_plugin_mirror(obj, begin.generation, there, count);
                (MirrorState::Done, MirrorAction::Complete(report))
            },
            Err(d) => fail(ReconcileError::Kube(d)),
        },
        (state, _) => (state, MirrorAction::Nothing),
    }
}

/// A reconcile that ended stays ended.
pub proof fn law_done_is_final(
    obj: MCPGPluginMirror,
    b: Begin,
    e: MirrorEvent,
    n: MirrorState,
    x: MirrorAction,
)
    requires
        step_is(obj, b, MirrorState::Done, e, n, x),
    ensures
        n is Done,
        x is Nothing,
{
}

} // verus!
