//! The steps of a route's reconcile, from its finalizer to its status.
//!
//! The caller performs one action at a time and hands back what came of it.
use vstd::prelude::*;

use crate::api::resources::{gateway_namespace, MCPGGateway, MCPGRoute};
use crate::controllers::route::report::{report_route, reports, RouteReport};
use crate::reconcile::flow::{released, Begin, ReconcileError, Requeue, Verdict};
use crate::telemetry::ReconcileOutcome;

verus! {

/// Where the reconcile of a route stands: what it waits for.
#[derive(Debug)]
pub enum RouteState {
    /// The removal of a deleted route's finalizer.
    RemovingFinalizer,
    /// The finalizer.
    AddingFinalizer,
    /// The gateway that the route targets.
    FindingGateway,
    /// Nothing any more.
    Done,
}

/// What came of an action. One that failed carries its message.
#[derive(Debug)]
pub enum RouteEvent {
    FinalizerRemoved(Result<(), String>),
    FinalizerAdded(Result<(), String>),
    GatewayFound(Result<Option<MCPGGateway>, String>),
}

/// What is to be done next.
#[derive(Debug)]
pub enum RouteAction {
    RemoveFinalizer,
    AddFinalizer,
    /// Look up this gateway.
    FindGateway { namespace: String, name: String },
    /// Patch the status, publish the event and end.
    Complete(RouteReport),
    /// End without a report.
    Stop(Verdict),
    /// End with an error.
    Fail(ReconcileError),
    /// Nothing: this event was not waited for.
    Nothing,
}

/// The reconcile ends with an error.
pub open spec fn fails(err: ReconcileError, n: RouteState, x: RouteAction) -> bool {
    n is Done && x == RouteAction::Fail(err)
}

/// Whether a reconcile begins in state `s` with action `x`.
pub open spec fn starts(b: Begin, s: RouteState, x: RouteAction) -> bool {
    if b.deleting {
        s is RemovingFinalizer && x is RemoveFinalizer
    } else {
        s is AddingFinalizer && x is AddFinalizer
    }
}

/// Whether an event in state `s` leads to state `n` and action `x`.
pub open spec fn step_is(
    obj: MCPGRoute,
    b: Begin,
    s: RouteState,
    e: RouteEvent,
    n: RouteState,
    x: RouteAction,
) -> bool {
    match (s, e) {
        (RouteState::RemovingFinalizer, RouteEvent::FinalizerRemoved(r)) => match r {
            Ok(_) => n is Done && x == RouteAction::Stop(
                Verdict { requeue: Requeue::AwaitChange, outcome: ReconcileOutcome::Success },
            ),
            Err(d) => fails(ReconcileError::Finalizer(d), n, x),
        },
        (RouteState::AddingFinalizer, RouteEvent::FinalizerAdded(r)) => match r {
            Ok(_) => {
                &&& n is FindingGateway
                &&& x matches RouteAction::FindGateway { namespace, name }
                &&& namespace@ == gateway_namespace(obj.spec.gateway_ref, b.namespace@)
                &&& name@ == obj.spec.gateway_ref.name@
            },
            Err(d) => fails(ReconcileError::Finalizer(d), n, x),
        },
        (RouteState::FindingGateway, RouteEvent::GatewayFound(r)) => match r {
            Ok(gateway) => {
                &&& n is Done
                &&& x matches RouteAction::Complete(report)
                &&& reports(obj, b.namespace@, b.generation, gateway, report)
            },
            Err(d) => fails(ReconcileError::Kube(d), n, x),
        },
        (_, _) => n == s && x is Nothing,
    }
}

/// The first step of a route's reconcile.
pub fn start(begin: &Begin) -> (r: (RouteState, RouteAction))
    ensures
        starts(*begin, r.0, r.1),
{
    if begin.deleting {
        (RouteState::RemovingFinalizer, RouteAction::RemoveFinalizer)
    } else {
        (RouteState::AddingFinalizer, RouteAction::AddFinalizer)
    }
}

fn fail(err: ReconcileError) -> (r: (RouteState, RouteAction))
    ensures
        fails(err, r.0, r.1),
{
    (RouteState::Done, RouteAction::Fail(err))
}

/// One step of a route's reconcile: what an event leads to.
pub fn step(obj: &MCPGRoute, begin: &Begin, state: RouteState, event: RouteEvent) -> (r: (
    RouteState,
    RouteAction,
))
    ensures
        step_is(*obj, *begin, state, event, r.0, r.1),
{
    match (state, event) {
        (RouteState::RemovingFinalizer, RouteEvent::FinalizerRemoved(r)) => match r {
            Ok(_) => (RouteState::Done, RouteAction::Stop(released())),
            Err(d) => fail(ReconcileError::Finalizer(d)),
        },
        (RouteState::AddingFinalizer, RouteEvent::FinalizerAdded(r)) => match r {
            Ok(_) => {
                let action = RouteAction::FindGateway {
                    namespace: obj.spec.gateway_namespace(begin.namespace.as_str()),
                    name: obj.spec.gateway_ref.name.clone(),
                };
                (RouteState::FindingGateway, action)
            },
            Err(d) => fail(ReconcileError::Finalizer(d)),
        },
        (RouteState::FindingGateway, RouteEvent::GatewayFound(r)) => match r {
            Ok(gateway) => {
                let report = report_route(
                    obj,
                    begin.namespace.as_str(),
                    begin.generation,
                    gateway.as_ref(),
                );
                (RouteState::Done, RouteAction::Complete(report))
            },
            Err(d) => fail(ReconcileError::Kube(d)),
        },
        (state, _) => (state, RouteAction::Nothing),
    }
}

/// A reconcile that ended stays ended.
pub proof fn law_done_is_final(
    obj: MCPGRoute,
    b: Begin,
    e: RouteEvent,
    n: RouteState,
    x: RouteAction,
)
    requires
        step_is(obj, b, RouteState::Done, e, n, x),
    ensures
        n is Done,
        x is Nothing,
{
}

} // verus!
