//! The steps of a server's reconcile, from its finalizer to its status.
//!
//! The caller performs one action at a time and hands back what came of it.
use vstd::prelude::*;

use crate::api::resources::{CosignIdentity, MCPGServer};
use crate::controllers::server::report::{
    checks, image_check, image_state, may_render, report_server, reports, ImageCheck, ImageVerdict,
    ServerReport,
};
use crate::reconcile::flow::{released, Begin, ReconcileError, Requeue, Verdict};
use crate::telemetry::ReconcileOutcome;

verus! {

/// Where the reconcile of a server stands: what it waits for.
#[derive(Debug)]
pub enum ServerState {
    /// The removal of a deleted server's finalizer.
    RemovingFinalizer,
    /// The finalizer.
    AddingFinalizer,
    /// The check of the image's signature.
    CheckingImage,
    /// The Deployment.
    ApplyingDeployment(ImageVerdict),
    /// The Service.
    ApplyingService(ImageVerdict),
    /// The Deployment as it runs.
    FindingDeployment(ImageVerdict),
    /// The gateway that the server joins, once this many replicas are known
    /// to be ready.
    FindingGateway(ImageVerdict, i32),
    /// Nothing any more.
    Done,
}

/// What came of an action. One that failed carries its message.
#[derive(Debug)]
pub enum ServerEvent {
    FinalizerRemoved(Result<(), String>),
    FinalizerAdded(Result<(), String>),
    ImageChecked(Result<(), String>),
    DeploymentApplied(Result<(), String>),
    ServiceApplied(Result<(), String>),
    /// How many replicas are ready; none when there is no Deployment, or
    /// when it does not say.
    DeploymentFound(Result<Option<i32>, String>),
    /// Whether the gateway is there.
    GatewayFound(Result<bool, String>),
}

/// What is to be done next.
#[derive(Debug)]
pub enum ServerAction {
    RemoveFinalizer,
    AddFinalizer,
    /// Check that this image carries a signature of this identity at this
    /// digest.
    CheckImage { image: String, identity: CosignIdentity, digest: String },
    ApplyDeployment,
    ApplyService,
    /// Look up the Deployment of this name.
    FindDeployment(String),
    /// Look up the gateway of this name in the server's namespace.
    FindGateway(String),
    /// Patch the status, publish the events and end.
    Complete(ServerReport),
    /// End without a report.
    Stop(Verdict),
    /// End with an error.
    Fail(ReconcileError),
    /// Nothing: this event was not waited for.
    Nothing,
}

/// The reconcile ends with an error.
pub open spec fn fails(err: ReconcileError, n: ServerState, x: ServerAction) -> bool {
    n is Done && x == ServerAction::Fail(err)
}

/// The running Deployment is looked up.
pub open spec fn looks_up(
    obj: MCPGServer,
    v: ImageVerdict,
    n: ServerState,
    x: ServerAction,
) -> bool {
    &&& n == ServerState::FindingDeployment(v)
    &&& x matches ServerAction::FindDeployment(name)
    &&& name@ == obj.spec.child_name@
}

/// The image was judged: the workload is applied when it may run. A workload
/// that runs already is left alone otherwise.
pub open spec fn after_image(
    obj: MCPGServer,
    v: ImageVerdict,
    n: ServerState,
    x: ServerAction,
) -> bool {
    if image_state(v).0 {
        n == ServerState::ApplyingDeployment(v) && x is ApplyDeployment
    } else {
        looks_up(obj, v, n, x)
    }
}

/// The server is reported.
pub open spec fn completes(
    obj: MCPGServer,
    b: Begin,
    v: ImageVerdict,
    replicas: i32,
    gateway_exists: bool,
    n: ServerState,
    x: ServerAction,
) -> bool {
    &&& n is Done
    &&& x matches ServerAction::Complete(r)
    &&& reports(obj, b.namespace@, b.generation, v, replicas, gateway_exists, r)
}

/// Whether a reconcile begins in state `s` with action `x`.
pub open spec fn starts(b: Begin, s: ServerState, x: ServerAction) -> bool {
    if b.deleting {
        s is RemovingFinalizer && x is RemoveFinalizer
    } else {
        s is AddingFinalizer && x is AddFinalizer
    }
}

/// Whether an event in state `s` leads to state `n` and action `x`.
pub open spec fn step_is(
    obj: MCPGServer,
    b: Begin,
    s: ServerState,
    e: ServerEvent,
    n: ServerState,
    x: ServerAction,
) -> bool {
    match (s, e) {
        (ServerState::RemovingFinalizer, ServerEvent::FinalizerRemoved(r)) => match r {
            Ok(_) => n is Done && x == ServerAction::Stop(
                Verdict { requeue: Requeue::AwaitChange, outcome: ReconcileOutcome::Success },
            ),
            Err(d) => fails(ReconcileError::Finalizer(d), n, x),
        },
        (ServerState::AddingFinalizer, ServerEvent::FinalizerAdded(r)) => match r {
            Ok(_) => if checks(obj, ImageCheck::NotConfigured) {
                after_image(obj, ImageVerdict::NotConfigured, n, x)
            } else if checks(obj, ImageCheck::DigestRequired) {
                after_image(obj, ImageVerdict::DigestRequired, n, x)
            } else {
                &&& n is CheckingImage
                &&& x matches ServerAction::CheckImage { image, identity, digest }
                &&& checks(obj, ImageCheck::Check { image, identity, digest })
            },
            Err(d) => fails(ReconcileError::Finalizer(d), n, x),
        },
        (ServerState::CheckingImage, ServerEvent::ImageChecked(r)) => match r {
            Ok(_) => after_image(obj, ImageVerdict::Verified, n, x),
            Err(d) => after_image(obj, ImageVerdict::Failed(d), n, x),
        },
        (ServerState::ApplyingDeployment(v), ServerEvent::DeploymentApplied(r)) => match r {
            Ok(_) => n == ServerState::ApplyingService(v) && x is ApplyService,
            Err(d) => fails(ReconcileError::Apply(d), n, x),
        },
        (ServerState::ApplyingService(v), ServerEvent::ServiceApplied(r)) => match r {
            Ok(_) => looks_up(obj, v, n, x),
            Err(d) => fails(ReconcileError::Apply(d), n, x),
        },
        (ServerState::FindingDeployment(v), ServerEvent::DeploymentFound(r)) => match r {
            Ok(ready) => {
                let replicas = match ready {
                    Some(k) => k,
                    None => 0i32,
                };
                match obj.spec.federate {
                    Some(f) => {
                        &&& n == ServerState::FindingGateway(v, replicas)
                        &&& x matches ServerAction::FindGateway(name)
                        &&& name@ == f.gateway_ref.name@
                    },
                    None => completes(obj, b, v, replicas, false, n, x),
                }
            },
            Err(d) => fails(ReconcileError::Kube(d), n, x),
        },
        (ServerState::FindingGateway(v, replicas), ServerEvent::GatewayFound(r)) => match r {
            Ok(there) => completes(obj, b, v, replicas, there, n, x),
            Err(d) => fails(ReconcileError::Kube(d), n, x),
        },
        (_, _) => n == s && x is Nothing,
    }
}

/// The first step of a server's reconcile.
pub fn start(begin: &Begin) -> (r: (ServerState, ServerAction))
    ensures
        starts(*begin, r.0, r.1),
{
    if begin.deleting {
        (ServerState::RemovingFinalizer, ServerAction::RemoveFinalizer)
    } else {
        (ServerState::AddingFinalizer, ServerAction::AddFinalizer)
    }
}

fn fail(err: ReconcileError) -> (r: (ServerState, ServerAction))
    ensures
        fails(err, r.0, r.1),
{
    (ServerState::Done, ServerAction::Fail(err))
}

fn look_up(obj: &MCPGServer, v: ImageVerdict) -> (r: (ServerState, ServerAction))
    ensures
        looks_up(*obj, v, r.0, r.1),
{
    (
        ServerState::FindingDeployment(v),
        ServerAction::FindDeployment(obj.spec.child_name.clone()),
    )
}

fn go_on_after_image(obj: &MCPGServer, v: ImageVerdict) -> (r: (ServerState, ServerAction))
    ensures
        after_image(*obj, v, r.0, r.1),
{
    if may_render(&v) {
        (ServerState::ApplyingDeployment(v), ServerAction::ApplyDeployment)
    } else {
        look_up(obj, v)
    }
}

fn complete(
    obj: &MCPGServer,
    begin: &Begin,
    v: ImageVerdict,
    replicas: i32,
    gateway_exists: bool,
) -> (r: (ServerState, ServerAction))
    ensures
        completes(*obj, *begin, v, replicas, gateway_exists, r.0, r.1),
{
    let report = report_server(
        obj,
        begin.namespace.as_str(),
        begin.generation,
        &v,
        replicas,
        gateway_exists,
    );
    (ServerState::Done, ServerAction::Complete(report))
}

/// One step of a server's reconcile: what an event leads to.
pub fn step(obj: &MCPGServer, begin: &Begin, state: ServerState, event: ServerEvent) -> (r: (
    ServerState,
    ServerAction,
))
    ensures
        step_is(*obj, *begin, state, event, r.0, r.1),
{
    match (state, event) {
        (ServerState::RemovingFinalizer, ServerEvent::FinalizerRemoved(r)) => match r {
            Ok(_) => (ServerState::Done, ServerAction::Stop(released())),
            Err(d) => fail(ReconcileError::Finalizer(d)),
        },
        (ServerState::AddingFinalizer, ServerEvent::FinalizerAdded(r)) => match r {
            Ok(_) => match image_check(obj) {
                ImageCheck::NotConfigured => go_on_after_image(obj, ImageVerdict::NotConfigured),
                ImageCheck::DigestRequired => go_on_after_image(obj, ImageVerdict::DigestRequired),
                ImageCheck::Check { image, identity, digest } => (
                    ServerState::CheckingImage,
                    ServerAction::CheckImage { image, identity, digest },
                ),
            },
            Err(d) => fail(ReconcileError::Finalizer(d)),
        },
        (ServerState::CheckingImage, ServerEvent::ImageChecked(r)) => match r {
            Ok(_) => go_on_after_image(obj, ImageVerdict::Verified),
            Err(d) => go_on_after_image(obj, ImageVerdict::Failed(d)),
        },
        (ServerState::ApplyingDeployment(v), ServerEvent::DeploymentApplied(r)) => match r {
            Ok(_) => (ServerState::ApplyingService(v), ServerAction::ApplyService),
            Err(d) => fail(ReconcileError::Apply(d)),
        },
        (ServerState::ApplyingService(v), ServerEvent::ServiceApplied(r)) => match r {
            Ok(_) => look_up(obj, v),
            Err(d) => fail(ReconcileError::Apply(d)),
        },
        (ServerState::FindingDeployment(v), ServerEvent::DeploymentFound(r)) => match r {
            Ok(ready) => {
                let replicas: i32 = match ready {
                    Some(k) => k,
                    None => 0,
                };
                match &obj.spec.federate {
                    Some(f) => (
                        ServerState::FindingGateway(v, replicas),
                        ServerAction::FindGateway(f.gateway_ref.name.clone()),
                    ),
                    None => complete(obj, begin, v, replicas, false),
                }
            },
            Err(d) => fail(ReconcileError::Kube(d)),
        },
        (ServerState::FindingGateway(v, replicas), ServerEvent::GatewayFound(r)) => match r {
            Ok(gateway_exists) => complete(obj, begin, v, replicas, gateway_exists),
            Err(d) => fail(ReconcileError::Kube(d)),
        },
        (state, _) => (state, ServerAction::Nothing),
    }
}

/// Whether the states, events and actions are those of a reconcile of `obj`:
/// each event leads from one state to the next. `actions[0]` is the first
/// action, and each further one answers an event.
pub open spec fn is_run(
    obj: MCPGServer,
    b: Begin,
    states: Seq<ServerState>,
    events: Seq<ServerEvent>,
    actions: Seq<ServerAction>,
) -> bool {
    &&& states.len() == events.len() + 1
    &&& actions.len() == events.len() + 1
    &&& starts(b, states[0], actions[0])
    &&& forall|i: int|
        0 <= i < events.len() ==> step_is(
            obj,
            b,
            states[i],
            #[trigger] events[i],
            states[i + 1],
            actions[i + 1],
        )
}

/// Whether one of the first `n` events is a passed check of the image.
pub open spec fn image_passed(events: Seq<ServerEvent>, n: int) -> bool {
    exists|i: int| 0 <= i < n && (#[trigger] events[i]) matches ServerEvent::ImageChecked(Ok(_))
}

/// What the first `n` events must have been when they led to state `s`.
spec fn earned(obj: MCPGServer, events: Seq<ServerEvent>, n: int, s: ServerState) -> bool {
    (s is ApplyingDeployment || s is ApplyingService) && obj.spec.verify is Some ==> image_passed(
        events,
        n,
    )
}

proof fn lemma_earned(
    obj: MCPGServer,
    b: Begin,
    states: Seq<ServerState>,
    events: Seq<ServerEvent>,
    actions: Seq<ServerAction>,
    n: int,
)
    requires
        is_run(obj, b, states, events, actions),
        0 <= n <= events.len(),
    ensures
        earned(obj, events, n, states[n]),
    decreases n,
{
    if n > 0 {
        lemma_earned(obj, b, states, events, actions, n - 1);
        let e = events[n - 1];
        assert(step_is(obj, b, states[n - 1], e, states[n], actions[n]));
        if e matches ServerEvent::ImageChecked(Ok(_)) {
            assert(image_passed(events, n));
        }
    }
}

/// Where a server asks for its image to be verified, its workload is applied
/// only after the check passed.
pub proof fn law_only_verified_images_run(
    obj: MCPGServer,
    b: Begin,
    states: Seq<ServerState>,
    events: Seq<ServerEvent>,
    actions: Seq<ServerAction>,
    k: int,
)
    requires
        is_run(obj, b, states, events, actions),
        0 <= k <= events.len(),
        obj.spec.verify is Some,
        actions[k] is ApplyDeployment || actions[k] is ApplyService,
    ensures
        image_passed(events, k),
{
    lemma_earned(obj, b, states, events, actions, k);
    if k > 0 {
        assert(step_is(obj, b, states[k - 1], events[k - 1], states[k], actions[k]));
    }
}

/// A reconcile that ended stays ended.
pub proof fn law_done_is_final(
    obj: MCPGServer,
    b: Begin,
    e: ServerEvent,
    n: ServerState,
    x: ServerAction,
)
    requires
        step_is(obj, b, ServerState::Done, e, n, x),
    ensures
        n is Done,
        x is Nothing,
{
}

} // verus!
