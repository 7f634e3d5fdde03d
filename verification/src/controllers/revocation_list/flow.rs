//! The steps of a revocation list's reconcile, from its finalizer to its
//! status.
//!
//! The caller performs one action at a time and hands back what came of it.
use vstd::prelude::*;

use crate::api::objects::{ConfigMap, ConfigMapView};
use crate::api::resources::{MCPGGateway, MCPGRevocationList};
use crate::controllers::revocation_list::list::{
    build_configmap, gateway_namespaces, list_configmap, list_json, namespaces_with_gateways,
    render_revocation_json, report_revocation_list, reports, RevocationListReport,
};
use crate::hashing::text_hash;
use crate::json::pretty_text;
use crate::ordered::sorted_set;
use crate::reconcile::flow::{released, Begin, ReconcileError, Requeue, Verdict};
use crate::telemetry::ReconcileOutcome;
use crate::text::texts;

verus! {

/// Where the reconcile of a revocation list stands: what it waits for.
#[derive(Debug)]
pub enum ListState {
    /// The removal of a deleted list's finalizer.
    RemovingFinalizer,
    /// The finalizer.
    AddingFinalizer,
    /// The gateways.
    ListingGateways,
    /// The ConfigMap in the namespace at position `next`; so many of the
    /// earlier ones have theirs.
    Applying { targets: Vec<String>, next: usize, materialised: usize },
    /// Nothing any more.
    Done,
}

/// What came of an action. One that failed carries its message.
#[derive(Debug)]
pub enum ListEvent {
    FinalizerRemoved(Result<(), String>),
    FinalizerAdded(Result<(), String>),
    GatewaysListed(Result<Vec<MCPGGateway>, String>),
    Applied(Result<(), String>),
}

/// What is to be done next.
#[derive(Debug)]
pub enum ListAction {
    RemoveFinalizer,
    AddFinalizer,
    /// List the gateways of all namespaces.
    ListGateways,
    /// Apply this ConfigMap.
    Apply(ConfigMap),
    /// Patch the status, publish the event and end. The failures of a list
    /// that reached every namespace are forgotten.
    Complete(RevocationListReport),
    /// End without a report.
    Stop(Verdict),
    /// End with an error.
    Fail(ReconcileError),
    /// Nothing: this event was not waited for.
    Nothing,
}

/// The reconcile ends with an error.
pub open spec fn fails(err: ReconcileError, n: ListState, x: ListAction) -> bool {
    n is Done && x == ListAction::Fail(err)
}

/// The list as it stands in a ConfigMap.
pub open spec fn rendered(obj: MCPGRevocationList) -> Seq<char> {
    pretty_text(list_json(obj.spec))
}

/// The namespace at position `next` is served, or all of them were and the
/// list is reported.
pub open spec fn serves(
    obj: MCPGRevocationList,
    b: Begin,
    targets: Seq<Seq<char>>,
    next: int,
    materialised: int,
    n: ListState,
    x: ListAction,
) -> bool {
    if next < targets.len() {
        &&& n matches ListState::Applying { targets: t, next: k, materialised: m }
        &&& texts(t@) == targets
        &&& k == next
        &&& m == materialised
        &&& x matches ListAction::Apply(cm)
        &&& cm@ == list_configmap(obj, targets[next], rendered(obj), text_hash(rendered(obj)))
    } else {
        &&& n is Done
        &&& x matches ListAction::Complete(r)
        &&& reports(
            obj,
            b.generation,
            materialised as nat,
            targets.len(),
            text_hash(rendered(obj)),
            r,
        )
    }
}

/// Whether a reconcile begins in state `s` with action `x`.
pub open spec fn starts(b: Begin, s: ListState, x: ListAction) -> bool {
    if b.deleting {
        s is RemovingFinalizer && x is RemoveFinalizer
    } else {
        s is AddingFinalizer && x is AddFinalizer
    }
}

/// Whether an event in state `s` leads to state `n` and action `x`.
pub open spec fn step_is(
    obj: MCPGRevocationList,
    b: Begin,
    s: ListState,
    e: ListEvent,
    n: ListState,
    x: ListAction,
) -> bool {
    match (s, e) {
        (ListState::RemovingFinalizer, ListEvent::FinalizerRemoved(r)) => match r {
            Ok(_) => n is Done && x == ListAction::Stop(
                Verdict { requeue: Requeue::AwaitChange, outcome: ReconcileOutcome::Success },
            ),
            Err(d) => fails(ReconcileError::Finalizer(d), n, x),
        },
        (ListState::AddingFinalizer, ListEvent::FinalizerAdded(r)) => match r {
            Ok(_) => n is ListingGateways && x is ListGateways,
            Err(d) => fails(ReconcileError::Finalizer(d), n, x),
        },
        (ListState::ListingGateways, ListEvent::GatewaysListed(r)) => match r {
            Ok(gateways) => serves(
                obj,
                b,
                sorted_set(gateway_namespaces(gateways@)),
                0,
                0,
                n,
                x,
            ),
            Err(d) => fails(ReconcileError::Kube(d), n, x),
        },
        (
            ListState::Applying { targets, next, materialised },
            ListEvent::Applied(r),
        ) => if materialised <= next < targets@.len() {
            serves(
                obj,
                b,
                texts(targets@),
                next + 1,
                if r is Ok {
                    materialised + 1
                } else {
                    materialised as int
                },
                n,
                x,
            )
        } else {
            n == s && x is Nothing
        },
        (_, _) => n == s && x is Nothing,
    }
}

/// The first step of a revocation list's reconcile.
pub fn start(begin: &Begin) -> (r: (ListState, ListAction))
    ensures
        starts(*begin, r.0, r.1),
{
    if begin.deleting {
        (ListState::RemovingFinalizer, ListAction::RemoveFinalizer)
    } else {
        (ListState::AddingFinalizer, ListAction::AddFinalizer)
    }
}

fn fail(err: ReconcileError) -> (r: (ListState, ListAction))
    ensures
        fails(err, r.0, r.1),
{
    (ListState::Done, ListAction::Fail(err))
}

fn serve(
    obj: &MCPGRevocationList,
    begin: &Begin,
    targets: Vec<String>,
    next: usize,
    materialised: usize,
) -> (r: (ListState, ListAction))
    requires
        materialised <= next <= targets@.len(),
    ensures
        serves(*obj, *begin, texts(targets@), next as int, materialised as int, r.0, r.1),
{
    let (text, hash) = render_revocation_json(&obj.spec);
    if next < targets.len() {
        let cm = build_configmap(obj, targets[next].as_str(), text.as_str(), hash.as_str());
        (ListState::Applying { targets, next, materialised }, ListAction::Apply(cm))
    } else {
        let report = report_revocation_list(
            obj,
            begin.generation,
            materialised,
            targets.len(),
            hash.as_str(),
        );
        (ListState::Done, ListAction::Complete(report))
    }
}

/// One step of a revocation list's reconcile: what an event leads to.
pub fn step(obj: &MCPGRevocationList, begin: &Begin, state: ListState, event: ListEvent) -> (r: (
    ListState,
    ListAction,
))
    ensures
        step_is(*obj, *begin, state, event, r.0, r.1),
{
    match (state, event) {
        (ListState::RemovingFinalizer, ListEvent::FinalizerRemoved(r)) => match r {
            Ok(_) => (ListState::Done, ListAction::Stop(released())),
            Err(d) => fail(ReconcileError::Finalizer(d)),
        },
        (ListState::AddingFinalizer, ListEvent::FinalizerAdded(r)) => match r {
            Ok(_) => (ListState::ListingGateways, ListAction::ListGateways),
            Err(d) => fail(ReconcileError::Finalizer(d)),
        },
        (ListState::ListingGateways, ListEvent::GatewaysListed(r)) => match r {
            Ok(gateways) => serve(obj, begin, namespaces_with_gateways(&gateways), 0, 0),
            Err(d) => fail(ReconcileError::Kube(d)),
        },
        (ListState::Applying { targets, next, materialised }, ListEvent::Applied(r)) => {
            if next >= targets.len() || materialised > next {
                return (
                    ListState::Applying { targets, next, materialised },
                    ListAction::Nothing,
                );
            }
            let done: usize = match r {
                Ok(_) => materialised + 1,
                Err(_) => materialised,
            };
            serve(obj, begin, targets, next + 1, done)
        },
        (state, _) => (state, ListAction::Nothing),
    }
}

/// Whether the states, events and actions are those of a reconcile of `obj`:
/// each event leads from one state to the next. `actions[0]` is the first
/// action, and each further one answers an event.
pub open spec fn is_run(
    obj: MCPGRevocationList,
    b: Begin,
    states: Seq<ListState>,
    events: Seq<ListEvent>,
    actions: Seq<ListAction>,
) -> bool {
    &&& states.len() == events.len() + 1
    &&& actions.len() == events.len() + 1
    &&& starts(b, states[0], actions[0])
    &&& forall|i: int|
        0 <= i < events.len() ==> step_is(
            obj,
            b,
            states[i],
            #[trigger] events[i],
            states[i + 1],
            actions[i + 1],
        )
}

/// How many of the first `n` events are ConfigMaps that were waited for and
/// applied.
pub open spec fn applied(states: Seq<ListState>, events: Seq<ListEvent>, n: int) -> nat
    decreases n,
{
    if n <= 0 {
        0
    } else {
        applied(states, events, n - 1) + (if states[n - 1] is Applying && events[n
            - 1] matches ListEvent::Applied(Ok(_)) {
            1nat
        } else {
            0nat
        })
    }
}

/// The ConfigMaps to apply so far, once an action is known.
pub open spec fn grown(done: Seq<ConfigMapView>, x: ListAction) -> Seq<ConfigMapView> {
    match x {
        ListAction::Apply(cm) => done.push(cm@),
        _ => done,
    }
}

/// The ConfigMaps that the first `n` actions apply, in their order.
pub open spec fn attempts(actions: Seq<ListAction>, n: int) -> Seq<ConfigMapView>
    decreases n,
{
    if n <= 0 {
        Seq::empty()
    } else {
        grown(attempts(actions, n - 1), actions[n - 1])
    }
}

/// The ConfigMaps with a list, one for each of the namespaces.
pub open spec fn copies(obj: MCPGRevocationList, namespaces: Seq<Seq<char>>) -> Seq<ConfigMapView> {
    namespaces.map_values(
        |ns: Seq<char>| list_configmap(obj, ns, rendered(obj), text_hash(rendered(obj))),
    )
}

/// Whether these are the gateways that one of the first `n` events listed.
pub open spec fn were_listed(
    states: Seq<ListState>,
    events: Seq<ListEvent>,
    n: int,
    gws: Seq<MCPGGateway>,
) -> bool {
    exists|i: int|
        0 <= i < n && states[i] is ListingGateways && ((#[trigger] events[i]) matches
            ListEvent::GatewaysListed(Ok(v)) && v@ == gws)
}

/// Whether these namespaces are those of the gateways that were listed.
spec fn are_targets(
    states: Seq<ListState>,
    events: Seq<ListEvent>,
    n: int,
    targets: Seq<Seq<char>>,
) -> bool {
    exists|gws: Seq<MCPGGateway>| #[trigger]
        were_listed(states, events, n, gws) && targets == sorted_set(gateway_namespaces(gws))
}

proof fn lemma_targets_stay(
    states: Seq<ListState>,
    events: Seq<ListEvent>,
    n: int,
    targets: Seq<Seq<char>>,
)
    requires
        are_targets(states, events, n - 1, targets),
    ensures
        are_targets(states, events, n, targets),
{
    let gws = choose|gws: Seq<MCPGGateway>| #[trigger]
        were_listed(states, events, n - 1, gws) && targets == sorted_set(gateway_namespaces(gws));
    assert(were_listed(states, events, n, gws));
}

/// What the first `n` events and the first `n + 1` actions must have been
/// when they led to state `s`.
spec fn on_track(
    obj: MCPGRevocationList,
    states: Seq<ListState>,
    events: Seq<ListEvent>,
    actions: Seq<ListAction>,
    n: int,
) -> bool {
    match states[n] {
        ListState::Applying { targets, next, materialised } => {
            &&& materialised <= next < targets@.len()
            &&& materialised == applied(states, events, n)
            &&& attempts(actions, n + 1) == copies(obj, texts(targets@).take(next + 1))
            &&& are_targets(states, events, n, texts(targets@))
        },
        ListState::Done => true,
        _ => applied(states, events, n) == 0 && attempts(actions, n + 1).len() == 0,
    }
}

proof fn lemma_copies(obj: MCPGRevocationList, names: Seq<Seq<char>>, k: int)
    requires
        0 <= k < names.len(),
    ensures
        copies(obj, names.take(k + 1)) == copies(obj, names.take(k)).push(
            list_configmap(obj, names[k], rendered(obj), text_hash(rendered(obj))),
        ),
{
    assert(copies(obj, names.take(k + 1)) =~= copies(obj, names.take(k)).push(
        list_configmap(obj, names[k], rendered(obj), text_hash(rendered(obj))),
    ));
}

proof fn lemma_on_track(
    obj: MCPGRevocationList,
    b: Begin,
    states: Seq<ListState>,
    events: Seq<ListEvent>,
    actions: Seq<ListAction>,
    n: int,
)
    requires
        is_run(obj, b, states, events, actions),
        0 <= n <= events.len(),
    ensures
        on_track(obj, states, events, actions, n),
    decreases n,
{
    assert(attempts(actions, n + 1) == grown(attempts(actions, n), actions[n]));
    if n == 0 {
        assert(attempts(actions, 0) =~= Seq::empty());
    } else {
        lemma_on_track(obj, b, states, events, actions, n - 1);
        let e = events[n - 1];
        assert(step_is(obj, b, states[n - 1], e, states[n], actions[n]));
        match states[n] {
            ListState::Applying { targets, next, materialised } => {
                lemma_copies(obj, texts(targets@), next as int);
                match states[n - 1] {
                    ListState::ListingGateways => {
                        let gws = e->GatewaysListed_0->Ok_0@;
                        assert(were_listed(states, events, n, gws));
                        assert(attempts(actions, n) =~= copies(obj, texts(targets@).take(0)));
                    },
                    _ => {
                        lemma_targets_stay(states, events, n, texts(targets@));
                    },
                }
            },
            _ => {},
        }
    }
}

/// The list goes to every namespace that runs a gateway: when it is
/// reported, its ConfigMap was applied, or tried to be, in each of them and
/// nowhere else, and the report says in how many it was.
pub proof fn law_every_namespace_is_served(
    obj: MCPGRevocationList,
    b: Begin,
    states: Seq<ListState>,
    events: Seq<ListEvent>,
    actions: Seq<ListAction>,
    k: int,
)
    requires
        is_run(obj, b, states, events, actions),
        0 <= k <= events.len(),
        actions[k] is Complete,
    ensures
        exists|gws: Seq<MCPGGateway>|
            {
                let targets = sorted_set(gateway_namespaces(gws));
                &&& #[trigger] were_listed(states, events, k, gws)
                &&& attempts(actions, k) == copies(obj, targets)
                &&& reports(
                    obj,
                    b.generation,
                    applied(states, events, k),
                    targets.len(),
                    text_hash(rendered(obj)),
                    actions[k]->Complete_0,
                )
            },
{
    assert(k > 0);
    lemma_on_track(obj, b, states, events, actions, k - 1);
    let e = events[k - 1];
    assert(step_is(obj, b, states[k - 1], e, states[k], actions[k]));
    match states[k - 1] {
        ListState::Applying { targets, next, .. } => {
            let names = texts(targets@);
            lemma_targets_stay(states, events, k, names);
            assert(names.take(next + 1) =~= names);
            let gws = choose|gws: Seq<MCPGGateway>| #[trigger]
                were_listed(states, events, k, gws) && names == sorted_set(
                    gateway_namespaces(gws),
                );
            assert(were_listed(states, events, k, gws));
        },
        _ => {
            let gws = e->GatewaysListed_0->Ok_0@;
            assert(were_listed(states, events, k, gws));
            assert(attempts(actions, k) =~= copies(obj, sorted_set(gateway_namespaces(gws))));
        },
    }
}

/// A reconcile that ended stays ended.
pub proof fn law_done_is_final(
    obj: MCPGRevocationList,
    b: Begin,
    e: ListEvent,
    n: ListState,
    x: ListAction,
)
    requires
        step_is(obj, b, ListState::Done, e, n, x),
    ensures
        n is Done,
        x is Nothing,
{
}

} // verus!
