//! The steps that bring the shared edge in line with what a gateway wants
//! there.
//!
//! The caller performs one action at a time and hands back what came of it.
//! A gateway that is being deleted wants nothing: the same steps take away
//! what it has.
use vstd::prelude::*;

use crate::controllers::gateway::edge::{
    law_stale, listener_failure_is_fatal, stale, stale_names, EdgePlan,
};
use crate::reconcile::flow::ReconcileError;
use crate::text::{clone_texts, texts};

verus! {

/// Where the work at the edge stands: what it waits for.
#[derive(Debug)]
pub enum EdgeState {
    /// The listeners.
    Listening(EdgePlan),
    /// The certificate of the domain at position `next`; the earlier ones
    /// have these names.
    Certifying { plan: EdgePlan, next: usize, wanted: Vec<String> },
    /// The gateway's certificates; those of these names are wanted.
    Listing { wanted: Vec<String> },
    /// Nothing any more.
    Done,
}

/// What came of an action. One that failed carries its message.
#[derive(Debug)]
pub enum EdgeEvent {
    ListenersApplied(Result<(), String>),
    /// The certificate was applied, under this name.
    CertificateApplied(Result<String, String>),
    /// The names of the gateway's certificates, where they could be listed.
    CertificatesListed(Option<Vec<String>>),
}

/// What is to be done next.
#[derive(Debug)]
pub enum EdgeAction {
    /// Apply listeners for these domains, and no others of the gateway's.
    ApplyListeners(Vec<String>),
    /// Apply a certificate for this domain.
    ApplyCertificate(String),
    /// List the certificates of the gateway with this uid.
    ListCertificates { uid: String },
    /// Delete the certificates of these names, as far as that is possible,
    /// and end.
    Finish { prune: Vec<String> },
    /// End with an error.
    Fail(ReconcileError),
    /// Nothing: this event was not waited for.
    Nothing,
}

/// The edge is left with an error.
pub open spec fn fails(err: ReconcileError, n: EdgeState, x: EdgeAction) -> bool {
    n is Done && x == EdgeAction::Fail(err)
}

/// The certificate at position `next` is applied; after the last one, what
/// the gateway has is listed.
pub open spec fn certifies(
    plan: EdgePlan,
    next: int,
    wanted: Seq<Seq<char>>,
    n: EdgeState,
    x: EdgeAction,
) -> bool {
    if next < plan.certificates@.len() {
        &&& n matches EdgeState::Certifying { plan: p, next: k, wanted: w }
        &&& p == plan
        &&& k == next
        &&& texts(w@) == wanted
        &&& x matches EdgeAction::ApplyCertificate(domain)
        &&& domain@ == texts(plan.certificates@)[next]
    } else {
        &&& n matches EdgeState::Listing { wanted: w }
        &&& texts(w@) == wanted
        &&& x matches EdgeAction::ListCertificates { uid }
        &&& uid@ == plan.uid@
    }
}

/// Whether the work begins in state `s` with action `x`.
pub open spec fn starts(plan: EdgePlan, s: EdgeState, x: EdgeAction) -> bool {
    &&& s == EdgeState::Listening(plan)
    &&& x matches EdgeAction::ApplyListeners(domains)
    &&& texts(domains@) == texts(plan.domains@)
}

/// Whether an event in state `s` leads to state `n` and action `x`.
pub open spec fn step_is(s: EdgeState, e: EdgeEvent, n: EdgeState, x: EdgeAction) -> bool {
    match (s, e) {
        (EdgeState::Listening(plan), EdgeEvent::ListenersApplied(r)) => match r {
            Ok(_) => certifies(plan, 0, Seq::empty(), n, x),
            Err(d) => if plan.domains@.len() > 0 {
                fails(ReconcileError::Kube(d), n, x)
            } else {
                certifies(plan, 0, Seq::empty(), n, x)
            },
        },
        (
            EdgeState::Certifying { plan, next, wanted },
            EdgeEvent::CertificateApplied(r),
        ) => if next < plan.certificates@.len() {
            match r {
                Ok(name) => certifies(plan, next + 1, texts(wanted@).push(name@), n, x),
                Err(d) => fails(ReconcileError::Apply(d), n, x),
            }
        } else {
            n == s && x is Nothing
        },
        (EdgeState::Listing { wanted }, EdgeEvent::CertificatesListed(listed)) => {
            &&& n is Done
            &&& x matches EdgeAction::Finish { prune }
            &&& texts(prune@) == (match listed {
                Some(existing) => stale(texts(existing@), texts(wanted@)),
                None => Seq::empty(),
            })
        },
        (_, _) => n == s && x is Nothing,
    }
}

/// The first step at the edge.
pub fn start(plan: EdgePlan) -> (r: (EdgeState, EdgeAction))
    ensures
        starts(plan, r.0, r.1),
{
    let domains = clone_texts(&plan.domains);
    (EdgeState::Listening(plan), EdgeAction::ApplyListeners(domains))
}

/// What a gateway with this uid wants at the edge when it is being deleted:
/// nothing.
pub fn nothing_wanted(uid: String) -> (r: EdgePlan)
    ensures
        r.uid == uid,
        r.domains@.len() == 0,
        r.certificates@.len() == 0,
{
    EdgePlan { uid, domains: Vec::new(), certificates: Vec::new() }
}

fn certify(plan: EdgePlan, next: usize, wanted: Vec<String>) -> (r: (EdgeState, EdgeAction))
    ensures
        certifies(plan, next as int, texts(wanted@), r.0, r.1),
{
    if next < plan.certificates.len() {
        let domain = plan.certificates[next].clone();
        (EdgeState::Certifying { plan, next, wanted }, EdgeAction::ApplyCertificate(domain))
    } else {
        (EdgeState::Listing { wanted }, EdgeAction::ListCertificates { uid: plan.uid })
    }
}

fn none_yet() -> (r: Vec<String>)
    ensures
        texts(r@) == Seq::<Seq<char>>::empty(),
{
    let v: Vec<String> = Vec::new();
    assert(texts(v@) =~= Seq::empty());
    v
}

/// One step at the edge: what an event leads to.
pub fn step(state: EdgeState, event: EdgeEvent) -> (r: (EdgeState, EdgeAction))
    ensures
        step_is(state, event, r.0, r.1),
{
    match (state, event) {
        (EdgeState::Listening(plan), EdgeEvent::ListenersApplied(r)) => match r {
            Ok(_) => certify(plan, 0, none_yet()),
            Err(d) => if listener_failure_is_fatal(&plan) {
                (EdgeState::Done, EdgeAction::Fail(ReconcileError::Kube(d)))
            } else {
                certify(plan, 0, none_yet())
            },
        },
        (EdgeState::Certifying { plan, next, mut wanted }, EdgeEvent::CertificateApplied(r)) => {
            if next >= plan.certificates.len() {
                return (EdgeState::Certifying { plan, next, wanted }, EdgeAction::Nothing);
            }
            match r {
                Ok(name) => {
                    assert(texts(wanted@.push(name)) =~= texts(wanted@).push(name@));
                    wanted.push(name);
                    certify(plan, next + 1, wanted)
                },
                Err(d) => (EdgeState::Done, EdgeAction::Fail(ReconcileError::Apply(d))),
            }
        },
        (EdgeState::Listing { wanted }, EdgeEvent::CertificatesListed(listed)) => {
            let prune = match listed {
                Some(existing) => stale_names(&existing, &wanted),
                None => none_yet(),
            };
            (EdgeState::Done, EdgeAction::Finish { prune })
        },
        (state, _) => (state, EdgeAction::Nothing),
    }
}

/// Whether the states, events and actions are those of the work at the edge
/// for `plan`: each event leads from one state to the next. `actions[0]` is
/// the first action, and each further one answers an event.
pub open spec fn is_run(
    plan: EdgePlan,
    states: Seq<EdgeState>,
    events: Seq<EdgeEvent>,
    actions: Seq<EdgeAction>,
) -> bool {
    &&& states.len() == events.len() + 1
    &&& actions.len() == events.len() + 1
    &&& starts(plan, states[0], actions[0])
    &&& forall|i: int|
        0 <= i < events.len() ==> step_is(
            states[i],
            #[trigger] events[i],
            states[i + 1],
            actions[i + 1],
        )
}

/// The names of the certificates that were waited for and applied in the
/// first `n` events, in their order.
pub open spec fn certified(states: Seq<EdgeState>, events: Seq<EdgeEvent>, n: int) -> Seq<Seq<char>>
    decreases n,
{
    if n <= 0 {
        Seq::empty()
    } else {
        match (states[n - 1], events[n - 1]) {
            (EdgeState::Certifying { .. }, EdgeEvent::CertificateApplied(Ok(name))) => certified(
                states,
                events,
                n - 1,
            ).push(name@),
            _ => certified(states, events, n - 1),
        }
    }
}

/// What the first `n` events must have been when they led to a state.
spec fn on_track(
    plan: EdgePlan,
    states: Seq<EdgeState>,
    events: Seq<EdgeEvent>,
    n: int,
) -> bool {
    match states[n] {
        EdgeState::Listening(p) => p == plan && certified(states, events, n).len() == 0,
        EdgeState::Certifying { plan: p, next, wanted } => {
            &&& p == plan
            &&& next < plan.certificates@.len()
            &&& wanted@.len() == next
            &&& texts(wanted@) == certified(states, events, n)
        },
        EdgeState::Listing { wanted } => {
            &&& wanted@.len() == plan.certificates@.len()
            &&& texts(wanted@) == certified(states, events, n)
        },
        EdgeState::Done => true,
    }
}

proof fn lemma_on_track(
    plan: EdgePlan,
    states: Seq<EdgeState>,
    events: Seq<EdgeEvent>,
    actions: Seq<EdgeAction>,
    n: int,
)
    requires
        is_run(plan, states, events, actions),
        0 <= n <= events.len(),
    ensures
        on_track(plan, states, events, n),
    decreases n,
{
    if n > 0 {
        lemma_on_track(plan, states, events, actions, n - 1);
        assert(step_is(states[n - 1], events[n - 1], states[n], actions[n]));
        match states[n] {
            EdgeState::Certifying { wanted, .. } => {
                assert(texts(wanted@).len() == wanted@.len());
            },
            EdgeState::Listing { wanted } => {
                assert(texts(wanted@).len() == wanted@.len());
            },
            _ => {},
        }
        if states[n - 1] is Listening {
            assert(certified(states, events, n - 1) =~= Seq::empty());
        }
    }
}

/// Only what the gateway no longer wants is deleted: when the work ends
/// well, every wanted domain has its certificate, and what is deleted is
/// exactly what was listed beside those.
pub proof fn law_wanted_certificates_stay(
    plan: EdgePlan,
    states: Seq<EdgeState>,
    events: Seq<EdgeEvent>,
    actions: Seq<EdgeAction>,
    k: int,
    x: Seq<char>,
)
    requires
        is_run(plan, states, events, actions),
        0 <= k <= events.len(),
        actions[k] is Finish,
    ensures
        k > 0,
        certified(states, events, k).len() == plan.certificates@.len(),
        match events[k - 1] {
            EdgeEvent::CertificatesListed(Some(existing)) => texts(
                actions[k]->prune@,
            ).contains(x) <==> texts(existing@).contains(x) && !certified(
                states,
                events,
                k,
            ).contains(x),
            _ => actions[k]->prune@.len() == 0,
        },
{
    assert(k > 0);
    lemma_on_track(plan, states, events, actions, k - 1);
    assert(step_is(states[k - 1], events[k - 1], states[k], actions[k]));
    match (states[k - 1], events[k - 1]) {
        (EdgeState::Listing { wanted }, EdgeEvent::CertificatesListed(Some(existing))) => {
            law_stale(texts(existing@), texts(wanted@), x);
        },
        _ => {},
    }
    assert(texts(actions[k]->prune@).len() == actions[k]->prune@.len());
}

/// A gateway that is being deleted is never held up by the edge: nothing
/// that happens there is an error.
pub proof fn law_release_never_fails(
    plan: EdgePlan,
    states: Seq<EdgeState>,
    events: Seq<EdgeEvent>,
    actions: Seq<EdgeAction>,
    k: int,
)
    requires
        is_run(plan, states, events, actions),
        plan.domains@.len() == 0,
        plan.certificates@.len() == 0,
        0 <= k <= events.len(),
    ensures
        !(actions[k] is Fail),
{
    if k > 0 {
        lemma_on_track(plan, states, events, actions, k - 1);
        assert(step_is(states[k - 1], events[k - 1], states[k], actions[k]));
    }
}

/// The work that ended stays ended.
pub proof fn law_done_is_final(e: EdgeEvent, n: EdgeState, x: EdgeAction)
    requires
        step_is(EdgeState::Done, e, n, x),
    ensures
        n is Done,
        x is Nothing,
{
}

} // verus!
