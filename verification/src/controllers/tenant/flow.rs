//! The steps of a tenant's reconcile, from its finalizer to its status.
//!
//! The caller performs one action at a time and hands back what came of it.
use vstd::prelude::*;

use crate::api::conditions::position;
use crate::api::objects::{ObjectMeta, RoleBinding};
use crate::api::resources::MCPGTenant;
use crate::controllers::plugin::secret::operator_namespace;
use crate::controllers::tenant::boundary::{
    all_bound, count_resources, countable, ensure_namespace_label, ensure_resource_quota,
    law_ready_iff_all_bound, lemma_all_bound, namespaces_where, no_mark, quota_is, quota_name_of,
    report_tenant, reports, split_namespaces, teardown_namespace, tenant_mark, totals,
    NamespaceFate, QuotaAction, TenantObservedCounts, TenantReport,
};
use crate::rbac::{ensure_tenant_secret_binding, tenant_binding};
use crate::reconcile::flow::{released, Begin, ReconcileError, Requeue, Verdict};
use crate::telemetry::ReconcileOutcome;
use crate::text::texts;

verus! {

/// Where the reconcile of a tenant stands: what it waits for.
#[derive(Debug)]
pub enum TenantState {
    /// The end of a deleted tenant in its namespace at position `next`.
    TearingDown { next: usize },
    /// The removal of a deleted tenant's finalizer.
    RemovingFinalizer,
    /// The finalizer.
    AddingFinalizer,
    /// The namespace that follows those whose fate is known.
    FindingNamespace { fates: Vec<NamespaceFate> },
    /// The binding of the namespace that follows those whose fate is known;
    /// it was found itself.
    BindingNamespace { fates: Vec<NamespaceFate> },
    /// How many objects the bound namespace holds that follows those counted
    /// already.
    Counting {
        bound: Vec<String>,
        unbound: Vec<String>,
        missing: Vec<String>,
        counts: Vec<TenantObservedCounts>,
    },
    /// Nothing any more.
    Done,
}

/// What came of an action. One that failed carries its message.
#[derive(Debug)]
pub enum TenantEvent {
    /// The namespace was left, as far as that was possible.
    TornDown,
    FinalizerRemoved(Result<(), String>),
    FinalizerAdded(Result<(), String>),
    /// Whether the namespace is there.
    NamespaceFound(Result<bool, String>),
    /// The namespace has its binding and its quota, or one of them could not
    /// be applied. Its mark does not matter here, nor whether a quota that it
    /// must not have was there to delete.
    NamespaceBound(Result<(), String>),
    Counted(Result<TenantObservedCounts, String>),
}

/// What is to be done next.
#[derive(Debug)]
pub enum TenantAction {
    /// Delete the quota of this name in the namespace, and apply the metadata
    /// to it; go on either way.
    TearDown { namespace: String, quota_name: String, unmarked: ObjectMeta },
    RemoveFinalizer,
    AddFinalizer,
    /// Look up the namespace of this name.
    FindNamespace(String),
    /// Apply the binding, where there is one, the metadata and the quota to
    /// the namespace.
    Bind {
        namespace: String,
        binding: Option<RoleBinding>,
        marked: ObjectMeta,
        quota: QuotaAction,
    },
    /// Count the gateways, plugin sets and routes in the namespace of this
    /// name.
    Count(String),
    /// Patch the status, publish the event and end.
    Complete(TenantReport),
    /// End without a report.
    Stop(Verdict),
    /// End with an error.
    Fail(ReconcileError),
    /// Nothing: this event was not waited for.
    Nothing,
}

/// The reconcile ends with an error.
pub open spec fn fails(err: ReconcileError, n: TenantState, x: TenantAction) -> bool {
    n is Done && x == TenantAction::Fail(err)
}

/// The names of a tenant's namespaces.
pub open spec fn namespaces(obj: MCPGTenant) -> Seq<Seq<char>> {
    texts(obj.spec.namespaces@)
}

/// A deleted tenant leaves the namespace at position `next`; once it left
/// all of them, its finalizer is removed.
pub open spec fn leaves(
    obj: MCPGTenant,
    b: Begin,
    next: int,
    n: TenantState,
    x: TenantAction,
) -> bool {
    if next < obj.spec.namespaces@.len() {
        &&& n matches TenantState::TearingDown { next: k }
        &&& k == next
        &&& x matches TenantAction::TearDown { namespace, quota_name, unmarked }
        &&& namespace@ == namespaces(obj)[next]
        &&& quota_name@ == quota_name_of(b.name@)
        &&& unmarked@ == no_mark(namespaces(obj)[next])
    } else {
        n is RemovingFinalizer && x is RemoveFinalizer
    }
}

/// The objects of the namespace that follows those counted are counted; once
/// all of them are, the tenant is reported.
pub open spec fn counts_on(
    obj: MCPGTenant,
    b: Begin,
    bound: Seq<Seq<char>>,
    unbound: Seq<Seq<char>>,
    missing: Seq<Seq<char>>,
    counts: Seq<TenantObservedCounts>,
    n: TenantState,
    x: TenantAction,
) -> bool {
    if counts.len() < bound.len() {
        &&& n matches TenantState::Counting { bound: v, unbound: u, missing: w, counts: c }
        &&& texts(v@) == bound
        &&& texts(u@) == unbound
        &&& texts(w@) == missing
        &&& c@ == counts
        &&& x matches TenantAction::Count(name)
        &&& name@ == bound[counts.len() as int]
    } else {
        &&& n is Done
        &&& x matches TenantAction::Complete(r)
        &&& totals(counts, r.observed)
        &&& reports(obj, b.generation, bound, unbound, missing, r.observed, r)
    }
}

/// The namespace that follows those known is looked up; once all of them
/// are known, the objects in those that are there are counted.
pub open spec fn goes_on(
    obj: MCPGTenant,
    b: Begin,
    fates: Seq<NamespaceFate>,
    n: TenantState,
    x: TenantAction,
) -> bool {
    let names = namespaces(obj);
    if fates.len() < names.len() {
        &&& n matches TenantState::FindingNamespace { fates: p }
        &&& p@ == fates
        &&& x matches TenantAction::FindNamespace(name)
        &&& name@ == names[fates.len() as int]
    } else {
        counts_on(
            obj,
            b,
            namespaces_where(names, fates, NamespaceFate::Bound),
            namespaces_where(names, fates, NamespaceFate::Unbound),
            namespaces_where(names, fates, NamespaceFate::Missing),
            Seq::empty(),
            n,
            x,
        )
    }
}

/// A namespace of the tenant gets what it is to have: the right of the
/// operator to write Secrets, the tenant's mark, and its quota.
pub open spec fn binds(
    obj: MCPGTenant,
    b: Begin,
    account: Seq<char>,
    ns: Seq<char>,
    x: TenantAction,
) -> bool {
    &&& x matches TenantAction::Bind { namespace, binding, marked, quota }
    &&& namespace@ == ns
    &&& match binding {
        Some(r) => ns != "mcpg-system"@ && r@ == tenant_binding(ns, "mcpg-system"@, account),
        None => ns == "mcpg-system"@,
    }
    &&& marked@ == tenant_mark(ns, b.name@)
    &&& quota_is(ns, b.name@, obj.spec.quotas, quota)
}

/// What became of a namespace that was to be bound.
pub open spec fn fate_of(bound: Result<(), String>) -> NamespaceFate {
    match bound {
        Ok(_) => NamespaceFate::Bound,
        Err(_) => NamespaceFate::Unbound,
    }
}

/// Whether a reconcile begins in state `s` with action `x`.
pub open spec fn starts(obj: MCPGTenant, b: Begin, s: TenantState, x: TenantAction) -> bool {
    if b.deleting {
        leaves(obj, b, 0, s, x)
    } else {
        s is AddingFinalizer && x is AddFinalizer
    }
}

/// Whether an event in state `s` leads to state `n` and action `x`.
pub open spec fn step_is(
    obj: MCPGTenant,
    b: Begin,
    account: Seq<char>,
    s: TenantState,
    e: TenantEvent,
    n: TenantState,
    x: TenantAction,
) -> bool {
    match (s, e) {
        (TenantState::TearingDown { next }, TenantEvent::TornDown) => if next
            < obj.spec.namespaces@.len() {
            leaves(obj, b, next + 1, n, x)
        } else {
            n == s && x is Nothing
        },
        (TenantState::RemovingFinalizer, TenantEvent::FinalizerRemoved(r)) => match r {
            Ok(_) => n is Done && x == TenantAction::Stop(
                Verdict { requeue: Requeue::AwaitChange, outcome: ReconcileOutcome::Success },
            ),
            Err(d) => fails(ReconcileError::Finalizer(d), n, x),
        },
        (TenantState::AddingFinalizer, TenantEvent::FinalizerAdded(r)) => match r {
            Ok(_) => goes_on(obj, b, Seq::empty(), n, x),
            Err(d) => fails(ReconcileError::Finalizer(d), n, x),
        },
        (TenantState::FindingNamespace { fates }, TenantEvent::NamespaceFound(r)) => if fates@.len()
            < obj.spec.namespaces@.len() {
            match r {
                Ok(true) => n == (TenantState::BindingNamespace { fates }) && binds(
                    obj,
                    b,
                    account,
                    namespaces(obj)[fates@.len() as int],
                    x,
                ),
                Ok(false) => goes_on(obj, b, fates@.push(NamespaceFate::Missing), n, x),
                Err(d) => fails(ReconcileError::Kube(d), n, x),
            }
        } else {
            n == s && x is Nothing
        },
        (TenantState::BindingNamespace { fates }, TenantEvent::NamespaceBound(r)) => if fates@.len()
            < obj.spec.namespaces@.len() {
            goes_on(obj, b, fates@.push(fate_of(r)), n, x)
        } else {
            n == s && x is Nothing
        },
        (
            TenantState::Counting { bound, unbound, missing, counts },
            TenantEvent::Counted(r),
        ) => if counts@.len() < bound@.len() {
            match r {
                Ok(c) => counts_on(
                    obj,
                    b,
                    texts(bound@),
                    texts(unbound@),
                    texts(missing@),
                    counts@.push(c),
                    n,
                    x,
                ),
                Err(d) => fails(ReconcileError::Kube(d), n, x),
            }
        } else {
            n == s && x is Nothing
        },
        (_, _) => n == s && x is Nothing,
    }
}

fn fail(err: ReconcileError) -> (r: (TenantState, TenantAction))
    ensures
        fails(err, r.0, r.1),
{
    (TenantState::Done, TenantAction::Fail(err))
}

fn leave(obj: &MCPGTenant, begin: &Begin, next: usize) -> (r: (TenantState, TenantAction))
    ensures
        leaves(*obj, *begin, next as int, r.0, r.1),
{
    if next < obj.spec.namespaces.len() {
        let namespace = obj.spec.namespaces[next].clone();
        let (quota_name, unmarked) = teardown_namespace(namespace.as_str(), begin.name.as_str());
        (
            TenantState::TearingDown { next },
            TenantAction::TearDown { namespace, quota_name, unmarked },
        )
    } else {
        (TenantState::RemovingFinalizer, TenantAction::RemoveFinalizer)
    }
}

fn count_on(
    obj: &MCPGTenant,
    begin: &Begin,
    bound: Vec<String>,
    unbound: Vec<String>,
    missing: Vec<String>,
    counts: Vec<TenantObservedCounts>,
) -> (r: (TenantState, TenantAction))
    requires
        countable(counts@),
    ensures
        counts_on(
            *obj,
            *begin,
            texts(bound@),
            texts(unbound@),
            texts(missing@),
            counts@,
            r.0,
            r.1,
        ),
{
    if counts.len() < bound.len() {
        let name = bound[counts.len()].clone();
        (TenantState::Counting { bound, unbound, missing, counts }, TenantAction::Count(name))
    } else {
        let observed = count_resources(&counts);
        let report = report_tenant(
            obj,
            begin.generation,
            bound,
            &unbound,
            &missing,
            observed,
        );
        (TenantState::Done, TenantAction::Complete(report))
    }
}

fn go_on(obj: &MCPGTenant, begin: &Begin, fates: Vec<NamespaceFate>) -> (r: (
    TenantState,
    TenantAction,
))
    requires
        fates@.len() <= obj.spec.namespaces@.len(),
    ensures
        goes_on(*obj, *begin, fates@, r.0, r.1),
{
    if fates.len() < obj.spec.namespaces.len() {
        let name = obj.spec.namespaces[fates.len()].clone();
        (TenantState::FindingNamespace { fates }, TenantAction::FindNamespace(name))
    } else {
        let (bound, unbound, missing) = split_namespaces(&obj.spec.namespaces, &fates);
        count_on(obj, begin, bound, unbound, missing, Vec::new())
    }
}

fn bind(obj: &MCPGTenant, begin: &Begin, account: &str, namespace: &str) -> (r: TenantAction)
    ensures
        binds(*obj, *begin, account@, namespace@, r),
{
    let tenant = begin.name.as_str();
    TenantAction::Bind {
        namespace: namespace.to_owned(),
        binding: ensure_tenant_secret_binding(
            namespace,
            operator_namespace().as_str(),
            account,
        ),
        marked: ensure_namespace_label(namespace, tenant),
        quota: ensure_resource_quota(namespace, tenant, obj.spec.quotas),
    }
}

/// The first step of a tenant's reconcile.
pub fn start(obj: &MCPGTenant, begin: &Begin) -> (r: (TenantState, TenantAction))
    ensures
        starts(*obj, *begin, r.0, r.1),
{
    if begin.deleting {
        leave(obj, begin, 0)
    } else {
        (TenantState::AddingFinalizer, TenantAction::AddFinalizer)
    }
}

/// Whether the objects of a tenant can still be counted after an event.
pub open spec fn can_count(s: TenantState, e: TenantEvent) -> bool {
    match (s, e) {
        (TenantState::Counting { counts, .. }, TenantEvent::Counted(Ok(c))) => countable(
            counts@.push(c),
        ),
        _ => true,
    }
}

/// One step of a tenant's reconcile: what an event leads to. `account` is
/// the operator's service account.
pub fn step(
    obj: &MCPGTenant,
    begin: &Begin,
    account: &str,
    state: TenantState,
    event: TenantEvent,
) -> (r: (TenantState, TenantAction))
    requires
        can_count(state, event),
    ensures
        step_is(*obj, *begin, account@, state, event, r.0, r.1),
{
    match (state, event) {
        (TenantState::TearingDown { next }, TenantEvent::TornDown) => {
            if next < obj.spec.namespaces.len() {
                leave(obj, begin, next + 1)
            } else {
                (TenantState::TearingDown { next }, TenantAction::Nothing)
            }
        },
        (TenantState::RemovingFinalizer, TenantEvent::FinalizerRemoved(r)) => match r {
            Ok(_) => (TenantState::Done, TenantAction::Stop(released())),
            Err(d) => fail(ReconcileError::Finalizer(d)),
        },
        (TenantState::AddingFinalizer, TenantEvent::FinalizerAdded(r)) => match r {
            Ok(_) => go_on(obj, begin, Vec::new()),
            Err(d) => fail(ReconcileError::Finalizer(d)),
        },
        (TenantState::FindingNamespace { mut fates }, TenantEvent::NamespaceFound(r)) => {
            if fates.len() >= obj.spec.namespaces.len() {
                return (TenantState::FindingNamespace { fates }, TenantAction::Nothing);
            }
            match r {
                Ok(true) => {
                    let ns = obj.spec.namespaces[fates.len()].as_str();
                    let action = bind(obj, begin, account, ns);
                    (TenantState::BindingNamespace { fates }, action)
                },
                Ok(false) => {
                    fates.push(NamespaceFate::Missing);
                    go_on(obj, begin, fates)
                },
                Err(d) => fail(ReconcileError::Kube(d)),
            }
        },
        (TenantState::BindingNamespace { mut fates }, TenantEvent::NamespaceBound(r)) => {
            if fates.len() >= obj.spec.namespaces.len() {
                return (TenantState::BindingNamespace { fates }, TenantAction::Nothing);
            }
            let fate = match r {
                Ok(_) => NamespaceFate::Bound,
                Err(_) => NamespaceFate::Unbound,
            };
            fates.push(fate);
            go_on(obj, begin, fates)
        },
        (TenantState::Counting { bound, unbound, missing, mut counts }, TenantEvent::Counted(r)) => {
            if counts.len() >= bound.len() {
                return (
                    TenantState::Counting { bound, unbound, missing, counts },
                    TenantAction::Nothing,
                );
            }
            match r {
                Ok(c) => {
                    counts.push(c);
                    count_on(obj, begin, bound, unbound, missing, counts)
                },
                Err(d) => fail(ReconcileError::Kube(d)),
            }
        },
        (state, _) => (state, TenantAction::Nothing),
    }
}

/// Whether the states, events and actions are those of a reconcile of `obj`:
/// each event leads from one state to the next. `actions[0]` is the first
/// action, and each further one answers an event.
pub open spec fn is_run(
    obj: MCPGTenant,
    b: Begin,
    account: Seq<char>,
    states: Seq<TenantState>,
    events: Seq<TenantEvent>,
    actions: Seq<TenantAction>,
) -> bool {
    &&& states.len() == events.len() + 1
    &&& actions.len() == events.len() + 1
    &&& starts(obj, b, states[0], actions[0])
    &&& forall|i: int|
        0 <= i < events.len() ==> step_is(
            obj,
            b,
            account,
            states[i],
            #[trigger] events[i],
            states[i + 1],
            actions[i + 1],
        )
}

/// The namespaces that the first `n` actions leave, in their order.
pub open spec fn left(actions: Seq<TenantAction>, n: int) -> Seq<Seq<char>>
    decreases n,
{
    if n <= 0 {
        Seq::empty()
    } else {
        match actions[n - 1] {
            TenantAction::TearDown { namespace, .. } => left(actions, n - 1).push(namespace@),
            _ => left(actions, n - 1),
        }
    }
}

/// The namespaces whose binding was waited for and succeeded in the first `n`
/// events, in their order.
pub open spec fn bound_by(
    obj: MCPGTenant,
    states: Seq<TenantState>,
    events: Seq<TenantEvent>,
    n: int,
) -> Seq<Seq<char>>
    decreases n,
{
    if n <= 0 {
        Seq::empty()
    } else {
        match (states[n - 1], events[n - 1]) {
            (
                TenantState::BindingNamespace { fates },
                TenantEvent::NamespaceBound(Ok(_)),
            ) => bound_by(obj, states, events, n - 1).push(namespaces(obj)[fates@.len() as int]),
            _ => bound_by(obj, states, events, n - 1),
        }
    }
}

/// What the first `n + 1` actions of a deleted tenant's reconcile left when
/// they led to state `s`.
spec fn has_left(obj: MCPGTenant, s: TenantState, gone: Seq<Seq<char>>) -> bool {
    match s {
        TenantState::TearingDown { next } => next < namespaces(obj).len() && gone
            == namespaces(obj).take(next + 1),
        TenantState::RemovingFinalizer => gone == namespaces(obj),
        TenantState::Done => true,
        _ => false,
    }
}

proof fn lemma_left(
    obj: MCPGTenant,
    b: Begin,
    account: Seq<char>,
    states: Seq<TenantState>,
    events: Seq<TenantEvent>,
    actions: Seq<TenantAction>,
    n: int,
)
    requires
        is_run(obj, b, account, states, events, actions),
        b.deleting,
        0 <= n <= events.len(),
    ensures
        has_left(obj, states[n], left(actions, n + 1)),
    decreases n,
{
    let all = namespaces(obj);
    if n == 0 {
        assert(left(actions, 0) =~= Seq::empty());
        assert(left(actions, 1) =~= all.take(left(actions, 1).len() as int));
        assert(all.len() == 0 ==> left(actions, 1) =~= all);
    } else {
        lemma_left(obj, b, account, states, events, actions, n - 1);
        assert(step_is(
            obj,
            b,
            account,
            states[n - 1],
            events[n - 1],
            states[n],
            actions[n],
        ));
        match states[n - 1] {
            TenantState::TearingDown { next } => {
                assert(all.take(next + 1) =~= all || next + 1 < all.len());
                if next + 1 < all.len() {
                    assert(all.take(next + 2) =~= all.take(next + 1).push(all[next + 1]));
                }
            },
            _ => {},
        }
    }
}

/// A deleted tenant leaves its namespaces first: before its finalizer is
/// removed, the caller was told to take its quota and its mark off every one
/// of them. The operator's right to write Secrets stays: plugin sets in the
/// namespace may need it.
pub proof fn law_deleted_tenant_leaves_every_namespace(
    obj: MCPGTenant,
    b: Begin,
    account: Seq<char>,
    states: Seq<TenantState>,
    events: Seq<TenantEvent>,
    actions: Seq<TenantAction>,
    k: int,
)
    requires
        is_run(obj, b, account, states, events, actions),
        b.deleting,
        0 <= k <= events.len(),
        actions[k] is RemoveFinalizer,
    ensures
        left(actions, k) == namespaces(obj),
{
    lemma_left(obj, b, account, states, events, actions, k);
    if k > 0 {
        assert(step_is(
            obj,
            b,
            account,
            states[k - 1],
            events[k - 1],
            states[k],
            actions[k],
        ));
    }
    assert(left(actions, k + 1) == left(actions, k));
}

proof fn lemma_where_push(
    names: Seq<Seq<char>>,
    fates: Seq<NamespaceFate>,
    more: NamespaceFate,
    want: NamespaceFate,
)
    requires
        names.len() <= fates.len(),
    ensures
        namespaces_where(names, fates.push(more), want) == namespaces_where(names, fates, want),
    decreases names.len(),
{
    if names.len() > 0 {
        lemma_where_push(names.drop_last(), fates, more, want);
    }
}

/// The namespaces among the first that are bound.
spec fn bound_so_far(obj: MCPGTenant, fates: Seq<NamespaceFate>) -> Seq<Seq<char>> {
    namespaces_where(namespaces(obj).take(fates.len() as int), fates, NamespaceFate::Bound)
}

proof fn lemma_bound_push(obj: MCPGTenant, fates: Seq<NamespaceFate>, more: NamespaceFate)
    requires
        fates.len() < namespaces(obj).len(),
    ensures
        bound_so_far(obj, fates.push(more)) == (if more is Bound {
            bound_so_far(obj, fates).push(namespaces(obj)[fates.len() as int])
        } else {
            bound_so_far(obj, fates)
        }),
{
    let all = namespaces(obj);
    let k = fates.len() as int;
    assert(all.take(k + 1).drop_last() =~= all.take(k));
    lemma_where_push(all.take(k), fates, more, NamespaceFate::Bound);
}

/// What the first events of a reconcile bound when they led to state `s`.
spec fn has_bound(obj: MCPGTenant, s: TenantState, done: Seq<Seq<char>>) -> bool {
    match s {
        TenantState::FindingNamespace { fates } => fates@.len() < namespaces(obj).len() && done
            == bound_so_far(obj, fates@),
        TenantState::BindingNamespace { fates } => fates@.len() < namespaces(obj).len() && done
            == bound_so_far(obj, fates@),
        TenantState::Counting { bound, unbound, missing, .. } => {
            &&& done == texts(bound@)
            &&& all_bound(texts(unbound@), texts(missing@)) ==> done == namespaces(obj)
        },
        TenantState::Done => true,
        _ => done.len() == 0,
    }
}

/// Whether a report says what was bound, and nothing more.
spec fn honest(obj: MCPGTenant, x: TenantAction, done: Seq<Seq<char>>) -> bool {
    x matches TenantAction::Complete(r) ==> {
        &&& texts(r.bound_namespaces@) == done
        &&& says_ready(r) ==> done == namespaces(obj)
    }
}

/// Whether the `Ready` condition of a report says `True`.
pub open spec fn says_ready(r: TenantReport) -> bool {
    let c = r.report@.conditions;
    position(c, "Ready"@) matches Some(i) && c[i].status == "True"@
}

proof fn lemma_says_ready(
    obj: MCPGTenant,
    generation: i64,
    bound: Seq<Seq<char>>,
    unbound: Seq<Seq<char>>,
    missing: Seq<Seq<char>>,
    r: TenantReport,
)
    requires
        reports(obj, generation, bound, unbound, missing, r.observed, r),
    ensures
        says_ready(r) ==> all_bound(unbound, missing),
{
    law_ready_iff_all_bound(obj, generation, bound.len(), unbound, missing, r.observed);
    reveal_strlit("True");
    reveal_strlit("False");
    assert("True"@.len() != "False"@.len());
}

/// What is bound when the reconcile goes on from the fates known.
proof fn lemma_goes_on(
    obj: MCPGTenant,
    b: Begin,
    fates: Seq<NamespaceFate>,
    n: TenantState,
    x: TenantAction,
    done: Seq<Seq<char>>,
)
    requires
        goes_on(obj, b, fates, n, x),
        fates.len() <= namespaces(obj).len(),
        done == bound_so_far(obj, fates),
    ensures
        has_bound(obj, n, done),
        honest(obj, x, done),
{
    let names = namespaces(obj);
    if fates.len() == names.len() {
        assert(names.take(names.len() as int) =~= names);
        let unbound = namespaces_where(names, fates, NamespaceFate::Unbound);
        let missing = namespaces_where(names, fates, NamespaceFate::Missing);
        if all_bound(unbound, missing) {
            lemma_all_bound(names, fates);
        }
        match x {
            TenantAction::Complete(r) => {
                lemma_says_ready(obj, b.generation, done, unbound, missing, r);
            },
            _ => {},
        }
    }
}

proof fn lemma_bound(
    obj: MCPGTenant,
    b: Begin,
    account: Seq<char>,
    states: Seq<TenantState>,
    events: Seq<TenantEvent>,
    actions: Seq<TenantAction>,
    n: int,
)
    requires
        is_run(obj, b, account, states, events, actions),
        0 <= n <= events.len(),
    ensures
        has_bound(obj, states[n], bound_by(obj, states, events, n)),
        honest(obj, actions[n], bound_by(obj, states, events, n)),
    decreases n,
{
    let done = bound_by(obj, states, events, n);
    if n > 0 {
        lemma_bound(obj, b, account, states, events, actions, n - 1);
        let s = states[n - 1];
        let e = events[n - 1];
        assert(step_is(obj, b, account, s, e, states[n], actions[n]));
        match (s, e) {
            (TenantState::AddingFinalizer, TenantEvent::FinalizerAdded(Ok(_))) => {
                assert(done =~= bound_so_far(obj, Seq::empty()));
                lemma_goes_on(obj, b, Seq::empty(), states[n], actions[n], done);
            },
            (TenantState::FindingNamespace { fates }, TenantEvent::NamespaceFound(Ok(false))) => {
                lemma_bound_push(obj, fates@, NamespaceFate::Missing);
                lemma_goes_on(
                    obj,
                    b,
                    fates@.push(NamespaceFate::Missing),
                    states[n],
                    actions[n],
                    done,
                );
            },
            (TenantState::BindingNamespace { fates }, TenantEvent::NamespaceBound(r)) => {
                lemma_bound_push(obj, fates@, fate_of(r));
                lemma_goes_on(obj, b, fates@.push(fate_of(r)), states[n], actions[n], done);
            },
            (
                TenantState::Counting { bound, unbound, missing, .. },
                TenantEvent::Counted(Ok(_)),
            ) => {
                match actions[n] {
                    TenantAction::Complete(r) => {
                        lemma_says_ready(
                            obj,
                            b.generation,
                            texts(bound@),
                            texts(unbound@),
                            texts(missing@),
                            r,
                        );
                    },
                    _ => {},
                }
            },
            _ => {},
        }
    }
}

/// A namespace is reported as bound exactly when its binding and its quota
/// were applied, and a tenant is reported as ready only when that holds of
/// every one of its namespaces.
pub proof fn law_reported_namespaces_were_bound(
    obj: MCPGTenant,
    b: Begin,
    account: Seq<char>,
    states: Seq<TenantState>,
    events: Seq<TenantEvent>,
    actions: Seq<TenantAction>,
    k: int,
)
    requires
        is_run(obj, b, account, states, events, actions),
        0 <= k <= events.len(),
        actions[k] is Complete,
    ensures
        texts(actions[k]->Complete_0.bound_namespaces@) == bound_by(obj, states, events, k),
        says_ready(actions[k]->Complete_0) ==> bound_by(obj, states, events, k) == namespaces(obj),
{
    lemma_bound(obj, b, account, states, events, actions, k);
}

/// A reconcile that ended stays ended.
pub proof fn law_done_is_final(
    obj: MCPGTenant,
    b: Begin,
    account: Seq<char>,
    e: TenantEvent,
    n: TenantState,
    x: TenantAction,
)
    requires
        step_is(obj, b, account, TenantState::Done, e, n, x),
    ensures
        n is Done,
        x is Nothing,
{
}

} // verus!
