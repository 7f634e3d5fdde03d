//! The steps of a plugin set's reconcile, from its finalizer to its status.
//!
//! The caller performs one action at a time and hands back what came of it.
use vstd::prelude::*;

use crate::api::objects::{ConfigMap, ObjectMeta, RoleBinding, Secret};
use crate::api::resources::{MCPGPluginSet, MCPGPluginSetEntry};
use crate::controllers::gateway::edge::stale;
use crate::controllers::plugin::secret::operator_namespace;
use crate::controllers::plugin_set::document::{document, render_resolved_set};
use crate::controllers::plugin_set::objects::{
    build_namespace_copy, build_resolved_configmap, desired_secret_names, names_of, namespace_copy,
    resolved_configmap, stale_secrets, wanted_secrets,
};
use crate::controllers::plugin_set::report::{report_plugin_set, set_report, PluginSetReport};
use crate::controllers::plugin_set::resolve::{
    failed_views, rejected, resolve_entries, resolved_views, usable, FailedEntry, PluginLookup,
    ResolvedEntry,
};
use crate::hashing::text_hash;
use crate::json::pretty_text;
use crate::rbac::{ensure_tenant_secret_binding, tenant_binding};
use crate::reconcile::flow::{released, Begin, ReconcileError, Requeue, Verdict};
use crate::telemetry::ReconcileOutcome;
use crate::text::texts;

verus! {

/// Where the reconcile of a plugin set stands: what it waits for.
#[derive(Debug)]
pub enum SetState {
    /// The removal of a deleted set's finalizer.
    RemovingFinalizer,
    /// The finalizer.
    AddingFinalizer,
    /// The plugin of the entry that follows those looked up already.
    FindingPlugin(Vec<PluginLookup>),
    /// The right to write Secrets in the set's namespace.
    Binding(Vec<ResolvedEntry>, Vec<FailedEntry>),
    /// The Secret of the entry at position `next`.
    FindingSource { resolved: Vec<ResolvedEntry>, failed: Vec<FailedEntry>, next: usize },
    /// The copy of that Secret.
    Copying { resolved: Vec<ResolvedEntry>, failed: Vec<FailedEntry>, next: usize },
    /// The resolved document, which has this hash.
    Publishing { resolved: Vec<ResolvedEntry>, failed: Vec<FailedEntry>, hash: String },
    /// The Secrets that carry the set's label.
    ListingSecrets { resolved: Vec<ResolvedEntry>, failed: Vec<FailedEntry>, hash: String },
    /// Nothing any more.
    Done,
}

/// What came of an action. One that failed carries its message.
#[derive(Debug)]
pub enum SetEvent {
    FinalizerRemoved(Result<(), String>),
    FinalizerAdded(Result<(), String>),
    PluginFound(PluginLookup),
    Bound(Result<(), String>),
    SourceFound(Result<Option<Secret>, String>),
    Copied(Result<(), String>),
    Published(Result<(), String>),
    /// The Secrets, where they could be listed.
    SecretsListed(Option<Vec<ObjectMeta>>),
}

/// What is to be done next.
#[derive(Debug)]
pub enum SetAction {
    RemoveFinalizer,
    AddFinalizer,
    /// Look up the plugin of this name.
    FindPlugin(String),
    /// Apply this binding.
    Bind(RoleBinding),
    /// Look up the Secret of this name in the operator's namespace.
    FindSource(String),
    /// Apply this copy.
    Copy(Secret),
    /// Apply this ConfigMap.
    Publish(ConfigMap),
    /// List the Secrets that carry the set's label in its namespace.
    ListSecrets,
    /// Delete these Secrets, patch the status, publish the event and end.
    Complete { prune: Vec<String>, report: PluginSetReport },
    /// End without a report.
    Stop(Verdict),
    /// End with an error.
    Fail(ReconcileError),
    /// Nothing: this event was not waited for.
    Nothing,
}

/// The reconcile ends with an error.
pub open spec fn fails(err: ReconcileError, n: SetState, x: SetAction) -> bool {
    n is Done && x == SetAction::Fail(err)
}

/// The lookups with the disabled entries that come next passed over: nothing
/// is looked up for them.
pub open spec fn passed_over(
    entries: Seq<MCPGPluginSetEntry>,
    l: Seq<PluginLookup>,
) -> Seq<PluginLookup>
    decreases entries.len() - l.len(),
{
    if l.len() < entries.len() && !entries[l.len() as int].enabled {
        passed_over(entries, l.push(PluginLookup::Missing))
    } else {
        l
    }
}

/// Whether these are the entries that can be used and those that cannot.
pub open spec fn is_resolution(
    obj: MCPGPluginSet,
    l: Seq<PluginLookup>,
    resolved: Vec<ResolvedEntry>,
    failed: Vec<FailedEntry>,
) -> bool {
    &&& resolved_views(resolved@) == usable(obj.spec.entries@, l)
    &&& failed_views(failed@) == rejected(obj.spec.entries@, l)
}

/// The Secret of the entry at position `next` is looked up; after the last
/// one the document is published.
pub open spec fn copies_from(
    obj: MCPGPluginSet,
    b: Begin,
    resolved: Vec<ResolvedEntry>,
    failed: Vec<FailedEntry>,
    next: int,
    n: SetState,
    x: SetAction,
) -> bool {
    if next < resolved@.len() {
        &&& n matches SetState::FindingSource { resolved: r2, failed: f2, next: k }
        &&& r2 == resolved
        &&& f2 == failed
        &&& k == next
        &&& x matches SetAction::FindSource(name)
        &&& name@ == resolved@[next].artefact_secret_name@
    } else {
        let text = pretty_text(document(obj, resolved_views(resolved@)));
        &&& n matches SetState::Publishing { resolved: r2, failed: f2, hash }
        &&& r2 == resolved
        &&& f2 == failed
        &&& hash@ == text_hash(text)
        &&& x matches SetAction::Publish(cm)
        &&& cm@ == resolved_configmap(obj, b.namespace@, text, text_hash(text))
    }
}

/// Every entry was looked up: the right to write Secrets is next, except in
/// the operator's own namespace, where it is there already.
pub open spec fn after_lookups(
    obj: MCPGPluginSet,
    b: Begin,
    account: Seq<char>,
    l: Seq<PluginLookup>,
    n: SetState,
    x: SetAction,
) -> bool {
    if b.namespace@ == "mcpg-system"@ {
        exists|r: Vec<ResolvedEntry>, f: Vec<FailedEntry>|
            is_resolution(obj, l, r, f) && #[trigger] copies_from(obj, b, r, f, 0, n, x)
    } else {
        &&& n matches SetState::Binding(r, f)
        &&& is_resolution(obj, l, r, f)
        &&& x matches SetAction::Bind(rb)
        &&& rb@ == tenant_binding(b.namespace@, "mcpg-system"@, account)
    }
}

/// The next enabled entry is looked up, when there is one.
pub open spec fn looks_up(
    obj: MCPGPluginSet,
    b: Begin,
    account: Seq<char>,
    l: Seq<PluginLookup>,
    n: SetState,
    x: SetAction,
) -> bool {
    let l = passed_over(obj.spec.entries@, l);
    if l.len() < obj.spec.entries@.len() {
        &&& n matches SetState::FindingPlugin(v)
        &&& v@ == l
        &&& x matches SetAction::FindPlugin(name)
        &&& name@ == obj.spec.entries@[l.len() as int].plugin_ref.name@
    } else {
        after_lookups(obj, b, account, l, n, x)
    }
}

/// The Secrets to delete, where the set's Secrets could be listed.
pub open spec fn to_prune(
    listed: Option<Vec<ObjectMeta>>,
    resolved: Seq<ResolvedEntry>,
) -> Seq<Seq<char>> {
    match listed {
        Some(v) => stale(names_of(v@), wanted_secrets(resolved)),
        None => Seq::empty(),
    }
}

/// The set's Secrets were listed: the stale ones go, and the set is reported.
pub open spec fn completes(
    obj: MCPGPluginSet,
    b: Begin,
    resolved: Vec<ResolvedEntry>,
    failed: Vec<FailedEntry>,
    hash: String,
    listed: Option<Vec<ObjectMeta>>,
    n: SetState,
    x: SetAction,
) -> bool {
    &&& n is Done
    &&& x matches SetAction::Complete { prune, report }
    &&& texts(prune@) == to_prune(listed, resolved@)
    &&& report.report@ == set_report(obj, b.generation, resolved@.len(), failed@.len())
    &&& report.observed_generation == b.generation
    &&& report.resolved_entries == resolved@.len()
    &&& report.total_entries == obj.spec.entries@.len()
    &&& report.resolved_hash@ == hash@
    &&& failed_views(report.failed_entries@) == failed_views(failed@)
}

/// Whether a reconcile begins in state `s` with action `x`.
pub open spec fn starts(b: Begin, s: SetState, x: SetAction) -> bool {
    if b.deleting {
        s is RemovingFinalizer && x is RemoveFinalizer
    } else {
        s is AddingFinalizer && x is AddFinalizer
    }
}

/// Whether an event in state `s` leads to state `n` and action `x`.
pub open spec fn step_is(
    obj: MCPGPluginSet,
    b: Begin,
    account: Seq<char>,
    s: SetState,
    e: SetEvent,
    n: SetState,
    x: SetAction,
) -> bool {
    match (s, e) {
        (SetState::RemovingFinalizer, SetEvent::FinalizerRemoved(r)) => match r {
            Ok(_) => n is Done && x == SetAction::Stop(
                Verdict { requeue: Requeue::AwaitChange, outcome: ReconcileOutcome::Success },
            ),
            Err(d) => fails(ReconcileError::Finalizer(d), n, x),
        },
        (SetState::AddingFinalizer, SetEvent::FinalizerAdded(r)) => match r {
            Ok(_) => looks_up(obj, b, account, Seq::empty(), n, x),
            Err(d) => fails(ReconcileError::Finalizer(d), n, x),
        },
        (SetState::FindingPlugin(l), SetEvent::PluginFound(found)) => if l@.len()
            < obj.spec.entries@.len() {
            looks_up(obj, b, account, l@.push(found), n, x)
        } else {
            n == s && x is Nothing
        },
        (SetState::Binding(resolved, failed), SetEvent::Bound(r)) => match r {
            Ok(_) => copies_from(obj, b, resolved, failed, 0, n, x),
            Err(d) => fails(ReconcileError::TenantRbac(d), n, x),
        },
        (SetState::FindingSource { resolved, failed, next }, SetEvent::SourceFound(r)) => if next
            >= resolved@.len() {
            n == s && x is Nothing
        } else {
            match r {
                Ok(Some(source)) => {
                    &&& n == (SetState::Copying { resolved, failed, next })
                    &&& x matches SetAction::Copy(copy)
                    &&& copy@ == namespace_copy(
                        obj,
                        b.namespace@,
                        source,
                        resolved@[next as int],
                    )
                },
                Ok(None) => copies_from(obj, b, resolved, failed, next + 1, n, x),
                Err(d) => fails(ReconcileError::Kube(d), n, x),
            }
        },
        (SetState::Copying { resolved, failed, next }, SetEvent::Copied(r)) => if next
            >= resolved@.len() {
            n == s && x is Nothing
        } else {
            match r {
                Ok(_) => copies_from(obj, b, resolved, failed, next + 1, n, x),
                Err(d) => fails(ReconcileError::Apply(d), n, x),
            }
        },
        (SetState::Publishing { resolved, failed, hash }, SetEvent::Published(r)) => match r {
            Ok(_) => n == (SetState::ListingSecrets { resolved, failed, hash }) && x is ListSecrets,
            Err(d) => fails(ReconcileError::Apply(d), n, x),
        },
        (
            SetState::ListingSecrets { resolved, failed, hash },
            SetEvent::SecretsListed(listed),
        ) => completes(obj, b, resolved, failed, hash, listed, n, x),
        (_, _) => n == s && x is Nothing,
    }
}

/// The first step of a plugin set's reconcile.
pub fn start(begin: &Begin) -> (r: (SetState, SetAction))
    ensures
        starts(*begin, r.0, r.1),
{
    if begin.deleting {
        (SetState::RemovingFinalizer, SetAction::RemoveFinalizer)
    } else {
        (SetState::AddingFinalizer, SetAction::AddFinalizer)
    }
}

fn fail(err: ReconcileError) -> (r: (SetState, SetAction))
    ensures
        fails(err, r.0, r.1),
{
    (SetState::Done, SetAction::Fail(err))
}

fn copy_from(
    obj: &MCPGPluginSet,
    begin: &Begin,
    resolved: Vec<ResolvedEntry>,
    failed: Vec<FailedEntry>,
    next: usize,
) -> (r: (SetState, SetAction))
    ensures
        copies_from(*obj, *begin, resolved, failed, next as int, r.0, r.1),
{
    if next < resolved.len() {
        let name = resolved[next].artefact_secret_name.clone();
        (SetState::FindingSource { resolved, failed, next }, SetAction::FindSource(name))
    } else {
        let (text, hash) = render_resolved_set(obj, &resolved);
        let cm = build_resolved_configmap(
            obj,
            begin.namespace.as_str(),
            text.as_str(),
            hash.as_str(),
        );
        (SetState::Publishing { resolved, failed, hash }, SetAction::Publish(cm))
    }
}

fn pass_over(entries: &Vec<MCPGPluginSetEntry>, lookups: Vec<PluginLookup>) -> (r: Vec<
    PluginLookup,
>)
    ensures
        r@ == passed_over(entries@, lookups@),
        lookups@.len() <= entries@.len() ==> r@.len() <= entries@.len(),
{
    let mut l = lookups;
    while l.len() < entries.len() && !entries[l.len()].enabled
        invariant
            passed_over(entries@, lookups@) == passed_over(entries@, l@),
            lookups@.len() <= entries@.len() ==> l@.len() <= entries@.len(),
        decreases entries@.len() - l@.len(),
    {
        l.push(PluginLookup::Missing);
    }
    l
}

fn look_up(obj: &MCPGPluginSet, begin: &Begin, account: &str, lookups: Vec<PluginLookup>) -> (r: (
    SetState,
    SetAction,
))
    requires
        lookups@.len() <= obj.spec.entries@.len(),
    ensures
        looks_up(*obj, *begin, account@, lookups@, r.0, r.1),
{
    let l = pass_over(&obj.spec.entries, lookups);
    if l.len() < obj.spec.entries.len() {
        let name = obj.spec.entries[l.len()].plugin_ref.name.clone();
        return (SetState::FindingPlugin(l), SetAction::FindPlugin(name));
    }
    let (resolved, failed) = resolve_entries(&obj.spec.entries, &l);
    assert(is_resolution(*obj, l@, resolved, failed));
    match ensure_tenant_secret_binding(
        begin.namespace.as_str(),
        operator_namespace().as_str(),
        account,
    ) {
        Some(rb) => (SetState::Binding(resolved, failed), SetAction::Bind(rb)),
        None => copy_from(obj, begin, resolved, failed, 0),
    }
}

fn finish(
    obj: &MCPGPluginSet,
    begin: &Begin,
    resolved: Vec<ResolvedEntry>,
    failed: Vec<FailedEntry>,
    hash: String,
    listed: Option<Vec<ObjectMeta>>,
) -> (r: (SetState, SetAction))
    ensures
        completes(*obj, *begin, resolved, failed, hash, listed, r.0, r.1),
{
    let prune = match &listed {
        Some(v) => {
            let wanted = desired_secret_names(&resolved);
            stale_secrets(v, &wanted)
        },
        None => Vec::new(),
    };
    assert(texts(prune@) =~= to_prune(listed, resolved@));
    let report = report_plugin_set(
        obj,
        begin.generation,
        resolved.len(),
        failed,
        hash.as_str(),
    );
    (SetState::Done, SetAction::Complete { prune, report })
}

/// One step of a plugin set's reconcile: what an event leads to. `account` is
/// the operator's service account.
pub fn step(
    obj: &MCPGPluginSet,
    begin: &Begin,
    account: &str,
    state: SetState,
    event: SetEvent,
) -> (r: (SetState, SetAction))
    ensures
        step_is(*obj, *begin, account@, state, event, r.0, r.1),
{
    match (state, event) {
        (SetState::RemovingFinalizer, SetEvent::FinalizerRemoved(r)) => match r {
            Ok(_) => (SetState::Done, SetAction::Stop(released())),
            Err(d) => fail(ReconcileError::Finalizer(d)),
        },
        (SetState::AddingFinalizer, SetEvent::FinalizerAdded(r)) => match r {
            Ok(_) => look_up(obj, begin, account, Vec::new()),
            Err(d) => fail(ReconcileError::Finalizer(d)),
        },
        (SetState::FindingPlugin(l), SetEvent::PluginFound(found)) => {
            if l.len() < obj.spec.entries.len() {
                let mut l = l;
                l.push(found);
                look_up(obj, begin, account, l)
            } else {
                (SetState::FindingPlugin(l), SetAction::Nothing)
            }
        },
        (SetState::Binding(resolved, failed), SetEvent::Bound(r)) => match r {
            Ok(_) => copy_from(obj, begin, resolved, failed, 0),
            Err(d) => fail(ReconcileError::TenantRbac(d)),
        },
        (SetState::FindingSource { resolved, failed, next }, SetEvent::SourceFound(r)) => {
            if next >= resolved.len() {
                return (
                    SetState::FindingSource { resolved, failed, next },
                    SetAction::Nothing,
                );
            }
            match r {
                Ok(Some(source)) => {
                    let copy = build_namespace_copy(
                        obj,
                        begin.namespace.as_str(),
                        &source,
                        &resolved[next],
                    );
                    (SetState::Copying { resolved, failed, next }, SetAction::Copy(copy))
                },
                Ok(None) => copy_from(obj, begin, resolved, failed, next + 1),
                Err(d) => fail(ReconcileError::Kube(d)),
            }
        },
        (SetState::Copying { resolved, failed, next }, SetEvent::Copied(r)) => {
            if next >= resolved.len() {
                return (SetState::Copying { resolved, failed, next }, SetAction::Nothing);
            }
            match r {
                Ok(_) => copy_from(obj, begin, resolved, failed, next + 1),
                Err(d) => fail(ReconcileError::Apply(d)),
            }
        },
        (SetState::Publishing { resolved, failed, hash }, SetEvent::Published(r)) => match r {
            Ok(_) => (
                SetState::ListingSecrets { resolved, failed, hash },
                SetAction::ListSecrets,
            ),
            Err(d) => fail(ReconcileError::Apply(d)),
        },
        (SetState::ListingSecrets { resolved, failed, hash }, SetEvent::SecretsListed(listed)) =>
        finish(obj, begin, resolved, failed, hash, listed),
        (state, _) => (state, SetAction::Nothing),
    }
}

/// Whether the states, events and actions are those of a reconcile of `obj`:
/// each event leads from one state to the next. `actions[0]` is the first
/// action, and each further one answers an event.
pub open spec fn is_run(
    obj: MCPGPluginSet,
    b: Begin,
    account: Seq<char>,
    states: Seq<SetState>,
    events: Seq<SetEvent>,
    actions: Seq<SetAction>,
) -> bool {
    &&& states.len() == events.len() + 1
    &&& actions.len() == events.len() + 1
    &&& starts(b, states[0], actions[0])
    &&& forall|i: int|
        0 <= i < events.len() ==> step_is(
            obj,
            b,
            account,
            states[i],
            #[trigger] events[i],
            states[i + 1],
            actions[i + 1],
        )
}

/// Whether one of the first `n` events is the right to write Secrets being
/// in place.
pub open spec fn was_bound(events: Seq<SetEvent>, n: int) -> bool {
    exists|i: int| 0 <= i < n && (#[trigger] events[i]) matches SetEvent::Bound(Ok(_))
}

/// Whether a state comes before the first Secret is touched, or is the end.
spec fn touches_nothing(s: SetState) -> bool {
    s is RemovingFinalizer || s is AddingFinalizer || s is FindingPlugin || s is Binding || s is Done
}

proof fn lemma_bound(
    obj: MCPGPluginSet,
    b: Begin,
    account: Seq<char>,
    states: Seq<SetState>,
    events: Seq<SetEvent>,
    actions: Seq<SetAction>,
    n: int,
)
    requires
        is_run(obj, b, account, states, events, actions),
        b.namespace@ != "mcpg-system"@,
        0 <= n <= events.len(),
    ensures
        touches_nothing(states[n]) || was_bound(events, n),
    decreases n,
{
    if n > 0 {
        lemma_bound(obj, b, account, states, events, actions, n - 1);
        assert(step_is(obj, b, account, states[n - 1], events[n - 1], states[n], actions[n]));
    }
}

/// No Secret is copied into a namespace before the operator has the right to
/// write Secrets there. In its own namespace it has that right already.
pub proof fn law_copies_need_the_right(
    obj: MCPGPluginSet,
    b: Begin,
    account: Seq<char>,
    states: Seq<SetState>,
    events: Seq<SetEvent>,
    actions: Seq<SetAction>,
    k: int,
)
    requires
        is_run(obj, b, account, states, events, actions),
        b.namespace@ != "mcpg-system"@,
        0 <= k <= events.len(),
        actions[k] is Copy,
    ensures
        was_bound(events, k),
{
    if k > 0 {
        lemma_bound(obj, b, account, states, events, actions, k - 1);
        assert(step_is(obj, b, account, states[k - 1], events[k - 1], states[k], actions[k]));
    }
}

/// The Secrets looked up so far, once an action is done.
pub open spec fn grown(sought: Seq<Seq<char>>, x: SetAction) -> Seq<Seq<char>> {
    match x {
        SetAction::FindSource(name) => sought.push(name@),
        _ => sought,
    }
}

/// The Secrets that the first `n` actions look up, in their order.
pub open spec fn sought(actions: Seq<SetAction>, n: int) -> Seq<Seq<char>>
    decreases n,
{
    if n <= 0 {
        Seq::empty()
    } else {
        grown(sought(actions, n - 1), actions[n - 1])
    }
}

/// Whether a reconcile that looked up these Secrets can be in state `s`.
spec fn on_track(s: SetState, done: Seq<Seq<char>>) -> bool {
    match s {
        SetState::FindingSource { resolved, next, .. } => next < resolved@.len() && done
            == wanted_secrets(resolved@).take(next + 1),
        SetState::Copying { resolved, next, .. } => next < resolved@.len() && done
            == wanted_secrets(resolved@).take(next + 1),
        SetState::Publishing { resolved, .. } => done == wanted_secrets(resolved@),
        SetState::ListingSecrets { resolved, .. } => done == wanted_secrets(resolved@),
        SetState::Done => true,
        _ => done.len() == 0,
    }
}

proof fn lemma_copies_on_track(
    obj: MCPGPluginSet,
    b: Begin,
    resolved: Vec<ResolvedEntry>,
    failed: Vec<FailedEntry>,
    next: int,
    n: SetState,
    x: SetAction,
    done: Seq<Seq<char>>,
)
    requires
        copies_from(obj, b, resolved, failed, next, n, x),
        0 <= next <= resolved@.len(),
        done == wanted_secrets(resolved@).take(next),
    ensures
        on_track(n, grown(done, x)),
{
    let all = wanted_secrets(resolved@);
    if next < resolved@.len() {
        assert(all.take(next + 1) =~= all.take(next).push(all[next]));
    } else {
        assert(all.take(next) =~= all);
    }
}

proof fn lemma_step_on_track(
    obj: MCPGPluginSet,
    b: Begin,
    account: Seq<char>,
    s: SetState,
    e: SetEvent,
    n: SetState,
    x: SetAction,
    done: Seq<Seq<char>>,
)
    requires
        step_is(obj, b, account, s, e, n, x),
        on_track(s, done),
    ensures
        on_track(n, grown(done, x)),
{
    match (s, e) {
        (SetState::Binding(resolved, failed), SetEvent::Bound(Ok(_))) => {
            assert(done =~= wanted_secrets(resolved@).take(0));
            lemma_copies_on_track(obj, b, resolved, failed, 0, n, x, done);
        },
        (
            SetState::FindingSource { resolved, failed, next },
            SetEvent::SourceFound(Ok(None)),
        ) => {
            lemma_copies_on_track(obj, b, resolved, failed, next + 1, n, x, done);
        },
        (SetState::Copying { resolved, failed, next }, SetEvent::Copied(Ok(_))) => {
            lemma_copies_on_track(obj, b, resolved, failed, next + 1, n, x, done);
        },
        (SetState::AddingFinalizer, SetEvent::FinalizerAdded(Ok(_))) => {
            lemma_lookup_on_track(obj, b, account, Seq::empty(), n, x, done);
        },
        (SetState::FindingPlugin(l), SetEvent::PluginFound(found)) => {
            if l@.len() < obj.spec.entries@.len() {
                lemma_lookup_on_track(obj, b, account, l@.push(found), n, x, done);
            }
        },
        _ => {},
    }
}

proof fn lemma_lookup_on_track(
    obj: MCPGPluginSet,
    b: Begin,
    account: Seq<char>,
    l: Seq<PluginLookup>,
    n: SetState,
    x: SetAction,
    done: Seq<Seq<char>>,
)
    requires
        looks_up(obj, b, account, l, n, x),
        done.len() == 0,
    ensures
        on_track(n, grown(done, x)),
{
    let all = passed_over(obj.spec.entries@, l);
    if all.len() >= obj.spec.entries@.len() && b.namespace@ == "mcpg-system"@ {
        let (r, f) = choose|r: Vec<ResolvedEntry>, f: Vec<FailedEntry>|
            is_resolution(obj, all, r, f) && #[trigger] copies_from(obj, b, r, f, 0, n, x);
        assert(done =~= wanted_secrets(r@).take(0));
        lemma_copies_on_track(obj, b, r, f, 0, n, x, done);
    }
}

proof fn lemma_on_track(
    obj: MCPGPluginSet,
    b: Begin,
    account: Seq<char>,
    states: Seq<SetState>,
    events: Seq<SetEvent>,
    actions: Seq<SetAction>,
    n: int,
)
    requires
        is_run(obj, b, account, states, events, actions),
        0 <= n <= events.len(),
    ensures
        on_track(states[n], sought(actions, n + 1)),
    decreases n,
{
    if n > 0 {
        lemma_on_track(obj, b, account, states, events, actions, n - 1);
        lemma_step_on_track(
            obj,
            b,
            account,
            states[n - 1],
            events[n - 1],
            states[n],
            actions[n],
            sought(actions, n),
        );
    } else {
        assert(sought(actions, 0) =~= Seq::empty());
        assert(sought(actions, 1) == grown(sought(actions, 0), actions[0]));
    }
}

/// A document is published only when the Secret of each entry that it names
/// was looked up for copying, each once and in their order.
pub proof fn law_document_follows_the_copies(
    obj: MCPGPluginSet,
    b: Begin,
    account: Seq<char>,
    states: Seq<SetState>,
    events: Seq<SetEvent>,
    actions: Seq<SetAction>,
    k: int,
)
    requires
        is_run(obj, b, account, states, events, actions),
        0 <= k <= events.len(),
        actions[k] is Publish,
    ensures
        exists|resolved: Seq<ResolvedEntry>|
            {
                let text = pretty_text(document(obj, resolved_views(resolved)));
                &&& sought(actions, k) == #[trigger] wanted_secrets(resolved)
                &&& actions[k]->Publish_0@ == resolved_configmap(
                    obj,
                    b.namespace@,
                    text,
                    text_hash(text),
                )
            },
{
    lemma_on_track(obj, b, account, states, events, actions, k);
    if k > 0 {
        assert(step_is(obj, b, account, states[k - 1], events[k - 1], states[k], actions[k]));
        let resolved = states[k]->Publishing_resolved@;
        assert(sought(actions, k + 1) == grown(sought(actions, k), actions[k]));
        assert(sought(actions, k) == wanted_secrets(resolved));
    }
}

} // verus!
