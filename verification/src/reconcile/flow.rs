//! How a reconcile begins and how it ends.
use std::time::Duration;
use vstd::prelude::*;

use crate::api::objects::{or_empty, ObjectMeta};
use crate::backoff::{base_delay, count_of, key_of, next_count, resource_key, BackoffMap};
use crate::duration::{nanos_of, FACTOR_HIGH, FACTOR_LOW};
use crate::telemetry::ReconcileOutcome;
use crate::text::same;

verus! {

/// Why a reconcile failed. All but the first two may go away by themselves;
/// they carry the message of what failed.
#[derive(Debug, Clone)]
pub enum ReconcileError {
    MissingName,
    MissingNamespace { name: String },
    Apply(String),
    Status(String),
    Finalizer(String),
    Kube(String),
    Pull(String),
    Verify(String),
    TenantRbac(String),
    Join(String),
}

/// When a resource is reconciled next: on its next change, after a number
/// of seconds, or after the configured resync interval.
#[derive(Debug, Clone, Copy, PartialEq, Eq, Structural)]
pub enum Requeue {
    AwaitChange,
    AfterSecs(u64),
    Resync,
}

/// How a reconcile ended, and when the next one is due.
#[derive(Debug, Clone, Copy, PartialEq, Eq, Structural)]
pub struct Verdict {
    pub requeue: Requeue,
    pub outcome: ReconcileOutcome,
}

/// The resource a reconcile is about, once its metadata are known to be
/// complete.
#[derive(Debug, Clone)]
pub struct Begin {
    pub namespace: String,
    pub name: String,
    pub generation: i64,
    /// The resource is being deleted: its finalizer is to be released, and
    /// nothing else is to be done.
    pub deleting: bool,
}

/// The generation of an object; zero when it has none.
pub open spec fn generation_of(m: ObjectMeta) -> i64 {
    match m.generation {
        Some(g) => g,
        None => 0,
    }
}

fn generation(m: &ObjectMeta) -> (r: i64)
    ensures
        r == generation_of(*m),
{
    match m.generation {
        Some(g) => g,
        None => 0,
    }
}

/// Begins the reconcile of a gateway: it needs a namespace, and a name.
pub fn begin_gateway(m: &ObjectMeta) -> (r: Result<Begin, ReconcileError>)
    ensures
        match r {
            Ok(b) => {
                &&& m@.namespace == Some(b.namespace@)
                &&& m@.name == Some(b.name@)
                &&& b.generation == generation_of(*m)
                &&& b.deleting == (m.deletion_timestamp is Some)
            },
            Err(ReconcileError::MissingNamespace { name }) => m@.namespace is None && name@
                == or_empty(m@.name),
            Err(ReconcileError::MissingName) => m@.namespace is Some && m@.name is None,
            Err(_) => false,
        },
{
    let namespace = match &m.namespace {
        Some(n) => n.clone(),
        None => return Err(ReconcileError::MissingNamespace { name: m.name_or_empty() }),
    };
    let name = match &m.name {
        Some(n) => n.clone(),
        None => return Err(ReconcileError::MissingName),
    };
    Ok(
        Begin {
            namespace,
            name,
            generation: generation(m),
            deleting: m.deletion_timestamp.is_some(),
        },
    )
}

/// Begins the reconcile of a namespaced resource: it needs a name, and a
/// namespace.
pub fn begin_namespaced(m: &ObjectMeta) -> (r: Result<Begin, ReconcileError>)
    ensures
        match r {
            Ok(b) => {
                &&& m@.namespace == Some(b.namespace@)
                &&& m@.name == Some(b.name@)
                &&& b.generation == generation_of(*m)
                &&& b.deleting == (m.deletion_timestamp is Some)
            },
            Err(ReconcileError::MissingName) => m@.name is None,
            Err(ReconcileError::MissingNamespace { name }) => m@.name == Some(name@)
                && m@.namespace is None,
            Err(_) => false,
        },
{
    let name = match &m.name {
        Some(n) => n.clone(),
        None => return Err(ReconcileError::MissingName),
    };
    let namespace = match &m.namespace {
        Some(n) => n.clone(),
        None => return Err(ReconcileError::MissingNamespace { name }),
    };
    Ok(
        Begin {
            namespace,
            name,
            generation: generation(m),
            deleting: m.deletion_timestamp.is_some(),
        },
    )
}

/// Begins the reconcile of a cluster-scoped resource: it needs a name.
pub fn begin_cluster_scoped(m: &ObjectMeta) -> (r: Result<Begin, ReconcileError>)
    ensures
        match r {
            Ok(b) => {
                &&& b.namespace@ == Seq::<char>::empty()
                &&& m@.name == Some(b.name@)
                &&& b.generation == generation_of(*m)
                &&& b.deleting == (m.deletion_timestamp is Some)
            },
            Err(ReconcileError::MissingName) => m@.name is None,
            Err(_) => false,
        },
{
    let name = match &m.name {
        Some(n) => n.clone(),
        None => return Err(ReconcileError::MissingName),
    };
    Ok(
        Begin {
            namespace: String::new(),
            name,
            generation: generation(m),
            deleting: m.deletion_timestamp.is_some(),
        },
    )
}

/// The end of a reconcile that only released a finalizer.
pub fn released() -> (r: Verdict)
    ensures
        r == (Verdict { requeue: Requeue::AwaitChange, outcome: ReconcileOutcome::Success }),
{
    Verdict { requeue: Requeue::AwaitChange, outcome: ReconcileOutcome::Success }
}

/// Whether an error stays until someone changes the resource.
pub open spec fn is_permanent(e: ReconcileError) -> bool {
    e is MissingName || e is MissingNamespace
}

/// How a reconcile counts: by its own verdict when it finished, else by
/// whether its error is permanent.
pub fn classify_outcome(result: &Result<Verdict, ReconcileError>) -> (r: ReconcileOutcome)
    ensures
        r == (match *result {
            Ok(v) => v.outcome,
            Err(e) => if is_permanent(e) {
                ReconcileOutcome::PermanentError
            } else {
                ReconcileOutcome::TransientError
            },
        }),
{
    match result {
        Ok(v) => v.outcome,
        Err(ReconcileError::MissingName) => ReconcileOutcome::PermanentError,
        Err(ReconcileError::MissingNamespace { .. }) => ReconcileOutcome::PermanentError,
        Err(_) => ReconcileOutcome::TransientError,
    }
}

/// What follows a failed reconcile.
#[derive(Debug)]
pub enum ErrorAction {
    /// Nothing, until the resource changes.
    AwaitChange,
    /// Another try after the delay; this was the given consecutive failure.
    Backoff { count: u32, delay: Duration },
}

/// What follows a failed reconcile: a permanent error waits for a change;
/// any other counts as one more failure of the resource, and is retried
/// after the delay for that count.
pub fn error_policy(
    controller: &str,
    meta: &ObjectMeta,
    err: &ReconcileError,
    backoff: &mut BackoffMap,
) -> (r: ErrorAction)
    ensures
        is_permanent(*err) ==> r is AwaitChange && final(backoff)@ == old(backoff)@,
        !is_permanent(*err) ==> {
            let key = key_of(controller@, or_empty(meta@.namespace), or_empty(meta@.name));
            let count = next_count(count_of(old(backoff)@, key));
            &&& final(backoff)@ == old(backoff)@.insert(key, count)
            &&& r matches ErrorAction::Backoff { count: c, delay } && c == count && base_delay(count)
                * FACTOR_LOW <= nanos_of(delay) < base_delay(count) * FACTOR_HIGH
        },
{
    match err {
        ReconcileError::MissingName => ErrorAction::AwaitChange,
        ReconcileError::MissingNamespace { .. } => ErrorAction::AwaitChange,
        _ => {
            let namespace = match &meta.namespace {
                Some(n) => n.clone(),
                None => String::new(),
            };
            let name = meta.name_or_empty();
            let key = resource_key(controller, namespace.as_str(), name.as_str());
            let count = backoff.record_error(key.as_str());
            let delay = backoff.duration_for(key.as_str());
            ErrorAction::Backoff { count, delay }
        },
    }
}

/// Whether the failures of a resource are forgotten after a reconcile: it
/// succeeded, and the resource is not being deleted. A gateway that only waits
/// for something it depends on was reconciled all the same.
pub open spec fn forgets(controller: Seq<char>, deleting: bool, outcome: ReconcileOutcome) -> bool {
    !deleting && (outcome is Success || (controller == "gateway"@ && outcome is DependencyPending))
}

/// Whether the failures of a resource are forgotten after a reconcile with
/// this verdict.
pub fn forgets_failures(controller: &str, deleting: bool, verdict: &Verdict) -> (r: bool)
    ensures
        r == forgets(controller@, deleting, verdict.outcome),
{
    if deleting {
        return false;
    }
    match verdict.outcome {
        ReconcileOutcome::Success => true,
        ReconcileOutcome::DependencyPending => same(controller, "gateway"),
        _ => false,
    }
}

/// The failures after a reconcile that ended with an outcome.
pub open spec fn after_reconcile(
    m: Map<Seq<char>, u32>,
    controller: Seq<char>,
    key: Seq<char>,
    deleting: bool,
    outcome: ReconcileOutcome,
) -> Map<Seq<char>, u32> {
    if forgets(controller, deleting, outcome) {
        m.remove(key)
    } else {
        m
    }
}

/// Settles a reconcile that did not fail: the failures of the resource are
/// forgotten where they are to be, and no others are.
pub fn record_outcome(
    controller: &str,
    meta: &ObjectMeta,
    verdict: &Verdict,
    backoff: &mut BackoffMap,
)
    ensures
        final(backoff)@ == after_reconcile(
            old(backoff)@,
            controller@,
            key_of(controller@, or_empty(meta@.namespace), or_empty(meta@.name)),
            meta.deletion_timestamp is Some,
            verdict.outcome,
        ),
{
    if forgets_failures(controller, meta.deletion_timestamp.is_some(), verdict) {
        let namespace = match &meta.namespace {
            Some(n) => n.clone(),
            None => String::new(),
        };
        let name = meta.name_or_empty();
        let key = resource_key(controller, namespace.as_str(), name.as_str());
        backoff.record_success(key.as_str());
    }
}

/// A success resets: after a successful reconcile of a resource that is not
/// being deleted, whatever its kind, its count of failures is zero. Other
/// resources keep their counts.
pub proof fn law_success_resets(
    m: Map<Seq<char>, u32>,
    controller: Seq<char>,
    key: Seq<char>,
    other: Seq<char>,
)
    requires
        other != key,
    ensures
        count_of(after_reconcile(m, controller, key, false, ReconcileOutcome::Success), key) == 0,
        count_of(after_reconcile(m, controller, key, false, ReconcileOutcome::Success), other)
            == count_of(m, other),
{
}

} // verus!
