//! Outcomes of reconciles, and the label sets of the operator's metrics.
use vstd::prelude::*;

verus! {

/// How a reconcile ended.
#[derive(Debug, Clone, Copy, PartialEq, Eq, Structural)]
pub enum ReconcileOutcome {
    /// The resource is as it should be.
    Success,
    /// Something failed; the controller tries again.
    TransientError,
    /// Someone has to change the resource.
    PermanentError,
    /// Another resource is not ready yet.
    DependencyPending,
}

/// The metric label of an outcome.
pub open spec fn outcome_label(o: ReconcileOutcome) -> Seq<char> {
    match o {
        ReconcileOutcome::Success => "success"@,
        ReconcileOutcome::TransientError => "transient_error"@,
        ReconcileOutcome::PermanentError => "permanent_error"@,
        ReconcileOutcome::DependencyPending => "dependency_pending"@,
    }
}

impl ReconcileOutcome {
    /// The metric label of the outcome.
    pub fn as_str(self) -> (r: &'static str)
        ensures
            r@ == outcome_label(self),
    {
        match self {
            ReconcileOutcome::Success => "success",
            ReconcileOutcome::TransientError => "transient_error",
            ReconcileOutcome::PermanentError => "permanent_error",
            ReconcileOutcome::DependencyPending => "dependency_pending",
        }
    }
}

/// Different outcomes have different labels.
pub proof fn law_labels_distinct(a: ReconcileOutcome, b: ReconcileOutcome)
    requires
        outcome_label(a) == outcome_label(b),
    ensures
        a == b,
{
    reveal_strlit("success");
    reveal_strlit("transient_error");
    reveal_strlit("permanent_error");
    reveal_strlit("dependency_pending");
    assert("success"@.len() == 7);
    assert("transient_error"@[0] == 't');
    assert("permanent_error"@[0] == 'p');
    assert("dependency_pending"@[0] == 'd');
    assert("success"@[0] == 's');
}

/// The labels of the reconcile counter.
#[derive(Debug, Clone, Hash, PartialEq, Eq)]
pub struct ReconcileLabels {
    pub controller: String,
    pub outcome: String,
}

/// The labels of the per-controller series.
#[derive(Debug, Clone, Hash, PartialEq, Eq)]
pub struct ControllerLabels {
    pub controller: String,
}

/// The labels of the unresolved-dependency counter.
#[derive(Debug, Clone, Hash, PartialEq, Eq)]
pub struct DependencyLabels {
    pub controller: String,
    pub dependency: String,
    pub reason: String,
}

/// The labels of the pull counter.
#[derive(Debug, Clone, Hash, PartialEq, Eq)]
pub struct OutcomeLabels {
    pub outcome: String,
}

/// The labels of the leader gauge.
#[derive(Debug, Clone, Hash, PartialEq, Eq)]
pub struct LeaseLabels {
    pub lease: String,
}

impl ReconcileLabels {
    /// The series that one reconcile counts into.
    pub fn new(controller: &str, outcome: ReconcileOutcome) -> (r: ReconcileLabels)
        ensures
            r.controller@ == controller@,
            r.outcome@ == outcome_label(outcome),
    {
        ReconcileLabels {
            controller: controller.to_owned(),
            outcome: outcome.as_str().to_owned(),
        }
    }
}

impl DependencyLabels {
    /// The series that one unresolved dependency counts into.
    pub fn new(controller: &str, dependency: &str, reason: &str) -> (r: DependencyLabels)
        ensures
            r.controller@ == controller@,
            r.dependency@ == dependency@,
            r.reason@ == reason@,
    {
        DependencyLabels {
            controller: controller.to_owned(),
            dependency: dependency.to_owned(),
            reason: reason.to_owned(),
        }
    }
}

/// The value of the leader gauge: one while this process leads.
pub fn leader_gauge(elected: bool) -> (r: i64)
    ensures
        r == (if elected {
            1int
        } else {
            0int
        }),
{
    if elected {
        1
    } else {
        0
    }
}

/// The label of an error says which error it is, and no other label does.
pub proof fn law_labels_say_the_outcome(o: ReconcileOutcome)
    ensures
        outcome_label(o) == "success"@ <==> o is Success,
        outcome_label(o) == "transient_error"@ <==> o is TransientError,
        outcome_label(o) == "permanent_error"@ <==> o is PermanentError,
        outcome_label(o) == "dependency_pending"@ <==> o is DependencyPending,
{
    reveal_strlit("success");
    reveal_strlit("transient_error");
    reveal_strlit("permanent_error");
    reveal_strlit("dependency_pending");
    assert("transient_error"@[0] == 't');
    assert("permanent_error"@[0] == 'p');
    assert("dependency_pending"@[0] == 'd');
    assert("success"@[0] == 's');
}

} // verus!
