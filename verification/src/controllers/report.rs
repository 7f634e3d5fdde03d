//! What a controller reports at the end of a reconcile.
use vstd::prelude::*;

use crate::api::conditions::{
    cond, conditions_view, opt_event, set_condition, status_str, status_text, upsert, Condition,
    ConditionView, Event, EventView,
};
use crate::reconcile::flow::{Requeue, Verdict};
use crate::telemetry::ReconcileOutcome;

verus! {

/// The conditions to write, the event to publish, and the verdict.
#[derive(Debug)]
pub struct Report {
    pub conditions: Vec<Condition>,
    pub event: Option<Event>,
    pub verdict: Verdict,
}

/// What a report says.
#[verifier::ext_equal]
pub struct ReportView {
    pub conditions: Seq<ConditionView>,
    pub event: Option<EventView>,
    pub verdict: Verdict,
}

impl View for Report {
    type V = ReportView;

    open spec fn view(&self) -> ReportView {
        ReportView {
            conditions: conditions_view(self.conditions@),
            event: opt_event(self.event),
            verdict: self.verdict,
        }
    }
}

/// The list after setting a condition that holds or does not.
pub open spec fn put(
    s: Seq<ConditionView>,
    type_: Seq<char>,
    ok: bool,
    reason: Seq<char>,
    message: Seq<char>,
    generation: i64,
) -> Seq<ConditionView> {
    upsert(s, cond(type_, status_text(ok), reason, message, Some(generation)))
}

/// Sets a condition that holds or does not.
pub fn set_cond(
    conditions: &mut Vec<Condition>,
    type_: &str,
    ok: bool,
    reason: &str,
    message: &str,
    generation: i64,
)
    ensures
        conditions_view(final(conditions)@) == put(
            conditions_view(old(conditions)@),
            type_@,
            ok,
            reason@,
            message@,
            generation,
        ),
{
    set_condition(
        conditions,
        Condition::new(type_, status_str(ok), reason, message, Some(generation)),
    );
}

/// The verdict of a reconcile that waits for the next resync: it succeeded,
/// or something it depends on is missing.
pub open spec fn resync_verdict(ok: bool) -> Verdict {
    Verdict {
        requeue: Requeue::Resync,
        outcome: if ok {
            ReconcileOutcome::Success
        } else {
            ReconcileOutcome::DependencyPending
        },
    }
}

/// The verdict of a reconcile that waits for the next resync.
pub fn resync(ok: bool) -> (r: Verdict)
    ensures
        r == resync_verdict(ok),
{
    Verdict {
        requeue: Requeue::Resync,
        outcome: if ok {
            ReconcileOutcome::Success
        } else {
            ReconcileOutcome::DependencyPending
        },
    }
}

} // verus!
