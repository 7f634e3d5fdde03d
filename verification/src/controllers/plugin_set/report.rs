//! What a plugin set reports.
use vstd::prelude::*;

use crate::api::conditions::{
    clone_conditions, conditions_view, event, Condition, ConditionView, Event, EventType,
};
use crate::api::resources::MCPGPluginSet;
use crate::controllers::plugin_set::resolve::{failed_views, FailedEntry};
use crate::controllers::report::{put, set_cond, Report, ReportView};
use crate::reconcile::flow::{Requeue, Verdict};
use crate::telemetry::ReconcileOutcome;
use crate::text::{decimal, decimal_text};

verus! {

/// The conditions a plugin set has.
pub open spec fn set_conditions(set: MCPGPluginSet) -> Seq<ConditionView> {
    match set.status {
        Some(s) => conditions_view(s.conditions@),
        None => Seq::empty(),
    }
}

fn existing(set: &MCPGPluginSet) -> (r: Vec<Condition>)
    ensures
        conditions_view(r@) == set_conditions(*set),
{
    match &set.status {
        Some(s) => clone_conditions(&s.conditions),
        None => {
            let v: Vec<Condition> = Vec::new();
            assert(conditions_view(v@) =~= Seq::empty());
            v
        },
    }
}

/// How many entries were resolved.
pub open spec fn progress(resolved: nat, total: nat) -> Seq<char> {
    decimal(resolved) + "/"@ + decimal(total) + " entries resolved"@
}

/// The report on a plugin set: it is ready exactly when no entry failed.
pub open spec fn set_report(
    set: MCPGPluginSet,
    generation: i64,
    resolved: nat,
    failed: nat,
) -> ReportView {
    let total = set.spec.entries@.len();
    let text = progress(resolved, total);
    let have = set_conditions(set);
    if failed == 0 {
        ReportView {
            conditions: put(
                put(have, "Ready"@, true, "Reconciled"@, text, generation),
                "EntriesResolved"@,
                true,
                "Reconciled"@,
                ""@,
                generation,
            ),
            event: Some(event(EventType::Normal, "Reconciled"@, text, "Resolve"@)),
            verdict: Verdict {
                requeue: Requeue::AfterSecs(300),
                outcome: ReconcileOutcome::Success,
            },
        }
    } else {
        let detail = text + "; "@ + decimal(failed) + " failed"@;
        ReportView {
            conditions: put(
                put(have, "Ready"@, false, "Progressing"@, detail, generation),
                "EntriesResolved"@,
                false,
                "EntriesFailed"@,
                detail,
                generation,
            ),
            event: None,
            verdict: Verdict {
                requeue: Requeue::AfterSecs(300),
                outcome: ReconcileOutcome::DependencyPending,
            },
        }
    }
}

/// The status of a plugin set, and what else follows its reconcile.
#[derive(Debug)]
pub struct PluginSetReport {
    pub report: Report,
    pub observed_generation: i64,
    pub resolved_entries: u64,
    pub total_entries: u64,
    pub resolved_hash: String,
    pub failed_entries: Vec<FailedEntry>,
}

/// Reports on a plugin set.
pub fn report_plugin_set(
    set: &MCPGPluginSet,
    generation: i64,
    resolved: usize,
    failed: Vec<FailedEntry>,
    resolved_hash: &str,
) -> (r: PluginSetReport)
    ensures
        r.report@ == set_report(*set, generation, resolved as nat, failed@.len()),
        r.observed_generation == generation,
        r.resolved_entries == resolved,
        r.total_entries == set.spec.entries@.len(),
        r.resolved_hash@ == resolved_hash@,
        failed_views(r.failed_entries@) == failed_views(failed@),
{
    let total: u64 = set.spec.entries.len() as u64;
    let resolved: u64 = resolved as u64;
    let text = decimal_text(resolved).concat("/").concat(decimal_text(total).as_str()).concat(
        " entries resolved",
    );
    let mut conditions = existing(set);
    let report = if failed.len() == 0 {
        set_cond(&mut conditions, "Ready", true, "Reconciled", text.as_str(), generation);
        set_cond(&mut conditions, "EntriesResolved", true, "Reconciled", "", generation);
        Report {
            conditions,
            event: Some(Event::new(EventType::Normal, "Reconciled", text.as_str(), "Resolve")),
            verdict: Verdict {
                requeue: Requeue::AfterSecs(300),
                outcome: ReconcileOutcome::Success,
            },
        }
    } else {
        let detail = text.concat("; ").concat(
            decimal_text(failed.len() as u64).as_str(),
        ).concat(" failed");
        set_cond(&mut conditions, "Ready", false, "Progressing", detail.as_str(), generation);
        set_cond(
            &mut conditions,
            "EntriesResolved",
            false,
            "EntriesFailed",
            detail.as_str(),
            generation,
        );
        Report {
            conditions,
            event: None,
            verdict: Verdict {
                requeue: Requeue::AfterSecs(300),
                outcome: ReconcileOutcome::DependencyPending,
            },
        }
    };
    PluginSetReport {
        report,
        observed_generation: generation,
        resolved_entries: resolved,
        total_entries: total,
        resolved_hash: resolved_hash.to_owned(),
        failed_entries: failed,
    }
}

/// A plugin set with a rejected entry never says that it is ready: its
/// `Ready` condition becomes `False`.
pub proof fn law_failed_entry_is_not_ready(
    set: MCPGPluginSet,
    generation: i64,
    resolved: nat,
    failed: nat,
)
    requires
        failed > 0,
    ensures
        ({
            let c = set_report(set, generation, resolved, failed).conditions;
            let p = crate::api::conditions::position(c, "Ready"@);
            p is Some && c[p->0].status == "False"@
        }),
{
    reveal_strlit("Ready");
    reveal_strlit("EntriesResolved");
    assert("Ready"@.len() != "EntriesResolved"@.len());
    let total = set.spec.entries@.len();
    let detail = progress(resolved, total) + "; "@ + decimal(failed) + " failed"@;
    let ready = crate::api::conditions::cond(
        "Ready"@,
        "False"@,
        "Progressing"@,
        detail,
        Some(generation),
    );
    let entries = crate::api::conditions::cond(
        "EntriesResolved"@,
        "False"@,
        "EntriesFailed"@,
        detail,
        Some(generation),
    );
    let first = crate::api::conditions::upsert(set_conditions(set), ready);
    crate::api::conditions::law_upsert_sets(set_conditions(set), ready);
    crate::api::conditions::law_upsert_keeps_others(first, entries, "Ready"@);
}

} // verus!
