//! What a gateway reports after a reconcile.
use vstd::prelude::*;

use crate::api::conditions::{
    cond, conditions_view, event, opt_event, set_condition, upsert, Condition, ConditionView,
    Event, EventType, EventView,
};
use crate::api::resources::{existing_conditions, status_conditions, MCPGGateway};
use crate::controllers::gateway::cluster::ResolvedCluster;
use crate::controllers::gateway::plugin_set::ResolvedPluginSet;
use crate::controllers::gateway::revocation::ResolvedRevocationList;
use crate::reconcile::flow::{Requeue, Verdict};
use crate::telemetry::{DependencyLabels, ReconcileOutcome};
use crate::text::{decimal_int, decimal_int_text, opt_text, same};

verus! {

/// The replica counts a Deployment reports.
#[derive(Debug, Clone, Copy, Default)]
pub struct DeploymentStatus {
    pub replicas: Option<i32>,
    pub ready_replicas: Option<i32>,
    pub updated_replicas: Option<i32>,
    pub available_replicas: Option<i32>,
}

/// A count; zero when it is not reported.
pub open spec fn reported(n: Option<i32>) -> i32 {
    match n {
        Some(n) => n,
        None => 0,
    }
}

fn or_zero(n: Option<i32>) -> (r: i32)
    ensures
        r == reported(n),
{
    match n {
        Some(n) => n,
        None => 0,
    }
}

/// The status of a gateway.
#[derive(Debug)]
pub struct MCPGGatewayStatus {
    pub conditions: Vec<Condition>,
    pub observed_generation: Option<i64>,
    pub replicas: Option<i32>,
    pub ready_replicas: Option<i32>,
    pub updated_replicas: Option<i32>,
    pub available_replicas: Option<i32>,
    pub config_hash: Option<String>,
    pub plugin_set_hash: Option<String>,
    pub revocation_list_hash: Option<String>,
}

/// Everything that follows a reconcile of a gateway: the status to patch,
/// the event to publish, and the verdict.
#[derive(Debug)]
pub struct GatewayReport {
    pub status: MCPGGatewayStatus,
    pub event: Option<Event>,
    pub verdict: Verdict,
}

/// Whether as many replicas are available as were asked for.
pub open spec fn all_available(available: i32, wanted: i32) -> bool {
    available > 0 && available == wanted
}

/// A condition as of the given generation.
pub open spec fn at_generation(c: ConditionView, generation: i64) -> ConditionView {
    cond(c.type_, c.status, c.reason, c.message, Some(generation))
}

/// The conditions that report the rollout.
pub open spec fn rollout_conditions(
    existing: Seq<ConditionView>,
    available: i32,
    wanted: i32,
    generation: i64,
) -> Seq<ConditionView> {
    if all_available(available, wanted) {
        upsert(
            upsert(
                existing,
                cond("Ready"@, "True"@, "AllReplicasAvailable"@, ""@, Some(generation)),
            ),
            cond("Available"@, "True"@, "PodsReady"@, ""@, Some(generation)),
        )
    } else {
        upsert(
            upsert(
                existing,
                cond(
                    "Ready"@,
                    "False"@,
                    "Progressing"@,
                    decimal_int(available as int) + "/"@ + decimal_int(wanted as int)
                        + " replicas available"@,
                    Some(generation),
                ),
            ),
            cond("Progressing"@, "True"@, "Progressing"@, ""@, Some(generation)),
        )
    }
}

/// A list with a further condition, when there is one, as of the given
/// generation.
pub open spec fn with_dependency(
    existing: Seq<ConditionView>,
    c: Option<ConditionView>,
    generation: i64,
) -> Seq<ConditionView> {
    match c {
        Some(c) => upsert(existing, at_generation(c, generation)),
        None => existing,
    }
}

/// The condition of an optional plugin set.
pub open spec fn set_cond(p: Option<ResolvedPluginSet>) -> Option<ConditionView> {
    match p {
        Some(p) => Some(p.condition@),
        None => None,
    }
}

/// The condition of an optional revocation list.
pub open spec fn list_cond(r: Option<ResolvedRevocationList>) -> Option<ConditionView> {
    match r {
        Some(r) => Some(r.condition@),
        None => None,
    }
}

/// The condition of an optional cluster binding.
pub open spec fn cluster_cond(c: Option<ResolvedCluster>) -> Option<ConditionView> {
    match c {
        Some(c) => Some(c.condition@),
        None => None,
    }
}

/// The conditions of a gateway after a reconcile: the rollout, then each
/// dependency that it names.
pub open spec fn gateway_conditions(
    existing: Seq<ConditionView>,
    available: i32,
    wanted: i32,
    generation: i64,
    plugin_set: Option<ConditionView>,
    revocation_list: Option<ConditionView>,
    cluster: Option<ConditionView>,
) -> Seq<ConditionView> {
    with_dependency(
        with_dependency(
            with_dependency(
                rollout_conditions(existing, available, wanted, generation),
                plugin_set,
                generation,
            ),
            revocation_list,
            generation,
        ),
        cluster,
        generation,
    )
}

/// Whether a plugin set was asked for and cannot be used.
pub open spec fn set_unresolved(p: Option<ResolvedPluginSet>) -> bool {
    p matches Some(p) && p.view is None
}

/// Whether a dependency was asked for and its condition is not true.
pub open spec fn not_true(c: Option<ConditionView>) -> bool {
    c matches Some(c) && c.status != "True"@
}

/// What a dependency series says.
pub open spec fn dependency_view(d: DependencyLabels) -> (Seq<char>, Seq<char>, Seq<char>) {
    (d.controller@, d.dependency@, d.reason@)
}

/// What a list of dependency series says.
pub open spec fn dependencies_view(v: Seq<DependencyLabels>) -> Seq<
    (Seq<char>, Seq<char>, Seq<char>),
> {
    v.map_values(|d: DependencyLabels| dependency_view(d))
}

/// One entry when the condition holds.
pub open spec fn entry_if(
    b: bool,
    kind: Seq<char>,
    c: Option<ConditionView>,
) -> Seq<(Seq<char>, Seq<char>, Seq<char>)> {
    if b {
        seq![("gateway"@, kind, c->0.reason)]
    } else {
        Seq::empty()
    }
}

/// The dependencies that count as unresolved, in this order.
pub open spec fn unresolved_dependencies(
    set_missing: bool,
    plugin_set: Option<ConditionView>,
    revocation_list: Option<ConditionView>,
    cluster: Option<ConditionView>,
) -> Seq<(Seq<char>, Seq<char>, Seq<char>)> {
    entry_if(set_missing, "MCPGPluginSet"@, plugin_set) + entry_if(
        not_true(revocation_list),
        "MCPGRevocationList"@,
        revocation_list,
    ) + entry_if(not_true(cluster), "MCPGCluster"@, cluster)
}

/// The event of a gateway whose replicas are all available.
pub open spec fn ready_event(available: i32, wanted: i32) -> EventView {
    event(
        EventType::Normal,
        "Reconciled"@,
        "Gateway is Ready ("@ + decimal_int(available as int) + "/"@ + decimal_int(wanted as int)
            + ") replicas available"@,
        "Reconcile"@,
    )
}

fn retagged(c: &Condition, generation: i64) -> (r: Condition)
    ensures
        r@ == at_generation(c@, generation),
{
    Condition {
        type_: c.type_.clone(),
        status: c.status.clone(),
        reason: c.reason.clone(),
        message: c.message.clone(),
        observed_generation: Some(generation),
    }
}

fn set_rollout(conditions: &mut Vec<Condition>, available: i32, wanted: i32, generation: i64)
    ensures
        conditions_view(final(conditions)@) == rollout_conditions(
            conditions_view(old(conditions)@),
            available,
            wanted,
            generation,
        ),
{
    if available > 0 && available == wanted {
        set_condition(
            conditions,
            Condition::new("Ready", "True", "AllReplicasAvailable", "", Some(generation)),
        );
        set_condition(
            conditions,
            Condition::new("Available", "True", "PodsReady", "", Some(generation)),
        );
    } else {
        let message = decimal_int_text(available as i64).concat("/").concat(
            decimal_int_text(wanted as i64).as_str(),
        ).concat(" replicas available");
        set_condition(
            conditions,
            Condition::new("Ready", "False", "Progressing", message.as_str(), Some(generation)),
        );
        set_condition(
            conditions,
            Condition::new("Progressing", "True", "Progressing", "", Some(generation)),
        );
    }
}

/// The dependencies of a gateway that count as unresolved: the ones that it
/// asked for and did not get.
pub fn list_unresolved(
    plugin_set: &Option<ResolvedPluginSet>,
    revocation_list: &Option<ResolvedRevocationList>,
    cluster: &Option<ResolvedCluster>,
) -> (r: Vec<DependencyLabels>)
    ensures
        dependencies_view(r@) == unresolved_dependencies(
            set_unresolved(*plugin_set),
            set_cond(*plugin_set),
            list_cond(*revocation_list),
            cluster_cond(*cluster),
        ),
{
    let mut out: Vec<DependencyLabels> = Vec::new();
    match plugin_set {
        Some(p) => {
            if p.view.is_none() {
                out.push(
                    DependencyLabels::new("gateway", "MCPGPluginSet", p.condition.reason.as_str()),
                );
            }
        },
        None => {},
    }
    assert(dependencies_view(out@) =~= entry_if(
        set_unresolved(*plugin_set),
        "MCPGPluginSet"@,
        set_cond(*plugin_set),
    ));
    let ghost first = out@;
    match revocation_list {
        Some(l) => {
            if !same(l.condition.status.as_str(), "True") {
                out.push(
                    DependencyLabels::new(
                        "gateway",
                        "MCPGRevocationList",
                        l.condition.reason.as_str(),
                    ),
                );
            }
        },
        None => {},
    }
    assert(dependencies_view(out@) =~= dependencies_view(first) + entry_if(
        not_true(list_cond(*revocation_list)),
        "MCPGRevocationList"@,
        list_cond(*revocation_list),
    ));
    let ghost second = out@;
    match cluster {
        Some(c) => {
            if !same(c.condition.status.as_str(), "True") {
                out.push(
                    DependencyLabels::new("gateway", "MCPGCluster", c.condition.reason.as_str()),
                );
            }
        },
        None => {},
    }
    assert(dependencies_view(out@) =~= dependencies_view(second) + entry_if(
        not_true(cluster_cond(*cluster)),
        "MCPGCluster"@,
        cluster_cond(*cluster),
    ));
    out
}

/// Whether `r` is the report on a reconcile of a gateway, from the counts its
/// Deployment reports and from what its dependencies resolved to.
pub open spec fn reports(
    obj: MCPGGateway,
    generation: i64,
    deployment: DeploymentStatus,
    plugin_set: Option<ResolvedPluginSet>,
    revocation_list: Option<ResolvedRevocationList>,
    cluster: Option<ResolvedCluster>,
    config_hash: Seq<char>,
    r: GatewayReport,
) -> bool {
    let available = reported(deployment.available_replicas);
    &&& conditions_view(r.status.conditions@) == gateway_conditions(
        status_conditions(obj.status),
        available,
        obj.spec.replicas,
        generation,
        set_cond(plugin_set),
        list_cond(revocation_list),
        cluster_cond(cluster),
    )
    &&& r.status.observed_generation == Some(generation)
    &&& r.status.replicas == Some(reported(deployment.replicas))
    &&& r.status.ready_replicas == Some(reported(deployment.ready_replicas))
    &&& r.status.updated_replicas == Some(reported(deployment.updated_replicas))
    &&& r.status.available_replicas == Some(available)
    &&& opt_text(r.status.config_hash) == Some(config_hash)
    &&& opt_text(r.status.plugin_set_hash) == (match plugin_set {
        Some(p) => Some(p.resolved_hash@),
        None => None,
    })
    &&& opt_text(r.status.revocation_list_hash) == (match revocation_list {
        Some(l) => Some(l.mount.content_hash@),
        None => None,
    })
    &&& opt_event(r.event) == (if all_available(available, obj.spec.replicas) {
        Some(ready_event(available, obj.spec.replicas))
    } else {
        None
    })
    &&& r.verdict.requeue == Requeue::Resync
    &&& r.verdict.outcome == (if set_unresolved(plugin_set) || not_true(
        list_cond(revocation_list),
    ) {
        ReconcileOutcome::DependencyPending
    } else {
        ReconcileOutcome::Success
    })
}

/// Reports on a reconcile of a gateway.
pub fn report_gateway(
    obj: &MCPGGateway,
    generation: i64,
    deployment: DeploymentStatus,
    plugin_set: &Option<ResolvedPluginSet>,
    revocation_list: &Option<ResolvedRevocationList>,
    cluster: &Option<ResolvedCluster>,
    config_hash: &str,
) -> (r: GatewayReport)
    ensures
        reports(
            *obj,
            generation,
            deployment,
            *plugin_set,
            *revocation_list,
            *cluster,
            config_hash@,
            r,
        ),
{
    let available = or_zero(deployment.available_replicas);
    let wanted = obj.spec.replicas;
    let mut conditions = existing_conditions(&obj.status);
    set_rollout(&mut conditions, available, wanted, generation);
    let mut pending = false;
    let mut plugin_set_hash: Option<String> = None;
    match plugin_set {
        Some(p) => {
            set_condition(&mut conditions, retagged(&p.condition, generation));
            plugin_set_hash = Some(p.resolved_hash.clone());
            if p.view.is_none() {
                pending = true;
            }
        },
        None => {},
    }
    let mut revocation_list_hash: Option<String> = None;
    match revocation_list {
        Some(l) => {
            set_condition(&mut conditions, retagged(&l.condition, generation));
            revocation_list_hash = Some(l.mount.content_hash.clone());
            if !same(l.condition.status.as_str(), "True") {
                pending = true;
            }
        },
        None => {},
    }
    match cluster {
        Some(c) => {
            set_condition(&mut conditions, retagged(&c.condition, generation));
        },
        None => {},
    }
    let event = if available > 0 && available == wanted {
        let note = "Gateway is Ready (".to_owned().concat(
            decimal_int_text(available as i64).as_str(),
        ).concat("/").concat(decimal_int_text(wanted as i64).as_str()).concat(
            ") replicas available",
        );
        Some(Event::new(EventType::Normal, "Reconciled", note.as_str(), "Reconcile"))
    } else {
        None
    };
    let outcome = if pending {
        ReconcileOutcome::DependencyPending
    } else {
        ReconcileOutcome::Success
    };
    GatewayReport {
        status: MCPGGatewayStatus {
            conditions,
            observed_generation: Some(generation),
            replicas: Some(or_zero(deployment.replicas)),
            ready_replicas: Some(or_zero(deployment.ready_replicas)),
            updated_replicas: Some(or_zero(deployment.updated_replicas)),
            available_replicas: Some(available),
            config_hash: Some(config_hash.to_owned()),
            plugin_set_hash,
            revocation_list_hash,
        },
        event,
        verdict: Verdict { requeue: Requeue::Resync, outcome },
    }
}

} // verus!
