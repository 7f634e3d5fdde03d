//! What holds of tenants: their limits, their marks and their reports.
use vstd::prelude::*;

use crate::api::conditions::{lemma_upserts_are_told, told, EventType};
use crate::api::resources::{MCPGTenant, TenantQuotas};
use crate::controllers::tenant::boundary::{
    gateways_in, hard_limits, namespaces_where, no_mark, plugin_sets_in, quota_is, reports, routes_in, sum, tenant_mark, tenant_report, totals, NamespaceFate, QuotaAction, TenantObservedCounts, TenantReport,
};
use crate::controllers::tenant::flow::{starts, step_is, TenantAction, TenantEvent, TenantState};
use crate::reconcile::flow::{Begin, ReconcileError, Requeue};
use crate::telemetry::ReconcileOutcome;
use crate::text::{decimal, decimal_int, ends_with, join, starts_with, texts};
use crate::text_laws::law_parts_are_found;

verus! {

proof fn lemma_limit_keys()
    ensures
        "count/mcpggateways.mcpg.dev"@ != "count/mcpgpluginsets.mcpg.dev"@,
        "count/mcpggateways.mcpg.dev"@ != "count/mcpgroutes.mcpg.dev"@,
        "count/mcpgpluginsets.mcpg.dev"@ != "count/mcpgroutes.mcpg.dev"@,
{
    reveal_strlit("count/mcpggateways.mcpg.dev");
    reveal_strlit("count/mcpgpluginsets.mcpg.dev");
    reveal_strlit("count/mcpgroutes.mcpg.dev");
    assert("count/mcpggateways.mcpg.dev"@.len() == 27);
    assert("count/mcpgpluginsets.mcpg.dev"@.len() == 29);
    assert("count/mcpgroutes.mcpg.dev"@.len() == 25);
}

proof fn lemma_label_keys()
    ensures
        "app.kubernetes.io/managed-by"@ != "mcpg.dev/tenant"@,
{
    reveal_strlit("app.kubernetes.io/managed-by");
    reveal_strlit("mcpg.dev/tenant");
    assert("app.kubernetes.io/managed-by"@.len() == 28);
    assert("mcpg.dev/tenant"@.len() == 15);
}

/// A quota limits exactly what the tenant limits, each kind by its own number:
/// gateways, plugin sets and routes.
pub proof fn law_limits_are_the_tenants(q: TenantQuotas, key: Seq<char>)
    ensures
        ({
            let h = hard_limits(q);
            let g = "count/mcpggateways.mcpg.dev"@;
            let p = "count/mcpgpluginsets.mcpg.dev"@;
            let r = "count/mcpgroutes.mcpg.dev"@;
            &&& h.dom().contains(g) <==> q.max_gateways is Some
            &&& h.dom().contains(p) <==> q.max_plugin_sets is Some
            &&& h.dom().contains(r) <==> q.max_routes is Some
            &&& q.max_gateways matches Some(n) ==> h[g] == decimal_int(n as int)
            &&& q.max_plugin_sets matches Some(n) ==> h[p] == decimal_int(n as int)
            &&& q.max_routes matches Some(n) ==> h[r] == decimal_int(n as int)
            &&& h.dom().contains(key) ==> key == g || key == p || key == r
        }),
{
    lemma_limit_keys();
}

/// A tenant with a limit on the number of its objects has a quota in each of
/// its namespaces, under its own name and with its mark; one without has none,
/// and one that is left over goes. It is the quota of that same name that is
/// taken away when the tenant leaves.
pub proof fn law_quota_follows_the_limits(
    namespace: Seq<char>,
    tenant: Seq<char>,
    quotas: Option<TenantQuotas>,
    r: QuotaAction,
)
    requires
        quota_is(namespace, tenant, quotas, r),
    ensures
        r is Apply <==> (quotas matches Some(q) && (q.max_gateways is Some || q.max_plugin_sets
            is Some || q.max_routes is Some)),
        r matches QuotaAction::Apply(x) ==> {
            &&& x@.metadata.name == Some("mcpg-tenant-"@ + tenant)
            &&& x@.metadata.namespace == Some(namespace)
            &&& x@.hard == hard_limits(quotas->0)
            &&& x@.metadata.labels matches Some(labels)
            &&& labels.dom().contains("mcpg.dev/tenant"@)
            &&& labels["mcpg.dev/tenant"@] == tenant
        },
        r matches QuotaAction::Delete(name) ==> name@ == "mcpg-tenant-"@ + tenant,
{
    lemma_label_keys();
}

/// A namespace of a tenant carries the tenant's name as its mark, and no mark
/// once the tenant has left it.
pub proof fn law_namespaces_are_marked(namespace: Seq<char>, tenant: Seq<char>)
    ensures
        tenant_mark(namespace, tenant).name == Some(namespace),
        tenant_mark(namespace, tenant).labels matches Some(labels) && labels.dom().contains(
            "mcpg.dev/tenant"@,
        ) && labels["mcpg.dev/tenant"@] == tenant,
        no_mark(namespace).name == Some(namespace),
        no_mark(namespace).labels matches Some(labels) && !labels.dom().contains(
            "mcpg.dev/tenant"@,
        ),
{
}

proof fn lemma_sum_push(s: Seq<int>, x: int)
    ensures
        sum(s.push(x)) == sum(s) + x,
{
    assert(s.push(x).drop_last() =~= s);
}

/// What a tenant has is what it has in its namespaces taken together: nothing
/// without a namespace, and with a further namespace as much more as there is
/// in it, of each kind.
pub proof fn law_counts_add_up(
    v: Seq<TenantObservedCounts>,
    c: TenantObservedCounts,
    r: TenantObservedCounts,
    more: TenantObservedCounts,
)
    requires
        totals(v, r),
        totals(v.push(c), more),
    ensures
        v.len() == 0 ==> r.gateways == 0 && r.plugin_sets == 0 && r.routes == 0,
        more.gateways == r.gateways + c.gateways,
        more.plugin_sets == r.plugin_sets + c.plugin_sets,
        more.routes == r.routes + c.routes,
{
    assert(gateways_in(v.push(c)) =~= gateways_in(v).push(c.gateways as int));
    assert(plugin_sets_in(v.push(c)) =~= plugin_sets_in(v).push(c.plugin_sets as int));
    assert(routes_in(v.push(c)) =~= routes_in(v).push(c.routes as int));
    lemma_sum_push(gateways_in(v), c.gateways as int);
    lemma_sum_push(plugin_sets_in(v), c.plugin_sets as int);
    lemma_sum_push(routes_in(v), c.routes as int);
}

proof fn lemma_types()
    ensures
        "Ready"@ != "NamespacesBound"@,
        "Ready"@ != "QuotaWithinLimits"@,
        "Ready"@ != "True"@,
        "Ready"@ != "False"@,
        "NamespacesBound"@ != "QuotaWithinLimits"@,
        "NamespacesBound"@ != "True"@,
        "NamespacesBound"@ != "False"@,
        "QuotaWithinLimits"@ != "True"@,
        "QuotaWithinLimits"@ != "False"@,
        "True"@ != "False"@,
{
    reveal_strlit("Ready");
    reveal_strlit("NamespacesBound");
    reveal_strlit("QuotaWithinLimits");
    reveal_strlit("True");
    reveal_strlit("False");
    assert("Ready"@.len() == 5);
    assert("NamespacesBound"@.len() == 15);
    assert("QuotaWithinLimits"@.len() == 17);
    assert("True"@.len() == 4);
    assert("False"@.len() == 5);
    assert("Ready"@[0] == 'R');
    assert("False"@[0] == 'F');
}

/// A tenant is reported ready, and its namespaces as bound, exactly when none
/// is missing and none is there without its binding; its quotas are reported as
/// kept exactly when it has no more of anything than they allow. A tenant that
/// is not ready is warned about and waits for its namespaces.
pub proof fn law_tenant_reports_its_namespaces(
    t: MCPGTenant,
    generation: i64,
    bound: nat,
    unbound: Seq<Seq<char>>,
    missing: Seq<Seq<char>>,
    observed: TenantObservedCounts,
)
    ensures
        ({
            let r = tenant_report(t, generation, bound, unbound, missing, observed);
            let all = unbound.len() == 0 && missing.len() == 0;
            let over = t.spec.quotas matches Some(q) && ((q.max_gateways matches Some(n)
                && observed.gateways > n) || (q.max_plugin_sets matches Some(n)
                && observed.plugin_sets > n) || (q.max_routes matches Some(n) && observed.routes
                > n));
            &&& told(r.conditions, "Ready"@) matches Some(c) && c.status == (if all {
                "True"@
            } else {
                "False"@
            }) && c.observed_generation == Some(generation)
            &&& told(r.conditions, "NamespacesBound"@) matches Some(c) && c.status == (if all {
                "True"@
            } else {
                "False"@
            }) && c.observed_generation == Some(generation)
            &&& told(r.conditions, "QuotaWithinLimits"@) matches Some(c) && c.status == (if over {
                "False"@
            } else {
                "True"@
            }) && c.observed_generation == Some(generation)
            &&& told(r.conditions, "Ready"@)->0.reason == (if missing.len() > 0 {
                "DependencyMissing"@
            } else if unbound.len() > 0 {
                "DependencyPending"@
            } else {
                "Reconciled"@
            })
            &&& told(r.conditions, "NamespacesBound"@)->0.reason == (if missing.len() > 0 {
                "NamespaceMissing"@
            } else if unbound.len() > 0 {
                "NamespaceNotBound"@
            } else {
                "AllNamespacesBound"@
            })
            &&& missing.len() > 0 ==> ends_with(
                told(r.conditions, "NamespacesBound"@)->0.message,
                join(missing, ", "@),
            )
            &&& missing.len() == 0 && unbound.len() > 0 ==> ends_with(
                told(r.conditions, "NamespacesBound"@)->0.message,
                join(unbound, ", "@),
            )
            &&& all ==> starts_with(
                told(r.conditions, "NamespacesBound"@)->0.message,
                decimal(bound),
            )
            &&& told(r.conditions, "QuotaWithinLimits"@)->0.reason == (if over {
                "PreExistingOverage"@
            } else {
                "WithinLimits"@
            })
            &&& r.event is None <==> all
            &&& r.event matches Some(e) ==> e.type_ == EventType::Warning && e.reason == told(
                r.conditions,
                "NamespacesBound"@,
            )->0.reason && e.action == "Bind"@
            &&& r.verdict.outcome == (if all {
                ReconcileOutcome::Success
            } else {
                ReconcileOutcome::DependencyPending
            })
            &&& r.verdict.requeue == Requeue::Resync
        }),
{
    lemma_types();
    lemma_upserts_are_told();
    law_parts_are_found("missing namespace(s): "@, join(missing, ", "@), Seq::empty());
    law_parts_are_found("binding failed in namespace(s): "@, join(unbound, ", "@), Seq::empty());
    law_parts_are_found(Seq::empty(), decimal(bound), " namespace(s) bound"@);
}

proof fn lemma_where_take(
    ns: Seq<Seq<char>>,
    fates: Seq<NamespaceFate>,
    want: NamespaceFate,
    n: int,
)
    requires
        0 <= n <= ns.len(),
    ensures
        namespaces_where(ns.take(n), fates, want).is_prefix_of(namespaces_where(ns, fates, want)),
    decreases ns.len() - n,
{
    if n < ns.len() {
        lemma_where_take(ns, fates, want, n + 1);
        assert(ns.take(n + 1).drop_last() =~= ns.take(n));
    } else {
        assert(ns.take(n) =~= ns);
    }
}

/// Each namespace stands in the list of its own fate, after those before it
/// with the same fate, and in no other on its account.
pub proof fn law_namespaces_go_by_their_fate(
    ns: Seq<Seq<char>>,
    fates: Seq<NamespaceFate>,
    want: NamespaceFate,
    i: int,
)
    requires
        0 <= i < ns.len() == fates.len(),
    ensures
        ({
            let k = namespaces_where(ns.take(i), fates, want).len() as int;
            if fates[i] == want {
                k < namespaces_where(ns, fates, want).len() && namespaces_where(ns, fates, want)[k]
                    == ns[i]
            } else {
                namespaces_where(ns.take(i + 1), fates, want).len() == k
            }
        }),
{
    lemma_where_take(ns, fates, want, i + 1);
    assert(ns.take(i + 1).drop_last() =~= ns.take(i));
    assert(ns.take(i + 1).last() == ns[i]);
    let u = namespaces_where(ns.take(i + 1), fates, want);
    let w = namespaces_where(ns, fates, want);
    assert(u == w.subrange(0, u.len() as int));
    if u.len() > 0 {
        assert(u[u.len() - 1] == w[u.len() - 1]);
    }
}

/// A tenant's namespaces are taken up one after the other, each by its name: one
/// that is there gets the operator's right to write Secrets, except where the
/// operator itself lives, the tenant's mark and its quota; what became of it
/// counts for that namespace. When all are known the objects of the bound ones
/// are counted, each by its name. A failed request is an error, so that the
/// reconcile is tried again.
pub proof fn law_namespaces_are_bound_in_turn(
    t: MCPGTenant,
    b: Begin,
    account: Seq<char>,
    s: TenantState,
    e: TenantEvent,
    n: TenantState,
    x: TenantAction,
)
    requires
        step_is(t, b, account, s, e, n, x),
    ensures
        match (s, e) {
            (TenantState::AddingFinalizer, TenantEvent::FinalizerAdded(Ok(_))) => {
                if t.spec.namespaces@.len() > 0 {
                    x matches TenantAction::FindNamespace(name) && name@ == t.spec.namespaces@[0]@
                } else {
                    x is Complete
                }
            },
            (TenantState::FindingNamespace { fates }, TenantEvent::NamespaceFound(Ok(true))) => {
                fates@.len() < t.spec.namespaces@.len() ==> {
                    let ns = t.spec.namespaces@[fates@.len() as int]@;
                    &&& n == (TenantState::BindingNamespace { fates })
                    &&& x matches TenantAction::Bind { namespace, binding, marked, quota }
                    &&& namespace@ == ns
                    &&& binding is None <==> ns == "mcpg-system"@
                    &&& binding matches Some(r) ==> {
                        &&& r@.metadata.namespace == Some(ns)
                        &&& r@.subjects matches Some(v) && v.len() == 1 && v[0].name == account
                            && v[0].namespace == Some("mcpg-system"@)
                    }
                    &&& marked@.name == Some(ns)
                    &&& marked@.labels matches Some(labels) && labels.dom().contains(
                        "mcpg.dev/tenant"@,
                    ) && labels["mcpg.dev/tenant"@] == b.name@
                    &&& quota_is(ns, b.name@, t.spec.quotas, quota)
                }
            },
            (TenantState::FindingNamespace { fates }, TenantEvent::NamespaceFound(Ok(false))) => {
                fates@.len() < t.spec.namespaces@.len() ==> next_namespace(
                    t,
                    fates@.push(NamespaceFate::Missing),
                    n,
                    x,
                )
            },
            (TenantState::BindingNamespace { fates }, TenantEvent::NamespaceBound(r)) => {
                fates@.len() < t.spec.namespaces@.len() ==> next_namespace(
                    t,
                    fates@.push(
                        if r is Ok {
                            NamespaceFate::Bound
                        } else {
                            NamespaceFate::Unbound
                        },
                    ),
                    n,
                    x,
                )
            },
            (
                TenantState::Counting { bound, counts, .. },
                TenantEvent::Counted(Ok(c)),
            ) => counts@.len() < bound@.len() ==> if counts@.len() + 1 < bound@.len() {
                &&& x matches TenantAction::Count(name) && name@ == bound@[counts@.len() + 1int]@
                &&& n matches TenantState::Counting { counts: more, .. } && more@ == counts@.push(c)
            } else {
                x matches TenantAction::Complete(r) && totals(counts@.push(c), r.observed) && texts(
                    r.bound_namespaces@,
                ) == texts(bound@) && r.observed_generation == b.generation
            },
            (TenantState::TearingDown { next }, TenantEvent::TornDown) => {
                next < t.spec.namespaces@.len() ==> leaves_next(t, b, next + 1, n, x)
            },
            (TenantState::RemovingFinalizer, TenantEvent::FinalizerRemoved(Ok(_))) => {
                x matches TenantAction::Stop(v) && v.outcome == ReconcileOutcome::Success
                    && v.requeue == Requeue::AwaitChange
            },
            (TenantState::RemovingFinalizer, TenantEvent::FinalizerRemoved(Err(d))) => x
                == TenantAction::Fail(ReconcileError::Finalizer(d)),
            (TenantState::AddingFinalizer, TenantEvent::FinalizerAdded(Err(d))) => x
                == TenantAction::Fail(ReconcileError::Finalizer(d)),
            (TenantState::FindingNamespace { fates }, TenantEvent::NamespaceFound(Err(d))) => {
                fates@.len() < t.spec.namespaces@.len() ==> x == TenantAction::Fail(
                    ReconcileError::Kube(d),
                )
            },
            (TenantState::Counting { bound, counts, .. }, TenantEvent::Counted(Err(d))) => {
                counts@.len() < bound@.len() ==> x == TenantAction::Fail(ReconcileError::Kube(d))
            },
            _ => true,
        },
{
    lemma_label_keys();
    if let TenantState::Counting { bound, counts, .. } = s {
        assert(texts(bound@).len() == bound@.len());
        if counts@.len() + 1 < bound@.len() {
            assert(texts(bound@)[counts@.len() + 1int] == bound@[counts@.len() + 1int]@);
        }
    }
}

/// Whether the reconcile goes on after these fates: to the next namespace, or,
/// when all are known, to the bound ones, whose objects are counted.
pub open spec fn next_namespace(
    t: MCPGTenant,
    fates: Seq<NamespaceFate>,
    n: TenantState,
    x: TenantAction,
) -> bool {
    if fates.len() < t.spec.namespaces@.len() {
        &&& x matches TenantAction::FindNamespace(name) && name@
            == t.spec.namespaces@[fates.len() as int]@
        &&& n matches TenantState::FindingNamespace { fates: f } && f@ == fates
    } else {
        match n {
            TenantState::Counting { bound, counts, .. } => {
                &&& counts@.len() == 0
                &&& texts(bound@) == namespaces_where(
                    texts(t.spec.namespaces@),
                    fates,
                    NamespaceFate::Bound,
                )
                &&& x matches TenantAction::Count(name) && name@ == texts(bound@)[0]
            },
            _ => x matches TenantAction::Complete(r) && texts(r.bound_namespaces@).len() == 0,
        }
    }
}

/// Whether a deleted tenant leaves the namespace at this position, or, after
/// the last, gives up its finalizer.
pub open spec fn leaves_next(
    t: MCPGTenant,
    b: Begin,
    next: int,
    n: TenantState,
    x: TenantAction,
) -> bool {
    if next < t.spec.namespaces@.len() {
        &&& x matches TenantAction::TearDown { namespace, quota_name, unmarked }
        &&& namespace@ == t.spec.namespaces@[next]@
        &&& quota_name@ == "mcpg-tenant-"@ + b.name@
        &&& unmarked@.name == Some(t.spec.namespaces@[next]@)
        &&& unmarked@.labels matches Some(labels) && !labels.dom().contains("mcpg.dev/tenant"@)
    } else {
        x is RemoveFinalizer
    }
}

/// A deleted tenant begins with its first namespace, any other with its
/// finalizer.
pub proof fn law_tenant_begins(t: MCPGTenant, b: Begin, s: TenantState, x: TenantAction)
    requires
        starts(t, b, s, x),
    ensures
        b.deleting ==> leaves_next(t, b, 0, s, x),
        !b.deleting ==> x is AddFinalizer,
{
}

/// What is reported on a tenant is about the namespaces and the counts at hand: it
/// lists the bound namespaces, holds the counts as they were observed, and tells
/// that the tenant is ready exactly when all its namespaces are bound.
pub proof fn law_report_is_about_the_tenant(
    t: MCPGTenant,
    generation: i64,
    bound: Seq<Seq<char>>,
    unbound: Seq<Seq<char>>,
    missing: Seq<Seq<char>>,
    observed: TenantObservedCounts,
    r: TenantReport,
)
    requires
        reports(t, generation, bound, unbound, missing, observed, r),
    ensures
        r.observed_generation == generation,
        r.bound_namespaces@.len() == bound.len(),
        forall|i: int| 0 <= i < bound.len() ==> (#[trigger] r.bound_namespaces@[i])@ == bound[i],
        r.observed.gateways == observed.gateways,
        r.observed.plugin_sets == observed.plugin_sets,
        r.observed.routes == observed.routes,
        told(r.report@.conditions, "Ready"@) matches Some(c) && c.observed_generation == Some(
            generation,
        ) && (c.status == "True"@ <==> unbound.len() == 0 && missing.len() == 0),
        r.report@.verdict.outcome is Success <==> unbound.len() == 0 && missing.len() == 0,
        r.report@.event is None <==> unbound.len() == 0 && missing.len() == 0,
{
    lemma_types();
    law_tenant_reports_its_namespaces(t, generation, bound.len(), unbound, missing, observed);
    assert(texts(r.bound_namespaces@).len() == r.bound_namespaces@.len());
    assert forall|i: int| 0 <= i < bound.len() implies (#[trigger] r.bound_namespaces@[i])@
        == bound[i] by {
        assert(texts(r.bound_namespaces@)[i] == r.bound_namespaces@[i]@);
    }
}

} // verus!
