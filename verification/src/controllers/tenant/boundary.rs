//! The tenant controller: the objects and limits that set a tenant's
//! namespaces apart.
use vstd::prelude::*;

use crate::api::conditions::{
    cond, event, law_upsert_sets, position, status_text, ConditionView, Event, EventType,
};
use crate::api::objects::{child_meta, MetaView, ObjectMeta, ResourceQuota, ResourceQuotaView};
use crate::api::resources::{
    existing_conditions, status_conditions, MCPGTenant, TenantQuotas,
};
use crate::controllers::report::{
    put, resync, resync_verdict, set_cond, Report, ReportView,
};
use crate::strmap::StringMap;
use crate::text::{decimal, decimal_int, decimal_int_text, decimal_text, join, joined, texts};

verus! {

/// The label that says which tenant a namespace belongs to.
pub const TENANT_LABEL: &'static str = "mcpg.dev/tenant";

/// The name of the quota that a tenant has in each of its namespaces.
pub open spec fn quota_name_of(tenant: Seq<char>) -> Seq<char> {
    "mcpg-tenant-"@ + tenant
}

/// The name of the quota that a tenant has in each of its namespaces.
pub fn quota_name(tenant: &str) -> (r: String)
    ensures
        r@ == quota_name_of(tenant@),
{
    "mcpg-tenant-".to_owned().concat(tenant)
}

/// Different tenants have quotas of different names.
pub proof fn law_quota_names_distinct(a: Seq<char>, b: Seq<char>)
    requires
        quota_name_of(a) == quota_name_of(b),
    ensures
        a == b,
{
    let n = "mcpg-tenant-"@.len() as int;
    assert(quota_name_of(a).skip(n) =~= a);
    assert(quota_name_of(b).skip(n) =~= b);
}

/// Adds a limit where one is set.
pub open spec fn with_limit(
    m: Map<Seq<char>, Seq<char>>,
    key: Seq<char>,
    limit: Option<i64>,
) -> Map<Seq<char>, Seq<char>> {
    match limit {
        Some(n) => m.insert(key, decimal_int(n as int)),
        None => m,
    }
}

/// The hard limits of a quota. The number of replicas is no count of
/// objects, so it has no place here.
pub open spec fn hard_limits(q: TenantQuotas) -> Map<Seq<char>, Seq<char>> {
    with_limit(
        with_limit(
            with_limit(
                Map::<Seq<char>, Seq<char>>::empty(),
                "count/mcpggateways.mcpg.dev"@,
                q.max_gateways,
            ),
            "count/mcpgpluginsets.mcpg.dev"@,
            q.max_plugin_sets,
        ),
        "count/mcpgroutes.mcpg.dev"@,
        q.max_routes,
    )
}

fn limit(m: &mut StringMap, key: &str, limit: Option<i64>)
    ensures
        final(m)@ == with_limit(old(m)@, key@, limit),
{
    match limit {
        Some(n) => m.insert(key, decimal_int_text(n).as_str()),
        None => {},
    }
}

/// The hard limits of a quota.
pub fn build_hard_limits(q: &TenantQuotas) -> (r: StringMap)
    ensures
        r@ == hard_limits(*q),
{
    let mut hard = StringMap::new();
    limit(&mut hard, "count/mcpggateways.mcpg.dev", q.max_gateways);
    limit(&mut hard, "count/mcpgpluginsets.mcpg.dev", q.max_plugin_sets);
    limit(&mut hard, "count/mcpgroutes.mcpg.dev", q.max_routes);
    hard
}

/// What is to be done about a tenant's quota in a namespace.
#[derive(Debug)]
pub enum QuotaAction {
    /// Delete the quota of this name, if it is there.
    Delete(String),
    /// Apply this quota.
    Apply(ResourceQuota),
}

/// Whether a tenant limits how many objects it may have.
pub open spec fn limits_counts(q: Option<TenantQuotas>) -> bool {
    match q {
        Some(q) => q.max_gateways is Some || q.max_plugin_sets is Some || q.max_routes is Some,
        None => false,
    }
}

/// The quota of a tenant in a namespace.
pub open spec fn quota_view(ns: Seq<char>, tenant: Seq<char>, q: TenantQuotas) -> ResourceQuotaView {
    ResourceQuotaView {
        metadata: child_meta(
            quota_name_of(tenant),
            Some(ns),
            Map::<Seq<char>, Seq<char>>::empty().insert(
                "app.kubernetes.io/managed-by"@,
                "mcpg-operator"@,
            ).insert("mcpg.dev/tenant"@, tenant),
            None,
        ),
        hard: hard_limits(q),
    }
}

/// Whether this is what is to be done about a tenant's quota in a namespace:
/// without limits it must not linger, else it is applied.
pub open spec fn quota_is(
    namespace: Seq<char>,
    tenant: Seq<char>,
    quotas: Option<TenantQuotas>,
    r: QuotaAction,
) -> bool {
    match r {
        QuotaAction::Delete(name) => !limits_counts(quotas) && name@ == quota_name_of(tenant),
        QuotaAction::Apply(q) => limits_counts(quotas) && q@ == quota_view(
            namespace,
            tenant,
            quotas->0,
        ),
    }
}

/// The metadata that mark a namespace as the tenant's.
pub open spec fn tenant_mark(namespace: Seq<char>, tenant: Seq<char>) -> MetaView {
    child_meta(
        namespace,
        None,
        Map::<Seq<char>, Seq<char>>::empty().insert("mcpg.dev/tenant"@, tenant),
        None,
    )
}

/// The metadata that no longer mark a namespace.
pub open spec fn no_mark(namespace: Seq<char>) -> MetaView {
    child_meta(namespace, None, Map::<Seq<char>, Seq<char>>::empty(), None)
}

/// Decides on a tenant's quota in a namespace: without limits it must not
/// linger, else it is applied.
pub fn ensure_resource_quota(namespace: &str, tenant: &str, quotas: Option<TenantQuotas>) -> (r:
    QuotaAction)
    ensures
        quota_is(namespace@, tenant@, quotas, r),
{
    let hard = match quotas {
        Some(q) => build_hard_limits(&q),
        None => StringMap::new(),
    };
    proof {
        assert(limits_counts(quotas) ==> hard@.dom().contains("count/mcpggateways.mcpg.dev"@)
            || hard@.dom().contains("count/mcpgpluginsets.mcpg.dev"@) || hard@.dom().contains(
            "count/mcpgroutes.mcpg.dev"@,
        ));
    }
    if hard.is_empty() {
        return QuotaAction::Delete(quota_name(tenant));
    }
    let mut labels = StringMap::new();
    labels.insert("app.kubernetes.io/managed-by", "mcpg-operator");
    labels.insert("mcpg.dev/tenant", tenant);
    QuotaAction::Apply(
        ResourceQuota {
            metadata: ObjectMeta::child(
                quota_name(tenant).as_str(),
                Some(namespace.to_owned()),
                labels,
                None,
            ),
            hard,
        },
    )
}

/// The metadata that mark a namespace as the tenant's.
pub fn ensure_namespace_label(namespace: &str, tenant: &str) -> (r: ObjectMeta)
    ensures
        r@ == tenant_mark(namespace@, tenant@),
{
    let mut labels = StringMap::new();
    labels.insert(TENANT_LABEL, tenant);
    ObjectMeta::child(namespace, None, labels, None)
}

/// What takes a tenant out of a namespace: the quota to delete, and the
/// metadata that no longer mark the namespace.
pub fn teardown_namespace(namespace: &str, tenant: &str) -> (r: (String, ObjectMeta))
    ensures
        r.0@ == quota_name_of(tenant@),
        r.1@ == no_mark(namespace@),
{
    (quota_name(tenant), ObjectMeta::child(namespace, None, StringMap::new(), None))
}

/// How many objects a tenant has.
#[derive(Debug, Clone, Copy, Default, PartialEq, Eq, Structural)]
pub struct TenantObservedCounts {
    pub gateways: i64,
    pub plugin_sets: i64,
    pub routes: i64,
}

/// The sum of the numbers.
pub open spec fn sum(s: Seq<int>) -> int
    decreases s.len(),
{
    if s.len() == 0 {
        0
    } else {
        sum(s.drop_last()) + s.last()
    }
}

/// The gateways in each namespace.
pub open spec fn gateways_in(v: Seq<TenantObservedCounts>) -> Seq<int> {
    v.map_values(|c: TenantObservedCounts| c.gateways as int)
}

/// The plugin sets in each namespace.
pub open spec fn plugin_sets_in(v: Seq<TenantObservedCounts>) -> Seq<int> {
    v.map_values(|c: TenantObservedCounts| c.plugin_sets as int)
}

/// The routes in each namespace.
pub open spec fn routes_in(v: Seq<TenantObservedCounts>) -> Seq<int> {
    v.map_values(|c: TenantObservedCounts| c.routes as int)
}

proof fn lemma_sum_take(s: Seq<int>, n: int)
    requires
        0 <= n <= s.len(),
        forall|i: int| 0 <= i < s.len() ==> #[trigger] s[i] >= 0,
    ensures
        0 <= sum(s.take(n)) <= sum(s),
    decreases s.len(),
{
    if n < s.len() {
        let init = s.drop_last();
        assert(init.take(n) =~= s.take(n));
        lemma_sum_take(init, n);
    } else {
        assert(s.take(n) =~= s);
        if n > 0 {
            let init = s.drop_last();
            lemma_sum_take(init, n - 1);
            assert(init.take(n - 1) =~= init);
        }
    }
}

/// Whether these are counts of objects, and their sums fit.
pub open spec fn countable(v: Seq<TenantObservedCounts>) -> bool {
    &&& forall|i: int|
        0 <= i < v.len() ==> (#[trigger] v[i]).gateways >= 0 && v[i].plugin_sets >= 0
            && v[i].routes >= 0
    &&& sum(gateways_in(v)) <= i64::MAX
    &&& sum(plugin_sets_in(v)) <= i64::MAX
    &&& sum(routes_in(v)) <= i64::MAX
}

/// Whether these counts are the sums of the others.
pub open spec fn totals(v: Seq<TenantObservedCounts>, r: TenantObservedCounts) -> bool {
    &&& r.gateways == sum(gateways_in(v))
    &&& r.plugin_sets == sum(plugin_sets_in(v))
    &&& r.routes == sum(routes_in(v))
}

/// How many objects a tenant has in all its namespaces.
pub fn count_resources(per_namespace: &Vec<TenantObservedCounts>) -> (r: TenantObservedCounts)
    requires
        countable(per_namespace@),
    ensures
        totals(per_namespace@, r),
{
    let mut counts = TenantObservedCounts { gateways: 0, plugin_sets: 0, routes: 0 };
    let mut i: usize = 0;
    let ghost g = gateways_in(per_namespace@);
    let ghost p = plugin_sets_in(per_namespace@);
    let ghost t = routes_in(per_namespace@);
    while i < per_namespace.len()
        invariant
            i <= per_namespace.len(),
            g == gateways_in(per_namespace@),
            p == plugin_sets_in(per_namespace@),
            t == routes_in(per_namespace@),
            forall|i: int|
                0 <= i < per_namespace@.len() ==> (#[trigger] per_namespace@[i]).gateways >= 0
                    && per_namespace@[i].plugin_sets >= 0 && per_namespace@[i].routes >= 0,
            sum(g) <= i64::MAX,
            sum(p) <= i64::MAX,
            sum(t) <= i64::MAX,
            counts.gateways == sum(g.take(i as int)),
            counts.plugin_sets == sum(p.take(i as int)),
            counts.routes == sum(t.take(i as int)),
        decreases per_namespace.len() - i,
    {
        proof {
            let n = i as int;
            assert(g.take(n + 1).drop_last() =~= g.take(n));
            assert(p.take(n + 1).drop_last() =~= p.take(n));
            assert(t.take(n + 1).drop_last() =~= t.take(n));
            assert forall|j: int| 0 <= j < g.len() implies #[trigger] g[j] >= 0 by {
                assert(per_namespace@[j].gateways >= 0);
            }
            assert forall|j: int| 0 <= j < p.len() implies #[trigger] p[j] >= 0 by {
                assert(per_namespace@[j].gateways >= 0);
            }
            assert forall|j: int| 0 <= j < t.len() implies #[trigger] t[j] >= 0 by {
                assert(per_namespace@[j].gateways >= 0);
            }
            lemma_sum_take(g, n + 1);
            lemma_sum_take(p, n + 1);
            lemma_sum_take(t, n + 1);
            lemma_sum_take(g, n);
            lemma_sum_take(p, n);
            lemma_sum_take(t, n);
        }
        let c = per_namespace[i];
        counts.gateways = counts.gateways + c.gateways;
        counts.plugin_sets = counts.plugin_sets + c.plugin_sets;
        counts.routes = counts.routes + c.routes;
        i = i + 1;
    }
    proof {
        assert(g.take(i as int) =~= g);
        assert(p.take(i as int) =~= p);
        assert(t.take(i as int) =~= t);
    }
    counts
}

/// Whether a number is over a limit.
pub open spec fn is_over(limit: Option<i64>, observed: i64) -> bool {
    match limit {
        Some(l) => observed > l,
        None => false,
    }
}

fn over(limit: Option<i64>, observed: i64) -> (r: bool)
    ensures
        r == is_over(limit, observed),
{
    match limit {
        Some(l) => observed > l,
        None => false,
    }
}

/// Whether a tenant has more of something than its quotas say.
pub open spec fn exceeds(quotas: Option<TenantQuotas>, observed: TenantObservedCounts) -> bool {
    match quotas {
        Some(q) => is_over(q.max_gateways, observed.gateways) || is_over(
            q.max_plugin_sets,
            observed.plugin_sets,
        ) || is_over(q.max_routes, observed.routes),
        None => false,
    }
}

/// Whether a tenant has more of something than its quotas say. A hint: the
/// quota object in each namespace is what enforces the limit.
pub fn quota_exceeded(quotas: Option<&TenantQuotas>, observed: &TenantObservedCounts) -> (r: bool)
    ensures
        r == (match quotas {
            Some(q) => exceeds(Some(*q), *observed),
            None => false,
        }),
{
    match quotas {
        Some(q) => over(q.max_gateways, observed.gateways) || over(
            q.max_plugin_sets,
            observed.plugin_sets,
        ) || over(q.max_routes, observed.routes),
        None => false,
    }
}

/// What became of a namespace of a tenant.
#[derive(Debug, Clone, Copy, PartialEq, Eq, Structural)]
pub enum NamespaceFate {
    /// It is not there.
    Missing,
    /// It is there, but its binding or its quota could not be applied.
    Unbound,
    /// It is there, with its binding and its quota.
    Bound,
}

/// The namespaces whose fate is `want`, in their order.
pub open spec fn namespaces_where(
    ns: Seq<Seq<char>>,
    fates: Seq<NamespaceFate>,
    want: NamespaceFate,
) -> Seq<Seq<char>>
    decreases ns.len(),
{
    if ns.len() == 0 {
        Seq::empty()
    } else {
        let before = namespaces_where(ns.drop_last(), fates, want);
        if fates[ns.len() - 1] == want {
            before.push(ns.last())
        } else {
            before
        }
    }
}

/// Parts a tenant's namespaces into those that are bound, those that are
/// there but not bound, and those that are missing.
pub fn split_namespaces(namespaces: &Vec<String>, fates: &Vec<NamespaceFate>) -> (r: (
    Vec<String>,
    Vec<String>,
    Vec<String>,
))
    requires
        fates@.len() == namespaces@.len(),
    ensures
        texts(r.0@) == namespaces_where(texts(namespaces@), fates@, NamespaceFate::Bound),
        texts(r.1@) == namespaces_where(texts(namespaces@), fates@, NamespaceFate::Unbound),
        texts(r.2@) == namespaces_where(texts(namespaces@), fates@, NamespaceFate::Missing),
{
    let mut bound: Vec<String> = Vec::new();
    let mut unbound: Vec<String> = Vec::new();
    let mut missing: Vec<String> = Vec::new();
    let mut i: usize = 0;
    let ghost all = texts(namespaces@);
    proof {
        assert(all.take(0) =~= Seq::empty());
        assert(texts(bound@) =~= Seq::empty());
        assert(texts(unbound@) =~= Seq::empty());
        assert(texts(missing@) =~= Seq::empty());
    }
    while i < namespaces.len()
        invariant
            i <= namespaces.len(),
            all == texts(namespaces@),
            fates@.len() == namespaces@.len(),
            texts(bound@) == namespaces_where(all.take(i as int), fates@, NamespaceFate::Bound),
            texts(unbound@) == namespaces_where(
                all.take(i as int),
                fates@,
                NamespaceFate::Unbound,
            ),
            texts(missing@) == namespaces_where(
                all.take(i as int),
                fates@,
                NamespaceFate::Missing,
            ),
        decreases namespaces.len() - i,
    {
        let s = namespaces[i].clone();
        proof {
            assert(all.take(i + 1).drop_last() =~= all.take(i as int));
            assert(all.take(i + 1).last() == s@);
            assert(texts(bound@.push(s)) =~= texts(bound@).push(s@));
            assert(texts(unbound@.push(s)) =~= texts(unbound@).push(s@));
            assert(texts(missing@.push(s)) =~= texts(missing@).push(s@));
        }
        match fates[i] {
            NamespaceFate::Bound => bound.push(s),
            NamespaceFate::Unbound => unbound.push(s),
            NamespaceFate::Missing => missing.push(s),
        }
        i = i + 1;
    }
    assert(all.take(i as int) =~= all);
    (bound, unbound, missing)
}

/// No namespace of a tenant is lost: each is bound, or reported as not bound
/// or as missing.
pub proof fn law_every_namespace_counts(ns: Seq<Seq<char>>, fates: Seq<NamespaceFate>)
    ensures
        namespaces_where(ns, fates, NamespaceFate::Bound).len() + namespaces_where(
            ns,
            fates,
            NamespaceFate::Unbound,
        ).len() + namespaces_where(ns, fates, NamespaceFate::Missing).len() == ns.len(),
    decreases ns.len(),
{
    if ns.len() > 0 {
        law_every_namespace_counts(ns.drop_last(), fates);
    }
}

/// Where no namespace is missing and none is there without being bound, all
/// of them are bound.
pub proof fn lemma_all_bound(ns: Seq<Seq<char>>, fates: Seq<NamespaceFate>)
    requires
        namespaces_where(ns, fates, NamespaceFate::Unbound).len() == 0,
        namespaces_where(ns, fates, NamespaceFate::Missing).len() == 0,
    ensures
        namespaces_where(ns, fates, NamespaceFate::Bound) == ns,
    decreases ns.len(),
{
    if ns.len() > 0 {
        lemma_all_bound(ns.drop_last(), fates);
        assert(ns.drop_last().push(ns.last()) =~= ns);
    } else {
        assert(ns =~= Seq::empty());
    }
}

/// Whether all namespaces of a tenant are bound: none is missing, and each
/// has its binding and its quota.
pub open spec fn all_bound(unbound: Seq<Seq<char>>, missing: Seq<Seq<char>>) -> bool {
    unbound.len() == 0 && missing.len() == 0
}

/// The reason and the message that say whether a tenant's namespaces are
/// bound.
pub open spec fn bound_text(bound: nat, unbound: Seq<Seq<char>>, missing: Seq<Seq<char>>) -> (
    Seq<char>,
    Seq<char>,
) {
    if missing.len() > 0 {
        ("NamespaceMissing"@, "missing namespace(s): "@ + join(missing, ", "@))
    } else if unbound.len() > 0 {
        ("NamespaceNotBound"@, "binding failed in namespace(s): "@ + join(unbound, ", "@))
    } else {
        ("AllNamespacesBound"@, decimal(bound) + " namespace(s) bound"@)
    }
}

/// The reason and the message that say whether a tenant is ready.
pub open spec fn ready_text(unbound: Seq<Seq<char>>, missing: Seq<Seq<char>>) -> (
    Seq<char>,
    Seq<char>,
) {
    if missing.len() > 0 {
        (
            "DependencyMissing"@,
            decimal(missing.len()) + " declared namespace(s) not yet present"@,
        )
    } else if unbound.len() > 0 {
        (
            "DependencyPending"@,
            decimal(unbound.len()) + " declared namespace(s) not yet bound"@,
        )
    } else {
        ("Reconciled"@, ""@)
    }
}

/// The reason and the message that say whether a tenant keeps to its quotas.
pub open spec fn quota_text(over: bool) -> (Seq<char>, Seq<char>) {
    if over {
        (
            "PreExistingOverage"@,
            "an owned namespace already exceeds a declared quota; the generated ResourceQuota admits existing objects but blocks new ones"@,
        )
    } else {
        ("WithinLimits"@, ""@)
    }
}

/// The conditions of a tenant, but for whether it is ready.
pub open spec fn binding_conditions(
    t: MCPGTenant,
    generation: i64,
    bound: nat,
    unbound: Seq<Seq<char>>,
    missing: Seq<Seq<char>>,
    observed: TenantObservedCounts,
) -> Seq<ConditionView> {
    let b = bound_text(bound, unbound, missing);
    let over = exceeds(t.spec.quotas, observed);
    put(
        put(
            status_conditions(t.status),
            "NamespacesBound"@,
            all_bound(unbound, missing),
            b.0,
            b.1,
            generation,
        ),
        "QuotaWithinLimits"@,
        !over,
        quota_text(over).0,
        quota_text(over).1,
        generation,
    )
}

/// The report on a tenant: it is ready exactly when all of its namespaces are
/// bound.
pub open spec fn tenant_report(
    t: MCPGTenant,
    generation: i64,
    bound: nat,
    unbound: Seq<Seq<char>>,
    missing: Seq<Seq<char>>,
    observed: TenantObservedCounts,
) -> ReportView {
    let all = all_bound(unbound, missing);
    let b = bound_text(bound, unbound, missing);
    ReportView {
        conditions: put(
            binding_conditions(t, generation, bound, unbound, missing, observed),
            "Ready"@,
            all,
            ready_text(unbound, missing).0,
            ready_text(unbound, missing).1,
            generation,
        ),
        event: if all {
            None
        } else {
            Some(
                event(
                    EventType::Warning,
                    b.0,
                    if missing.len() > 0 {
                        "declared namespace(s) not found: "@ + join(missing, ", "@)
                    } else {
                        b.1
                    },
                    "Bind"@,
                ),
            )
        },
        verdict: resync_verdict(all),
    }
}

/// The status of a tenant, and what else follows its reconcile.
#[derive(Debug)]
pub struct TenantReport {
    pub report: Report,
    pub observed_generation: i64,
    pub bound_namespaces: Vec<String>,
    pub observed: TenantObservedCounts,
}

/// Whether a report is the one on a tenant.
pub open spec fn reports(
    obj: MCPGTenant,
    generation: i64,
    bound: Seq<Seq<char>>,
    unbound: Seq<Seq<char>>,
    missing: Seq<Seq<char>>,
    observed: TenantObservedCounts,
    r: TenantReport,
) -> bool {
    &&& r.report@ == tenant_report(obj, generation, bound.len(), unbound, missing, observed)
    &&& r.observed_generation == generation
    &&& texts(r.bound_namespaces@) == bound
    &&& r.observed == observed
}

/// Reports on a tenant, given which of its namespaces are bound, which are
/// there without being bound, and which are missing.
pub fn report_tenant(
    obj: &MCPGTenant,
    generation: i64,
    bound: Vec<String>,
    unbound: &Vec<String>,
    missing: &Vec<String>,
    observed: TenantObservedCounts,
) -> (r: TenantReport)
    ensures
        reports(*obj, generation, texts(bound@), texts(unbound@), texts(missing@), observed, r),
{
    let all = missing.len() == 0 && unbound.len() == 0;
    let over = quota_exceeded(obj.spec.quotas.as_ref(), &observed);
    let (reason, message, note) = if missing.len() > 0 {
        let names = joined(missing, ", ");
        (
            "NamespaceMissing",
            "missing namespace(s): ".to_owned().concat(names.as_str()),
            "declared namespace(s) not found: ".to_owned().concat(names.as_str()),
        )
    } else if unbound.len() > 0 {
        let text = "binding failed in namespace(s): ".to_owned().concat(
            joined(unbound, ", ").as_str(),
        );
        ("NamespaceNotBound", text.clone(), text)
    } else {
        (
            "AllNamespacesBound",
            decimal_text(bound.len() as u64).concat(" namespace(s) bound"),
            String::new(),
        )
    };
    let mut conditions = existing_conditions(&obj.status);
    set_cond(&mut conditions, "NamespacesBound", all, reason, message.as_str(), generation);
    if over {
        set_cond(
            &mut conditions,
            "QuotaWithinLimits",
            false,
            "PreExistingOverage",
            "an owned namespace already exceeds a declared quota; the generated ResourceQuota admits existing objects but blocks new ones",
            generation,
        );
    } else {
        set_cond(&mut conditions, "QuotaWithinLimits", true, "WithinLimits", "", generation);
    }
    let (ready_reason, ready_message) = if missing.len() > 0 {
        (
            "DependencyMissing",
            decimal_text(missing.len() as u64).concat(" declared namespace(s) not yet present"),
        )
    } else if unbound.len() > 0 {
        (
            "DependencyPending",
            decimal_text(unbound.len() as u64).concat(" declared namespace(s) not yet bound"),
        )
    } else {
        ("Reconciled", "".to_owned())
    };
    set_cond(&mut conditions, "Ready", all, ready_reason, ready_message.as_str(), generation);
    let event = if all {
        None
    } else {
        Some(Event::new(EventType::Warning, reason, note.as_str(), "Bind"))
    };
    TenantReport {
        report: Report { conditions, event, verdict: resync(all) },
        observed_generation: generation,
        bound_namespaces: bound,
        observed,
    }
}

/// The `Ready` condition of a tenant says `True` exactly when none of its
/// namespaces is missing and each has its binding and its quota.
pub proof fn law_ready_iff_all_bound(
    t: MCPGTenant,
    generation: i64,
    bound: nat,
    unbound: Seq<Seq<char>>,
    missing: Seq<Seq<char>>,
    observed: TenantObservedCounts,
)
    ensures
        ({
            let c = tenant_report(t, generation, bound, unbound, missing, observed).conditions;
            &&& position(c, "Ready"@) is Some
            &&& c[position(c, "Ready"@)->0].status == status_text(all_bound(unbound, missing))
        }),
{
    law_upsert_sets(
        binding_conditions(t, generation, bound, unbound, missing, observed),
        cond(
            "Ready"@,
            status_text(all_bound(unbound, missing)),
            ready_text(unbound, missing).0,
            ready_text(unbound, missing).1,
            Some(generation),
        ),
    );
}

} // verus!
