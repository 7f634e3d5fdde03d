//! Which tenants may be written.
use vstd::prelude::*;

use crate::admission::decision::{
    admitted, finds, first_defect, first_of, flagged, judge, judged, lemma_first_defect,
    lemma_no_defect, Decision,
};
use crate::admission::tenant_guard::{listed, owns};
use crate::api::objects::or_empty;
use crate::api::resources::{AllowedPlugin, MCPGTenant, MCPGTenantSpec, TenantQuotas};
use crate::text::{
    blank, decimal, decimal_int, decimal_int_text, decimal_text, has_text, is_blank, join, joined,
    opt_text, same, texts,
};

verus! {

/// Whether an earlier namespace is the same.
pub open spec fn namespace_repeats(v: Seq<String>, i: int) -> bool {
    exists|j: int| 0 <= j < i && (#[trigger] v[j])@ == v[i]@
}

/// What is wrong with the namespace at position `i`.
pub open spec fn namespace_defect(v: Seq<String>, i: int) -> Option<Seq<char>> {
    first_of(
        flagged(blank(v[i]@), "spec.namespaces[] entries must not be empty"@),
        flagged(
            namespace_repeats(v, i),
            "spec.namespaces lists `"@ + v[i]@ + "` more than once"@,
        ),
    )
}

/// Whether a text is there and holds more than white space.
pub open spec fn is_set(o: Option<Seq<char>>) -> bool {
    match o {
        Some(s) => !blank(s),
        None => false,
    }
}

/// What is wrong with the allowed plugin at position `i`: it matches
/// nothing.
pub open spec fn matcher_defect(v: Seq<AllowedPlugin>, i: int) -> Option<Seq<char>> {
    flagged(
        !is_set(opt_text(v[i].name)) && !is_set(opt_text(v[i].registry_prefix)),
        "spec.allowedPlugins["@ + decimal(i as nat)
            + "] must set `name` or `registryPrefix` (an empty matcher matches nothing)"@,
    )
}

/// What is wrong with one quota.
pub open spec fn quota_defect(field: Seq<char>, v: Option<i64>) -> Option<Seq<char>> {
    match v {
        Some(n) => flagged(
            n < 0,
            "spec.quotas."@ + field + " must be ≥ 0 (got "@ + decimal_int(n as int) + ")"@,
        ),
        None => None,
    }
}

/// What is wrong with the quotas.
pub open spec fn quotas_defect(q: TenantQuotas) -> Option<Seq<char>> {
    first_of(
        quota_defect("maxGateways"@, q.max_gateways),
        first_of(
            quota_defect("maxPluginSets"@, q.max_plugin_sets),
            first_of(
                quota_defect("maxRoutes"@, q.max_routes),
                quota_defect("maxReplicasPerGateway"@, q.max_replicas_per_gateway),
            ),
        ),
    )
}

/// What is wrong with a tenant by itself.
pub open spec fn tenant_defect(s: MCPGTenantSpec) -> Option<Seq<char>> {
    first_of(
        flagged(s.namespaces@.len() == 0, "spec.namespaces must not be empty"@),
        first_of(
            first_defect(s.namespaces@.len(), |i: int| namespace_defect(s.namespaces@, i)),
            first_of(
                first_defect(
                    s.allowed_plugins@.len(),
                    |i: int| matcher_defect(s.allowed_plugins@, i),
                ),
                first_of(
                    match s.quotas {
                        Some(q) => quotas_defect(q),
                        None => None,
                    },
                    match s.identity_attribute {
                        Some(a) => flagged(
                            blank(a.key@),
                            "spec.identityAttribute.key must not be empty when set"@,
                        ),
                        None => None,
                    },
                ),
            ),
        ),
    )
}

fn repeats_namespace(v: &Vec<String>, i: usize) -> (r: bool)
    requires
        i < v@.len(),
    ensures
        r == namespace_repeats(v@, i as int),
{
    let mut j: usize = 0;
    while j < i
        invariant
            j <= i,
            i < v@.len(),
            forall|k: int| 0 <= k < j ==> (#[trigger] v@[k])@ != v@[i as int]@,
        decreases i - j,
    {
        if same(v[j].as_str(), v[i].as_str()) {
            return true;
        }
        j = j + 1;
    }
    false
}

fn check_namespaces(v: &Vec<String>) -> (r: Result<(), String>)
    ensures
        finds(r, first_defect(v@.len(), |i: int| namespace_defect(v@, i))),
{
    let ghost at = |i: int| namespace_defect(v@, i);
    let mut i: usize = 0;
    while i < v.len()
        invariant
            i <= v.len(),
            at == |i: int| namespace_defect(v@, i),
            first_defect(i as nat, at) is None,
        decreases v.len() - i,
    {
        if is_blank(v[i].as_str()) {
            proof {
                lemma_first_defect(v@.len(), at, i as nat);
            }
            return Err("spec.namespaces[] entries must not be empty".to_owned());
        }
        if repeats_namespace(v, i) {
            let m = "spec.namespaces lists `".to_owned().concat(v[i].as_str()).concat(
                "` more than once",
            );
            proof {
                lemma_first_defect(v@.len(), at, i as nat);
            }
            return Err(m);
        }
        i = i + 1;
    }
    Ok(())
}

fn set(o: &Option<String>) -> (r: bool)
    ensures
        r == is_set(opt_text(*o)),
{
    match o {
        Some(s) => !is_blank(s.as_str()),
        None => false,
    }
}

fn check_matchers(v: &Vec<AllowedPlugin>) -> (r: Result<(), String>)
    ensures
        finds(r, first_defect(v@.len(), |i: int| matcher_defect(v@, i))),
{
    let ghost at = |i: int| matcher_defect(v@, i);
    let mut i: usize = 0;
    while i < v.len()
        invariant
            i <= v.len(),
            at == |i: int| matcher_defect(v@, i),
            first_defect(i as nat, at) is None,
        decreases v.len() - i,
    {
        if !set(&v[i].name) && !set(&v[i].registry_prefix) {
            let m = "spec.allowedPlugins[".to_owned().concat(
                decimal_text(i as u64).as_str(),
            ).concat(
                "] must set `name` or `registryPrefix` (an empty matcher matches nothing)",
            );
            proof {
                lemma_first_defect(v@.len(), at, i as nat);
            }
            return Err(m);
        }
        i = i + 1;
    }
    Ok(())
}

fn check_quota(field: &str, v: Option<i64>) -> (r: Result<(), String>)
    ensures
        finds(r, quota_defect(field@, v)),
{
    match v {
        Some(n) => {
            if n < 0 {
                return Err(
                    "spec.quotas.".to_owned().concat(field).concat(" must be ≥ 0 (got ").concat(
                        decimal_int_text(n).as_str(),
                    ).concat(")"),
                );
            }
            Ok(())
        },
        None => Ok(()),
    }
}

fn check_quotas(q: &TenantQuotas) -> (r: Result<(), String>)
    ensures
        finds(r, quotas_defect(*q)),
{
    match check_quota("maxGateways", q.max_gateways) {
        Ok(_) => {},
        Err(m) => return Err(m),
    }
    match check_quota("maxPluginSets", q.max_plugin_sets) {
        Ok(_) => {},
        Err(m) => return Err(m),
    }
    match check_quota("maxRoutes", q.max_routes) {
        Ok(_) => {},
        Err(m) => return Err(m),
    }
    check_quota("maxReplicasPerGateway", q.max_replicas_per_gateway)
}

/// Checks a tenant by itself.
pub fn validate_spec(obj: &MCPGTenant) -> (r: Result<(), String>)
    ensures
        finds(r, tenant_defect(obj.spec)),
{
    let s = &obj.spec;
    if s.namespaces.len() == 0 {
        return Err("spec.namespaces must not be empty".to_owned());
    }
    match check_namespaces(&s.namespaces) {
        Ok(_) => {},
        Err(m) => return Err(m),
    }
    match check_matchers(&s.allowed_plugins) {
        Ok(_) => {},
        Err(m) => return Err(m),
    }
    match &s.quotas {
        Some(q) => match check_quotas(q) {
            Ok(_) => {},
            Err(m) => return Err(m),
        },
        None => {},
    }
    match &s.identity_attribute {
        Some(a) => {
            if is_blank(a.key.as_str()) {
                return Err(
                    "spec.identityAttribute.key must not be empty when set".to_owned(),
                );
            }
        },
        None => {},
    }
    Ok(())
}

/// The namespaces of `a` that `b` has too, in their order.
pub open spec fn overlap(a: Seq<Seq<char>>, b: Seq<Seq<char>>) -> Seq<Seq<char>>
    decreases a.len(),
{
    if a.len() == 0 {
        Seq::empty()
    } else if b.contains(a.last()) {
        overlap(a.drop_last(), b).push(a.last())
    } else {
        overlap(a.drop_last(), b)
    }
}

/// The namespaces of one tenant that another has too.
pub fn overlapping_namespaces(a: &Vec<String>, b: &Vec<String>) -> (r: Vec<String>)
    ensures
        texts(r@) == overlap(texts(a@), texts(b@)),
{
    let mut out: Vec<String> = Vec::new();
    let mut i: usize = 0;
    let ghost mine = texts(a@);
    proof {
        assert(mine.take(0) =~= Seq::empty());
        assert(texts(out@) =~= Seq::empty());
    }
    while i < a.len()
        invariant
            i <= a.len(),
            mine == texts(a@),
            texts(out@) == overlap(mine.take(i as int), texts(b@)),
        decreases a.len() - i,
    {
        proof {
            assert(mine.take(i + 1).drop_last() =~= mine.take(i as int));
            assert(mine.take(i + 1).last() == a@[i as int]@);
        }
        if has_text(b, a[i].as_str()) {
            let s = a[i].clone();
            assert(texts(out@.push(s)) =~= texts(out@).push(s@));
            out.push(s);
        }
        i = i + 1;
    }
    assert(mine.take(i as int) =~= mine);
    out
}

/// What is wrong with a tenant beside the tenant at position `i`: they share
/// a namespace. A tenant does not stand in its own way.
pub open spec fn rival_defect(
    t: MCPGTenant,
    self_name: Seq<char>,
    others: Seq<MCPGTenant>,
    i: int,
) -> Option<Seq<char>> {
    let name = or_empty(others[i].metadata@.name);
    let shared = overlap(texts(t.spec.namespaces@), texts(others[i].spec.namespaces@));
    flagged(
        name != self_name && shared.len() > 0,
        "namespace(s) "@ + join(shared, ", "@) + " already owned by MCPGTenant `"@ + name
            + "`; namespaces are exclusively owned"@,
    )
}

/// What is wrong with a tenant beside the others, where those are known.
pub open spec fn exclusivity_defect(
    t: MCPGTenant,
    self_name: Seq<char>,
    others: Option<Seq<MCPGTenant>>,
) -> Option<Seq<char>> {
    match others {
        Some(o) => first_defect(o.len(), |i: int| rival_defect(t, self_name, o, i)),
        None => None,
    }
}

/// Checks that no other tenant owns a namespace of this one. When the
/// tenants cannot be listed, the tenant is not held to it.
pub fn check_namespace_exclusivity(
    obj: &MCPGTenant,
    self_name: &str,
    existing: Option<&Vec<MCPGTenant>>,
) -> (r: Result<(), String>)
    ensures
        finds(r, exclusivity_defect(*obj, self_name@, listed(existing))),
{
    let others = match existing {
        Some(v) => v,
        None => return Ok(()),
    };
    let ghost at = |i: int| rival_defect(*obj, self_name@, others@, i);
    let mut i: usize = 0;
    while i < others.len()
        invariant
            i <= others.len(),
            at == |i: int| rival_defect(*obj, self_name@, others@, i),
            first_defect(i as nat, at) is None,
            listed(existing) == Some(others@),
            exclusivity_defect(*obj, self_name@, listed(existing)) == first_defect(
                others@.len(),
                at,
            ),
        decreases others.len() - i,
    {
        let name = others[i].metadata.name_or_empty();
        if !same(name.as_str(), self_name) {
            let shared = overlapping_namespaces(&obj.spec.namespaces, &others[i].spec.namespaces);
            assert(texts(shared@).len() == shared@.len());
            if shared.len() > 0 {
                let m = "namespace(s) ".to_owned().concat(joined(&shared, ", ").as_str()).concat(
                    " already owned by MCPGTenant `",
                ).concat(name.as_str()).concat("`; namespaces are exclusively owned");
                proof {
                    lemma_first_defect(others@.len(), at, i as nat);
                }
                return Err(m);
            }
        }
        i = i + 1;
    }
    Ok(())
}

/// Reviews a tenant that is about to be written; a deletion has none.
pub fn validate(obj: Option<&MCPGTenant>, existing: Option<&Vec<MCPGTenant>>) -> (r: Decision)
    ensures
        match obj {
            Some(t) => r@ == judged(
                first_of(
                    tenant_defect(t.spec),
                    exclusivity_defect(*t, or_empty(t.metadata@.name), listed(existing)),
                ),
            ),
            None => r@ == judged(None),
        },
{
    let t = match obj {
        Some(t) => t,
        None => return admitted(),
    };
    match validate_spec(t) {
        Ok(_) => {},
        Err(m) => return Decision::Deny(m),
    }
    let self_name = t.metadata.name_or_empty();
    judge(check_namespace_exclusivity(t, self_name.as_str(), existing))
}

/// When the other tenants cannot be listed, a tenant is denied only for what
/// it says itself.
pub proof fn law_failed_lookup_admits(t: MCPGTenant, self_name: Seq<char>)
    ensures
        first_of(tenant_defect(t.spec), exclusivity_defect(t, self_name, None)) == tenant_defect(
            t.spec,
        ),
{
}

proof fn lemma_overlap(a: Seq<Seq<char>>, b: Seq<Seq<char>>, x: Seq<char>)
    requires
        a.contains(x),
        b.contains(x),
    ensures
        overlap(a, b).len() > 0,
    decreases a.len(),
{
    let i = choose|i: int| 0 <= i < a.len() && a[i] == x;
    if !b.contains(a.last()) {
        assert(a.drop_last()[i] == x);
        lemma_overlap(a.drop_last(), b, x);
    }
}

/// A namespace belongs to one tenant: when a tenant is admitted beside the
/// others, none of its namespaces is another's.
pub proof fn law_namespaces_are_exclusive(
    t: MCPGTenant,
    self_name: Seq<char>,
    others: Seq<MCPGTenant>,
    i: int,
    ns: Seq<char>,
)
    requires
        exclusivity_defect(t, self_name, Some(others)) is None,
        0 <= i < others.len(),
        or_empty(others[i].metadata@.name) != self_name,
        owns(t, ns),
    ensures
        !owns(others[i], ns),
{
    lemma_no_defect(others.len(), |i: int| rival_defect(t, self_name, others, i), i);
    if owns(others[i], ns) {
        lemma_overlap(texts(t.spec.namespaces@), texts(others[i].spec.namespaces@), ns);
    }
}

} // verus!
