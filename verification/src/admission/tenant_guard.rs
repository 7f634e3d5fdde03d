//! What a tenant allows in its namespaces.
//!
//! Counts are not checked here: the quota object in each namespace does that
//! without races. When the tenants cannot be listed, everything is admitted;
//! a namespace without a tenant is not constrained.
use vstd::prelude::*;

use crate::admission::decision::{finds, first_defect, flagged, lemma_first_defect};
use crate::api::objects::or_text;
use crate::api::resources::{
    MCPGGateway, MCPGPluginSet, MCPGPluginSetEntry, MCPGTenant,
};
use crate::text::{decimal_int, decimal_int_text, has_text, texts};

verus! {

/// Whether a tenant owns a namespace.
pub open spec fn owns(t: MCPGTenant, ns: Seq<char>) -> bool {
    texts(t.spec.namespaces@).contains(ns)
}

/// The position of the first tenant that owns a namespace.
pub open spec fn owner_index(tenants: Seq<MCPGTenant>, ns: Seq<char>) -> Option<int>
    decreases tenants.len(),
{
    if tenants.len() == 0 {
        None
    } else {
        match owner_index(tenants.drop_last(), ns) {
            Some(i) => Some(i),
            None => if owns(tenants.last(), ns) {
                Some(tenants.len() - 1)
            } else {
                None
            },
        }
    }
}

/// The tenant that owns a namespace, where the tenants are known.
pub open spec fn owner_of(tenants: Option<Seq<MCPGTenant>>, ns: Seq<char>) -> Option<MCPGTenant> {
    match tenants {
        Some(t) => match owner_index(t, ns) {
            Some(i) => Some(t[i]),
            None => None,
        },
        None => None,
    }
}

/// The tenants that were listed.
pub open spec fn listed(t: Option<&Vec<MCPGTenant>>) -> Option<Seq<MCPGTenant>> {
    match t {
        Some(v) => Some(v@),
        None => None,
    }
}

proof fn lemma_owner_take(tenants: Seq<MCPGTenant>, ns: Seq<char>, n: int)
    requires
        0 <= n <= tenants.len(),
        owner_index(tenants.take(n), ns) is Some,
    ensures
        owner_index(tenants, ns) == owner_index(tenants.take(n), ns),
    decreases tenants.len() - n,
{
    if n < tenants.len() {
        assert(tenants.take(n + 1).drop_last() =~= tenants.take(n));
        lemma_owner_take(tenants, ns, n + 1);
    } else {
        assert(tenants.take(n) =~= tenants);
    }
}

/// The tenant that owns a namespace: the first one that lists it. `None`
/// when there is none, or when the tenants could not be listed.
pub fn owning_tenant<'a>(tenants: Option<&'a Vec<MCPGTenant>>, namespace: &str) -> (r: Option<
    &'a MCPGTenant,
>)
    ensures
        match r {
            Some(t) => owner_of(listed(tenants), namespace@) == Some(*t),
            None => owner_of(listed(tenants), namespace@) is None,
        },
{
    let v = match tenants {
        Some(v) => v,
        None => return None,
    };
    let mut i: usize = 0;
    assert(v@.take(0) =~= Seq::empty());
    while i < v.len()
        invariant
            i <= v.len(),
            owner_index(v@.take(i as int), namespace@) is None,
            listed(tenants) == Some(v@),
        decreases v.len() - i,
    {
        proof {
            assert(v@.take(i + 1).drop_last() =~= v@.take(i as int));
            assert(v@.take(i + 1).last() == v@[i as int]);
        }
        if has_text(&v[i].spec.namespaces, namespace) {
            proof {
                lemma_owner_take(v@, namespace@, i + 1);
            }
            return Some(&v[i]);
        }
        i = i + 1;
    }
    assert(v@.take(i as int) =~= v@);
    None
}

/// The reason to deny a plugin that a tenant does not allow.
pub open spec fn plugin_denied(
    e: MCPGPluginSetEntry,
    tenant: MCPGTenant,
    ns: Seq<char>,
) -> Seq<char> {
    "plugin `"@ + e.plugin_ref.name@ + "` (id `"@ + e.id@ + "`) is not in tenant `"@ + or_text(
        tenant.metadata@.name,
        "<tenant>"@,
    ) + "`'s allowedPlugins; namespace `"@ + ns + "` is governed by that tenant"@
}

/// What is wrong with the plugins of a plugin set: the first that the tenant
/// of its namespace does not allow.
pub open spec fn allowlist_defect(
    set: MCPGPluginSet,
    tenant: Option<MCPGTenant>,
    allowed: Seq<bool>,
) -> Option<Seq<char>> {
    match (set.metadata@.namespace, tenant) {
        (Some(ns), Some(t)) => first_defect(
            set.spec.entries@.len(),
            |i: int| flagged(!allowed[i], plugin_denied(set.spec.entries@[i], t, ns)),
        ),
        _ => None,
    }
}

/// The tenant of a plugin set's namespace.
pub open spec fn set_tenant(set: MCPGPluginSet, tenants: Option<Seq<MCPGTenant>>) -> Option<
    MCPGTenant,
> {
    match set.metadata@.namespace {
        Some(ns) => owner_of(tenants, ns),
        None => None,
    }
}

/// Checks the plugins of a plugin set against what the tenant of its
/// namespace allows. `allowed` says for each entry whether that tenant
/// allows it; without a tenant it is not read.
pub fn enforce_pluginset_allowlist(
    obj: &MCPGPluginSet,
    tenants: Option<&Vec<MCPGTenant>>,
    allowed: &Vec<bool>,
) -> (r: Result<(), String>)
    requires
        set_tenant(*obj, listed(tenants)) is Some ==> allowed@.len() == obj.spec.entries@.len(),
    ensures
        finds(r, allowlist_defect(*obj, set_tenant(*obj, listed(tenants)), allowed@)),
{
    let ns = match &obj.metadata.namespace {
        Some(n) => n.as_str(),
        None => return Ok(()),
    };
    let tenant = match owning_tenant(tenants, ns) {
        Some(t) => t,
        None => return Ok(()),
    };
    let tenant_name = tenant.metadata.name_or("<tenant>");
    let ghost at = |i: int|
        flagged(!allowed@[i], plugin_denied(obj.spec.entries@[i], *tenant, ns@));
    let mut i: usize = 0;
    while i < obj.spec.entries.len()
        invariant
            i <= obj.spec.entries.len(),
            allowed@.len() == obj.spec.entries@.len(),
            tenant_name@ == or_text(tenant.metadata@.name, "<tenant>"@),
            at == |i: int| flagged(!allowed@[i], plugin_denied(obj.spec.entries@[i], *tenant, ns@)),
            first_defect(i as nat, at) is None,
            allowlist_defect(*obj, set_tenant(*obj, listed(tenants)), allowed@) == first_defect(
                obj.spec.entries@.len(),
                at,
            ),
        decreases obj.spec.entries.len() - i,
    {
        if !allowed[i] {
            let e = &obj.spec.entries[i];
            let m = "plugin `".to_owned().concat(e.plugin_ref.name.as_str()).concat(
                "` (id `",
            ).concat(e.id.as_str()).concat("`) is not in tenant `").concat(
                tenant_name.as_str(),
            ).concat("`'s allowedPlugins; namespace `").concat(ns).concat(
                "` is governed by that tenant",
            );
            proof {
                lemma_first_defect(obj.spec.entries@.len(), at, i as nat);
            }
            return Err(m);
        }
        i = i + 1;
    }
    Ok(())
}

/// The cap on the replicas of one gateway.
pub open spec fn replica_cap(t: MCPGTenant) -> Option<i64> {
    match t.spec.quotas {
        Some(q) => q.max_replicas_per_gateway,
        None => None,
    }
}

/// What is wrong with the size of a gateway: it can grow past what its
/// tenant allows.
pub open spec fn replica_defect(gw: MCPGGateway, tenant: Option<MCPGTenant>) -> Option<Seq<char>> {
    match tenant {
        Some(t) => match replica_cap(t) {
            Some(max) => flagged(
                gw.spec.replica_ceiling.count as i64 > max,
                gw.spec.replica_ceiling.field@ + " "@ + decimal_int(
                    gw.spec.replica_ceiling.count as int,
                ) + " exceeds tenant `"@ + or_text(t.metadata@.name, "<tenant>"@)
                    + "`'s maxReplicasPerGateway "@ + decimal_int(max as int),
            ),
            None => None,
        },
        None => None,
    }
}

/// The tenant of a gateway's namespace.
pub open spec fn gateway_tenant(gw: MCPGGateway, tenants: Option<Seq<MCPGTenant>>) -> Option<
    MCPGTenant,
> {
    match gw.metadata@.namespace {
        Some(ns) => owner_of(tenants, ns),
        None => None,
    }
}

/// Checks the size of a gateway against what the tenant of its namespace
/// allows. What counts is how large it can grow, not how large it is.
pub fn enforce_gateway_replica_cap(obj: &MCPGGateway, tenants: Option<&Vec<MCPGTenant>>) -> (r:
    Result<(), String>)
    ensures
        finds(r, replica_defect(*obj, gateway_tenant(*obj, listed(tenants)))),
{
    let ns = match &obj.metadata.namespace {
        Some(n) => n.as_str(),
        None => return Ok(()),
    };
    let tenant = match owning_tenant(tenants, ns) {
        Some(t) => t,
        None => return Ok(()),
    };
    let cap = match &tenant.spec.quotas {
        Some(q) => q.max_replicas_per_gateway,
        None => None,
    };
    match cap {
        Some(max) => {
            let ceiling: i64 = obj.spec.replica_ceiling.count as i64;
            if ceiling > max {
                let name = tenant.metadata.name_or("<tenant>");
                return Err(
                    obj.spec.replica_ceiling.field.clone().concat(" ").concat(
                        decimal_int_text(ceiling).as_str(),
                    ).concat(" exceeds tenant `").concat(name.as_str()).concat(
                        "`'s maxReplicasPerGateway ",
                    ).concat(decimal_int_text(max).as_str()),
                );
            }
            Ok(())
        },
        None => Ok(()),
    }
}

/// An admitted gateway cannot grow past the cap of its tenant.
pub proof fn law_admitted_gateway_is_within_cap(gw: MCPGGateway, t: MCPGTenant, max: i64)
    requires
        replica_defect(gw, Some(t)) is None,
        replica_cap(t) == Some(max),
    ensures
        gw.spec.replica_ceiling.count <= max,
{
}

} // verus!
