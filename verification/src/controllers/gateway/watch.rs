//! Which gateways a change of another resource concerns.
use vstd::prelude::*;

use crate::api::objects::or_empty;
use crate::api::resources::{
    gateway_namespace, object_ref, ref_name, refs_view, same_opt, MCPGCluster, MCPGGateway,
    MCPGPluginSet, MCPGRevocationList, MCPGRoute, MCPGServer, ObjectRef, ObjectRefView,
};
use crate::controllers::gateway::revocation::target_list;
use crate::text::{opt_str, same};

verus! {

/// Whether a gateway uses the plugin set of the given name in the given
/// namespace.
pub open spec fn uses_plugin_set(
    gw: MCPGGateway,
    set_ns: Option<Seq<char>>,
    set_name: Seq<char>,
) -> bool {
    gw.metadata@.namespace == set_ns && ref_name(gw.spec.plugin_set_ref) == Some(set_name)
}

/// Whether a gateway uses the plugin set of the given name in the given
/// namespace.
pub fn gateway_uses_plugin_set(gw: &MCPGGateway, set_ns: Option<&str>, set_name: &str) -> (r: bool)
    ensures
        r == uses_plugin_set(*gw, opt_str(set_ns), set_name@),
{
    same_opt(&gw.metadata.namespace, set_ns) && match &gw.spec.plugin_set_ref {
        Some(r) => same(r.name.as_str(), set_name),
        None => false,
    }
}

/// Whether a gateway uses the revocation list of the given name: the one it
/// names, or the default one.
pub fn gateway_uses_revocation_list(gw: &MCPGGateway, list_name: &str) -> (r: bool)
    ensures
        r == (target_list(*gw) == list_name@),
{
    match &gw.spec.revocation_list_ref {
        Some(r) => same(r.name.as_str(), list_name),
        None => same("cluster-default", list_name),
    }
}

/// The gateways for which `keep` holds, in their order.
pub open spec fn refs_where(gws: Seq<MCPGGateway>, keep: spec_fn(MCPGGateway) -> bool) -> Seq<
    ObjectRefView,
>
    decreases gws.len(),
{
    if gws.len() == 0 {
        Seq::empty()
    } else {
        let before = refs_where(gws.drop_last(), keep);
        if keep(gws.last()) {
            before.push(object_ref(gws.last().metadata))
        } else {
            before
        }
    }
}

fn push_if(out: &mut Vec<ObjectRef>, gw: &MCPGGateway, keep: bool)
    ensures
        refs_view(final(out)@) == (if keep {
            refs_view(old(out)@).push(object_ref(gw.metadata))
        } else {
            refs_view(old(out)@)
        }),
{
    if keep {
        let r = ObjectRef::from_meta(&gw.metadata);
        proof {
            assert(refs_view(out@.push(r)) =~= refs_view(out@).push(r@));
        }
        out.push(r);
    }
}

/// The gateways that a changed plugin set concerns.
pub fn map_plugin_set_to_gateways(store: &Vec<MCPGGateway>, set: &MCPGPluginSet) -> (r: Vec<
    ObjectRef,
>)
    ensures
        refs_view(r@) == (match set.metadata@.name {
            Some(name) => refs_where(
                store@,
                |gw: MCPGGateway| uses_plugin_set(gw, set.metadata@.namespace, name),
            ),
            None => Seq::empty(),
        }),
{
    let mut out: Vec<ObjectRef> = Vec::new();
    assert(refs_view(out@) =~= Seq::empty());
    let name = match &set.metadata.name {
        Some(n) => n.as_str(),
        None => return out,
    };
    let ns = match &set.metadata.namespace {
        Some(n) => Some(n.as_str()),
        None => None,
    };
    let ghost keep = |gw: MCPGGateway| uses_plugin_set(gw, set.metadata@.namespace, name@);
    let mut i: usize = 0;
    assert(store@.take(0) =~= Seq::empty());
    while i < store.len()
        invariant
            i <= store.len(),
            keep == |gw: MCPGGateway| uses_plugin_set(gw, set.metadata@.namespace, name@),
            opt_str(ns) == set.metadata@.namespace,
            refs_view(out@) == refs_where(store@.take(i as int), keep),
        decreases store.len() - i,
    {
        assert(store@.take(i + 1).drop_last() =~= store@.take(i as int));
        push_if(&mut out, &store[i], gateway_uses_plugin_set(&store[i], ns, name));
        i = i + 1;
    }
    assert(store@.take(i as int) =~= store@);
    out
}

/// The gateways that a changed revocation list concerns.
pub fn map_revocation_list_to_gateways(
    store: &Vec<MCPGGateway>,
    rl: &MCPGRevocationList,
) -> (r: Vec<ObjectRef>)
    ensures
        refs_view(r@) == (match rl.metadata@.name {
            Some(name) => refs_where(store@, |gw: MCPGGateway| target_list(gw) == name),
            None => Seq::empty(),
        }),
{
    let mut out: Vec<ObjectRef> = Vec::new();
    assert(refs_view(out@) =~= Seq::empty());
    let name = match &rl.metadata.name {
        Some(n) => n.as_str(),
        None => return out,
    };
    let ghost keep = |gw: MCPGGateway| target_list(gw) == name@;
    let mut i: usize = 0;
    assert(store@.take(0) =~= Seq::empty());
    while i < store.len()
        invariant
            i <= store.len(),
            keep == |gw: MCPGGateway| target_list(gw) == name@,
            refs_view(out@) == refs_where(store@.take(i as int), keep),
        decreases store.len() - i,
    {
        assert(store@.take(i + 1).drop_last() =~= store@.take(i as int));
        push_if(&mut out, &store[i], gateway_uses_revocation_list(&store[i], name));
        i = i + 1;
    }
    assert(store@.take(i as int) =~= store@);
    out
}

/// The gateways that a changed cluster concerns: those that bind it.
pub fn map_cluster_to_gateways(store: &Vec<MCPGGateway>, cluster: &MCPGCluster) -> (r: Vec<
    ObjectRef,
>)
    ensures
        refs_view(r@) == (match cluster.metadata@.name {
            Some(name) => refs_where(
                store@,
                |gw: MCPGGateway| ref_name(gw.spec.cluster_ref) == Some(name),
            ),
            None => Seq::empty(),
        }),
{
    let mut out: Vec<ObjectRef> = Vec::new();
    assert(refs_view(out@) =~= Seq::empty());
    let name = match &cluster.metadata.name {
        Some(n) => n.as_str(),
        None => return out,
    };
    let ghost keep = |gw: MCPGGateway| ref_name(gw.spec.cluster_ref) == Some(name@);
    let mut i: usize = 0;
    assert(store@.take(0) =~= Seq::empty());
    while i < store.len()
        invariant
            i <= store.len(),
            keep == |gw: MCPGGateway| ref_name(gw.spec.cluster_ref) == Some(name@),
            refs_view(out@) == refs_where(store@.take(i as int), keep),
        decreases store.len() - i,
    {
        assert(store@.take(i + 1).drop_last() =~= store@.take(i as int));
        let hit = match &store[i].spec.cluster_ref {
            Some(r) => same(r.name.as_str(), name),
            None => false,
        };
        push_if(&mut out, &store[i], hit);
        i = i + 1;
    }
    assert(store@.take(i as int) =~= store@);
    out
}

/// Whether a gateway has the given name and namespace.
pub open spec fn is_gateway(gw: MCPGGateway, name: Seq<char>, namespace: Seq<char>) -> bool {
    or_empty(gw.metadata@.name) == name && gw.metadata@.namespace == Some(namespace)
}

/// The gateways of the given name and namespace.
fn named(store: &Vec<MCPGGateway>, name: &str, namespace: &str) -> (r: Vec<ObjectRef>)
    ensures
        refs_view(r@) == refs_where(
            store@,
            |gw: MCPGGateway| is_gateway(gw, name@, namespace@),
        ),
{
    let mut out: Vec<ObjectRef> = Vec::new();
    assert(refs_view(out@) =~= Seq::empty());
    let ghost keep = |gw: MCPGGateway| is_gateway(gw, name@, namespace@);
    let mut i: usize = 0;
    assert(store@.take(0) =~= Seq::empty());
    while i < store.len()
        invariant
            i <= store.len(),
            keep == |gw: MCPGGateway| is_gateway(gw, name@, namespace@),
            refs_view(out@) == refs_where(store@.take(i as int), keep),
        decreases store.len() - i,
    {
        assert(store@.take(i + 1).drop_last() =~= store@.take(i as int));
        let n = store[i].metadata.name_or_empty();
        let hit = same(n.as_str(), name) && same_opt(&store[i].metadata.namespace, Some(namespace));
        push_if(&mut out, &store[i], hit);
        i = i + 1;
    }
    assert(store@.take(i as int) =~= store@);
    out
}

/// The gateways that a changed route concerns: the one it targets.
pub fn map_route_to_gateways(store: &Vec<MCPGGateway>, route: &MCPGRoute) -> (r: Vec<ObjectRef>)
    ensures
        refs_view(r@) == (match route.metadata@.namespace {
            Some(ns) => refs_where(
                store@,
                |gw: MCPGGateway|
                    is_gateway(
                        gw,
                        route.spec.gateway_ref.name@,
                        gateway_namespace(route.spec.gateway_ref, ns),
                    ),
            ),
            None => Seq::empty(),
        }),
{
    match &route.metadata.namespace {
        Some(ns) => {
            let gw_ns = route.spec.gateway_namespace(ns.as_str());
            named(store, route.spec.gateway_ref.name.as_str(), gw_ns.as_str())
        },
        None => {
            let out: Vec<ObjectRef> = Vec::new();
            assert(refs_view(out@) =~= Seq::empty());
            out
        },
    }
}

/// The gateways that a changed server concerns: the one in its namespace
/// that it joins.
pub fn map_server_to_gateways(store: &Vec<MCPGGateway>, server: &MCPGServer) -> (r: Vec<ObjectRef>)
    ensures
        refs_view(r@) == (match (server.metadata@.namespace, server.spec.federate) {
            (Some(ns), Some(f)) => refs_where(
                store@,
                |gw: MCPGGateway| is_gateway(gw, f.gateway_ref.name@, ns),
            ),
            _ => Seq::empty(),
        }),
{
    match (&server.metadata.namespace, &server.spec.federate) {
        (Some(ns), Some(f)) => named(store, f.gateway_ref.name.as_str(), ns.as_str()),
        _ => {
            let out: Vec<ObjectRef> = Vec::new();
            assert(refs_view(out@) =~= Seq::empty());
            out
        },
    }
}

/// A gateway is told of a change exactly when it is one that the change
/// concerns.
pub proof fn law_refs_where(gws: Seq<MCPGGateway>, keep: spec_fn(MCPGGateway) -> bool, r: ObjectRefView)
    ensures
        refs_where(gws, keep).contains(r) <==> exists|i: int|
            0 <= i < gws.len() && keep(#[trigger] gws[i]) && object_ref(gws[i].metadata) == r,
    decreases gws.len(),
{
    if gws.len() > 0 {
        let init = gws.drop_last();
        let before = refs_where(init, keep);
        let all = refs_where(gws, keep);
        law_refs_where(init, keep, r);
        if all.contains(r) {
            let k = choose|k: int| 0 <= k < all.len() && all[k] == r;
            if k < before.len() {
                assert(before[k] == r);
                let i = choose|i: int|
                    0 <= i < init.len() && keep(#[trigger] init[i]) && object_ref(
                        init[i].metadata,
                    ) == r;
                assert(keep(gws[i]));
            } else {
                assert(keep(gws[gws.len() - 1]));
            }
        }
        if exists|i: int|
            0 <= i < gws.len() && keep(#[trigger] gws[i]) && object_ref(gws[i].metadata) == r {
            let i = choose|i: int|
                0 <= i < gws.len() && keep(#[trigger] gws[i]) && object_ref(gws[i].metadata) == r;
            if i < gws.len() - 1 {
                assert(keep(init[i]));
                assert(before.contains(r));
                let k = choose|k: int| 0 <= k < before.len() && before[k] == r;
                assert(all[k] == r);
            } else {
                assert(all[before.len() as int] == r);
            }
        }
    }
}

} // verus!
