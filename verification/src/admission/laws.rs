//! What an object must be to be admitted, kind by kind.
use vstd::prelude::*;
use vstd::utf8::*;

use crate::admission::decision::{first_defect, flagged, law_first_defect_is_the_first};
use crate::admission::server::{served, Listen};
use crate::admission::tenant_guard::{
    allowlist_defect, gateway_tenant, listed, owner_index, owner_of, replica_defect, set_tenant,
};
use crate::admission::validators::gateway::ClusterLookup;
use crate::admission::validators::plugin_set::Capabilities;
use crate::admission::validators::{
    cluster, dns, gateway, plugin, plugin_mirror, plugin_set, revocation_list, route, server,
    tenant,
};
use crate::api::resources::{
    GatewayCloud, MCPGCluster, MCPGClusterSpec, MCPGGateway, MCPGGatewaySpec, MCPGPluginMirrorSpec,
    MCPGPluginSet, MCPGPluginSetSpec, MCPGPluginSpec, MCPGRevocationListSpec, MCPGRouteSpec,
    MCPGServerSpec, MCPGTenant, MCPGTenantSpec,
};
use crate::json::{get, get_str, JsonView};
use crate::text::{
    blank, ends_with, lower, occurs, split_on, starts_with, texts, trim, trim_end_char,
};

verus! {

/// A cluster is admitted exactly when a single node has no config and any
/// other backend has one, its transport is not insecure, and its credentials
/// have names and Secrets, each name once.
pub proof fn law_admitted_clusters(s: MCPGClusterSpec)
    ensures
        cluster::cluster_defect(s) is None <==> {
            &&& s.backend.single_node <==> s.config@.len() == 0
            &&& s.insecure_transport_reason is None
            &&& forall|i: int|
                0 <= i < s.credential_refs@.len() ==> !blank(
                    (#[trigger] s.credential_refs@[i]).name@,
                ) && !blank(s.credential_refs@[i].secret_name@)
            &&& forall|i: int, j: int|
                0 <= j < i < s.credential_refs@.len() ==> (#[trigger] s.credential_refs@[i]).name@
                    != (#[trigger] s.credential_refs@[j]).name@
        },
{
    let v = s.credential_refs@;
    let at = |i: int| cluster::credential_defect(s.credential_refs@, i);
    law_first_defect_is_the_first(v.len(), at);
    if first_defect(v.len(), at) is None {
        assert forall|i: int| 0 <= i < v.len() implies !blank((#[trigger] v[i]).name@) && !blank(
            v[i].secret_name@,
        ) by {
            assert(at(i) is None);
        }
        assert forall|i: int, j: int| 0 <= j < i < v.len() implies (#[trigger] v[i]).name@ != (
        #[trigger] v[j]).name@ by {
            assert(at(i) is None);
            assert(!cluster::name_repeats(v, i));
        }
    } else {
        let i = choose|i: int| 0 <= i < v.len() && (#[trigger] at(i)) is Some;
        assert(at(i) is Some);
        if cluster::name_repeats(v, i) {
            let j = choose|j: int| 0 <= j < i && (#[trigger] v[j]).name@ == v[i].name@;
            assert(v[j].name@ == v[i].name@);
        }
        assert(v[i] == v[i]);
    }
}

/// Whether a text is a hash: 64 hex digits.
pub open spec fn is_hash(s: Seq<char>) -> bool {
    s.len() == 64 && forall|i: int|
        0 <= i < s.len() ==> '0' <= #[trigger] s[i] <= '9' || 'a' <= s[i] <= 'f' || 'A' <= s[i]
            <= 'F'
}

/// A revocation list is admitted exactly when it has the supported version,
/// each of its hashes is a whole hash, no artefact is revoked twice whatever
/// the case of its hash, and each revocation has a reason.
pub proof fn law_admitted_revocation_lists(s: MCPGRevocationListSpec)
    ensures
        revocation_list::list_defect(s) is None <==> {
            &&& s.version == 1
            &&& forall|i: int|
                0 <= i < s.revocations@.len() ==> is_hash(
                    (#[trigger] s.revocations@[i]).artifact_sha256@,
                ) && !blank(s.revocations@[i].reason@)
            &&& forall|i: int, j: int|
                0 <= j < i < s.revocations@.len() ==> lower(
                    (#[trigger] s.revocations@[i]).artifact_sha256@,
                ) != lower((#[trigger] s.revocations@[j]).artifact_sha256@)
        },
{
    let v = s.revocations@;
    let at = |i: int| revocation_list::entry_defect(s.revocations@, i);
    law_first_defect_is_the_first(v.len(), at);
    assert forall|x: Seq<char>| revocation_list::all_hex(x) implies encode_utf8(x).len()
        == x.len() by {
        revocation_list::lemma_hex_bytes(x);
    }
    assert forall|x: Seq<char>| (#[trigger] revocation_list::all_hex(x) && encode_utf8(x).len()
        == 64) == is_hash(x) by {
        if is_hash(x) {
            assert forall|i: int| 0 <= i < x.len() implies revocation_list::hex_char(
                #[trigger] x[i],
            ) by {}
            revocation_list::lemma_hex_bytes(x);
        }
        if revocation_list::all_hex(x) {
            revocation_list::lemma_hex_bytes(x);
            assert forall|i: int| 0 <= i < x.len() implies ('0' <= #[trigger] x[i] <= '9' || 'a'
                <= x[i] <= 'f' || 'A' <= x[i] <= 'F') by {
                assert(revocation_list::hex_char(x[i]));
            }
        }
    }
    if first_defect(v.len(), at) is None {
        assert forall|i: int| 0 <= i < v.len() implies is_hash((#[trigger] v[i]).artifact_sha256@)
            && !blank(v[i].reason@) by {
            assert(at(i) is None);
            assert(revocation_list::all_hex(v[i].artifact_sha256@));
        }
        assert forall|i: int, j: int| 0 <= j < i < v.len() implies lower(
            (#[trigger] v[i]).artifact_sha256@,
        ) != lower((#[trigger] v[j]).artifact_sha256@) by {
            assert(at(i) is None);
            assert(!revocation_list::hash_repeats(v, i));
            assert(revocation_list::normal_hash(v[j]) != revocation_list::normal_hash(v[i]));
        }
    } else {
        let i = choose|i: int| 0 <= i < v.len() && (#[trigger] at(i)) is Some;
        assert(at(i) is Some);
        assert(revocation_list::all_hex(v[i].artifact_sha256@) || !is_hash(v[i].artifact_sha256@));
        if revocation_list::hash_repeats(v, i) {
            let j = choose|j: int|
                0 <= j < i && revocation_list::normal_hash(#[trigger] v[j])
                    == revocation_list::normal_hash(v[i]);
            assert(lower(v[j].artifact_sha256@) == lower(v[i].artifact_sha256@));
        }
        assert(v[i] == v[i]);
    }
}

/// Whether every plugin of a chain has an id.
pub open spec fn whole_chain(chain: Seq<String>) -> bool {
    forall|i: int| 0 <= i < chain.len() ==> !blank((#[trigger] chain[i])@)
}

proof fn lemma_chain(name: Seq<char>, chain: Seq<String>)
    ensures
        route::chain_defect(name, chain) is None <==> whole_chain(chain),
{
    let at = |i: int|
        flagged(
            blank(chain[i]@),
            "spec."@ + name + "["@ + crate::text::decimal(i as nat) + "] must not be empty"@,
        );
    law_first_defect_is_the_first(chain.len(), at);
    if route::chain_defect(name, chain) is None {
        assert forall|i: int| 0 <= i < chain.len() implies !blank((#[trigger] chain[i])@) by {
            assert(at(i) is None);
        }
    } else {
        let i = choose|i: int| 0 <= i < chain.len() && (#[trigger] at(i)) is Some;
        assert(blank(chain[i]@));
    }
}

/// A route is admitted exactly when it names a gateway and at least one tool,
/// its tools have ids, each once up to white space, and its chains name every
/// plugin. Whoever writes a route without a tenant is warned, and nobody else.
pub proof fn law_admitted_routes(s: MCPGRouteSpec)
    ensures
        route::route_defect(s) is None <==> {
            &&& !blank(s.gateway_ref.name@)
            &&& s.tools@.len() > 0
            &&& forall|i: int| 0 <= i < s.tools@.len() ==> !blank((#[trigger] s.tools@[i]).id@)
            &&& forall|i: int, j: int|
                0 <= j < i < s.tools@.len() ==> trim((#[trigger] s.tools@[i]).id@) != trim(
                    (#[trigger] s.tools@[j]).id@,
                )
            &&& whole_chain(s.identity_chain@)
            &&& whole_chain(s.policy_chain@)
            &&& whole_chain(s.audit_chain@)
        },
        route::route_warnings(s).len() == (if s.tenant is None {
            1nat
        } else {
            0nat
        }),
{
    lemma_chain("identityChain"@, s.identity_chain@);
    lemma_chain("policyChain"@, s.policy_chain@);
    lemma_chain("auditChain"@, s.audit_chain@);
    let v = s.tools@;
    let at = |i: int| route::tool_defect(s.tools@, i);
    law_first_defect_is_the_first(v.len(), at);
    if first_defect(v.len(), at) is None {
        assert forall|i: int| 0 <= i < v.len() implies !blank((#[trigger] v[i]).id@) by {
            assert(at(i) is None);
        }
        assert forall|i: int, j: int| 0 <= j < i < v.len() implies trim((#[trigger] v[i]).id@)
            != trim((#[trigger] v[j]).id@) by {
            assert(at(i) is None);
            assert(!route::tool_repeats(v, i));
        }
    } else {
        let i = choose|i: int| 0 <= i < v.len() && (#[trigger] at(i)) is Some;
        assert(at(i) is Some);
        if route::tool_repeats(v, i) {
            let j = choose|j: int| 0 <= j < i && trim((#[trigger] v[j]).id@) == trim(v[i].id@);
            assert(trim(v[j].id@) == trim(v[i].id@));
        }
        assert(v[i] == v[i]);
    }
}

/// A server is admitted exactly when it names an image, pinned to a digest
/// where it is to be verified, a valid port and no negative number of
/// replicas, and, where it joins a gateway, names that gateway and has a
/// federation name of permitted characters; what it hands to the gateway are
/// objects. Whoever writes an image that is neither verified nor pinned is
/// warned, and nobody else.
pub proof fn law_admitted_servers(s: MCPGServerSpec)
    ensures
        server::server_defect(s) is None <==> {
            &&& !blank(s.image@)
            &&& s.verify is Some ==> occurs(s.image@, "@sha256:"@)
            &&& 1 <= s.port <= 65535
            &&& s.replicas matches Some(n) ==> n >= 0
            &&& s.federate matches Some(f) ==> {
                &&& !blank(f.gateway_ref.name@)
                &&& !blank(s.federation_name@)
                &&& forall|i: int|
                    0 <= i < s.federation_name@.len() ==> {
                        let c = #[trigger] s.federation_name@[i];
                        'a' <= c <= 'z' || 'A' <= c <= 'Z' || '0' <= c <= '9' || c == '-' || c
                            == '_' || c == '.'
                    }
                &&& f.governance matches Some(j) ==> j.view() is Object
                &&& f.import matches Some(j) ==> j.view() is Object
                &&& f.auth matches Some(j) ==> j.view() is Object
            }
        },
        server::server_warnings(s).len() == (if s.verify is None && !occurs(
            s.image@,
            "@sha256:"@,
        ) {
            1nat
        } else {
            0nat
        }),
{
    let name = s.federation_name@;
    if server::name_chars(name) {
        assert forall|i: int| 0 <= i < name.len() implies server::name_char(#[trigger] name[i]) by {}
    } else {
        let i = choose|i: int| 0 <= i < name.len() && !server::name_char(#[trigger] name[i]);
        assert(!server::name_char(name[i]));
    }
}

/// A plugin is admitted exactly when it has an id in dotted form, a version and
/// a known class; its image names a registry and a tag or a digest, and is
/// pinned to a digest unless a keyless signature is asked for; it names its
/// signing key; the pattern of such a signature is a valid pattern, anchored at
/// both ends, with an issuer; and a provenance that it asks for is named in
/// full.
pub proof fn law_admitted_plugins(
    s: MCPGPluginSpec,
    known: Seq<Seq<char>>,
    rejection: Option<Seq<char>>,
)
    ensures
        plugin::plugin_defect(s, known, rejection) is None <==> {
            let image = trim(s.oci.image@);
            &&& !blank(s.plugin_id@) && s.plugin_id@.contains('.')
            &&& !blank(s.version@)
            &&& known.contains(s.plugin_class@)
            &&& image.contains('/')
            &&& image.contains(':') || image.contains('@')
            &&& occurs(image, "@sha256:"@) || s.trust.cosign_identity is Some
            &&& !blank(s.trust.signing_key_ref.secret_name@)
            &&& !blank(s.trust.signing_key_ref.key@)
            &&& s.trust.cosign_identity matches Some(c) ==> {
                let pattern = trim(c.certificate_identity_regexp@);
                &&& rejection is None
                &&& starts_with(pattern, "^"@)
                &&& ends_with(pattern, "$"@)
                &&& !blank(c.oidc_issuer@)
            }
            &&& s.trust.slsa_provenance matches Some(p) ==> !blank(p.config_map_name@) && !blank(
                p.source_uri@,
            ) && !blank(p.source_tag@)
        },
{
    reveal_strlit("^");
    let image = trim(s.oci.image@);
    if image.len() == 0 {
        assert(!image.contains('/'));
    }
    if let Some(c) = s.trust.cosign_identity {
        let pattern = trim(c.certificate_identity_regexp@);
        if pattern.len() == 0 {
            assert("^"@.len() == 1);
            assert(!starts_with(pattern, "^"@));
        }
    }
}

/// The pattern whose validity counts is the one of the signature, without
/// white space around it.
pub proof fn law_pattern_is_the_declared_one(s: MCPGPluginSpec)
    ensures
        s.trust.cosign_identity matches Some(c) ==> plugin::pattern_of(s) == trim(
            c.certificate_identity_regexp@,
        ),
{
}

proof fn lemma_capability(errors: Seq<(String, String)>, cap: Seq<char>)
    ensures
        plugin_set::capability_error(errors, cap) is Some <==> exists|i: int|
            0 <= i < errors.len() && (#[trigger] errors[i]).0@ == cap,
    decreases errors.len(),
{
    if errors.len() > 0 {
        let init = errors.drop_last();
        lemma_capability(init, cap);
        if exists|i: int| 0 <= i < init.len() && (#[trigger] init[i]).0@ == cap {
            let i = choose|i: int| 0 <= i < init.len() && (#[trigger] init[i]).0@ == cap;
            assert(errors[i].0@ == cap);
        }
        if errors.last().0@ == cap {
            assert(errors[errors.len() - 1].0@ == cap);
        }
        if exists|i: int| 0 <= i < errors.len() && (#[trigger] errors[i]).0@ == cap {
            let i = choose|i: int| 0 <= i < errors.len() && (#[trigger] errors[i]).0@ == cap;
            if i < init.len() {
                assert(init[i].0@ == cap);
            }
        }
    }
}

/// Whether a grant is in order: it is for a plugin of the set, and what it
/// grants, at least one thing, are capabilities that there are.
pub open spec fn grant_in_order(s: MCPGPluginSetSpec, caps: Capabilities, i: int) -> bool {
    let g = s.capability_grants@[i];
    &&& exists|j: int| 0 <= j < s.entries@.len() && (#[trigger] s.entries@[j]).id@ == g.0@
    &&& g.1@.len() > 0
    &&& forall|k: int, e: int|
        0 <= k < g.1@.len() && 0 <= e < caps.errors@.len() ==> (#[trigger] caps.errors@[e]).0@ != (
        #[trigger] g.1@[k])@
}

proof fn lemma_grant(s: MCPGPluginSetSpec, caps: Capabilities, i: int)
    ensures
        plugin_set::grant_defect(s, caps, i) is None <==> grant_in_order(s, caps, i),
{
    let id = s.capability_grants@[i].0@;
    let granted = s.capability_grants@[i].1@;
    let at = |k: int| plugin_set::capability_defect(id, granted[k]@, caps);
    law_first_defect_is_the_first(granted.len(), at);
    if first_defect(granted.len(), at) is None {
        assert forall|k: int, e: int|
            0 <= k < granted.len() && 0 <= e < caps.errors@.len() implies (
        #[trigger] caps.errors@[e]).0@ != (#[trigger] granted[k])@ by {
            assert(at(k) is None);
            lemma_capability(caps.errors@, granted[k]@);
        }
    } else {
        let k = choose|k: int| 0 <= k < granted.len() && (#[trigger] at(k)) is Some;
        lemma_capability(caps.errors@, granted[k]@);
        let e = choose|e: int|
            0 <= e < caps.errors@.len() && (#[trigger] caps.errors@[e]).0@ == granted[k]@;
        assert(caps.errors@[e].0@ == granted[k]@);
    }
}

/// A plugin set is in order by itself exactly when it has entries, each with an
/// id in dotted form that no other has and with a plugin, and its grants are in
/// order.
pub proof fn law_admitted_plugin_sets(s: MCPGPluginSetSpec, caps: Capabilities)
    ensures
        plugin_set::spec_defect(s, caps) is None <==> {
            &&& s.entries@.len() > 0
            &&& forall|i: int|
                0 <= i < s.entries@.len() ==> !blank((#[trigger] s.entries@[i]).id@)
                    && s.entries@[i].id@.contains('.') && !blank(s.entries@[i].plugin_ref.name@)
            &&& forall|i: int, j: int|
                0 <= j < i < s.entries@.len() ==> (#[trigger] s.entries@[i]).id@ != (
                #[trigger] s.entries@[j]).id@
            &&& forall|i: int|
                0 <= i < s.capability_grants@.len() ==> #[trigger] grant_in_order(s, caps, i)
        },
{
    let v = s.entries@;
    let at = |i: int| plugin_set::entry_defect(s.entries@, i);
    let grant_at = |i: int| plugin_set::grant_defect(s, caps, i);
    law_first_defect_is_the_first(v.len(), at);
    law_first_defect_is_the_first(s.capability_grants@.len(), grant_at);
    if first_defect(v.len(), at) is None {
        assert forall|i: int| 0 <= i < v.len() implies !blank((#[trigger] v[i]).id@)
            && v[i].id@.contains('.') && !blank(v[i].plugin_ref.name@) by {
            assert(at(i) is None);
        }
        assert forall|i: int, j: int| 0 <= j < i < v.len() implies (#[trigger] v[i]).id@ != (
        #[trigger] v[j]).id@ by {
            assert(at(i) is None);
            assert(!plugin_set::id_repeats(v, i));
        }
    } else {
        let i = choose|i: int| 0 <= i < v.len() && (#[trigger] at(i)) is Some;
        assert(at(i) is Some);
        if plugin_set::id_repeats(v, i) {
            let j = choose|j: int| 0 <= j < i && (#[trigger] v[j]).id@ == v[i].id@;
            assert(v[j].id@ == v[i].id@);
        }
        assert(v[i] == v[i]);
    }
    if first_defect(s.capability_grants@.len(), grant_at) is None {
        assert forall|i: int| 0 <= i < s.capability_grants@.len() implies #[trigger] grant_in_order(
            s,
            caps,
            i,
        ) by {
            assert(grant_at(i) is None);
            lemma_grant(s, caps, i);
        }
    } else {
        let i = choose|i: int|
            0 <= i < s.capability_grants@.len() && (#[trigger] grant_at(i)) is Some;
        lemma_grant(s, caps, i);
        assert(!grant_in_order(s, caps, i));
    }
}

/// Whether a text is there and not blank.
pub open spec fn says_something(o: Option<String>) -> bool {
    o matches Some(s) && !blank(s@)
}

/// Whether a quota is none or not negative.
pub open spec fn not_negative(n: Option<i64>) -> bool {
    n matches Some(k) ==> k >= 0
}

/// A tenant is in order by itself exactly when it has namespaces, each named
/// once, every plugin that it allows is given by name or registry, no quota is
/// negative, and its identity attribute, if any, has a key.
pub proof fn law_admitted_tenants(s: MCPGTenantSpec)
    ensures
        tenant::tenant_defect(s) is None <==> {
            &&& s.namespaces@.len() > 0
            &&& forall|i: int| 0 <= i < s.namespaces@.len() ==> !blank((#[trigger] s.namespaces@[i])@)
            &&& forall|i: int, j: int|
                0 <= j < i < s.namespaces@.len() ==> (#[trigger] s.namespaces@[i])@ != (
                #[trigger] s.namespaces@[j])@
            &&& forall|i: int|
                0 <= i < s.allowed_plugins@.len() ==> says_something(
                    (#[trigger] s.allowed_plugins@[i]).name,
                ) || says_something(s.allowed_plugins@[i].registry_prefix)
            &&& s.quotas matches Some(q) ==> not_negative(q.max_gateways) && not_negative(
                q.max_plugin_sets,
            ) && not_negative(q.max_routes) && not_negative(q.max_replicas_per_gateway)
            &&& s.identity_attribute matches Some(a) ==> !blank(a.key@)
        },
{
    let v = s.namespaces@;
    let at = |i: int| tenant::namespace_defect(s.namespaces@, i);
    let w = s.allowed_plugins@;
    let at_match = |i: int| tenant::matcher_defect(s.allowed_plugins@, i);
    law_first_defect_is_the_first(v.len(), at);
    law_first_defect_is_the_first(w.len(), at_match);
    if first_defect(v.len(), at) is None {
        assert forall|i: int| 0 <= i < v.len() implies !blank((#[trigger] v[i])@) by {
            assert(at(i) is None);
        }
        assert forall|i: int, j: int| 0 <= j < i < v.len() implies (#[trigger] v[i])@ != (
        #[trigger] v[j])@ by {
            assert(at(i) is None);
            assert(!tenant::namespace_repeats(v, i));
        }
    } else {
        let i = choose|i: int| 0 <= i < v.len() && (#[trigger] at(i)) is Some;
        assert(at(i) is Some);
        if tenant::namespace_repeats(v, i) {
            let j = choose|j: int| 0 <= j < i && (#[trigger] v[j])@ == v[i]@;
            assert(v[j]@ == v[i]@);
        }
        assert(v[i] == v[i]);
    }
    if first_defect(w.len(), at_match) is None {
        assert forall|i: int| 0 <= i < w.len() implies says_something((#[trigger] w[i]).name)
            || says_something(w[i].registry_prefix) by {
            assert(at_match(i) is None);
        }
    } else {
        let i = choose|i: int| 0 <= i < w.len() && (#[trigger] at_match(i)) is Some;
        assert(!says_something(w[i].name) && !says_something(w[i].registry_prefix));
    }
}

proof fn lemma_overlap(a: Seq<Seq<char>>, b: Seq<Seq<char>>)
    ensures
        tenant::overlap(a, b).len() > 0 <==> exists|x: Seq<char>| #[trigger]
            a.contains(x) && b.contains(x),
    decreases a.len(),
{
    if a.len() == 0 {
        assert forall|x: Seq<char>| !a.contains(x) by {}
    } else {
        let init = a.drop_last();
        lemma_overlap(init, b);
        assert(a[a.len() - 1] == a.last());
        if b.contains(a.last()) {
            assert(a.contains(a.last()));
        }
        if exists|x: Seq<char>| #[trigger] init.contains(x) && b.contains(x) {
            let x = choose|x: Seq<char>| #[trigger] init.contains(x) && b.contains(x);
            let i = choose|i: int| 0 <= i < init.len() && init[i] == x;
            assert(a[i] == x);
            assert(a.contains(x));
        }
        if exists|x: Seq<char>| #[trigger] a.contains(x) && b.contains(x) {
            let x = choose|x: Seq<char>| #[trigger] a.contains(x) && b.contains(x);
            let i = choose|i: int| 0 <= i < a.len() && a[i] == x;
            if i < init.len() {
                assert(init[i] == x);
                assert(init.contains(x));
            }
        }
    }
}

/// A tenant is kept out by the others exactly when one of another name has a
/// namespace of its own.
pub proof fn law_tenants_share_no_namespace(
    t: MCPGTenant,
    name: Seq<char>,
    others: Seq<MCPGTenant>,
)
    ensures
        tenant::exclusivity_defect(t, name, Some(others)) is None <==> forall|i: int|
            0 <= i < others.len() ==> is_apart(t, name, #[trigger] others[i]),
        tenant::exclusivity_defect(t, name, None) is None,
{
    let at = |i: int| tenant::rival_defect(t, name, others, i);
    law_first_defect_is_the_first(others.len(), at);
    if first_defect(others.len(), at) is None {
        assert forall|i: int| 0 <= i < others.len() implies is_apart(
            t,
            name,
            #[trigger] others[i],
        ) by {
            assert(at(i) is None);
            lemma_overlap(texts(t.spec.namespaces@), texts(others[i].spec.namespaces@));
        }
    } else {
        let i = choose|i: int| 0 <= i < others.len() && (#[trigger] at(i)) is Some;
        lemma_overlap(texts(t.spec.namespaces@), texts(others[i].spec.namespaces@));
        assert(name.len() == 0 ==> name =~= Seq::empty());
        assert(!is_apart(t, name, others[i]));
    }
}

/// Whether a tenant of this name and another have nothing to do with each
/// other: they are the same, or share no namespace.
pub open spec fn is_apart(t: MCPGTenant, name: Seq<char>, other: MCPGTenant) -> bool {
    (match other.metadata@.name {
        Some(n) => n == name,
        None => name.len() == 0,
    }) || forall|x: Seq<char>| #[trigger]
        texts(t.spec.namespaces@).contains(x) ==> !texts(other.spec.namespaces@).contains(x)
}

/// A mirror is admitted exactly when its Service has a namespace, a name and a
/// port, what it mirrors is a registry host with a namespace, and its
/// credentials, if any, name a Secret.
pub proof fn law_admitted_mirrors(s: MCPGPluginMirrorSpec)
    ensures
        plugin_mirror::mirror_defect(s) is None <==> {
            &&& !blank(s.endpoint.service.namespace@)
            &&& !blank(s.endpoint.service.name@)
            &&& s.endpoint.service.port > 0
            &&& !blank(s.upstream.registry@)
            &&& s.upstream.registry@.contains('.') || s.upstream.registry@.contains(':')
            &&& !blank(s.upstream.namespace@)
            &&& s.auth matches Some(a) ==> !blank(a.secret_name@)
        },
{
}

/// Whether a text is a DNS label: 1 to 63 lower-case letters, digits and
/// hyphens, with no hyphen at either end.
pub open spec fn is_dns_label(s: Seq<char>) -> bool {
    &&& 1 <= s.len() <= 63
    &&& forall|i: int|
        0 <= i < s.len() ==> 'a' <= #[trigger] s[i] <= 'z' || '0' <= s[i] <= '9' || s[i] == '-'
    &&& s[0] != '-'
    &&& s[s.len() - 1] != '-'
}

proof fn lemma_label(s: Seq<char>)
    ensures
        dns::label_defect(s) is None <==> is_dns_label(s),
{
    if dns::label_chars(s) {
        assert(is_ascii_chars(s)) by {
            assert forall|i: int| 0 <= i < s.len() implies '\0' <= #[trigger] s[i] <= '\u{7f}' by {
                assert(dns::label_char(s[i]));
            }
        }
        is_ascii_chars_encode_utf8(s);
        assert forall|i: int| 0 <= i < s.len() implies ('a' <= #[trigger] s[i] <= 'z' || '0' <= s[i]
            <= '9' || s[i] == '-') by {
            assert(dns::label_char(s[i]));
        }
    } else {
        let i = choose|i: int| 0 <= i < s.len() && !dns::label_char(#[trigger] s[i]);
        assert(!dns::label_char(s[i]));
    }
}

/// A text passes as a DNS label exactly when it is one, and as a host name
/// exactly when it takes at most 253 bytes and its parts between the dots are
/// DNS labels.
pub proof fn law_dns_names(s: Seq<char>)
    ensures
        dns::label_defect(s) is None <==> is_dns_label(s),
        dns::hostname_defect(s) is None <==> {
            &&& s.len() > 0
            &&& encode_utf8(s).len() <= 253
            &&& forall|i: int|
                0 <= i < split_on(s, '.').len() ==> is_dns_label(#[trigger] split_on(s, '.')[i])
        },
{
    lemma_label(s);
    let parts = split_on(s, '.');
    let at = |i: int| dns::part_defect(split_on(s, '.')[i]);
    law_first_defect_is_the_first(parts.len(), at);
    if first_defect(parts.len(), at) is None {
        assert forall|i: int| 0 <= i < parts.len() implies is_dns_label(#[trigger] parts[i]) by {
            assert(at(i) is None);
            lemma_label(parts[i]);
        }
    } else {
        let i = choose|i: int| 0 <= i < parts.len() && (#[trigger] at(i)) is Some;
        lemma_label(parts[i]);
        assert(!is_dns_label(parts[i]));
    }
}

/// Whether a managed-cloud block is in order: its names are DNS labels, its
/// URL is of the web, and its domains are host names.
pub open spec fn cloud_in_order(c: GatewayCloud) -> bool {
    let url = trim(c.external_url@);
    &&& is_dns_label(c.instance_slug@)
    &&& is_dns_label(c.org_slug@)
    &&& starts_with(url, "https://"@) || starts_with(url, "http://"@)
    &&& forall|i: int|
        0 <= i < c.custom_domains@.len() ==> dns::hostname_defect(
            (#[trigger] c.custom_domains@[i])@,
        ) is None
}

proof fn lemma_cloud(c: GatewayCloud)
    ensures
        gateway::cloud_defect(c) is None <==> cloud_in_order(c),
{
    lemma_label(c.instance_slug@);
    lemma_label(c.org_slug@);
    reveal_strlit("https://");
    reveal_strlit("http://");
    let url = trim(c.external_url@);
    assert("https://"@.len() == 8 && "http://"@.len() == 7);
    let v = c.custom_domains@;
    let at = |i: int| gateway::domain_defect(c, i);
    law_first_defect_is_the_first(v.len(), at);
    if first_defect(v.len(), at) is None {
        assert forall|i: int| 0 <= i < v.len() implies dns::hostname_defect(
            (#[trigger] v[i])@,
        ) is None by {
            assert(at(i) is None);
        }
    } else {
        let i = choose|i: int| 0 <= i < v.len() && (#[trigger] at(i)) is Some;
        assert(dns::hostname_defect(v[i]@) is Some);
    }
}

/// A gateway is in order by itself exactly when it asks for a replica, names
/// the tag of its image and at most one identity provider; the Secrets that it
/// takes are named, and mounted at absolute paths, each Secret and each path
/// once; an ingress has a class and hosts with paths; and a managed-cloud
/// gateway has no ingress and a block that is in order.
pub proof fn law_admitted_gateways(s: MCPGGatewaySpec)
    ensures
        gateway::spec_defect(s) is None <==> {
            &&& s.replicas >= 1
            &&& s.image.tag matches Some(t) && !blank(t@)
            &&& s.workload_identity matches Some(w) ==> {
                &&& !(w.aws is Some && (w.gcp is Some || w.azure is Some || w.spiffe is Some))
                &&& !(w.gcp is Some && (w.azure is Some || w.spiffe is Some))
                &&& !(w.azure is Some && w.spiffe is Some)
            }
            &&& forall|i: int|
                0 <= i < s.env_from_secrets@.len() ==> !blank(
                    (#[trigger] s.env_from_secrets@[i]).name@,
                )
            &&& mounts_in_order(s)
            &&& s.ingress matches Some(g) ==> {
                &&& !blank(g.ingress_class_name@)
                &&& g.hosts@.len() > 0
                &&& forall|i: int|
                    0 <= i < g.hosts@.len() ==> !blank((#[trigger] g.hosts@[i]).host@)
                        && g.hosts@[i].paths@.len() > 0
            }
            &&& s.cloud matches Some(c) ==> s.ingress is None && cloud_in_order(c)
        },
{
    if let Some(c) = s.cloud {
        lemma_cloud(c);
    }
    lemma_mounts(s);
    let e = s.env_from_secrets@;
    let at = |i: int|
        flagged(
            blank(e[i].name@),
            "spec.envFromSecrets["@ + crate::text::decimal(i as nat) + "].name must not be empty"@,
        );
    law_first_defect_is_the_first(e.len(), at);
    assert(gateway::env_defect(e) == first_defect(e.len(), at));
    if gateway::env_defect(e) is None {
        assert forall|i: int| 0 <= i < e.len() implies !blank((#[trigger] e[i]).name@) by {
            assert(at(i) is None);
        }
    } else {
        let i = choose|i: int| 0 <= i < e.len() && (#[trigger] at(i)) is Some;
        assert(blank(e[i].name@));
    }
    if let Some(g) = s.ingress {
        let h = g.hosts@;
        let host_at = |i: int| gateway::host_defect(g, i);
        law_first_defect_is_the_first(h.len(), host_at);
        if first_defect(h.len(), host_at) is None {
            assert forall|i: int| 0 <= i < h.len() implies !blank((#[trigger] h[i]).host@)
                && h[i].paths@.len() > 0 by {
                assert(host_at(i) is None);
            }
        } else {
            let i = choose|i: int| 0 <= i < h.len() && (#[trigger] host_at(i)) is Some;
            assert(blank(h[i].host@) || h[i].paths@.len() == 0);
        }
    }
}

/// Whether the Secrets of a gateway are mounted in order: each has a name and
/// an absolute path, and no two have the same name or, up to slashes at the
/// end, the same path.
pub open spec fn mounts_in_order(s: MCPGGatewaySpec) -> bool {
    let v = s.secret_mounts@;
    &&& forall|i: int|
        0 <= i < v.len() ==> !blank((#[trigger] v[i]).name@) && v[i].mount_path@.len() > 0
            && v[i].mount_path@[0] == '/'
    &&& forall|i: int, j: int|
        0 <= j < i < v.len() ==> (#[trigger] v[i]).name@ != (#[trigger] v[j]).name@
            && trim_end_char(v[i].mount_path@, '/') != trim_end_char(v[j].mount_path@, '/')
}

proof fn lemma_mounts(s: MCPGGatewaySpec)
    ensures
        gateway::mounts_defect(s.secret_mounts@) is None <==> mounts_in_order(s),
{
    let v = s.secret_mounts@;
    let at = |i: int| gateway::mount_defect(v, i);
    law_first_defect_is_the_first(v.len(), at);
    reveal_strlit("/");
    assert forall|p: Seq<char>| #[trigger] starts_with(p, "/"@) == (p.len() > 0 && p[0] == '/') by {
        if p.len() > 0 {
            assert(p.take(1) =~= seq![p[0]]);
            assert("/"@ =~= seq!['/']);
            if p[0] != '/' {
                assert(p.take(1)[0] != "/"@[0]);
            }
        }
    }
    if first_defect(v.len(), at) is None {
        assert forall|i: int| 0 <= i < v.len() implies !blank((#[trigger] v[i]).name@)
            && v[i].mount_path@.len() > 0 && v[i].mount_path@[0] == '/' by {
            assert(at(i) is None);
        }
        assert forall|i: int, j: int| 0 <= j < i < v.len() implies (#[trigger] v[i]).name@ != (
        #[trigger] v[j]).name@ && trim_end_char(v[i].mount_path@, '/') != trim_end_char(
            v[j].mount_path@,
            '/',
        ) by {
            assert(at(i) is None);
            assert(!gateway::name_repeats(v, i));
            assert(!gateway::path_repeats(v, i));
        }
    } else {
        let i = choose|i: int| 0 <= i < v.len() && (#[trigger] at(i)) is Some;
        assert(at(i) is Some);
        if gateway::name_repeats(v, i) {
            let j = choose|j: int| 0 <= j < i && (#[trigger] v[j]).name@ == v[i].name@;
            assert(v[j].name@ == v[i].name@);
        }
        if gateway::path_repeats(v, i) {
            let j = choose|j: int|
                0 <= j < i && trim_end_char((#[trigger] v[j]).mount_path@, '/') == trim_end_char(
                    v[i].mount_path@,
                    '/',
                );
            assert(v[j] == v[j]);
        }
        assert(v[i] == v[i]);
    }
}

/// Whether a cluster says in its status that it is ready.
pub open spec fn cluster_ready(c: MCPGCluster) -> bool {
    c.status matches Some(s) && exists|i: int|
        0 <= i < s.conditions@.len() && (#[trigger] s.conditions@[i]).type_@ == "Ready"@
            && s.conditions@[i].status@ == "True"@
}

/// The kind of the backend in a config: what its cluster block says, and a
/// single node where the block does not say.
pub proof fn law_inline_backend(config: JsonView)
    ensures
        gateway::inline_kind(config) is Some <==> (get(config, "cluster"@) matches Some(c) && c
            is Object),
        get(config, "cluster"@) matches Some(c) ==> (c is Object ==> gateway::inline_kind(config)
            == Some(
            match get_str(c, "kind"@) {
                Some(k) => k,
                None => "single_node"@,
            },
        )),
{
}

/// A gateway that can have more than one replica is admitted exactly when
/// something coordinates them: a cluster that is there, is ready and is no
/// single node, or a backend in its own config that is no single node. A
/// cluster that the gateway was bound to already, and one that could not be
/// looked up, are not held against it; nor is anything against a gateway that
/// can have one replica only.
pub proof fn law_replicas_are_coordinated(
    gw: MCPGGateway,
    old: Option<MCPGGateway>,
    lookup: ClusterLookup,
)
    ensures
        gateway::coordination_defect(gw, old, lookup) is None <==> {
            ||| gw.spec.replica_ceiling.count <= 1
            ||| gw.spec.cluster_ref is None && (gateway::inline_kind(
                gw.spec.config.view(),
            ) matches Some(k) && k != "single_node"@)
            ||| gw.spec.cluster_ref is Some && (old matches Some(o)
                && o.spec.replica_ceiling.count > 1 && (o.spec.cluster_ref matches Some(r)
                && r.name@ == gw.spec.cluster_ref->0.name@))
            ||| gw.spec.cluster_ref is Some && lookup is Failed
            ||| gw.spec.cluster_ref is Some && (lookup matches ClusterLookup::Found(c)
                && cluster_ready(c) && !c.spec.effectively_single_node)
        },
{
    if let ClusterLookup::Found(c) = lookup {
        if let Some(s) = c.status {
            let v = crate::api::conditions::conditions_view(s.conditions@);
            assert forall|i: int| 0 <= i < v.len() implies #[trigger] v[i].type_
                == s.conditions@[i].type_@ && v[i].status == s.conditions@[i].status@ by {}
            if cluster_ready(c) {
                let i = choose|i: int|
                    0 <= i < s.conditions@.len() && (#[trigger] s.conditions@[i]).type_@
                        == "Ready"@ && s.conditions@[i].status@ == "True"@;
                assert(v[i].type_ == "Ready"@);
            }
            if crate::api::conditions::is_true(v, "Ready"@) {
                let i = choose|i: int|
                    0 <= i < v.len() && (#[trigger] v[i]).type_ == "Ready"@ && v[i].status
                        == "True"@;
                assert(s.conditions@[i].type_@ == "Ready"@);
            }
        }
    }
}

/// A gateway is denied exactly for what it says itself, for how its replicas
/// coordinate, or for growing past the cap of its tenant.
pub proof fn law_gateway_is_denied_for_a_reason(
    gw: MCPGGateway,
    old: Option<MCPGGateway>,
    lookup: ClusterLookup,
    tenants: Option<Seq<MCPGTenant>>,
)
    ensures
        gateway::gateway_defect(gw, old, lookup, tenants) is None <==> gateway::spec_defect(
            gw.spec,
        ) is None && gateway::coordination_defect(gw, old, lookup) is None && replica_defect(
            gw,
            gateway_tenant(gw, tenants),
        ) is None,
{
}

/// The tenant of a namespace is the first that lists it, and there is none
/// exactly when no tenant lists it.
pub proof fn law_owner_lists_the_namespace(tenants: Seq<MCPGTenant>, ns: Seq<char>)
    ensures
        match owner_of(Some(tenants), ns) {
            Some(t) => exists|i: int|
                0 <= i < tenants.len() && #[trigger] tenants[i] == t && texts(
                    t.spec.namespaces@,
                ).contains(ns) && forall|j: int|
                    0 <= j < i ==> !texts((#[trigger] tenants[j]).spec.namespaces@).contains(ns),
            None => forall|i: int|
                0 <= i < tenants.len() ==> !texts(
                    (#[trigger] tenants[i]).spec.namespaces@,
                ).contains(ns),
        },
        owner_of(None, ns) is None,
{
    lemma_owner(tenants, ns);
    if let Some(i) = owner_index(tenants, ns) {
        assert(tenants[i] == tenants[i]);
    }
}

proof fn lemma_owner(tenants: Seq<MCPGTenant>, ns: Seq<char>)
    ensures
        match owner_index(tenants, ns) {
            Some(i) => 0 <= i < tenants.len() && texts(tenants[i].spec.namespaces@).contains(ns)
                && forall|j: int|
                0 <= j < i ==> !texts((#[trigger] tenants[j]).spec.namespaces@).contains(ns),
            None => forall|i: int|
                0 <= i < tenants.len() ==> !texts(
                    (#[trigger] tenants[i]).spec.namespaces@,
                ).contains(ns),
        },
    decreases tenants.len(),
{
    if tenants.len() > 0 {
        let init = tenants.drop_last();
        lemma_owner(init, ns);
        assert forall|j: int| 0 <= j < init.len() implies #[trigger] tenants[j] == init[j] by {}
    }
}

/// A tenant keeps a plugin set out exactly when it does not allow one of the
/// set's plugins; without a tenant, or without a namespace, nothing does.
pub proof fn law_tenant_allows_every_plugin(
    set: MCPGPluginSet,
    t: Option<MCPGTenant>,
    allowed: Seq<bool>,
)
    ensures
        allowlist_defect(set, t, allowed) is None <==> set.metadata@.namespace is None || t is None
            || forall|i: int| 0 <= i < set.spec.entries@.len() ==> #[trigger] allowed[i],
{
    if set.metadata@.namespace is Some && t is Some {
        let ns = set.metadata@.namespace->0;
        let tenant = t->0;
        let n = set.spec.entries@.len();
        let at = |i: int|
            flagged(
                !allowed[i],
                crate::admission::tenant_guard::plugin_denied(set.spec.entries@[i], tenant, ns),
            );
        law_first_defect_is_the_first(n, at);
        assert(allowlist_defect(set, t, allowed) == first_defect(n, at));
        if first_defect(n, at) is None {
            assert forall|i: int| 0 <= i < n implies #[trigger] allowed[i] by {
                assert(at(i) is None);
            }
        } else {
            let i = choose|i: int| 0 <= i < n && (#[trigger] at(i)) is Some;
            assert(!allowed[i]);
        }
    }
}

/// A tenant keeps a gateway out exactly when the gateway can have more replicas
/// than the tenant allows. The tenant is the one of the object's own namespace.
pub proof fn law_tenant_caps_replicas(
    gw: MCPGGateway,
    t: Option<MCPGTenant>,
    tenants: Option<Seq<MCPGTenant>>,
    set: MCPGPluginSet,
)
    ensures
        replica_defect(gw, t) is None <==> (t matches Some(x) ==> (x.spec.quotas matches Some(q)
            ==> (q.max_replicas_per_gateway matches Some(max) ==> gw.spec.replica_ceiling.count
            <= max))),
        gateway_tenant(gw, tenants) == (match gw.metadata@.namespace {
            Some(ns) => owner_of(tenants, ns),
            None => None,
        }),
        set_tenant(set, tenants) == (match set.metadata@.namespace {
            Some(ns) => owner_of(tenants, ns),
            None => None,
        }),
{
}

/// Health and metrics are always served; the webhook of every kind is served
/// with TLS.
pub proof fn law_every_kind_has_its_webhook(l: Listen)
    ensures
        served(l).contains("/metrics"@),
        served(l).contains("/healthz"@),
        served(l).contains("/readyz"@),
        served(l).contains("/reconcilez"@),
        l is Plain ==> served(l).len() == 4,
        l is Tls ==> {
            &&& served(l).contains("/validate-mcpg-dev-v1alpha1-mcpggateway"@)
            &&& served(l).contains("/validate-mcpg-dev-v1alpha1-mcpgrevocationlist"@)
            &&& served(l).contains("/validate-mcpg-dev-v1alpha1-mcpgplugin"@)
            &&& served(l).contains("/validate-mcpg-dev-v1alpha1-mcpgpluginset"@)
            &&& served(l).contains("/validate-mcpg-dev-v1alpha1-mcpgcluster"@)
            &&& served(l).contains("/validate-mcpg-dev-v1alpha1-mcpgroute"@)
            &&& served(l).contains("/validate-mcpg-dev-v1alpha1-mcpgpluginmirror"@)
            &&& served(l).contains("/validate-mcpg-dev-v1alpha1-mcpgtenant"@)
            &&& served(l).contains("/validate-mcpg-dev-v1alpha1-mcpgserver"@)
        },
{
    let p = served(l);
    assert(p[0] == "/metrics"@);
    assert(p[1] == "/healthz"@);
    assert(p[2] == "/readyz"@);
    assert(p[3] == "/reconcilez"@);
    if l is Tls {
        assert(p[4] == "/validate-mcpg-dev-v1alpha1-mcpggateway"@);
        assert(p[5] == "/validate-mcpg-dev-v1alpha1-mcpgrevocationlist"@);
        assert(p[6] == "/validate-mcpg-dev-v1alpha1-mcpgplugin"@);
        assert(p[7] == "/validate-mcpg-dev-v1alpha1-mcpgpluginset"@);
        assert(p[8] == "/validate-mcpg-dev-v1alpha1-mcpgcluster"@);
        assert(p[9] == "/validate-mcpg-dev-v1alpha1-mcpgroute"@);
        assert(p[10] == "/validate-mcpg-dev-v1alpha1-mcpgpluginmirror"@);
        assert(p[11] == "/validate-mcpg-dev-v1alpha1-mcpgtenant"@);
        assert(p[12] == "/validate-mcpg-dev-v1alpha1-mcpgserver"@);
    }
}

/// The tenants and the cluster that an object is judged by are those that were
/// listed and looked up; without any it is judged without them.
pub proof fn law_judged_by_what_was_found(tenants: Vec<MCPGTenant>, c: MCPGCluster)
    ensures
        listed(Some(&tenants)) == Some(tenants@),
        listed(None) is None,
        gateway::looked_up(Some(&c)) == Some(c),
        gateway::looked_up(None) is None,
{
}

} // verus!
