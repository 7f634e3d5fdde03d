//! What holds of a gateway's config, its children and its status.
use vstd::prelude::*;

use crate::api::conditions::{lemma_upserts_are_told, told, ConditionView};
use crate::api::resources::{
    object_ref, MCPGCluster, MCPGGateway, MCPGRevocationList, MCPGRoute, MCPGServer,
    ServerFederate,
};
use crate::clock::time_text;
use crate::controllers::gateway::cluster::{
    cluster_resolved, with_cluster_block, ResolvedCluster,
};
use crate::controllers::gateway::config::{composed_config, trusted_url, with_resource_metadata};
use crate::controllers::gateway::plan::{order, GatewayChild, OptionalChildren};
use crate::controllers::gateway::plugin_set::ResolvedPluginSet;
use crate::controllers::gateway::revocation::{
    list_json, list_resolved, revocation_configmap, target_list, ResolvedRevocationList,
};
use crate::controllers::gateway::routes::{
    config_with_pairs, elements, law_routes_touch_only_rules, route_pairs, rules_path,
};
use crate::controllers::gateway::servers::{
    config_with_server, config_with_servers, federation, federations_path, has_federation,
    law_servers_touch_only_federations, servers_added,
};
use crate::controllers::gateway::status::{
    reports, unresolved_dependencies, DeploymentStatus, GatewayReport,
};
use crate::controllers::gateway::watch::{is_gateway, uses_plugin_set};
use crate::hashing::text_hash;
use crate::json::{
    child, fields_of, get, get_str, integer, law_put_keeps_others, law_put_then_leaf, leaf_at,
    pretty_text, JsonView,
};
use crate::reconcile::flow::Requeue;
use crate::telemetry::ReconcileOutcome;
use crate::text::{decimal_int, opt_text, starts_with};
use crate::text_laws::law_parts_are_found;

verus! {

proof fn lemma_federation_keys()
    ensures
        "name"@ != "upstream"@,
        "name"@ != "naming"@,
        "name"@ != "governance"@,
        "name"@ != "import"@,
        "name"@ != "url"@,
        "name"@ != "upstream_safety"@,
        "name"@ != "protocol_version"@,
        "name"@ != "auth"@,
        "name"@ != "allow_private_backends"@,
        "name"@ != "allow_insecure_http"@,
        "name"@ != "tool_prefix"@,
        "upstream"@ != "naming"@,
        "upstream"@ != "governance"@,
        "upstream"@ != "import"@,
        "upstream"@ != "url"@,
        "upstream"@ != "upstream_safety"@,
        "upstream"@ != "protocol_version"@,
        "upstream"@ != "auth"@,
        "upstream"@ != "allow_private_backends"@,
        "upstream"@ != "allow_insecure_http"@,
        "upstream"@ != "tool_prefix"@,
        "naming"@ != "governance"@,
        "naming"@ != "import"@,
        "naming"@ != "url"@,
        "naming"@ != "upstream_safety"@,
        "naming"@ != "protocol_version"@,
        "naming"@ != "auth"@,
        "naming"@ != "allow_private_backends"@,
        "naming"@ != "allow_insecure_http"@,
        "naming"@ != "tool_prefix"@,
        "governance"@ != "import"@,
        "governance"@ != "url"@,
        "governance"@ != "upstream_safety"@,
        "governance"@ != "protocol_version"@,
        "governance"@ != "auth"@,
        "governance"@ != "allow_private_backends"@,
        "governance"@ != "allow_insecure_http"@,
        "governance"@ != "tool_prefix"@,
        "import"@ != "url"@,
        "import"@ != "upstream_safety"@,
        "import"@ != "protocol_version"@,
        "import"@ != "auth"@,
        "import"@ != "allow_private_backends"@,
        "import"@ != "allow_insecure_http"@,
        "import"@ != "tool_prefix"@,
        "url"@ != "upstream_safety"@,
        "url"@ != "protocol_version"@,
        "url"@ != "auth"@,
        "url"@ != "allow_private_backends"@,
        "url"@ != "allow_insecure_http"@,
        "url"@ != "tool_prefix"@,
        "upstream_safety"@ != "protocol_version"@,
        "upstream_safety"@ != "auth"@,
        "upstream_safety"@ != "allow_private_backends"@,
        "upstream_safety"@ != "allow_insecure_http"@,
        "upstream_safety"@ != "tool_prefix"@,
        "protocol_version"@ != "auth"@,
        "protocol_version"@ != "allow_private_backends"@,
        "protocol_version"@ != "allow_insecure_http"@,
        "protocol_version"@ != "tool_prefix"@,
        "auth"@ != "allow_private_backends"@,
        "auth"@ != "allow_insecure_http"@,
        "auth"@ != "tool_prefix"@,
        "allow_private_backends"@ != "allow_insecure_http"@,
        "allow_private_backends"@ != "tool_prefix"@,
        "allow_insecure_http"@ != "tool_prefix"@,
{
    reveal_strlit("name");
    reveal_strlit("upstream");
    reveal_strlit("naming");
    reveal_strlit("governance");
    reveal_strlit("import");
    reveal_strlit("url");
    reveal_strlit("upstream_safety");
    reveal_strlit("protocol_version");
    reveal_strlit("auth");
    reveal_strlit("allow_private_backends");
    reveal_strlit("allow_insecure_http");
    reveal_strlit("tool_prefix");
    assert("name"@.len() == 4);
    assert("upstream"@.len() == 8);
    assert("naming"@.len() == 6);
    assert("governance"@.len() == 10);
    assert("import"@.len() == 6);
    assert("url"@.len() == 3);
    assert("upstream_safety"@.len() == 15);
    assert("protocol_version"@.len() == 16);
    assert("auth"@.len() == 4);
    assert("allow_private_backends"@.len() == 22);
    assert("allow_insecure_http"@.len() == 19);
    assert("tool_prefix"@.len() == 11);
    assert("name"@[0] == 'n');
    assert("auth"@[0] == 'a');
    assert("naming"@[0] == 'n');
    assert("import"@[0] == 'i');
}

/// Whether a federation leads to an endpoint: its calls go there, and the
/// private address and the plain HTTP of a Service in the cluster are allowed.
pub open spec fn leads_to(fed: JsonView, endpoint: Seq<char>) -> bool {
    &&& get(fed, "upstream"@) matches Some(up)
    &&& get_str(up, "url"@) == Some(endpoint)
    &&& get(up, "upstream_safety"@) matches Some(safety)
    &&& get(safety, "allow_insecure_http"@) == Some(JsonView::Bool(true))
    &&& get(safety, "allow_private_backends"@) == Some(JsonView::Bool(true))
}

/// A federation carries the server's name and leads to its endpoint, over the
/// transport that the endpoint needs. It takes over the credentials, the
/// governance and the imports that the server declares, and adds none; its
/// tools have the declared prefix, or the name and a dot.
pub proof fn law_federation_reaches_its_server(
    name: Seq<char>,
    endpoint: Seq<char>,
    f: ServerFederate,
)
    ensures
        ({
            let fed = federation(name, endpoint, f);
            &&& get_str(fed, "name"@) == Some(name)
            &&& leads_to(fed, endpoint)
            &&& get(fed, "upstream"@) matches Some(up)
            &&& get_str(up, "protocol_version"@) == Some("auto"@)
            &&& f.auth matches Some(a) ==> get(up, "auth"@) == Some(a.view())
            &&& f.auth is None ==> get(up, "auth"@) is None
            &&& f.governance matches Some(g) ==> get(fed, "governance"@) == Some(g.view())
            &&& f.governance is None ==> get(fed, "governance"@) is None
            &&& f.import matches Some(g) ==> get(fed, "import"@) == Some(g.view())
            &&& f.import is None ==> get(fed, "import"@) is None
            &&& get(fed, "naming"@) matches Some(naming)
            &&& f.tool_prefix matches Some(p) ==> get_str(naming, "tool_prefix"@) == Some(p@)
            &&& f.tool_prefix is None ==> get_str(naming, "tool_prefix"@) == Some(name + "."@)
        }),
{
    lemma_federation_keys();
}

/// Whether a server asks to join the gateway of this name in this namespace.
pub open spec fn asks_to_join(s: MCPGServer, gateway: Seq<char>, namespace: Seq<char>) -> bool {
    &&& s.metadata@.namespace == Some(namespace)
    &&& s.spec.federate matches Some(f) && f.gateway_ref.name@ == gateway
}

/// The federations in a config.
pub open spec fn federations(config: JsonView) -> Seq<JsonView> {
    elements(leaf_at(config, seq!["mcp"@, "federations"@]))
}

proof fn lemma_one_server(config: JsonView, s: MCPGServer, gateway: Seq<char>, ns: Seq<char>)
    ensures
        ({
            let r = federations(config_with_server(config, s, gateway, ns));
            let named = has_federation(federations(config), s.spec.federation_name@);
            if asks_to_join(s, gateway, ns) && !named {
                r == federations(config).push(
                    federation(s.spec.federation_name@, s.spec.endpoint@, s.spec.federate->0),
                )
            } else {
                r == federations(config)
            }
        }),
{
    let p = federations_path();
    assert(p =~= seq!["mcp"@, "federations"@]);
    let feds = federations(config);
    law_put_then_leaf(config, p, JsonView::Array(feds));
    law_put_then_leaf(
        config,
        p,
        JsonView::Array(
            feds.push(
                federation(s.spec.federation_name@, s.spec.endpoint@, s.spec.federate->0),
            ),
        ),
    );
}

/// Every server that asks to join has a federation of its name afterwards: its
/// own, or one that was there before it.
pub proof fn law_every_joining_server_is_federated(
    config: JsonView,
    servers: Seq<MCPGServer>,
    gateway: Seq<char>,
    ns: Seq<char>,
    k: int,
)
    requires
        0 <= k < servers.len(),
        asks_to_join(servers[k], gateway, ns),
    ensures
        exists|i: int|
            0 <= i < federations(config_with_servers(config, servers, gateway, ns)).len()
                && get_str(
                #[trigger] federations(config_with_servers(config, servers, gateway, ns))[i],
                "name"@,
            ) == Some(servers[k].spec.federation_name@),
    decreases servers.len(),
{
    let init = servers.drop_last();
    let mid = config_with_servers(config, init, gateway, ns);
    let s = servers.last();
    lemma_one_server(mid, s, gateway, ns);
    let before = federations(mid);
    let after = federations(config_with_servers(config, servers, gateway, ns));
    if k < servers.len() - 1 {
        assert(init[k] == servers[k]);
        law_every_joining_server_is_federated(config, init, gateway, ns, k);
        let i = choose|i: int|
            0 <= i < before.len() && get_str(#[trigger] before[i], "name"@) == Some(
                servers[k].spec.federation_name@,
            );
        assert(after[i] == before[i]);
    } else {
        if has_federation(before, s.spec.federation_name@) {
            let i = choose|i: int|
                0 <= i < before.len() && get_str(#[trigger] before[i], "name"@) == Some(
                    s.spec.federation_name@,
                );
            assert(after[i] == before[i]);
        } else {
            law_federation_reaches_its_server(
                s.spec.federation_name@,
                s.spec.endpoint@,
                s.spec.federate->0,
            );
            let i = before.len() as int;
            assert(get_str(after[i], "name"@) == Some(s.spec.federation_name@));
        }
    }
}

/// What servers add are federations of servers that ask to join, each under
/// its server's name and leading to its endpoint; there are as many of them as
/// are counted, and nothing that was there before is lost.
pub proof fn law_only_joining_servers_are_federated(
    config: JsonView,
    servers: Seq<MCPGServer>,
    gateway: Seq<char>,
    ns: Seq<char>,
)
    ensures
        ({
            let before = federations(config);
            let after = federations(config_with_servers(config, servers, gateway, ns));
            &&& after.len() == before.len() + servers_added(config, servers, gateway, ns)
            &&& forall|i: int| 0 <= i < before.len() ==> #[trigger] after[i] == before[i]
            &&& forall|i: int|
                before.len() <= i < after.len() ==> exists|k: int|
                    {
                        &&& 0 <= k < servers.len()
                        &&& asks_to_join(#[trigger] servers[k], gateway, ns)
                        &&& get_str(#[trigger] after[i], "name"@) == Some(
                            servers[k].spec.federation_name@,
                        )
                        &&& leads_to(after[i], servers[k].spec.endpoint@)
                    }
        }),
    decreases servers.len(),
{
    let before = federations(config);
    let after = federations(config_with_servers(config, servers, gateway, ns));
    if servers.len() > 0 {
        let init = servers.drop_last();
        let mid = config_with_servers(config, init, gateway, ns);
        let m = federations(mid);
        let s = servers.last();
        law_only_joining_servers_are_federated(config, init, gateway, ns);
        lemma_one_server(mid, s, gateway, ns);
        assert(federations_path() =~= seq!["mcp"@, "federations"@]);
        assert forall|i: int| 0 <= i < before.len() implies #[trigger] after[i] == before[i] by {
            assert(m[i] == before[i]);
        }
        assert forall|i: int| before.len() <= i < after.len() implies exists|k: int|
            {
                &&& 0 <= k < servers.len()
                &&& asks_to_join(#[trigger] servers[k], gateway, ns)
                &&& get_str(#[trigger] after[i], "name"@) == Some(servers[k].spec.federation_name@)
                &&& leads_to(after[i], servers[k].spec.endpoint@)
            } by {
            if i < m.len() {
                assert(after[i] == m[i]);
                let k = choose|k: int|
                    {
                        &&& 0 <= k < init.len()
                        &&& asks_to_join(#[trigger] init[k], gateway, ns)
                        &&& get_str(m[i], "name"@) == Some(init[k].spec.federation_name@)
                        &&& leads_to(m[i], init[k].spec.endpoint@)
                    };
                assert(asks_to_join(servers[k], gateway, ns));
            } else {
                let k = servers.len() - 1;
                law_federation_reaches_its_server(
                    s.spec.federation_name@,
                    s.spec.endpoint@,
                    s.spec.federate->0,
                );
                assert(asks_to_join(servers[k], gateway, ns));
            }
        }
    }
}

proof fn lemma_list_keys()
    ensures
        "artifact_sha256"@ != "reason"@,
        "artifact_sha256"@ != "revoked_at"@,
        "artifact_sha256"@ != "version"@,
        "artifact_sha256"@ != "issued_at"@,
        "artifact_sha256"@ != "revocations"@,
        "reason"@ != "revoked_at"@,
        "reason"@ != "version"@,
        "reason"@ != "issued_at"@,
        "reason"@ != "revocations"@,
        "revoked_at"@ != "version"@,
        "revoked_at"@ != "issued_at"@,
        "revoked_at"@ != "revocations"@,
        "version"@ != "issued_at"@,
        "version"@ != "revocations"@,
        "issued_at"@ != "revocations"@,
{
    reveal_strlit("artifact_sha256");
    reveal_strlit("reason");
    reveal_strlit("revoked_at");
    reveal_strlit("version");
    reveal_strlit("issued_at");
    reveal_strlit("revocations");
    assert("artifact_sha256"@.len() == 15);
    assert("reason"@.len() == 6);
    assert("revoked_at"@.len() == 10);
    assert("version"@.len() == 7);
    assert("issued_at"@.len() == 9);
    assert("revocations"@.len() == 11);
}

/// Every revocation of a list stands in the document that gateways read, in
/// its place: the document has as many entries as the list, and each has the
/// digest, the reason and the time of the revocation at its position.
pub proof fn law_every_revocation_is_in_the_document(rl: MCPGRevocationList, i: int)
    requires
        0 <= i < rl.spec.revocations@.len(),
    ensures
        get(list_json(rl), "revocations"@) matches Some(JsonView::Array(items)) && {
            &&& items.len() == rl.spec.revocations@.len()
            &&& get_str(items[i], "artifact_sha256"@) == Some(
                rl.spec.revocations@[i].artifact_sha256@,
            )
            &&& get_str(items[i], "reason"@) == Some(rl.spec.revocations@[i].reason@)
            &&& rl.spec.revocations@[i].revoked_at is None ==> get(items[i], "revoked_at"@)
                == Some(JsonView::Null)
            &&& rl.spec.revocations@[i].revoked_at is Some ==> get_str(items[i], "revoked_at"@)
                == time_text(rl.spec.revocations@[i].revoked_at)
        },
{
    lemma_list_keys();
}

/// The document has the version of the list and the time of its issue, and
/// nothing is revoked in it that is not revoked in the list.
pub proof fn law_document_revokes_nothing_else(rl: MCPGRevocationList, digest: Seq<char>)
    ensures
        get(list_json(rl), "version"@) == Some(JsonView::Number(integer(rl.spec.version as u64))),
        rl.spec.issued_at is None ==> get(list_json(rl), "issued_at"@) == Some(JsonView::Null),
        rl.spec.issued_at is Some ==> get_str(list_json(rl), "issued_at"@) == time_text(
            rl.spec.issued_at,
        ),
        get(list_json(rl), "revocations"@) matches Some(JsonView::Array(items)) && ((exists|i: int|
            0 <= i < items.len() && get_str(#[trigger] items[i], "artifact_sha256"@) == Some(
                digest,
            )) <==> (exists|i: int|
            0 <= i < rl.spec.revocations@.len() && (
            #[trigger] rl.spec.revocations@[i]).artifact_sha256@ == digest)),
{
    lemma_list_keys();
    let items = get(list_json(rl), "revocations"@)->0->Array_0;
    assert forall|i: int| 0 <= i < items.len() implies get_str(
        #[trigger] items[i],
        "artifact_sha256"@,
    ) == Some(rl.spec.revocations@[i].artifact_sha256@) by {}
    if exists|i: int|
        0 <= i < rl.spec.revocations@.len() && (
        #[trigger] rl.spec.revocations@[i]).artifact_sha256@ == digest {
        let i = choose|i: int|
            0 <= i < rl.spec.revocations@.len() && (
            #[trigger] rl.spec.revocations@[i]).artifact_sha256@ == digest;
        assert(get_str(items[i], "artifact_sha256"@) == Some(digest));
    }
}

proof fn lemma_map_labels()
    ensures
        "app.kubernetes.io/managed-by"@ != "mcpg.dev/gateway"@,
        "app.kubernetes.io/managed-by"@ != "mcpg.dev/revocation-list-hash"@,
        "mcpg.dev/gateway"@ != "mcpg.dev/revocation-list-hash"@,
{
    reveal_strlit("app.kubernetes.io/managed-by");
    reveal_strlit("mcpg.dev/gateway");
    reveal_strlit("mcpg.dev/revocation-list-hash");
    assert("app.kubernetes.io/managed-by"@.len() == 28);
    assert("mcpg.dev/gateway"@.len() == 16);
    assert("mcpg.dev/revocation-list-hash"@.len() == 29);
}

/// The ConfigMap of a gateway's revocation list stands beside the gateway,
/// holds the document under the key that pods read, carries its hash, and goes
/// when the gateway goes.
pub proof fn law_list_is_mounted_from_its_map(
    gw: MCPGGateway,
    name: Seq<char>,
    json: Seq<char>,
    hash: Seq<char>,
)
    ensures
        ({
            let c = revocation_configmap(gw, name, json, hash);
            &&& c.metadata.name == Some(name)
            &&& c.metadata.namespace == gw.metadata@.namespace
            &&& c.data.dom().contains("list.json"@) && c.data["list.json"@] == json
            &&& c.metadata.labels matches Some(labels)
            &&& labels.dom().contains("mcpg.dev/revocation-list-hash"@)
            &&& labels["mcpg.dev/revocation-list-hash"@] == hash
            &&& c.metadata.owner_references matches Some(owners)
            &&& owners.len() == 1
            &&& owners[0].kind == "MCPGGateway"@
            &&& gw.metadata@.name matches Some(n) ==> owners[0].name == n
                && labels.dom().contains("mcpg.dev/gateway"@) && labels["mcpg.dev/gateway"@] == n
            &&& gw.metadata@.uid matches Some(u) ==> owners[0].uid == u
        }),
{
    lemma_map_labels();
}

proof fn lemma_truth()
    ensures
        "True"@ != "False"@,
{
    reveal_strlit("True");
    reveal_strlit("False");
    assert("True"@.len() == 4);
    assert("False"@.len() == 5);
}

/// A gateway goes by the list that it names, and by the list of the cluster
/// where it names none. What was found is mounted under the gateway's name with
/// the hash of its document, and is reported as ready exactly when its
/// ConfigMap was applied. A list that the gateway names and that is missing is
/// reported; the list of the cluster may be missing.
pub proof fn law_gateway_goes_by_its_list(
    gw: MCPGGateway,
    rl: Option<MCPGRevocationList>,
    applied: Result<(), String>,
    r: Option<ResolvedRevocationList>,
)
    requires
        list_resolved(gw, rl, applied, r),
    ensures
        gw.spec.revocation_list_ref matches Some(l) ==> target_list(gw) == l.name@,
        gw.spec.revocation_list_ref is None ==> target_list(gw) == "cluster-default"@,
        rl matches Some(l) ==> {
            &&& r matches Some(x)
            &&& gw.metadata@.name matches Some(n) ==> x.mount.config_map_name@ == n
                + "-revocations"@
            &&& x.mount.content_hash@ == text_hash(pretty_text(list_json(l)))
            &&& x.condition@.status == "True"@ <==> applied is Ok
            &&& x.condition@.type_ == "RevocationListReady"@
        },
        rl is None && gw.spec.revocation_list_ref is Some ==> {
            &&& r matches Some(x)
            &&& x.condition@.status == "False"@
            &&& x.mount.config_map_name@.len() == 0
        },
        rl is None && gw.spec.revocation_list_ref is None ==> r is None,
{
    lemma_truth();
}

/// A gateway takes the block of the cluster that it names exactly when that
/// cluster is there and says that it is ready; its condition says so, and
/// otherwise the gateway keeps the config it has.
pub proof fn law_gateway_takes_a_ready_cluster(
    gw: MCPGGateway,
    c: Option<MCPGCluster>,
    r: Option<ResolvedCluster>,
)
    requires
        cluster_resolved(gw, c, r),
    ensures
        r is Some <==> gw.spec.cluster_ref is Some,
        r matches Some(x) ==> {
            let ready = c matches Some(c) && c.status matches Some(s) && exists|i: int|
                0 <= i < s.conditions@.len() && (#[trigger] s.conditions@[i]).type_@ == "Ready"@
                    && s.conditions@[i].status@ == "True"@;
            &&& ready ==> x.cluster_block.view() == c->0.spec.rendered_block.view()
            &&& !ready ==> x.cluster_block.view() == JsonView::Null
            &&& x.condition@.status == "True"@ <==> ready
            &&& x.condition@.type_ == "ClusterReady"@
        },
{
    lemma_truth();
    if let Some(c) = c {
        if let Some(s) = c.status {
            let v = crate::api::conditions::conditions_view(s.conditions@);
            assert forall|i: int| 0 <= i < v.len() implies #[trigger] v[i].type_
                == s.conditions@[i].type_@ && v[i].status == s.conditions@[i].status@ by {}
            if exists|i: int|
                0 <= i < s.conditions@.len() && (#[trigger] s.conditions@[i]).type_@ == "Ready"@
                    && s.conditions@[i].status@ == "True"@ {
                let i = choose|i: int|
                    0 <= i < s.conditions@.len() && (#[trigger] s.conditions@[i]).type_@
                        == "Ready"@ && s.conditions@[i].status@ == "True"@;
                assert(v[i].type_ == "Ready"@);
            }
            if exists|i: int|
                0 <= i < v.len() && (#[trigger] v[i]).type_ == "Ready"@ && v[i].status == "True"@ {
                let i = choose|i: int|
                    0 <= i < v.len() && (#[trigger] v[i]).type_ == "Ready"@ && v[i].status
                        == "True"@;
                assert(s.conditions@[i].type_@ == "Ready"@);
            }
        }
    }
}

proof fn lemma_path_keys()
    ensures
        "governance"@ != "mcp"@,
        "governance"@ != "cluster"@,
        "governance"@ != "policy"@,
        "governance"@ != "access"@,
        "mcp"@ != "cluster"@,
        "mcp"@ != "policy"@,
        "mcp"@ != "access"@,
        "cluster"@ != "policy"@,
        "cluster"@ != "access"@,
        "policy"@ != "access"@,
{
    reveal_strlit("governance");
    reveal_strlit("mcp");
    reveal_strlit("cluster");
    reveal_strlit("policy");
    reveal_strlit("access");
    assert("governance"@.len() == 10);
    assert("mcp"@.len() == 3);
    assert("cluster"@.len() == 7);
    assert("policy"@.len() == 6);
    assert("access"@.len() == 6);
    assert("policy"@[0] == 'p');
    assert("access"@[0] == 'a');
}

/// Nothing that goes into a gateway's config is lost on the way: the block of
/// its cluster, the rules of its routes and the federations of its servers
/// stand in the composed config as each was put in. Whatever else the config
/// says stays as it was.
pub proof fn law_composed_config_holds_every_part(
    gw: MCPGGateway,
    ns: Seq<char>,
    base: JsonView,
    block: JsonView,
    routes: Seq<MCPGRoute>,
    servers: Seq<MCPGServer>,
    key: Seq<char>,
)
    ensures
        ({
            let name = crate::api::objects::or_empty(gw.metadata@.name);
            let routed = config_with_pairs(
                with_cluster_block(base, block),
                route_pairs(
                    routes,
                    name,
                    ns,
                    crate::text::texts(gw.spec.accepted_route_namespaces@),
                ),
            );
            let r = composed_config(gw, ns, base, block, routes, servers);
            let rules = seq!["governance"@, "policy"@, "tool_access"@, "rules"@];
            &&& !(block is Null) ==> leaf_at(r, seq!["cluster"@]) == block
            &&& leaf_at(r, rules) == leaf_at(routed, rules)
            &&& federations(r) == federations(config_with_servers(routed, servers, name, ns))
            &&& key != "governance"@ && key != "mcp"@ && key != "cluster"@ ==> leaf_at(
                r,
                seq![key],
            ) == leaf_at(base, seq![key])
        }),
{
    lemma_path_keys();
    let name = crate::api::objects::or_empty(gw.metadata@.name);
    let accepted = crate::text::texts(gw.spec.accepted_route_namespaces@);
    let p = route_pairs(routes, name, ns, accepted);
    let bound = with_cluster_block(base, block);
    let routed = config_with_pairs(bound, p);
    let federated = config_with_servers(routed, servers, name, ns);
    let r = composed_config(gw, ns, base, block, routes, servers);
    let rules = seq!["governance"@, "policy"@, "tool_access"@, "rules"@];
    let feds = seq!["mcp"@, "federations"@];
    assert(rules_path() =~= rules);
    assert(federations_path() =~= feds);
    lemma_stamp(federated, gw, feds, 0);
    lemma_stamp(federated, gw, rules, 1);
    lemma_servers_leave(routed, servers, name, ns, rules);
    let c = seq!["cluster"@];
    lemma_stamp(federated, gw, c, 0);
    lemma_servers_leave(routed, servers, name, ns, c);
    assert(rules_path().take(0) =~= c.take(0));
    law_routes_touch_only_rules(bound, p, c, 0);
    lemma_single(bound, "cluster"@);
    let k = seq![key];
    if key != "governance"@ && key != "mcp"@ && key != "cluster"@ {
        lemma_stamp(federated, gw, k, 0);
        lemma_servers_leave(routed, servers, name, ns, k);
        assert(rules_path().take(0) =~= k.take(0));
        law_routes_touch_only_rules(bound, p, k, 0);
        lemma_single(bound, key);
        lemma_single(base, key);
    }
}

proof fn lemma_single(j: JsonView, key: Seq<char>)
    ensures
        leaf_at(j, seq![key]) == child(j, key),
{
    reveal_with_fuel(leaf_at, 2);
    assert(seq![key].skip(1) =~= Seq::empty());
}

proof fn lemma_servers_leave(
    config: JsonView,
    servers: Seq<MCPGServer>,
    gateway: Seq<char>,
    ns: Seq<char>,
    other: Seq<Seq<char>>,
)
    requires
        other.len() > 0,
        other[0] != "mcp"@,
    ensures
        leaf_at(config_with_servers(config, servers, gateway, ns), other) == leaf_at(config, other),
{
    assert(federations_path().take(0) =~= other.take(0));
    law_servers_touch_only_federations(config, servers, gateway, ns, other, 0);
}

proof fn lemma_stamp(config: JsonView, gw: MCPGGateway, other: Seq<Seq<char>>, at: int)
    requires
        0 <= at < 2,
        at < other.len(),
        at == 0 ==> other[0] != "governance"@,
        at == 1 ==> other[0] == "governance"@ && other[1] != "access"@,
    ensures
        trusted_url(gw) matches Some(url) ==> leaf_at(with_resource_metadata(config, url), other)
            == leaf_at(config, other),
{
    let p = crate::controllers::gateway::config::resource_metadata_path();
    assert(p.take(at) =~= other.take(at));
    if let Some(url) = trusted_url(gw) {
        law_put_keeps_others(
            config,
            p,
            JsonView::Object(fields_of(leaf_at(config, p)).insert("resource"@, JsonView::Str(url))),
            other,
            at,
        );
    }
}

/// The resource indicator is a matter of trust: a managed-cloud gateway with
/// an external URL gets exactly that URL at the path that the gateway reads,
/// and any other keeps what its own config says.
pub proof fn law_indicator_is_the_external_url(
    gw: MCPGGateway,
    ns: Seq<char>,
    base: JsonView,
    block: JsonView,
    routes: Seq<MCPGRoute>,
    servers: Seq<MCPGServer>,
)
    ensures
        ({
            let path = seq!["governance"@, "access"@, "resource_metadata"@, "resource"@];
            let r = composed_config(gw, ns, base, block, routes, servers);
            match gw.spec.cloud {
                Some(c) => if c.external_url@.len() > 0 {
                    leaf_at(r, path) == JsonView::Str(c.external_url@)
                } else {
                    leaf_at(r, path) == leaf_at(with_cluster_block(base, block), path)
                },
                None => leaf_at(r, path) == leaf_at(with_cluster_block(base, block), path),
            }
        }),
{
    lemma_path_keys();
    let path = seq!["governance"@, "access"@, "resource_metadata"@, "resource"@];
    crate::controllers::gateway::config::law_composed_indicator(
        gw,
        ns,
        base,
        block,
        routes,
        servers,
    );
    assert(crate::controllers::gateway::config::resource_metadata_path().push("resource"@) =~= path);
    let name = crate::api::objects::or_empty(gw.metadata@.name);
    let accepted = crate::text::texts(gw.spec.accepted_route_namespaces@);
    let p = route_pairs(routes, name, ns, accepted);
    let bound = with_cluster_block(base, block);
    lemma_servers_leave(config_with_pairs(bound, p), servers, name, ns, path);
    assert(rules_path().take(1) =~= path.take(1));
    law_routes_touch_only_rules(bound, p, path, 1);
}

/// The children of a gateway are complete and in order: each of those that
/// every gateway has is applied once, each optional one exactly when the
/// gateway has it; the config comes first, and so before the Deployment that
/// mounts it, and the route comes before the listeners that it binds to.
pub proof fn law_children_are_complete_and_in_order(has: OptionalChildren, c: GatewayChild)
    ensures
        order(has).contains(c) <==> match c {
            GatewayChild::HttpRoute => has.http_route,
            GatewayChild::Autoscaler => has.autoscaler,
            GatewayChild::DisruptionBudget => has.disruption_budget,
            _ => true,
        },
        order(has).no_duplicates(),
        order(has)[0] == GatewayChild::ConfigMap,
        exists|i: int| 1 < i < order(has).len() && #[trigger] order(has)[i]
            == GatewayChild::Deployment && order(has)[i - 1] == GatewayChild::ServiceAccount,
        has.http_route ==> exists|i: int, j: int|
            0 <= i < j < order(has).len() && #[trigger] order(has)[i] == GatewayChild::HttpRoute
                && #[trigger] order(has)[j] == GatewayChild::EdgeDomains,
{
    let o = order(has);
    assert(o[0] == GatewayChild::ConfigMap);
    assert(o[1] == GatewayChild::Service);
    assert(o[2] == GatewayChild::ServiceAccount);
    assert(o[3] == GatewayChild::Deployment);
    let e: int = if has.http_route {
        assert(o[4] == GatewayChild::HttpRoute);
        5
    } else {
        4
    };
    assert(o[e] == GatewayChild::EdgeDomains);
    let a: int = if has.autoscaler {
        assert(o[e + 1] == GatewayChild::Autoscaler);
        e + 2
    } else {
        e + 1
    };
    if has.disruption_budget {
        assert(o[a] == GatewayChild::DisruptionBudget);
        assert(o.len() == a + 1);
    } else {
        assert(o.len() == a);
    }
}

proof fn lemma_gateway_types()
    ensures
        "Ready"@ != "Available"@,
        "Ready"@ != "Progressing"@,
        "Ready"@ != "True"@,
        "Ready"@ != "False"@,
        "Ready"@ != "PluginSetReady"@,
        "Ready"@ != "RevocationListReady"@,
        "Ready"@ != "ClusterReady"@,
        "Available"@ != "Progressing"@,
        "Available"@ != "True"@,
        "Available"@ != "False"@,
        "Available"@ != "PluginSetReady"@,
        "Available"@ != "RevocationListReady"@,
        "Available"@ != "ClusterReady"@,
        "Progressing"@ != "True"@,
        "Progressing"@ != "False"@,
        "Progressing"@ != "PluginSetReady"@,
        "Progressing"@ != "RevocationListReady"@,
        "Progressing"@ != "ClusterReady"@,
        "True"@ != "False"@,
        "True"@ != "PluginSetReady"@,
        "True"@ != "RevocationListReady"@,
        "True"@ != "ClusterReady"@,
        "False"@ != "PluginSetReady"@,
        "False"@ != "RevocationListReady"@,
        "False"@ != "ClusterReady"@,
        "PluginSetReady"@ != "RevocationListReady"@,
        "PluginSetReady"@ != "ClusterReady"@,
        "RevocationListReady"@ != "ClusterReady"@,
{
    reveal_strlit("Ready");
    reveal_strlit("Available");
    reveal_strlit("Progressing");
    reveal_strlit("True");
    reveal_strlit("False");
    reveal_strlit("PluginSetReady");
    reveal_strlit("RevocationListReady");
    reveal_strlit("ClusterReady");
    assert("Ready"@.len() == 5);
    assert("Available"@.len() == 9);
    assert("Progressing"@.len() == 11);
    assert("True"@.len() == 4);
    assert("False"@.len() == 5);
    assert("PluginSetReady"@.len() == 14);
    assert("RevocationListReady"@.len() == 19);
    assert("ClusterReady"@.len() == 12);
    assert("Ready"@[0] == 'R');
    assert("False"@[0] == 'F');
}

/// A gateway is reported ready exactly when as many replicas are available as
/// it asks for, and at least one. Its status carries the counts of its
/// Deployment, the hashes of what it runs with, and the generation that was
/// reconciled. The reconcile waits for its dependencies exactly when its plugin
/// set cannot be used or its revocation list is not ready.
pub proof fn law_gateway_reports_its_rollout(
    gw: MCPGGateway,
    generation: i64,
    d: DeploymentStatus,
    set: Option<ResolvedPluginSet>,
    list: Option<ResolvedRevocationList>,
    cluster: Option<ResolvedCluster>,
    hash: Seq<char>,
    r: GatewayReport,
)
    requires
        reports(gw, generation, d, set, list, cluster, hash, r),
        set matches Some(s) ==> s.condition@.type_ == "PluginSetReady"@,
        list matches Some(l) ==> l.condition@.type_ == "RevocationListReady"@,
        cluster matches Some(c) ==> c.condition@.type_ == "ClusterReady"@,
    ensures
        ({
            let c = crate::api::conditions::conditions_view(r.status.conditions@);
            let full = d.available_replicas matches Some(n) && n > 0 && n == gw.spec.replicas;
            &&& told(c, "Ready"@) matches Some(ready)
            &&& ready.status == (if full {
                "True"@
            } else {
                "False"@
            })
            &&& ready.observed_generation == Some(generation)
            &&& full ==> ready.reason == "AllReplicasAvailable"@
            &&& full ==> (told(c, "Available"@) matches Some(a) && a.status == "True"@ && a.reason
                == "PodsReady"@ && a.observed_generation == Some(generation))
            &&& !full ==> ready.reason == "Progressing"@ && starts_with(
                ready.message,
                decimal_int(reported_or_none(d.available_replicas)) + "/"@ + decimal_int(
                    gw.spec.replicas as int,
                ),
            )
            &&& !full ==> (told(c, "Progressing"@) matches Some(a) && a.status == "True"@
                && a.observed_generation == Some(generation))
            &&& r.event is Some <==> full
            &&& r.event matches Some(e) ==> e@.reason == "Reconciled"@ && e@.type_ is Normal
            &&& set matches Some(s) ==> told(c, "PluginSetReady"@) matches Some(x) && x.status
                == s.condition@.status && x.reason == s.condition@.reason
                && x.observed_generation == Some(generation)
            &&& list matches Some(l) ==> told(c, "RevocationListReady"@) matches Some(x)
                && x.status == l.condition@.status && x.reason == l.condition@.reason
                && x.observed_generation == Some(generation)
            &&& cluster matches Some(l) ==> told(c, "ClusterReady"@) matches Some(x) && x.status
                == l.condition@.status && x.reason == l.condition@.reason
                && x.observed_generation == Some(generation)
        }),
        r.status.observed_generation == Some(generation),
        r.status.replicas matches Some(n) && n == reported_or_none(d.replicas),
        r.status.ready_replicas matches Some(n) && n == reported_or_none(d.ready_replicas),
        r.status.updated_replicas matches Some(n) && n == reported_or_none(d.updated_replicas),
        r.status.available_replicas matches Some(n) && n == reported_or_none(d.available_replicas),
        opt_text(r.status.config_hash) == Some(hash),
        set matches Some(s) ==> opt_text(r.status.plugin_set_hash) == Some(s.resolved_hash@),
        list matches Some(l) ==> opt_text(r.status.revocation_list_hash) == Some(
            l.mount.content_hash@,
        ),
        set is None ==> r.status.plugin_set_hash is None,
        list is None ==> r.status.revocation_list_hash is None,
        r.verdict.requeue == Requeue::Resync,
        r.verdict.outcome == (if (set matches Some(s) && s.view is None) || (list matches Some(l)
            && l.condition@.status != "True"@) {
            ReconcileOutcome::DependencyPending
        } else {
            ReconcileOutcome::Success
        }),
{
    lemma_gateway_types();
    lemma_upserts_are_told();
    let counts = decimal_int(reported_or_none(d.available_replicas)) + "/"@ + decimal_int(
        gw.spec.replicas as int,
    );
    law_parts_are_found(Seq::empty(), counts, " replicas available"@);
}

/// How many replicas a count stands for: none where there is no count.
pub open spec fn reported_or_none(n: Option<i32>) -> int {
    match n {
        Some(k) => k as int,
        None => 0,
    }
}

/// The series of unresolved dependencies name the plugin set, the revocation list
/// and the cluster, in this order, each with the reason of its condition: the set
/// where it could not be used, the others where their condition is not true.
pub proof fn law_unresolved_dependencies_are_named(
    missing: bool,
    set: Option<ConditionView>,
    list: Option<ConditionView>,
    cluster: Option<ConditionView>,
)
    requires
        missing ==> set is Some,
    ensures
        ({
            let d = unresolved_dependencies(missing, set, list, cluster);
            let lacks_list = list matches Some(c) && c.status != "True"@;
            let lacks_cluster = cluster matches Some(c) && c.status != "True"@;
            let a = if missing {
                1int
            } else {
                0int
            };
            let b = if lacks_list {
                a + 1
            } else {
                a
            };
            &&& missing ==> d[0] == ("gateway"@, "MCPGPluginSet"@, set->0.reason)
            &&& lacks_list ==> d[a] == ("gateway"@, "MCPGRevocationList"@, list->0.reason)
            &&& lacks_cluster ==> d[b] == ("gateway"@, "MCPGCluster"@, cluster->0.reason)
            &&& d.len() == (if lacks_cluster {
                b + 1
            } else {
                b
            })
        }),
{
}

/// A gateway is concerned by exactly the plugin set that it names in its own
/// namespace; a route or a server concerns exactly the gateway of the name and
/// the namespace that it targets; and it is told of by name and namespace.
pub proof fn law_changes_concern_their_gateway(
    gw: MCPGGateway,
    ns: Option<Seq<char>>,
    name: Seq<char>,
    gateway_ns: Seq<char>,
)
    ensures
        uses_plugin_set(gw, ns, name) <==> {
            &&& gw.metadata@.namespace == ns
            &&& gw.spec.plugin_set_ref matches Some(r) && r.name@ == name
        },
        gw.metadata@.name matches Some(n) ==> (is_gateway(gw, name, gateway_ns) <==> n == name
            && gw.metadata@.namespace == Some(gateway_ns)),
        gw.metadata@.name matches Some(n) ==> object_ref(gw.metadata).name == n,
        object_ref(gw.metadata).namespace == gw.metadata@.namespace,
{
}

} // verus!
