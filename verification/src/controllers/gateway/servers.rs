//! Provisioned MCP servers become federations of the gateway they name.
use vstd::prelude::*;

use crate::api::resources::{MCPGServer, ServerFederate};
use crate::controllers::gateway::routes::elements;
use crate::json::{
    ensure_path, get_str, items_view, leaf_at, lemma_items, put_at, Json, JsonView,
};
use crate::text::{opt_text, same};

verus! {

/// Whether a server joins the gateway: it stands in the gateway's namespace
/// and names it.
pub open spec fn server_joins(
    s: MCPGServer,
    gateway_name: Seq<char>,
    gateway_ns: Seq<char>,
) -> bool {
    match s.metadata.namespace {
        Some(ns) => ns@ == gateway_ns && match s.spec.federate {
            Some(f) => f.gateway_ref.name@ == gateway_name,
            None => false,
        },
        None => false,
    }
}

/// A field added to an object when there is a value for it.
pub open spec fn with_field(
    m: Map<Seq<char>, JsonView>,
    key: Seq<char>,
    value: Option<Json>,
) -> Map<Seq<char>, JsonView> {
    match value {
        Some(v) => m.insert(key, v.view()),
        None => m,
    }
}

/// In-cluster Service traffic is plain HTTP on a private address.
pub open spec fn upstream_safety() -> JsonView {
    JsonView::Object(
        Map::<Seq<char>, JsonView>::empty().insert(
            "allow_private_backends"@,
            JsonView::Bool(true),
        ).insert("allow_insecure_http"@, JsonView::Bool(true)),
    )
}

/// Where a federation sends its calls.
pub open spec fn upstream(endpoint: Seq<char>, auth: Option<Json>) -> JsonView {
    JsonView::Object(
        with_field(
            Map::<Seq<char>, JsonView>::empty().insert("url"@, JsonView::Str(endpoint)).insert(
                "upstream_safety"@,
                upstream_safety(),
            ).insert("protocol_version"@, JsonView::Str("auto"@)),
            "auth"@,
            auth,
        ),
    )
}

/// The prefix of a federation's tools: the one it asks for, or its name and
/// a dot.
pub open spec fn tool_prefix(name: Seq<char>, asked: Option<Seq<char>>) -> Seq<char> {
    match asked {
        Some(p) => p,
        None => name + "."@,
    }
}

/// The federation a server is rendered into.
pub open spec fn federation(
    name: Seq<char>,
    endpoint: Seq<char>,
    f: ServerFederate,
) -> JsonView {
    JsonView::Object(
        with_field(
            with_field(
                Map::<Seq<char>, JsonView>::empty().insert("name"@, JsonView::Str(name)).insert(
                    "upstream"@,
                    upstream(endpoint, f.auth),
                ).insert(
                    "naming"@,
                    JsonView::Object(
                        Map::<Seq<char>, JsonView>::empty().insert(
                            "tool_prefix"@,
                            JsonView::Str(tool_prefix(name, opt_text(f.tool_prefix))),
                        ),
                    ),
                ),
                "governance"@,
                f.governance,
            ),
            "import"@,
            f.import,
        ),
    )
}

/// Whether a federation of that name is there.
pub open spec fn has_federation(feds: Seq<JsonView>, name: Seq<char>) -> bool {
    exists|i: int| 0 <= i < feds.len() && get_str(#[trigger] feds[i], "name"@) == Some(name)
}

/// Where the federations stand in a gateway's config.
pub open spec fn federations_path() -> Seq<Seq<char>> {
    seq!["mcp"@, "federations"@]
}

/// Whether a server that joins the gateway adds a federation: a federation
/// of its name that is already there wins.
pub open spec fn server_adds(
    config: JsonView,
    s: MCPGServer,
    gateway_name: Seq<char>,
    gateway_ns: Seq<char>,
) -> bool {
    server_joins(s, gateway_name, gateway_ns) && !has_federation(
        elements(leaf_at(config, federations_path())),
        s.spec.federation_name@,
    )
}

/// A gateway's config after one server.
pub open spec fn config_with_server(
    config: JsonView,
    s: MCPGServer,
    gateway_name: Seq<char>,
    gateway_ns: Seq<char>,
) -> JsonView {
    let feds = elements(leaf_at(config, federations_path()));
    if !server_joins(s, gateway_name, gateway_ns) {
        config
    } else if has_federation(feds, s.spec.federation_name@) {
        put_at(config, federations_path(), JsonView::Array(feds))
    } else {
        put_at(
            config,
            federations_path(),
            JsonView::Array(
                feds.push(
                    federation(
                        s.spec.federation_name@,
                        s.spec.endpoint@,
                        s.spec.federate->0,
                    ),
                ),
            ),
        )
    }
}

/// A gateway's config after a list of servers, in their order.
pub open spec fn config_with_servers(
    config: JsonView,
    servers: Seq<MCPGServer>,
    gateway_name: Seq<char>,
    gateway_ns: Seq<char>,
) -> JsonView
    decreases servers.len(),
{
    if servers.len() == 0 {
        config
    } else {
        config_with_server(
            config_with_servers(config, servers.drop_last(), gateway_name, gateway_ns),
            servers.last(),
            gateway_name,
            gateway_ns,
        )
    }
}

/// How many federations a list of servers adds.
pub open spec fn servers_added(
    config: JsonView,
    servers: Seq<MCPGServer>,
    gateway_name: Seq<char>,
    gateway_ns: Seq<char>,
) -> nat
    decreases servers.len(),
{
    if servers.len() == 0 {
        0
    } else {
        servers_added(config, servers.drop_last(), gateway_name, gateway_ns) + (if server_adds(
            config_with_servers(config, servers.drop_last(), gateway_name, gateway_ns),
            servers.last(),
            gateway_name,
            gateway_ns,
        ) {
            1nat
        } else {
            0nat
        })
    }
}

/// Whether a federation of that name is there.
fn has_named(feds: &Vec<Json>, name: &str) -> (r: bool)
    ensures
        r == has_federation(items_view(feds@), name@),
{
    let mut i: usize = 0;
    proof {
        lemma_items(feds@);
    }
    while i < feds.len()
        invariant
            i <= feds.len(),
            items_view(feds@).len() == feds@.len(),
            forall|j: int| 0 <= j < feds@.len() ==> items_view(feds@)[j] == (
            #[trigger] feds@[j]).view(),
            forall|j: int|
                0 <= j < i ==> get_str(#[trigger] items_view(feds@)[j], "name"@) != Some(name@),
        decreases feds.len() - i,
    {
        assert(items_view(feds@)[i as int] == feds@[i as int].view());
        let hit = match feds[i].get_str("name") {
            Some(n) => same(n, name),
            None => false,
        };
        if hit {
            return true;
        }
        i = i + 1;
    }
    false
}

/// The federation a server is rendered into.
pub fn render_federation(name: &str, endpoint: &str, f: &ServerFederate) -> (r: Json)
    ensures
        r.view() == federation(name@, endpoint@, *f),
{
    let mut safety = Json::Object(Vec::new());
    safety.set("allow_private_backends", Json::Bool(true));
    safety.set("allow_insecure_http", Json::Bool(true));
    let mut up = Json::Object(Vec::new());
    up.set("url", Json::str(endpoint));
    up.set("upstream_safety", safety);
    up.set("protocol_version", Json::str("auto"));
    match &f.auth {
        Some(a) => {
            up.set("auth", a.clone());
        },
        None => {},
    }
    let prefix = match &f.tool_prefix {
        Some(p) => p.clone(),
        None => name.to_owned().concat("."),
    };
    let mut naming = Json::Object(Vec::new());
    naming.set("tool_prefix", Json::Str(prefix));
    let mut fed = Json::Object(Vec::new());
    fed.set("name", Json::str(name));
    fed.set("upstream", up);
    fed.set("naming", naming);
    match &f.governance {
        Some(g) => {
            fed.set("governance", g.clone());
        },
        None => {},
    }
    match &f.import {
        Some(g) => {
            fed.set("import", g.clone());
        },
        None => {},
    }
    fed
}

/// Adds one server's federation, unless one of its name is there; returns
/// whether it was added.
fn add_server(config: &mut Json, s: &MCPGServer, f: &ServerFederate) -> (added: bool)
    requires
        s.spec.federate == Some(*f),
    ensures
        added == !has_federation(
            elements(leaf_at(old(config).view(), federations_path())),
            s.spec.federation_name@,
        ),
        final(config).view() == put_at(
            old(config).view(),
            federations_path(),
            JsonView::Array(
                if added {
                    elements(leaf_at(old(config).view(), federations_path())).push(
                        federation(s.spec.federation_name@, s.spec.endpoint@, *f),
                    )
                } else {
                    elements(leaf_at(old(config).view(), federations_path()))
                },
            ),
        ),
{
    let path = vec!["mcp", "federations"];
    assert(path@.map_values(|s: &str| s@) =~= federations_path());
    let leaf = ensure_path(config, path.as_slice());
    let mut feds: Vec<Json> = Vec::new();
    match leaf {
        Json::Array(a) => {
            std::mem::swap(&mut feds, a);
        },
        _ => {},
    }
    assert(items_view(feds@) =~= elements(leaf_at(old(config).view(), federations_path())));
    let added = !has_named(&feds, s.spec.federation_name.as_str());
    if added {
        let ghost was = feds@;
        feds.push(
            render_federation(s.spec.federation_name.as_str(), s.spec.endpoint.as_str(), f),
        );
        proof {
            assert(feds@.drop_last() =~= was);
        }
    }
    *leaf = Json::Array(feds);
    added
}

/// Renders every server that joins the gateway into its `mcp.federations`,
/// in order, and returns how many were added. A federation that is already
/// there wins over a server of the same name.
pub fn apply_servers_to_config(
    servers: &Vec<MCPGServer>,
    gateway_name: &str,
    gateway_ns: &str,
    config: &mut Json,
) -> (merged: usize)
    ensures
        merged == servers_added(old(config).view(), servers@, gateway_name@, gateway_ns@),
        final(config).view() == config_with_servers(
            old(config).view(),
            servers@,
            gateway_name@,
            gateway_ns@,
        ),
{
    let mut merged: usize = 0;
    let mut i: usize = 0;
    assert(servers@.take(0) =~= Seq::empty());
    while i < servers.len()
        invariant
            i <= servers.len(),
            merged <= i,
            merged == servers_added(
                old(config).view(),
                servers@.take(i as int),
                gateway_name@,
                gateway_ns@,
            ),
            config.view() == config_with_servers(
                old(config).view(),
                servers@.take(i as int),
                gateway_name@,
                gateway_ns@,
            ),
        decreases servers.len() - i,
    {
        let server = &servers[i];
        proof {
            assert(servers@.take(i + 1).drop_last() =~= servers@.take(i as int));
            assert(servers@.take(i + 1).last() == servers@[i as int]);
        }
        match &server.metadata.namespace {
            Some(ns) => {
                if same(ns.as_str(), gateway_ns) {
                    match &server.spec.federate {
                        Some(f) => {
                            if same(f.gateway_ref.name.as_str(), gateway_name) {
                                let added = add_server(config, server, f);
                                if added {
                                    merged = merged + 1;
                                }
                            }
                        },
                        None => {},
                    }
                }
            },
            None => {},
        }
        i = i + 1;
    }
    assert(servers@.take(i as int) =~= servers@);
    merged
}

/// Federations that are already in the config stay, in place, whatever
/// servers join.
pub proof fn law_inline_federations_win(
    config: JsonView,
    servers: Seq<MCPGServer>,
    gateway_name: Seq<char>,
    gateway_ns: Seq<char>,
)
    ensures
        elements(leaf_at(config, federations_path())).is_prefix_of(
            elements(
                leaf_at(
                    config_with_servers(config, servers, gateway_name, gateway_ns),
                    federations_path(),
                ),
            ),
        ),
    decreases servers.len(),
{
    if servers.len() > 0 {
        law_inline_federations_win(config, servers.drop_last(), gateway_name, gateway_ns);
        let mid = config_with_servers(config, servers.drop_last(), gateway_name, gateway_ns);
        let feds = elements(leaf_at(mid, federations_path()));
        let s = servers.last();
        crate::json::law_put_then_leaf(mid, federations_path(), JsonView::Array(feds));
        crate::json::law_put_then_leaf(
            mid,
            federations_path(),
            JsonView::Array(
                feds.push(
                    federation(s.spec.federation_name@, s.spec.endpoint@, s.spec.federate->0),
                ),
            ),
        );
    }
}

/// Whether no two federations have the same name.
pub open spec fn names_distinct(feds: Seq<JsonView>) -> bool {
    forall|i: int, j: int|
        0 <= i < j < feds.len() && get_str(#[trigger] feds[i], "name"@) is Some ==> get_str(
            feds[i],
            "name"@,
        ) != get_str(#[trigger] feds[j], "name"@)
}

/// Servers never give two federations the same name.
pub proof fn law_server_names_distinct(
    config: JsonView,
    servers: Seq<MCPGServer>,
    gateway_name: Seq<char>,
    gateway_ns: Seq<char>,
)
    requires
        names_distinct(elements(leaf_at(config, federations_path()))),
    ensures
        names_distinct(
            elements(
                leaf_at(
                    config_with_servers(config, servers, gateway_name, gateway_ns),
                    federations_path(),
                ),
            ),
        ),
    decreases servers.len(),
{
    if servers.len() > 0 {
        law_server_names_distinct(config, servers.drop_last(), gateway_name, gateway_ns);
        let mid = config_with_servers(config, servers.drop_last(), gateway_name, gateway_ns);
        let feds = elements(leaf_at(mid, federations_path()));
        let s = servers.last();
        let fed = federation(s.spec.federation_name@, s.spec.endpoint@, s.spec.federate->0);
        crate::json::law_put_then_leaf(mid, federations_path(), JsonView::Array(feds));
        crate::json::law_put_then_leaf(mid, federations_path(), JsonView::Array(feds.push(fed)));
        reveal_strlit("name");
        reveal_strlit("upstream");
        reveal_strlit("naming");
        reveal_strlit("governance");
        reveal_strlit("import");
        assert("name"@.len() == 4);
        assert("name"@ != "upstream"@);
        assert("name"@[2] == 'm');
        assert("naming"@.len() == 6);
        assert("governance"@.len() == 10);
        assert("import"@.len() == 6);
        assert(get_str(fed, "name"@) == Some(s.spec.federation_name@));
        if server_adds(mid, s, gateway_name, gateway_ns) {
            let all = feds.push(fed);
            assert forall|i: int, j: int|
                0 <= i < j < all.len() && get_str(#[trigger] all[i], "name"@) is Some implies get_str(
                all[i],
                "name"@,
            ) != get_str(#[trigger] all[j], "name"@) by {
                if j == feds.len() {
                    assert(all[i] == feds[i]);
                } else {
                    assert(all[i] == feds[i] && all[j] == feds[j]);
                }
            }
        }
    }
}

/// Servers touch nothing of a config but its federations.
pub proof fn law_servers_touch_only_federations(
    config: JsonView,
    servers: Seq<MCPGServer>,
    gateway_name: Seq<char>,
    gateway_ns: Seq<char>,
    other: Seq<Seq<char>>,
    at: int,
)
    requires
        0 <= at < federations_path().len(),
        at < other.len(),
        federations_path().take(at) == other.take(at),
        federations_path()[at] != other[at],
    ensures
        leaf_at(config_with_servers(config, servers, gateway_name, gateway_ns), other) == leaf_at(
            config,
            other,
        ),
    decreases servers.len(),
{
    if servers.len() > 0 {
        law_servers_touch_only_federations(
            config,
            servers.drop_last(),
            gateway_name,
            gateway_ns,
            other,
            at,
        );
        let mid = config_with_servers(config, servers.drop_last(), gateway_name, gateway_ns);
        let feds = elements(leaf_at(mid, federations_path()));
        let s = servers.last();
        let fed = federation(s.spec.federation_name@, s.spec.endpoint@, s.spec.federate->0);
        crate::json::law_put_keeps_others(
            mid,
            federations_path(),
            JsonView::Array(feds),
            other,
            at,
        );
        crate::json::law_put_keeps_others(
            mid,
            federations_path(),
            JsonView::Array(feds.push(fed)),
            other,
            at,
        );
    }
}

} // verus!
