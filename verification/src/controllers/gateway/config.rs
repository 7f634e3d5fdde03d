//! The config a gateway runs with.
use vstd::prelude::*;

use crate::api::resources::{MCPGGateway, MCPGRoute, MCPGServer};
use crate::controllers::gateway::cluster::{
    merge_cluster_block, with_cluster_block, ResolvedCluster,
};
use crate::controllers::gateway::routes::{
    accepted_count, apply_routes_to_config, config_with_pairs, route_pairs,
};
use crate::controllers::gateway::servers::{
    apply_servers_to_config, config_with_servers, servers_added,
};
use crate::json::{
    ensure_path, fields_of, leaf_at, put_at, Json, JsonView,
};
use crate::text::texts;

verus! {

/// Where the resource metadata stand in a gateway's config.
pub open spec fn resource_metadata_path() -> Seq<Seq<char>> {
    seq!["governance"@, "access"@, "resource_metadata"@]
}

/// A config whose resource indicator is `url`.
pub open spec fn with_resource_metadata(config: JsonView, url: Seq<char>) -> JsonView {
    put_at(
        config,
        resource_metadata_path(),
        JsonView::Object(
            fields_of(leaf_at(config, resource_metadata_path())).insert(
                "resource"@,
                JsonView::Str(url),
            ),
        ),
    )
}

/// Stamps the trusted resource indicator into a config, over whatever the
/// config says itself.
pub fn inject_resource_metadata(config: &mut Json, url: &str)
    ensures
        final(config).view() == with_resource_metadata(old(config).view(), url@),
{
    let path = vec!["governance", "access", "resource_metadata"];
    assert(path@.map_values(|s: &str| s@) =~= resource_metadata_path());
    let leaf = ensure_path(config, path.as_slice());
    leaf.set("resource", Json::str(url));
}

/// The resource indicator is the one that was stamped, whatever was
/// published.
pub proof fn law_resource_indicator_is_stamped(config: JsonView, url: Seq<char>)
    ensures
        leaf_at(with_resource_metadata(config, url), resource_metadata_path().push("resource"@))
            == JsonView::Str(url),
{
    let p = resource_metadata_path();
    let leaf = JsonView::Object(
        fields_of(leaf_at(config, p)).insert("resource"@, JsonView::Str(url)),
    );
    crate::json::law_put_then_leaf(config, p, leaf);
    crate::json::lemma_leaf_push(put_at(config, p, leaf), p, "resource"@);
}

/// Stamping keeps the other fields of the resource metadata.
pub proof fn law_resource_siblings_kept(config: JsonView, url: Seq<char>, key: Seq<char>)
    requires
        key != "resource"@,
    ensures
        leaf_at(with_resource_metadata(config, url), resource_metadata_path().push(key))
            == leaf_at(config, resource_metadata_path().push(key)),
{
    let p = resource_metadata_path();
    let leaf = JsonView::Object(
        fields_of(leaf_at(config, p)).insert("resource"@, JsonView::Str(url)),
    );
    crate::json::law_put_then_leaf(config, p, leaf);
    crate::json::lemma_leaf_push(put_at(config, p, leaf), p, key);
    crate::json::lemma_leaf_push(config, p, key);
}

/// Stamping twice is stamping once.
pub proof fn law_resource_stamp_idempotent(config: JsonView, url: Seq<char>)
    ensures
        with_resource_metadata(with_resource_metadata(config, url), url)
            == with_resource_metadata(config, url),
{
    let p = resource_metadata_path();
    let fields = fields_of(leaf_at(config, p));
    let leaf = JsonView::Object(fields.insert("resource"@, JsonView::Str(url)));
    crate::json::law_put_then_leaf(config, p, leaf);
    crate::json::law_put_overwrites(config, p, leaf, leaf);
    assert(fields.insert("resource"@, JsonView::Str(url)).insert("resource"@, JsonView::Str(url))
        =~= fields.insert("resource"@, JsonView::Str(url)));
}

/// Managed-cloud gateways take the config with the standard plugins added;
/// others keep theirs.
pub fn apply_cloud_default_plugins(obj: &MCPGGateway, with_defaults: Json, config: &mut Json)
    ensures
        final(config).view() == (if obj.spec.cloud is Some {
            with_defaults.view()
        } else {
            old(config).view()
        }),
{
    if obj.spec.cloud.is_some() {
        *config = with_defaults;
    }
}

/// The resource indicator that a gateway is given: the external URL of a
/// managed-cloud gateway.
pub open spec fn trusted_url(obj: MCPGGateway) -> Option<Seq<char>> {
    match obj.spec.cloud {
        Some(c) => if c.external_url@.len() > 0 {
            Some(c.external_url@)
        } else {
            None
        },
        None => None,
    }
}

/// A gateway's config after its cluster binding and its routes.
pub open spec fn routed_config(
    obj: MCPGGateway,
    namespace: Seq<char>,
    base: JsonView,
    block: JsonView,
    routes: Seq<MCPGRoute>,
) -> JsonView {
    config_with_pairs(
        with_cluster_block(base, block),
        route_pairs(
            routes,
            crate::api::objects::or_empty(obj.metadata@.name),
            namespace,
            texts(obj.spec.accepted_route_namespaces@),
        ),
    )
}

/// A gateway's config, from the one with its plugins merged in: the cluster
/// binding, the routes, the servers, and last the resource indicator.
pub open spec fn composed_config(
    obj: MCPGGateway,
    namespace: Seq<char>,
    base: JsonView,
    block: JsonView,
    routes: Seq<MCPGRoute>,
    servers: Seq<MCPGServer>,
) -> JsonView {
    let federated = config_with_servers(
        routed_config(obj, namespace, base, block, routes),
        servers,
        crate::api::objects::or_empty(obj.metadata@.name),
        namespace,
    );
    match trusted_url(obj) {
        Some(url) => with_resource_metadata(federated, url),
        None => federated,
    }
}

/// A list that could not be fetched counts as empty.
pub open spec fn listed<T>(l: Option<Vec<T>>) -> Seq<T> {
    match l {
        Some(v) => v@,
        None => Seq::empty(),
    }
}

/// The block of an optional cluster binding; null when there is none.
pub open spec fn binding_block(c: Option<ResolvedCluster>) -> JsonView {
    match c {
        Some(c) => c.cluster_block.view(),
        None => JsonView::Null,
    }
}

/// Composes a gateway's config from the one with its plugins merged in and
/// from what was found: its cluster binding, and the routes and servers
/// that could be listed. Returns the config and how many routes and servers
/// it took in.
pub fn compose_config(
    obj: &MCPGGateway,
    namespace: &str,
    base: Json,
    cluster: &Option<ResolvedCluster>,
    routes: &Option<Vec<MCPGRoute>>,
    servers: &Option<Vec<MCPGServer>>,
) -> (r: (Json, usize, usize))
    ensures
        r.0.view() == composed_config(
            *obj,
            namespace@,
            base.view(),
            binding_block(*cluster),
            listed(*routes),
            listed(*servers),
        ),
        r.1 == accepted_count(
            listed(*routes),
            crate::api::objects::or_empty(obj.metadata@.name),
            namespace@,
            texts(obj.spec.accepted_route_namespaces@),
        ),
        r.2 == servers_added(
            routed_config(
                *obj,
                namespace@,
                base.view(),
                binding_block(*cluster),
                listed(*routes),
            ),
            listed(*servers),
            crate::api::objects::or_empty(obj.metadata@.name),
            namespace@,
        ),
{
    let name = obj.metadata.name_or_empty();
    let mut config = base;
    match cluster {
        Some(c) => {
            merge_cluster_block(&mut config, &c.cluster_block);
        },
        None => {},
    }
    let none_routes: Vec<MCPGRoute> = Vec::new();
    let routes = match routes {
        Some(v) => v,
        None => &none_routes,
    };
    let route_count = apply_routes_to_config(
        routes,
        name.as_str(),
        namespace,
        &obj.spec.accepted_route_namespaces,
        &mut config,
    );
    let none_servers: Vec<MCPGServer> = Vec::new();
    let servers = match servers {
        Some(v) => v,
        None => &none_servers,
    };
    let server_count = apply_servers_to_config(servers, name.as_str(), namespace, &mut config);
    match &obj.spec.cloud {
        Some(c) => {
            if !c.external_url.as_str().is_empty() {
                inject_resource_metadata(&mut config, c.external_url.as_str());
            }
        },
        None => {},
    }
    (config, route_count, server_count)
}

/// Whatever a tenant publishes, and whatever routes and servers add, a
/// managed-cloud gateway's resource indicator is its external URL.
pub proof fn law_composed_indicator(
    obj: MCPGGateway,
    namespace: Seq<char>,
    base: JsonView,
    block: JsonView,
    routes: Seq<MCPGRoute>,
    servers: Seq<MCPGServer>,
)
    ensures
        trusted_url(obj) matches Some(url) ==> leaf_at(
            composed_config(obj, namespace, base, block, routes, servers),
            resource_metadata_path().push("resource"@),
        ) == JsonView::Str(url),
{
    let federated = config_with_servers(
        routed_config(obj, namespace, base, block, routes),
        servers,
        crate::api::objects::or_empty(obj.metadata@.name),
        namespace,
    );
    if trusted_url(obj) is Some {
        law_resource_indicator_is_stamped(federated, trusted_url(obj)->0);
    }
}

} // verus!
