//! The coordination backend a gateway binds.
use vstd::prelude::*;

use crate::api::conditions::{cond, is_true, status_text, Condition, ConditionView};
use crate::api::resources::{status_conditions, status_ready, MCPGCluster, MCPGGateway};
use crate::json::{fields_of, Json, JsonView};

verus! {

/// What a gateway's cluster binding resolved to. The block is null unless
/// the cluster is there and ready, so that the gateway keeps the config it
/// has.
#[derive(Debug)]
pub struct ResolvedCluster {
    pub cluster_block: Json,
    pub condition: Condition,
}

/// The condition `ClusterReady` with the given parts.
pub open spec fn cluster_condition_view(
    ok: bool,
    reason: Seq<char>,
    message: Seq<char>,
) -> ConditionView {
    cond("ClusterReady"@, status_text(ok), reason, message, None)
}

/// Whether a cluster that was looked up can be used.
pub open spec fn cluster_usable(c: Option<MCPGCluster>) -> bool {
    match c {
        Some(c) => is_true(status_conditions(c.status), "Ready"@),
        None => false,
    }
}

/// What the status of a gateway reports of its cluster binding.
pub open spec fn cluster_condition(name: Seq<char>, c: Option<MCPGCluster>) -> ConditionView {
    match c {
        None => cluster_condition_view(
            false,
            "ClusterNotFound"@,
            "MCPGCluster/"@ + name + " not found; keeping existing cluster config"@,
        ),
        Some(c) => if !is_true(status_conditions(c.status), "Ready"@) {
            cluster_condition_view(
                false,
                "ClusterNotReady"@,
                "MCPGCluster/"@ + name + " is not Ready; keeping existing cluster config"@,
            )
        } else {
            cluster_condition_view(
                true,
                "ClusterResolved"@,
                "bound MCPGCluster/"@ + name + " (backend: "@ + c.spec.backend.config_kind@ + ")"@,
            )
        },
    }
}

/// The cluster that was looked up.
pub open spec fn found_cluster(cluster: Option<&MCPGCluster>) -> Option<MCPGCluster> {
    match cluster {
        Some(c) => Some(*c),
        None => None,
    }
}

/// Whether `r` is what a gateway's cluster binding resolves to, given what
/// was found.
pub open spec fn cluster_resolved(
    obj: MCPGGateway,
    cluster: Option<MCPGCluster>,
    r: Option<ResolvedCluster>,
) -> bool {
    &&& r is Some == obj.spec.cluster_ref is Some
    &&& r matches Some(c) ==> {
        &&& c.condition@ == cluster_condition(obj.spec.cluster_ref->0.name@, cluster)
        &&& c.cluster_block.view() == (if cluster_usable(cluster) {
            cluster->0.spec.rendered_block.view()
        } else {
            JsonView::Null
        })
    }
}

/// Resolves a gateway's cluster binding from the cluster of that name, if
/// it was found. `None` when the gateway binds none.
pub fn resolve_cluster(obj: &MCPGGateway, cluster: Option<&MCPGCluster>) -> (r: Option<
    ResolvedCluster,
>)
    ensures
        cluster_resolved(*obj, found_cluster(cluster), r),
{
    let name = match &obj.spec.cluster_ref {
        Some(r) => r.name.as_str(),
        None => return None,
    };
    match cluster {
        None => Some(
            ResolvedCluster {
                cluster_block: Json::Null,
                condition: Condition::new(
                    "ClusterReady",
                    "False",
                    "ClusterNotFound",
                    "MCPGCluster/".to_owned().concat(name).concat(
                        " not found; keeping existing cluster config",
                    ).as_str(),
                    None,
                ),
            },
        ),
        Some(c) => {
            if !status_ready(&c.status) {
                Some(
                    ResolvedCluster {
                        cluster_block: Json::Null,
                        condition: Condition::new(
                            "ClusterReady",
                            "False",
                            "ClusterNotReady",
                            "MCPGCluster/".to_owned().concat(name).concat(
                                " is not Ready; keeping existing cluster config",
                            ).as_str(),
                            None,
                        ),
                    },
                )
            } else {
                Some(
                    ResolvedCluster {
                        cluster_block: c.spec.rendered_block.clone(),
                        condition: Condition::new(
                            "ClusterReady",
                            "True",
                            "ClusterResolved",
                            "bound MCPGCluster/".to_owned().concat(name).concat(
                                " (backend: ",
                            ).concat(c.spec.backend.config_kind.as_str()).concat(")").as_str(),
                            None,
                        ),
                    },
                )
            }
        },
    }
}

/// A config with a cluster block laid over it: the block replaces the
/// config's own, and a null block changes nothing.
pub open spec fn with_cluster_block(config: JsonView, block: JsonView) -> JsonView {
    if block is Null {
        config
    } else {
        JsonView::Object(fields_of(config).insert("cluster"@, block))
    }
}

/// Lays a cluster block over a config.
pub fn merge_cluster_block(config: &mut Json, cluster_block: &Json)
    ensures
        final(config).view() == with_cluster_block(old(config).view(), cluster_block.view()),
{
    if cluster_block.is_null() {
        return ;
    }
    config.set("cluster", cluster_block.clone());
}

/// An unresolved cluster leaves the config as it is; a resolved one wins
/// over the config's own cluster block and leaves the other fields alone.
pub proof fn law_cluster_block(config: JsonView, block: JsonView, key: Seq<char>)
    ensures
        with_cluster_block(config, JsonView::Null) == config,
        !(block is Null) ==> crate::json::get(with_cluster_block(config, block), "cluster"@)
            == Some(block),
        key != "cluster"@ && config is Object ==> crate::json::get(
            with_cluster_block(config, block),
            key,
        ) == crate::json::get(config, key),
{
}

} // verus!
