//! Which gateways may be written.
use vstd::prelude::*;

use crate::admission::decision::{
    admitted, finds, first_defect, first_of, flagged, judged, lemma_first_defect, lemma_no_defect,
    Decision,
};
use crate::admission::tenant_guard::{
    enforce_gateway_replica_cap, gateway_tenant, listed, replica_defect,
};
use crate::admission::validators::dns::{
    hostname_defect, label_defect, validate_dns_hostname, validate_dns_label,
};
use crate::api::conditions::is_true;
use crate::api::resources::{
    ref_name, status_conditions, status_ready, GatewayCloud, GatewayIngress,
    GatewayWorkloadIdentity, LocalObjectReference, MCPGCluster, MCPGGateway, MCPGGatewaySpec,
    MCPGTenant, SecretMount,
};
use crate::json::{get, get_str, Json, JsonView};
use crate::text::{
    begins, blank, decimal, decimal_int, decimal_int_text, decimal_text, is_blank, opt_text, same,
    starts_with, trim, trim_end_char, trimmed, trimmed_end_char,
};

verus! {

/// What is wrong with the number of replicas.
pub open spec fn replicas_defect(s: MCPGGatewaySpec) -> Option<Seq<char>> {
    flagged(
        s.replicas < 1,
        "spec.replicas must be ≥ 1 (got "@ + decimal_int(s.replicas as int) + ")"@,
    )
}

/// What is wrong with the image: its tag is missing.
pub open spec fn tag_defect(s: MCPGGatewaySpec) -> Option<Seq<char>> {
    flagged(
        match opt_text(s.image.tag) {
            Some(t) => blank(t),
            None => true,
        },
        "spec.image.tag must not be empty"@,
    )
}

/// How many identity providers a gateway names.
pub open spec fn providers(wi: GatewayWorkloadIdentity) -> int {
    (if wi.aws is Some {
        1int
    } else {
        0
    }) + (if wi.gcp is Some {
        1int
    } else {
        0
    }) + (if wi.azure is Some {
        1int
    } else {
        0
    }) + (if wi.spiffe is Some {
        1int
    } else {
        0
    })
}

/// What is wrong with the workload identity: it names more than one
/// provider.
pub open spec fn identity_defect(s: MCPGGatewaySpec) -> Option<Seq<char>> {
    match s.workload_identity {
        Some(wi) => flagged(
            providers(wi) > 1,
            "spec.workloadIdentity must specify at most one provider (aws | gcp | azure | spiffe)"@,
        ),
        None => None,
    }
}

/// What is wrong with the Secrets in the environment: one has no name.
pub open spec fn env_defect(v: Seq<LocalObjectReference>) -> Option<Seq<char>> {
    first_defect(
        v.len(),
        |i: int|
            flagged(
                blank(v[i].name@),
                "spec.envFromSecrets["@ + decimal(i as nat) + "].name must not be empty"@,
            ),
    )
}

/// Whether an earlier mount is of the same Secret.
pub open spec fn name_repeats(v: Seq<SecretMount>, i: int) -> bool {
    exists|j: int| 0 <= j < i && (#[trigger] v[j]).name@ == v[i].name@
}

/// Whether an earlier mount is at the same path.
pub open spec fn path_repeats(v: Seq<SecretMount>, i: int) -> bool {
    exists|j: int|
        0 <= j < i && trim_end_char((#[trigger] v[j]).mount_path@, '/') == trim_end_char(
            v[i].mount_path@,
            '/',
        )
}

/// What is wrong with the mount at position `i`: it has no name, its path is
/// not absolute, or it repeats the name or the path of an earlier one.
pub open spec fn mount_defect(v: Seq<SecretMount>, i: int) -> Option<Seq<char>> {
    let at = "spec.secretMounts["@ + decimal(i as nat);
    first_of(
        flagged(blank(v[i].name@), at + "].name must not be empty"@),
        first_of(
            flagged(
                !starts_with(v[i].mount_path@, "/"@),
                at + "].mountPath must be an absolute path"@,
            ),
            first_of(
                flagged(
                    name_repeats(v, i),
                    at + "].name repeats an earlier entry ("@ + v[i].name@ + ")"@,
                ),
                flagged(
                    path_repeats(v, i),
                    at + "].mountPath repeats an earlier entry ("@ + v[i].mount_path@ + ")"@,
                ),
            ),
        ),
    )
}

/// What is wrong with the mounted Secrets.
pub open spec fn mounts_defect(v: Seq<SecretMount>) -> Option<Seq<char>> {
    first_defect(v.len(), |i: int| mount_defect(v, i))
}

/// What is wrong with the host at position `i` of an ingress.
pub open spec fn host_defect(ing: GatewayIngress, i: int) -> Option<Seq<char>> {
    let at = "spec.ingress.hosts["@ + decimal(i as nat);
    first_of(
        flagged(blank(ing.hosts@[i].host@), at + "].host is empty"@),
        flagged(ing.hosts@[i].paths@.len() == 0, at + "].paths must not be empty"@),
    )
}

/// What is wrong with the ingress.
pub open spec fn ingress_defect(s: MCPGGatewaySpec) -> Option<Seq<char>> {
    match s.ingress {
        Some(ing) => first_of(
            flagged(
                blank(ing.ingress_class_name@),
                "spec.ingress.ingressClassName must not be empty"@,
            ),
            first_of(
                flagged(
                    ing.hosts@.len() == 0,
                    "spec.ingress.hosts must not be empty when ingress is set"@,
                ),
                first_defect(ing.hosts@.len(), |i: int| host_defect(ing, i)),
            ),
        ),
        None => None,
    }
}

/// A defect of a field, with the field named in front.
pub open spec fn of_field(field: Seq<char>, defect: Option<Seq<char>>) -> Option<Seq<char>> {
    match defect {
        Some(e) => Some(field + e),
        None => None,
    }
}

/// What is wrong with the custom domain at position `i`.
pub open spec fn domain_defect(c: GatewayCloud, i: int) -> Option<Seq<char>> {
    of_field(
        "spec.cloud.customDomains["@ + decimal(i as nat) + "] "@,
        hostname_defect(c.custom_domains@[i]@),
    )
}

/// What is wrong with the managed-cloud block.
pub open spec fn cloud_defect(c: GatewayCloud) -> Option<Seq<char>> {
    let url = trim(c.external_url@);
    first_of(
        of_field("spec.cloud.instanceSlug "@, label_defect(c.instance_slug@)),
        first_of(
            of_field("spec.cloud.orgSlug "@, label_defect(c.org_slug@)),
            first_of(
                flagged(url.len() == 0, "spec.cloud.externalUrl must not be empty"@),
                first_of(
                    flagged(
                        !starts_with(url, "https://"@) && !starts_with(url, "http://"@),
                        "spec.cloud.externalUrl must be an http(s) URL"@,
                    ),
                    first_defect(c.custom_domains@.len(), |i: int| domain_defect(c, i)),
                ),
            ),
        ),
    )
}

/// What is wrong with the routing: a managed-cloud gateway has no ingress,
/// and its block is well formed.
pub open spec fn routing_defect(s: MCPGGatewaySpec) -> Option<Seq<char>> {
    match s.cloud {
        Some(c) => first_of(
            flagged(
                s.ingress is Some,
                "spec.ingress and spec.cloud are mutually exclusive (cloud gateways route via the managed edge HTTPRoute, not Ingress)"@,
            ),
            cloud_defect(c),
        ),
        None => None,
    }
}

/// What is wrong with a gateway by itself.
pub open spec fn spec_defect(s: MCPGGatewaySpec) -> Option<Seq<char>> {
    first_of(
        replicas_defect(s),
        first_of(
            tag_defect(s),
            first_of(
                identity_defect(s),
                first_of(
                    env_defect(s.env_from_secrets@),
                    first_of(
                        mounts_defect(s.secret_mounts@),
                        first_of(ingress_defect(s), routing_defect(s)),
                    ),
                ),
            ),
        ),
    )
}

fn check_env(v: &Vec<LocalObjectReference>) -> (r: Result<(), String>)
    ensures
        finds(r, env_defect(v@)),
{
    let ghost at = |i: int|
        flagged(
            blank(v@[i].name@),
            "spec.envFromSecrets["@ + decimal(i as nat) + "].name must not be empty"@,
        );
    let mut i: usize = 0;
    while i < v.len()
        invariant
            i <= v.len(),
            at == |i: int|
                flagged(
                    blank(v@[i].name@),
                    "spec.envFromSecrets["@ + decimal(i as nat) + "].name must not be empty"@,
                ),
            first_defect(i as nat, at) is None,
            env_defect(v@) == first_defect(v@.len(), at),
        decreases v.len() - i,
    {
        if is_blank(v[i].name.as_str()) {
            let m = "spec.envFromSecrets[".to_owned().concat(
                decimal_text(i as u64).as_str(),
            ).concat("].name must not be empty");
            proof {
                lemma_first_defect(v@.len(), at, i as nat);
            }
            return Err(m);
        }
        i = i + 1;
    }
    Ok(())
}

fn repeats_name(v: &Vec<SecretMount>, i: usize) -> (r: bool)
    requires
        i < v@.len(),
    ensures
        r == name_repeats(v@, i as int),
{
    let mut j: usize = 0;
    while j < i
        invariant
            j <= i,
            i < v@.len(),
            forall|k: int| 0 <= k < j ==> (#[trigger] v@[k]).name@ != v@[i as int].name@,
        decreases i - j,
    {
        if same(v[j].name.as_str(), v[i].name.as_str()) {
            return true;
        }
        j = j + 1;
    }
    false
}

fn repeats_path(v: &Vec<SecretMount>, i: usize) -> (r: bool)
    requires
        i < v@.len(),
    ensures
        r == path_repeats(v@, i as int),
{
    let path = trimmed_end_char(v[i].mount_path.as_str(), '/');
    let mut j: usize = 0;
    while j < i
        invariant
            j <= i,
            i < v@.len(),
            path@ == trim_end_char(v@[i as int].mount_path@, '/'),
            forall|k: int|
                0 <= k < j ==> trim_end_char((#[trigger] v@[k]).mount_path@, '/') != path@,
        decreases i - j,
    {
        if same(trimmed_end_char(v[j].mount_path.as_str(), '/').as_str(), path.as_str()) {
            return true;
        }
        j = j + 1;
    }
    false
}

fn check_mount(v: &Vec<SecretMount>, i: usize) -> (r: Result<(), String>)
    requires
        i < v@.len(),
    ensures
        finds(r, mount_defect(v@, i as int)),
{
    let m = &v[i];
    let at = "spec.secretMounts[".to_owned().concat(decimal_text(i as u64).as_str());
    if is_blank(m.name.as_str()) {
        return Err(at.concat("].name must not be empty"));
    }
    if !begins(m.mount_path.as_str(), "/") {
        return Err(at.concat("].mountPath must be an absolute path"));
    }
    if repeats_name(v, i) {
        return Err(
            at.concat("].name repeats an earlier entry (").concat(m.name.as_str()).concat(")"),
        );
    }
    if repeats_path(v, i) {
        return Err(
            at.concat("].mountPath repeats an earlier entry (").concat(
                m.mount_path.as_str(),
            ).concat(")"),
        );
    }
    Ok(())
}

fn check_mounts(v: &Vec<SecretMount>) -> (r: Result<(), String>)
    ensures
        finds(r, mounts_defect(v@)),
{
    let ghost at = |i: int| mount_defect(v@, i);
    let mut i: usize = 0;
    while i < v.len()
        invariant
            i <= v.len(),
            at == |i: int| mount_defect(v@, i),
            first_defect(i as nat, at) is None,
            mounts_defect(v@) == first_defect(v@.len(), at),
        decreases v.len() - i,
    {
        match check_mount(v, i) {
            Ok(_) => {},
            Err(m) => {
                proof {
                    lemma_first_defect(v@.len(), at, i as nat);
                }
                return Err(m);
            },
        }
        i = i + 1;
    }
    Ok(())
}

fn check_ingress(s: &MCPGGatewaySpec) -> (r: Result<(), String>)
    ensures
        finds(r, ingress_defect(*s)),
{
    let ing = match &s.ingress {
        Some(ing) => ing,
        None => return Ok(()),
    };
    if is_blank(ing.ingress_class_name.as_str()) {
        return Err("spec.ingress.ingressClassName must not be empty".to_owned());
    }
    if ing.hosts.len() == 0 {
        return Err("spec.ingress.hosts must not be empty when ingress is set".to_owned());
    }
    let ghost at = |i: int| host_defect(*ing, i);
    let mut i: usize = 0;
    while i < ing.hosts.len()
        invariant
            i <= ing.hosts.len(),
            at == |i: int| host_defect(*ing, i),
            first_defect(i as nat, at) is None,
            ingress_defect(*s) == first_defect(ing.hosts@.len(), at),
        decreases ing.hosts.len() - i,
    {
        let label = "spec.ingress.hosts[".to_owned().concat(decimal_text(i as u64).as_str());
        if is_blank(ing.hosts[i].host.as_str()) {
            let m = label.concat("].host is empty");
            proof {
                lemma_first_defect(ing.hosts@.len(), at, i as nat);
            }
            return Err(m);
        }
        if ing.hosts[i].paths.len() == 0 {
            let m = label.concat("].paths must not be empty");
            proof {
                lemma_first_defect(ing.hosts@.len(), at, i as nat);
            }
            return Err(m);
        }
        i = i + 1;
    }
    Ok(())
}

/// Checks the managed-cloud block.
pub fn validate_cloud(cloud: &GatewayCloud) -> (r: Result<(), String>)
    ensures
        finds(r, cloud_defect(*cloud)),
{
    match validate_dns_label(cloud.instance_slug.as_str()) {
        Ok(_) => {},
        Err(e) => return Err("spec.cloud.instanceSlug ".to_owned().concat(e.as_str())),
    }
    match validate_dns_label(cloud.org_slug.as_str()) {
        Ok(_) => {},
        Err(e) => return Err("spec.cloud.orgSlug ".to_owned().concat(e.as_str())),
    }
    let url = trimmed(cloud.external_url.as_str());
    if url.as_str().is_empty() {
        return Err("spec.cloud.externalUrl must not be empty".to_owned());
    }
    if !begins(url.as_str(), "https://") && !begins(url.as_str(), "http://") {
        return Err("spec.cloud.externalUrl must be an http(s) URL".to_owned());
    }
    let ghost at = |i: int| domain_defect(*cloud, i);
    let mut i: usize = 0;
    while i < cloud.custom_domains.len()
        invariant
            i <= cloud.custom_domains.len(),
            at == |i: int| domain_defect(*cloud, i),
            first_defect(i as nat, at) is None,
            cloud_defect(*cloud) == first_defect(cloud.custom_domains@.len(), at),
        decreases cloud.custom_domains.len() - i,
    {
        match validate_dns_hostname(cloud.custom_domains[i].as_str()) {
            Ok(_) => {},
            Err(e) => {
                let m = "spec.cloud.customDomains[".to_owned().concat(
                    decimal_text(i as u64).as_str(),
                ).concat("] ").concat(e.as_str());
                proof {
                    lemma_first_defect(cloud.custom_domains@.len(), at, i as nat);
                }
                return Err(m);
            },
        }
        i = i + 1;
    }
    Ok(())
}

fn one(b: bool) -> (r: u8)
    ensures
        r == (if b {
            1int
        } else {
            0
        }),
{
    if b {
        1
    } else {
        0
    }
}

/// Checks a gateway by itself.
pub fn validate_spec(obj: &MCPGGateway) -> (r: Result<(), String>)
    ensures
        finds(r, spec_defect(obj.spec)),
{
    let spec = &obj.spec;
    if spec.replicas < 1 {
        return Err(
            "spec.replicas must be ≥ 1 (got ".to_owned().concat(
                decimal_int_text(spec.replicas as i64).as_str(),
            ).concat(")"),
        );
    }
    let tagged = match &spec.image.tag {
        Some(t) => !is_blank(t.as_str()),
        None => false,
    };
    if !tagged {
        return Err("spec.image.tag must not be empty".to_owned());
    }
    match &spec.workload_identity {
        Some(wi) => {
            let count: u8 = one(wi.aws.is_some()) + one(wi.gcp.is_some()) + one(
                wi.azure.is_some(),
            ) + one(wi.spiffe.is_some());
            if count > 1 {
                return Err(
                    "spec.workloadIdentity must specify at most one provider (aws | gcp | azure | spiffe)".to_owned(),
                );
            }
        },
        None => {},
    }
    match check_env(&spec.env_from_secrets) {
        Ok(_) => {},
        Err(m) => return Err(m),
    }
    match check_mounts(&spec.secret_mounts) {
        Ok(_) => {},
        Err(m) => return Err(m),
    }
    match check_ingress(spec) {
        Ok(_) => {},
        Err(m) => return Err(m),
    }
    match &spec.cloud {
        Some(c) => {
            if spec.ingress.is_some() {
                return Err(
                    "spec.ingress and spec.cloud are mutually exclusive (cloud gateways route via the managed edge HTTPRoute, not Ingress)".to_owned(),
                );
            }
            validate_cloud(c)
        },
        None => Ok(()),
    }
}

/// How a gateway that can have more than one replica coordinates them.
#[derive(Debug)]
pub enum CoordinationPath {
    /// It cannot have more than one.
    SingleReplica,
    /// By a backend in its config.
    Inline,
    /// By the cluster of this name, which is still to be judged.
    Ref(String),
}

/// The kind of the backend in a gateway's config; none without a cluster
/// block. A block without a kind is that of a single node.
pub open spec fn inline_kind(config: JsonView) -> Option<Seq<char>> {
    match get(config, "cluster"@) {
        Some(c) => if c is Object {
            match get_str(c, "kind"@) {
                Some(k) => Some(k),
                None => Some("single_node"@),
            }
        } else {
            None
        },
        None => None,
    }
}

/// The kind of the backend in a gateway's config.
pub fn inline_cluster_kind(config: &Json) -> (r: Option<String>)
    ensures
        opt_text(r) == inline_kind(config.view()),
{
    match config.get("cluster") {
        Some(c) => {
            if !c.is_object() {
                return None;
            }
            match c.get_str("kind") {
                Some(k) => Some(k.to_owned()),
                None => Some("single_node".to_owned()),
            }
        },
        None => None,
    }
}

/// The reason to deny many replicas on a single-node backend.
pub open spec fn single_node_denied(field: Seq<char>, n: Seq<char>) -> Seq<char> {
    "MultiReplicaWithSingleNodeBackend: "@ + field + " is "@ + n
        + " but spec.config.cluster resolves to the `single_node` backend, which cannot coordinate more than one replica — "@
        + n
        + " replicas without a shared coordination backend run as "@
        + n
        + " independent gateways (sessions, pub/sub and idempotency state fork per pod). Set spec.clusterRef to a Ready, non-single_node MCPGCluster, or declare a non-single_node backend inline at spec.config.cluster.kind."@
}

/// The reason to deny many replicas without a backend.
pub open spec fn no_backend_denied(field: Seq<char>, n: Seq<char>) -> Seq<char> {
    field + " is "@ + n + " but no cluster coordination backend is configured: "@ + n
        + " replicas without one run as "@ + n
        + " independent single_node gateways (sessions, pub/sub and idempotency state fork per pod). Set spec.clusterRef to a Ready, non-single_node MCPGCluster, or declare a non-single_node backend inline at spec.config.cluster."@
}

/// What is wrong with how a gateway's replicas coordinate, as far as the
/// gateway alone shows: there are many of them, and it names no backend, or
/// a single-node one.
pub open spec fn shape_defect(s: MCPGGatewaySpec) -> Option<Seq<char>> {
    let n = decimal_int(s.replica_ceiling.count as int);
    if s.replica_ceiling.count <= 1 || s.cluster_ref is Some {
        None
    } else {
        match inline_kind(s.config.view()) {
            Some(k) => flagged(
                k == "single_node"@,
                single_node_denied(s.replica_ceiling.field@, n),
            ),
            None => Some(no_backend_denied(s.replica_ceiling.field@, n)),
        }
    }
}

/// How a gateway's replicas coordinate, or why they cannot.
pub fn coordination_path(spec: &MCPGGatewaySpec) -> (r: Result<CoordinationPath, String>)
    ensures
        match r {
            Ok(CoordinationPath::SingleReplica) => spec.replica_ceiling.count <= 1,
            Ok(CoordinationPath::Ref(name)) => spec.replica_ceiling.count > 1 && ref_name(
                spec.cluster_ref,
            ) == Some(name@),
            Ok(CoordinationPath::Inline) => spec.replica_ceiling.count > 1 && spec.cluster_ref
                is None && shape_defect(*spec) is None,
            Err(m) => shape_defect(*spec) == Some(m@),
        },
{
    let ceiling: i32 = spec.replica_ceiling.count;
    if ceiling <= 1 {
        return Ok(CoordinationPath::SingleReplica);
    }
    match &spec.cluster_ref {
        Some(r) => return Ok(CoordinationPath::Ref(r.name.clone())),
        None => {},
    }
    let n = decimal_int_text(ceiling as i64);
    let field = spec.replica_ceiling.field.as_str();
    match inline_cluster_kind(&spec.config) {
        Some(k) => {
            if same(k.as_str(), "single_node") {
                Err(
                    "MultiReplicaWithSingleNodeBackend: ".to_owned().concat(field).concat(
                        " is ",
                    ).concat(n.as_str()).concat(
                        " but spec.config.cluster resolves to the `single_node` backend, which cannot coordinate more than one replica — ",
                    ).concat(n.as_str()).concat(
                        " replicas without a shared coordination backend run as ",
                    ).concat(n.as_str()).concat(
                        " independent gateways (sessions, pub/sub and idempotency state fork per pod). Set spec.clusterRef to a Ready, non-single_node MCPGCluster, or declare a non-single_node backend inline at spec.config.cluster.kind.",
                    ),
                )
            } else {
                Ok(CoordinationPath::Inline)
            }
        },
        None => Err(
            field.to_owned().concat(" is ").concat(n.as_str()).concat(
                " but no cluster coordination backend is configured: ",
            ).concat(n.as_str()).concat(" replicas without one run as ").concat(
                n.as_str(),
            ).concat(
                " independent single_node gateways (sessions, pub/sub and idempotency state fork per pod). Set spec.clusterRef to a Ready, non-single_node MCPGCluster, or declare a non-single_node backend inline at spec.config.cluster.",
            ),
        ),
    }
}

/// Whether an update keeps a binding that was admitted before: the gateway
/// could already have more than one replica, and names the same cluster.
pub open spec fn keeps_binding(old: Option<MCPGGateway>, new: MCPGGateway) -> bool {
    match old {
        Some(o) => o.spec.replica_ceiling.count > 1 && ref_name(o.spec.cluster_ref) == ref_name(
            new.spec.cluster_ref,
        ),
        None => false,
    }
}

/// The gateway before an update.
pub open spec fn previous(old: Option<&MCPGGateway>) -> Option<MCPGGateway> {
    match old {
        Some(o) => Some(*o),
        None => None,
    }
}

/// Whether an update keeps a binding that was admitted before. Such an
/// update is not held to the state of the cluster.
pub fn binding_already_admitted(old: Option<&MCPGGateway>, new: &MCPGGateway) -> (r: bool)
    ensures
        r == keeps_binding(previous(old), *new),
{
    match old {
        Some(o) => o.spec.replica_ceiling.count > 1 && match (
            &o.spec.cluster_ref,
            &new.spec.cluster_ref,
        ) {
            (Some(a), Some(b)) => same(a.name.as_str(), b.name.as_str()),
            (None, None) => true,
            _ => false,
        },
        None => false,
    }
}

/// What is wrong with the cluster that a gateway names: it is not there, it
/// is a single node, or it is not ready.
pub open spec fn cluster_defect(
    name: Seq<char>,
    ceiling: i32,
    field: Seq<char>,
    cluster: Option<MCPGCluster>,
) -> Option<Seq<char>> {
    let n = decimal_int(ceiling as int);
    match cluster {
        None => Some(
            "spec.clusterRef points at MCPGCluster/"@ + name + ", which does not exist; "@ + field
                + " is "@ + n + ", and "@ + n
                + " replicas without a coordination backend run as "@ + n
                + " independent single_node gateways. Create the MCPGCluster (and wait for Ready=True), or fix the reference."@,
        ),
        Some(c) => if c.spec.effectively_single_node {
            Some(
                "MultiReplicaWithSingleNodeBackend: "@ + field + " is "@ + n
                    + " but MCPGCluster/"@ + name
                    + " provides the `single_node` backend, which cannot coordinate more than one replica — the replicas would run as "@
                    + n
                    + " independent gateways. Reference a redis / nats MCPGCluster (or a managed one) instead."@,
            )
        } else {
            flagged(
                !is_true(status_conditions(c.status), "Ready"@),
                "spec.clusterRef points at MCPGCluster/"@ + name
                    + ", which is not Ready. Admission requires a Ready coordinator so "@ + n
                    + " replicas never start as "@ + n
                    + " independent single_node gateways. Wait for `kubectl get mcpgc "@ + name
                    + "` to report Ready=True and retry."@,
            )
        },
    }
}

/// The cluster that was looked up.
pub open spec fn looked_up(c: Option<&MCPGCluster>) -> Option<MCPGCluster> {
    match c {
        Some(c) => Some(*c),
        None => None,
    }
}

/// Judges the cluster that a gateway names.
pub fn judge_referenced_cluster(
    name: &str,
    ceiling: i32,
    field: &str,
    cluster: Option<&MCPGCluster>,
) -> (r: Result<(), String>)
    ensures
        finds(r, cluster_defect(name@, ceiling, field@, looked_up(cluster))),
{
    let n = decimal_int_text(ceiling as i64);
    let c = match cluster {
        Some(c) => c,
        None => {
            return Err(
                "spec.clusterRef points at MCPGCluster/".to_owned().concat(name).concat(
                    ", which does not exist; ",
                ).concat(field).concat(" is ").concat(n.as_str()).concat(", and ").concat(
                    n.as_str(),
                ).concat(" replicas without a coordination backend run as ").concat(
                    n.as_str(),
                ).concat(
                    " independent single_node gateways. Create the MCPGCluster (and wait for Ready=True), or fix the reference.",
                ),
            );
        },
    };
    if c.spec.effectively_single_node {
        return Err(
            "MultiReplicaWithSingleNodeBackend: ".to_owned().concat(field).concat(" is ").concat(
                n.as_str(),
            ).concat(" but MCPGCluster/").concat(name).concat(
                " provides the `single_node` backend, which cannot coordinate more than one replica — the replicas would run as ",
            ).concat(n.as_str()).concat(
                " independent gateways. Reference a redis / nats MCPGCluster (or a managed one) instead.",
            ),
        );
    }
    if !status_ready(&c.status) {
        return Err(
            "spec.clusterRef points at MCPGCluster/".to_owned().concat(name).concat(
                ", which is not Ready. Admission requires a Ready coordinator so ",
            ).concat(n.as_str()).concat(" replicas never start as ").concat(n.as_str()).concat(
                " independent single_node gateways. Wait for `kubectl get mcpgc ",
            ).concat(name).concat("` to report Ready=True and retry."),
        );
    }
    Ok(())
}

/// How looking up the cluster that a gateway names ended.
#[derive(Debug)]
pub enum ClusterLookup {
    Found(MCPGCluster),
    Missing,
    /// The lookup failed; the gateway is then not held to it.
    Failed,
}

/// What is wrong with how a gateway's replicas coordinate.
pub open spec fn coordination_defect(
    gw: MCPGGateway,
    old: Option<MCPGGateway>,
    lookup: ClusterLookup,
) -> Option<Seq<char>> {
    let c = gw.spec.replica_ceiling;
    if c.count <= 1 || gw.spec.cluster_ref is None {
        shape_defect(gw.spec)
    } else if keeps_binding(old, gw) {
        None
    } else {
        let name = gw.spec.cluster_ref->0.name@;
        match lookup {
            ClusterLookup::Found(found) => cluster_defect(name, c.count, c.field@, Some(found)),
            ClusterLookup::Missing => cluster_defect(name, c.count, c.field@, None),
            ClusterLookup::Failed => None,
        }
    }
}

/// The cluster that must be looked up to judge how a gateway's replicas
/// coordinate.
pub fn cluster_to_look_up(obj: &MCPGGateway, old: Option<&MCPGGateway>) -> (r: Option<String>)
    ensures
        match r {
            Some(name) => obj.spec.replica_ceiling.count > 1 && ref_name(obj.spec.cluster_ref)
                == Some(name@) && !keeps_binding(previous(old), *obj),
            None => obj.spec.replica_ceiling.count <= 1 || obj.spec.cluster_ref is None
                || keeps_binding(previous(old), *obj),
        },
{
    if obj.spec.replica_ceiling.count <= 1 || binding_already_admitted(old, obj) {
        return None;
    }
    match &obj.spec.cluster_ref {
        Some(r) => Some(r.name.clone()),
        None => None,
    }
}

/// Checks how a gateway's replicas coordinate.
pub fn enforce_multi_replica_coordination(
    obj: &MCPGGateway,
    old: Option<&MCPGGateway>,
    lookup: &ClusterLookup,
) -> (r: Result<(), String>)
    ensures
        finds(r, coordination_defect(*obj, previous(old), *lookup)),
{
    let name = match coordination_path(&obj.spec) {
        Err(m) => return Err(m),
        Ok(CoordinationPath::Ref(name)) => name,
        Ok(_) => return Ok(()),
    };
    if binding_already_admitted(old, obj) {
        return Ok(());
    }
    let c = &obj.spec.replica_ceiling;
    match lookup {
        ClusterLookup::Found(found) => judge_referenced_cluster(
            name.as_str(),
            c.count,
            c.field.as_str(),
            Some(found),
        ),
        ClusterLookup::Missing => judge_referenced_cluster(
            name.as_str(),
            c.count,
            c.field.as_str(),
            None,
        ),
        ClusterLookup::Failed => Ok(()),
    }
}

/// What is wrong with a gateway, all things considered.
pub open spec fn gateway_defect(
    gw: MCPGGateway,
    old: Option<MCPGGateway>,
    lookup: ClusterLookup,
    tenants: Option<Seq<MCPGTenant>>,
) -> Option<Seq<char>> {
    first_of(
        spec_defect(gw.spec),
        first_of(
            coordination_defect(gw, old, lookup),
            replica_defect(gw, gateway_tenant(gw, tenants)),
        ),
    )
}

/// Reviews a gateway that is about to be written; a deletion has none.
pub fn validate(
    obj: Option<&MCPGGateway>,
    old: Option<&MCPGGateway>,
    lookup: &ClusterLookup,
    tenants: Option<&Vec<MCPGTenant>>,
) -> (r: Decision)
    ensures
        match obj {
            Some(gw) => r@ == judged(gateway_defect(*gw, previous(old), *lookup, listed(tenants))),
            None => r@ == judged(None),
        },
{
    let gw = match obj {
        Some(gw) => gw,
        None => return admitted(),
    };
    match validate_spec(gw) {
        Ok(_) => {},
        Err(m) => return Decision::Deny(m),
    }
    match enforce_multi_replica_coordination(gw, old, lookup) {
        Ok(_) => {},
        Err(m) => return Decision::Deny(m),
    }
    match enforce_gateway_replica_cap(gw, tenants) {
        Ok(_) => admitted(),
        Err(m) => Decision::Deny(m),
    }
}

/// A gateway that is admitted with room for more than one replica names a
/// backend that can coordinate them: one inline that is not a single node, or
/// a cluster. That cluster was found to be ready and no single node, unless
/// the gateway was bound to it already or it could not be looked up.
pub proof fn law_many_replicas_have_a_coordinator(
    gw: MCPGGateway,
    old: Option<MCPGGateway>,
    lookup: ClusterLookup,
)
    requires
        gw.spec.replica_ceiling.count > 1,
        coordination_defect(gw, old, lookup) is None,
    ensures
        match gw.spec.cluster_ref {
            None => inline_kind(gw.spec.config.view()) matches Some(k) && k != "single_node"@,
            Some(_) => keeps_binding(old, gw) || lookup is Failed || (lookup matches
                ClusterLookup::Found(c) && !c.spec.effectively_single_node && is_true(
                status_conditions(c.status),
                "Ready"@,
            )),
        },
{
}

/// A lookup that failed is not held against a gateway: when neither its
/// cluster nor the tenants could be read, it is denied only for what it says
/// itself.
pub proof fn law_failed_lookups_admit(gw: MCPGGateway, old: Option<MCPGGateway>)
    requires
        spec_defect(gw.spec) is None,
        shape_defect(gw.spec) is None,
    ensures
        gateway_defect(gw, old, ClusterLookup::Failed, None) is None,
{
}

/// The Secrets of an admitted gateway are mounted under different names and
/// at different paths.
pub proof fn law_mounts_do_not_collide(s: MCPGGatewaySpec, i: int, j: int)
    requires
        spec_defect(s) is None,
        0 <= j < i < s.secret_mounts@.len(),
    ensures
        s.secret_mounts@[i].name@ != s.secret_mounts@[j].name@,
        trim_end_char(s.secret_mounts@[i].mount_path@, '/') != trim_end_char(
            s.secret_mounts@[j].mount_path@,
            '/',
        ),
{
    let v = s.secret_mounts@;
    lemma_no_defect(v.len(), |i: int| mount_defect(v, i), i);
    assert(!name_repeats(v, i));
    assert(!path_repeats(v, i));
    assert(v[j].name@ != v[i].name@);
}

/// An admitted gateway has at most one routing plane.
pub proof fn law_one_routing_plane(s: MCPGGatewaySpec)
    requires
        spec_defect(s) is None,
    ensures
        !(s.ingress is Some && s.cloud is Some),
{
}

} // verus!
