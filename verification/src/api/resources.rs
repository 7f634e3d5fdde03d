//! The operator's custom resources, reduced to what its decisions read.
//!
//! Some fields hold what the resource definitions compute from the rest of
//! a spec, such as the replica ceiling of a gateway or the rendered block of
//! a cluster; they are carried here as plain values.
use vstd::prelude::*;

use crate::api::conditions::{conditions_view, Condition, ConditionView};
use crate::api::objects::ObjectMeta;
use crate::clock::Timestamp;
use crate::json::Json;
use crate::text;

verus! {

/// The name of another object.
#[derive(Debug, Clone, Default)]
pub struct LocalObjectReference {
    pub name: String,
}

/// The name an optional reference holds.
pub open spec fn ref_name(r: Option<LocalObjectReference>) -> Option<Seq<char>> {
    match r {
        Some(r) => Some(r.name@),
        None => None,
    }
}

/// A status of which only the conditions are read.
#[derive(Debug, Default)]
pub struct ResourceStatus {
    pub conditions: Vec<Condition>,
}

/// The conditions of an optional status; none when there is no status.
pub open spec fn status_conditions(s: Option<ResourceStatus>) -> Seq<ConditionView> {
    match s {
        Some(s) => conditions_view(s.conditions@),
        None => Seq::empty(),
    }
}

/// The image of a gateway.
#[derive(Debug, Clone, Default)]
pub struct GatewayImage {
    pub repository: Option<String>,
    pub tag: Option<String>,
    pub pull_policy: Option<String>,
}

/// The cloud identity of a gateway's pods, by provider.
#[derive(Debug, Clone, Default)]
pub struct GatewayWorkloadIdentity {
    pub aws: Option<String>,
    pub gcp: Option<String>,
    pub azure: Option<String>,
    pub spiffe: Option<String>,
}

/// A Secret mounted into a gateway's pods.
#[derive(Debug, Clone, Default)]
pub struct SecretMount {
    pub name: String,
    pub mount_path: String,
}

/// A path of an ingress host.
#[derive(Debug, Clone, Default)]
pub struct GatewayIngressPath {
    pub path: String,
    pub path_type: String,
}

/// A host of an ingress.
#[derive(Debug, Clone, Default)]
pub struct GatewayIngressHost {
    pub host: String,
    pub paths: Vec<GatewayIngressPath>,
}

/// The ingress of a gateway.
#[derive(Debug, Clone, Default)]
pub struct GatewayIngress {
    pub ingress_class_name: String,
    pub hosts: Vec<GatewayIngressHost>,
}

/// The managed-cloud routing of a gateway.
#[derive(Debug, Clone, Default)]
pub struct GatewayCloud {
    pub org_slug: String,
    pub instance_slug: String,
    pub external_url: String,
    pub custom_domains: Vec<String>,
}

/// The largest number of replicas a gateway can reach, and the field that
/// sets it.
#[derive(Debug, Clone, Default)]
pub struct ReplicaCeiling {
    pub count: i32,
    pub field: String,
}

/// What a gateway asks for.
#[derive(Debug, Default)]
pub struct MCPGGatewaySpec {
    pub replicas: i32,
    pub image: GatewayImage,
    pub config: Json,
    pub plugin_set_ref: Option<LocalObjectReference>,
    pub revocation_list_ref: Option<LocalObjectReference>,
    pub cluster_ref: Option<LocalObjectReference>,
    pub accepted_route_namespaces: Vec<String>,
    pub cloud: Option<GatewayCloud>,
    pub ingress: Option<GatewayIngress>,
    pub workload_identity: Option<GatewayWorkloadIdentity>,
    pub env_from_secrets: Vec<LocalObjectReference>,
    pub secret_mounts: Vec<SecretMount>,
    pub replica_ceiling: ReplicaCeiling,
}

/// A gateway.
#[derive(Debug, Default)]
pub struct MCPGGateway {
    pub metadata: ObjectMeta,
    pub spec: MCPGGatewaySpec,
    pub status: Option<ResourceStatus>,
}

/// A plugin image in a registry.
#[derive(Debug, Clone, Default)]
pub struct OciImageRef {
    pub image: String,
    pub pull_secret_ref: Option<LocalObjectReference>,
    pub mirror_ref: Option<LocalObjectReference>,
}

/// Where the key that signs a plugin is kept.
#[derive(Debug, Clone, Default)]
pub struct SigningKeyRef {
    pub secret_name: String,
    pub key: String,
}

/// The identity a keyless signature must carry.
#[derive(Debug, Clone, Default)]
pub struct CosignIdentity {
    pub certificate_identity_regexp: String,
    pub oidc_issuer: String,
}

/// The provenance a plugin must carry.
#[derive(Debug, Clone, Default)]
pub struct SlsaProvenance {
    pub config_map_name: String,
    pub source_uri: String,
    pub source_tag: String,
}

/// What makes a plugin trusted.
#[derive(Debug, Clone, Default)]
pub struct PluginTrust {
    pub signing_key_ref: SigningKeyRef,
    pub cosign_identity: Option<CosignIdentity>,
    pub slsa_provenance: Option<SlsaProvenance>,
}

/// What a plugin asks for.
#[derive(Debug, Clone, Default)]
pub struct MCPGPluginSpec {
    pub plugin_id: String,
    pub version: String,
    pub plugin_class: String,
    pub oci: OciImageRef,
    pub trust: PluginTrust,
}

/// What is known of a plugin.
#[derive(Debug, Default)]
pub struct MCPGPluginStatus {
    pub conditions: Vec<Condition>,
    pub revoked_by_sha: Option<bool>,
    pub artefact_secret_name: Option<String>,
    pub resolved_digest: Option<String>,
}

/// A plugin.
#[derive(Debug, Default)]
pub struct MCPGPlugin {
    pub metadata: ObjectMeta,
    pub spec: MCPGPluginSpec,
    pub status: Option<MCPGPluginStatus>,
}

/// One plugin of a plugin set.
#[derive(Debug, Default)]
pub struct MCPGPluginSetEntry {
    pub id: String,
    pub plugin_ref: LocalObjectReference,
    pub enabled: bool,
    pub enforce: bool,
    pub config: Option<Json>,
}

/// What a plugin set asks for. The grants stand in ascending key order, one
/// entry per plugin id.
#[derive(Debug, Default)]
pub struct MCPGPluginSetSpec {
    pub entries: Vec<MCPGPluginSetEntry>,
    pub capability_grants: Vec<(String, Vec<String>)>,
}

/// What is known of a plugin set.
#[derive(Debug, Default)]
pub struct MCPGPluginSetStatus {
    pub conditions: Vec<Condition>,
    pub resolved_hash: Option<String>,
}

/// A plugin set.
#[derive(Debug, Default)]
pub struct MCPGPluginSet {
    pub metadata: ObjectMeta,
    pub spec: MCPGPluginSetSpec,
    pub status: Option<MCPGPluginSetStatus>,
}

/// The gateway a route targets.
#[derive(Debug, Clone, Default)]
pub struct GatewayRef {
    pub name: String,
    pub namespace: Option<String>,
}

/// A tool a route matches.
#[derive(Debug, Clone, Default)]
pub struct RouteToolRef {
    pub id: String,
}

/// What a route asks for.
#[derive(Debug, Clone, Default)]
pub struct MCPGRouteSpec {
    pub gateway_ref: GatewayRef,
    pub tools: Vec<RouteToolRef>,
    pub identity_chain: Vec<String>,
    pub policy_chain: Vec<String>,
    pub audit_chain: Vec<String>,
    pub tenant: Option<String>,
}

/// A route.
#[derive(Debug, Default)]
pub struct MCPGRoute {
    pub metadata: ObjectMeta,
    pub spec: MCPGRouteSpec,
    pub status: Option<ResourceStatus>,
}

/// The namespace of the gateway a route targets: the one it names, or the
/// route's own.
pub open spec fn gateway_namespace(r: GatewayRef, route_ns: Seq<char>) -> Seq<char> {
    match r.namespace {
        Some(n) => n@,
        None => route_ns,
    }
}

impl MCPGRouteSpec {
    /// The namespace of the gateway the route targets.
    pub fn gateway_namespace(&self, route_ns: &str) -> (r: String)
        ensures
            r@ == gateway_namespace(self.gateway_ref, route_ns@),
    {
        match &self.gateway_ref.namespace {
            Some(n) => n.clone(),
            None => route_ns.to_owned(),
        }
    }
}

/// How a server joins a gateway.
#[derive(Debug, Default)]
pub struct ServerFederate {
    pub gateway_ref: LocalObjectReference,
    pub tool_prefix: Option<String>,
    pub auth: Option<Json>,
    pub governance: Option<Json>,
    pub import: Option<Json>,
}

/// What a server asks for. `port`, `desired_replicas`, `federation_name`,
/// `endpoint` and `child_name` hold the effective values, with the resource
/// definition's defaults applied.
#[derive(Debug, Default)]
pub struct MCPGServerSpec {
    pub image: String,
    pub verify: Option<CosignIdentity>,
    pub port: i32,
    pub replicas: Option<i32>,
    pub desired_replicas: i32,
    pub federate: Option<ServerFederate>,
    pub federation_name: String,
    pub endpoint: String,
    pub child_name: String,
}

/// A server.
#[derive(Debug, Default)]
pub struct MCPGServer {
    pub metadata: ObjectMeta,
    pub spec: MCPGServerSpec,
    pub status: Option<ResourceStatus>,
}

/// A plugin a tenant may use: by name, or by where its image comes from.
#[derive(Debug, Clone, Default)]
pub struct AllowedPlugin {
    pub name: Option<String>,
    pub registry_prefix: Option<String>,
}

/// The limits of a tenant.
#[derive(Debug, Clone, Copy, Default)]
pub struct TenantQuotas {
    pub max_gateways: Option<i64>,
    pub max_plugin_sets: Option<i64>,
    pub max_routes: Option<i64>,
    pub max_replicas_per_gateway: Option<i64>,
}

/// The attribute by which a tenant's callers are known.
#[derive(Debug, Clone, Default)]
pub struct TenantIdentityAttribute {
    pub key: String,
    pub value: String,
}

/// What a tenant asks for.
#[derive(Debug, Clone, Default)]
pub struct MCPGTenantSpec {
    pub namespaces: Vec<String>,
    pub allowed_plugins: Vec<AllowedPlugin>,
    pub quotas: Option<TenantQuotas>,
    pub identity_attribute: Option<TenantIdentityAttribute>,
}

/// A tenant.
#[derive(Debug, Default)]
pub struct MCPGTenant {
    pub metadata: ObjectMeta,
    pub spec: MCPGTenantSpec,
    pub status: Option<ResourceStatus>,
}

/// The kind of a coordination backend.
#[derive(Debug, Clone, Default)]
pub struct ClusterBackend {
    pub config_kind: String,
    pub single_node: bool,
    pub plugin_id: Option<String>,
}

/// A credential of a coordination backend.
#[derive(Debug, Clone, Default)]
pub struct ClusterCredentialRef {
    pub name: String,
    pub secret_name: String,
}

/// What a cluster asks for. `insecure_transport_reason`,
/// `effectively_single_node` and `rendered_block` hold what the resource
/// definition computes from the backend and its config.
#[derive(Debug, Default)]
pub struct MCPGClusterSpec {
    pub backend: ClusterBackend,
    pub config: Vec<(String, Json)>,
    pub credential_refs: Vec<ClusterCredentialRef>,
    pub plugin_ref: Option<LocalObjectReference>,
    pub insecure_transport_reason: Option<String>,
    pub effectively_single_node: bool,
    pub rendered_block: Json,
}

/// A cluster.
#[derive(Debug, Default)]
pub struct MCPGCluster {
    pub metadata: ObjectMeta,
    pub spec: MCPGClusterSpec,
    pub status: Option<ResourceStatus>,
}

/// The Service behind a mirror; `host` is where it is reached.
#[derive(Debug, Clone, Default)]
pub struct MirrorService {
    pub namespace: String,
    pub name: String,
    pub port: u16,
    pub host: String,
}

/// The endpoint of a mirror.
#[derive(Debug, Clone, Default)]
pub struct MirrorEndpoint {
    pub service: MirrorService,
    pub insecure: bool,
}

/// What a mirror mirrors.
#[derive(Debug, Clone, Default)]
pub struct MirrorUpstream {
    pub registry: String,
    pub namespace: String,
}

/// The credentials of a mirror.
#[derive(Debug, Clone, Default)]
pub struct MirrorAuth {
    pub secret_name: String,
}

/// What a plugin mirror asks for.
#[derive(Debug, Clone, Default)]
pub struct MCPGPluginMirrorSpec {
    pub endpoint: MirrorEndpoint,
    pub upstream: MirrorUpstream,
    pub auth: Option<MirrorAuth>,
}

/// A plugin mirror.
#[derive(Debug, Default)]
pub struct MCPGPluginMirror {
    pub metadata: ObjectMeta,
    pub spec: MCPGPluginMirrorSpec,
    pub status: Option<ResourceStatus>,
}

/// A revoked artefact.
#[derive(Debug, Clone, Default)]
pub struct RevocationEntry {
    pub artifact_sha256: String,
    pub reason: String,
    pub revoked_at: Option<Timestamp>,
}

/// What a revocation list holds.
#[derive(Debug, Clone, Default)]
pub struct MCPGRevocationListSpec {
    pub version: u8,
    pub issued_at: Option<Timestamp>,
    pub revocations: Vec<RevocationEntry>,
}

/// A revocation list.
#[derive(Debug, Default)]
pub struct MCPGRevocationList {
    pub metadata: ObjectMeta,
    pub spec: MCPGRevocationListSpec,
    pub status: Option<ResourceStatus>,
}

/// An object by name, within a namespace when it has one.
#[derive(Debug)]
pub struct ObjectRef {
    pub name: String,
    pub namespace: Option<String>,
}

/// What an object reference says.
pub struct ObjectRefView {
    pub name: Seq<char>,
    pub namespace: Option<Seq<char>>,
}

impl View for ObjectRef {
    type V = ObjectRefView;

    open spec fn view(&self) -> ObjectRefView {
        ObjectRefView { name: self.name@, namespace: text::opt_text(self.namespace) }
    }
}

/// What a list of object references says.
pub open spec fn refs_view(v: Seq<ObjectRef>) -> Seq<ObjectRefView> {
    v.map_values(|r: ObjectRef| r@)
}

/// The reference to the object with the given metadata.
pub open spec fn object_ref(m: ObjectMeta) -> ObjectRefView {
    ObjectRefView {
        name: crate::api::objects::or_empty(m@.name),
        namespace: m@.namespace,
    }
}

impl ObjectRef {
    /// The reference to the object with the given metadata.
    pub fn from_meta(m: &ObjectMeta) -> (r: ObjectRef)
        ensures
            r@ == object_ref(*m),
    {
        ObjectRef { name: m.name_or_empty(), namespace: clone_opt(&m.namespace) }
    }
}

/// An optional string with the same text.
pub fn clone_opt(o: &Option<String>) -> (r: Option<String>)
    ensures
        text::opt_text(r) == text::opt_text(*o),
{
    match o {
        Some(s) => Some(s.clone()),
        None => None,
    }
}

/// Whether two optional texts are the same.
pub fn same_opt(a: &Option<String>, b: Option<&str>) -> (r: bool)
    ensures
        r == (text::opt_text(*a) == text::opt_str(b)),
{
    match (a, b) {
        (Some(x), Some(y)) => text::same(x.as_str(), y),
        (None, None) => true,
        _ => false,
    }
}

/// A copy of the conditions of an optional status.
pub fn existing_conditions(s: &Option<ResourceStatus>) -> (r: Vec<Condition>)
    ensures
        conditions_view(r@) == status_conditions(*s),
{
    match s {
        Some(s) => crate::api::conditions::clone_conditions(&s.conditions),
        None => {
            let v: Vec<Condition> = Vec::new();
            assert(conditions_view(v@) =~= Seq::empty());
            v
        },
    }
}

/// Whether an optional status has a `Ready` condition with status `True`.
pub fn status_ready(s: &Option<ResourceStatus>) -> (r: bool)
    ensures
        r == crate::api::conditions::is_true(status_conditions(*s), "Ready"@),
{
    match s {
        Some(s) => crate::api::conditions::condition_true(&s.conditions, "Ready"),
        None => false,
    }
}

} // verus!
