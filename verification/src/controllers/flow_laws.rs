//! What holds of the steps of every reconcile.
use vstd::prelude::*;

use crate::api::resources::{
    MCPGCluster, MCPGGateway, MCPGPlugin, MCPGPluginMirror, MCPGPluginSet, MCPGRevocationList, MCPGRoute, MCPGServer, MCPGTenant,
};
use crate::controllers::cluster::flow::{ClusterAction, ClusterEvent, ClusterState};
use crate::controllers::gateway::flow::{GatewayAction, GatewayEvent, GatewayState};
use crate::controllers::plugin::flow::{PluginAction, PluginEvent, PluginState};
use crate::controllers::plugin_mirror::flow::{MirrorAction, MirrorEvent, MirrorState};
use crate::controllers::plugin_set::flow::{SetAction, SetEvent, SetState};
use crate::controllers::revocation_list::flow::{ListAction, ListEvent, ListState};
use crate::controllers::route::flow::{RouteAction, RouteEvent, RouteState};
use crate::controllers::server::flow::{ServerAction, ServerEvent, ServerState};
use crate::controllers::tenant::flow::{TenantAction, TenantEvent, TenantState};
use crate::reconcile::flow::{Begin, ReconcileError};

verus! {

/// What the reconcile of a plugin waits for in each state.
pub open spec fn plugin_waits_for(s: PluginState, e: PluginEvent) -> bool {
    match (s, e) {
        (PluginState::RemovingFinalizer, PluginEvent::FinalizerRemoved(_)) => true,
        (PluginState::AddingFinalizer, PluginEvent::FinalizerAdded(_)) => true,
        (PluginState::Announcing, PluginEvent::Announced) => true,
        (PluginState::ResolvingMirror, PluginEvent::Mirror(_)) => true,
        (PluginState::Pulling, PluginEvent::Pulled(_)) => true,
        (PluginState::LoadingKey(_), PluginEvent::KeyLoaded(_)) => true,
        (PluginState::ReadingRevocations(_), PluginEvent::RevocationsRead(_)) => true,
        (PluginState::Checking(_), PluginEvent::Checked(_)) => true,
        (PluginState::CheckingCosign(_, _), PluginEvent::CosignChecked(_)) => true,
        (PluginState::FetchingProvenance(_, _, _), PluginEvent::ProvenanceFetched(_)) => true,
        (PluginState::CheckingProvenance(_, _, _), PluginEvent::ProvenanceChecked(_)) => true,
        (PluginState::Applying { .. }, PluginEvent::Applied(_)) => true,
        _ => false,
    }
}

/// The reconcile of a plugin heeds only what it waits for: anything else changes
/// nothing. One that is being deleted begins by giving up its finalizer, any other by taking it.
/// Once the finalizer is given up the reconcile is over until the next change;
/// where it cannot be given up or taken, that is an error. What ends the reconcile
/// ends it for good, and it ends in no other way.
pub proof fn law_plugin_heeds_what_it_waits_for(
    obj: MCPGPlugin,
    b: Begin,
    ns: Seq<char>,
    s: PluginState,
    e: PluginEvent,
    n: PluginState,
    x: PluginAction,
    detail: String,
)
    ensures
        crate::controllers::plugin::flow::starts(b, s, x) ==> {
            &&& b.deleting ==> s is RemovingFinalizer && x is RemoveFinalizer
            &&& !b.deleting ==> s is AddingFinalizer && x is AddFinalizer
        },
        crate::controllers::plugin::flow::step_is(obj, b, ns, s, e, n, x) && !plugin_waits_for(s, e) ==> n == s && x is Nothing,
        crate::controllers::plugin::flow::step_is(
            obj,
            b,
            ns, PluginState::RemovingFinalizer,
            PluginEvent::FinalizerRemoved(Ok(())),
            n,
            x,
        ) ==> n is Done && (x matches PluginAction::Stop(v) && v.requeue is AwaitChange && v.outcome is Success),
        crate::controllers::plugin::flow::step_is(
            obj,
            b,
            ns, PluginState::RemovingFinalizer,
            PluginEvent::FinalizerRemoved(Err(detail)),
            n,
            x,
        ) ==> n is Done && x == PluginAction::Fail(ReconcileError::Finalizer(detail)),
        crate::controllers::plugin::flow::step_is(
            obj,
            b,
            ns, PluginState::AddingFinalizer,
            PluginEvent::FinalizerAdded(Err(detail)),
            n,
            x,
        ) ==> n is Done && x == PluginAction::Fail(ReconcileError::Finalizer(detail)),
        crate::controllers::plugin::flow::step_is(obj, b, ns, s, e, n, x) && !(s is Done) ==> (n is Done <==> x is Complete || x is Report || x is Stop || x is Fail),
{
}

/// What the reconcile of a plugin set waits for in each state.
pub open spec fn plugin_set_waits_for(s: SetState, e: SetEvent) -> bool {
    match (s, e) {
        (SetState::RemovingFinalizer, SetEvent::FinalizerRemoved(_)) => true,
        (SetState::AddingFinalizer, SetEvent::FinalizerAdded(_)) => true,
        (SetState::FindingPlugin(_), SetEvent::PluginFound(_)) => true,
        (SetState::Binding(_, _), SetEvent::Bound(_)) => true,
        (SetState::FindingSource { .. }, SetEvent::SourceFound(_)) => true,
        (SetState::Copying { .. }, SetEvent::Copied(_)) => true,
        (SetState::Publishing { .. }, SetEvent::Published(_)) => true,
        (SetState::ListingSecrets { .. }, SetEvent::SecretsListed(_)) => true,
        _ => false,
    }
}

/// The reconcile of a plugin set heeds only what it waits for: anything else changes
/// nothing. One that is being deleted begins by giving up its finalizer, any other by taking it.
/// Once the finalizer is given up the reconcile is over until the next change;
/// where it cannot be given up or taken, that is an error. What ends the reconcile
/// ends it for good, and it ends in no other way.
pub proof fn law_plugin_set_heeds_what_it_waits_for(
    obj: MCPGPluginSet,
    b: Begin,
    account: Seq<char>,
    s: SetState,
    e: SetEvent,
    n: SetState,
    x: SetAction,
    detail: String,
)
    ensures
        crate::controllers::plugin_set::flow::starts(b, s, x) ==> {
            &&& b.deleting ==> s is RemovingFinalizer && x is RemoveFinalizer
            &&& !b.deleting ==> s is AddingFinalizer && x is AddFinalizer
        },
        crate::controllers::plugin_set::flow::step_is(obj, b, account, s, e, n, x) && !plugin_set_waits_for(s, e) ==> n == s && x is Nothing,
        crate::controllers::plugin_set::flow::step_is(
            obj,
            b,
            account, SetState::RemovingFinalizer,
            SetEvent::FinalizerRemoved(Ok(())),
            n,
            x,
        ) ==> n is Done && (x matches SetAction::Stop(v) && v.requeue is AwaitChange && v.outcome is Success),
        crate::controllers::plugin_set::flow::step_is(
            obj,
            b,
            account, SetState::RemovingFinalizer,
            SetEvent::FinalizerRemoved(Err(detail)),
            n,
            x,
        ) ==> n is Done && x == SetAction::Fail(ReconcileError::Finalizer(detail)),
        crate::controllers::plugin_set::flow::step_is(
            obj,
            b,
            account, SetState::AddingFinalizer,
            SetEvent::FinalizerAdded(Err(detail)),
            n,
            x,
        ) ==> n is Done && x == SetAction::Fail(ReconcileError::Finalizer(detail)),
        crate::controllers::plugin_set::flow::step_is(obj, b, account, s, e, n, x) && !(s is Done) ==> (n is Done <==> x is Complete || x is Stop || x is Fail),
{
}

/// What the reconcile of a gateway waits for in each state.
pub open spec fn gateway_waits_for(s: GatewayState, e: GatewayEvent) -> bool {
    match (s, e) {
        (GatewayState::RemovingFinalizer, GatewayEvent::FinalizerRemoved(_)) => true,
        (GatewayState::AddingFinalizer, GatewayEvent::FinalizerAdded(_)) => true,
        (GatewayState::ReleasingEdge, GatewayEvent::EdgeReleased) => true,
        (GatewayState::FindingPluginSet, GatewayEvent::PluginSetFound(_)) => true,
        (GatewayState::FindingDocument(_), GatewayEvent::DocumentFound(_)) => true,
        (GatewayState::FindingRevocationList(_), GatewayEvent::RevocationListFound(_)) => true,
        (GatewayState::ApplyingRevocationList(_, _), GatewayEvent::RevocationListApplied(_)) => true,
        (GatewayState::FindingCluster(_, _), GatewayEvent::ClusterFound(_)) => true,
        (GatewayState::MergingPlugins(_), GatewayEvent::PluginsMerged(_)) => true,
        (GatewayState::ListingRoutes(_, _), GatewayEvent::RoutesListed(_)) => true,
        (GatewayState::ListingServers(_, _, _), GatewayEvent::ServersListed(_)) => true,
        (GatewayState::AddingDefaults(_, _), GatewayEvent::DefaultsAdded(_)) => true,
        (GatewayState::Rendering(_), GatewayEvent::Rendered { .. }) => true,
        (GatewayState::Applying { .. }, GatewayEvent::ChildApplied(_)) => true,
        _ => false,
    }
}

/// The reconcile of a gateway heeds only what it waits for: anything else changes
/// nothing.
/// Once the finalizer is given up the reconcile is over until the next change;
/// where it cannot be given up or taken, that is an error. What ends the reconcile
/// ends it for good, and it ends in no other way.
pub proof fn law_gateway_heeds_what_it_waits_for(
    obj: MCPGGateway,
    b: Begin,
    s: GatewayState,
    e: GatewayEvent,
    n: GatewayState,
    x: GatewayAction,
    detail: String,
)
    ensures
        crate::controllers::gateway::flow::step_is(obj, b, s, e, n, x) && !gateway_waits_for(s, e) ==> n == s && x is Nothing,
        crate::controllers::gateway::flow::step_is(
            obj,
            b,
            GatewayState::RemovingFinalizer,
            GatewayEvent::FinalizerRemoved(Ok(())),
            n,
            x,
        ) ==> n is Done && (x matches GatewayAction::Stop(v) && v.requeue is AwaitChange && v.outcome is Success),
        crate::controllers::gateway::flow::step_is(
            obj,
            b,
            GatewayState::RemovingFinalizer,
            GatewayEvent::FinalizerRemoved(Err(detail)),
            n,
            x,
        ) ==> n is Done && x == GatewayAction::Fail(ReconcileError::Finalizer(detail)),
        crate::controllers::gateway::flow::step_is(
            obj,
            b,
            GatewayState::AddingFinalizer,
            GatewayEvent::FinalizerAdded(Err(detail)),
            n,
            x,
        ) ==> n is Done && x == GatewayAction::Fail(ReconcileError::Finalizer(detail)),
        crate::controllers::gateway::flow::step_is(obj, b, s, e, n, x) && !(s is Done) ==> (n is Done <==> x is Complete || x is Stop || x is Fail),
{
}

/// What the reconcile of a tenant waits for in each state.
pub open spec fn tenant_waits_for(s: TenantState, e: TenantEvent) -> bool {
    match (s, e) {
        (TenantState::RemovingFinalizer, TenantEvent::FinalizerRemoved(_)) => true,
        (TenantState::AddingFinalizer, TenantEvent::FinalizerAdded(_)) => true,
        (TenantState::TearingDown { .. }, TenantEvent::TornDown) => true,
        (TenantState::FindingNamespace { .. }, TenantEvent::NamespaceFound(_)) => true,
        (TenantState::BindingNamespace { .. }, TenantEvent::NamespaceBound(_)) => true,
        (TenantState::Counting { .. }, TenantEvent::Counted(_)) => true,
        _ => false,
    }
}

/// The reconcile of a tenant heeds only what it waits for: anything else changes
/// nothing.
/// Once the finalizer is given up the reconcile is over until the next change;
/// where it cannot be given up or taken, that is an error. What ends the reconcile
/// ends it for good, and it ends in no other way.
pub proof fn law_tenant_heeds_what_it_waits_for(
    obj: MCPGTenant,
    b: Begin,
    account: Seq<char>,
    s: TenantState,
    e: TenantEvent,
    n: TenantState,
    x: TenantAction,
    detail: String,
)
    ensures
        crate::controllers::tenant::flow::step_is(obj, b, account, s, e, n, x) && !tenant_waits_for(s, e) ==> n == s && x is Nothing,
        crate::controllers::tenant::flow::step_is(
            obj,
            b,
            account, TenantState::RemovingFinalizer,
            TenantEvent::FinalizerRemoved(Ok(())),
            n,
            x,
        ) ==> n is Done && (x matches TenantAction::Stop(v) && v.requeue is AwaitChange && v.outcome is Success),
        crate::controllers::tenant::flow::step_is(
            obj,
            b,
            account, TenantState::RemovingFinalizer,
            TenantEvent::FinalizerRemoved(Err(detail)),
            n,
            x,
        ) ==> n is Done && x == TenantAction::Fail(ReconcileError::Finalizer(detail)),
        crate::controllers::tenant::flow::step_is(
            obj,
            b,
            account, TenantState::AddingFinalizer,
            TenantEvent::FinalizerAdded(Err(detail)),
            n,
            x,
        ) ==> n is Done && x == TenantAction::Fail(ReconcileError::Finalizer(detail)),
        crate::controllers::tenant::flow::step_is(obj, b, account, s, e, n, x) && !(s is Done) ==> (n is Done <==> x is Complete || x is Stop || x is Fail),
{
}

/// What the reconcile of a revocation list waits for in each state.
pub open spec fn revocation_list_waits_for(s: ListState, e: ListEvent) -> bool {
    match (s, e) {
        (ListState::RemovingFinalizer, ListEvent::FinalizerRemoved(_)) => true,
        (ListState::AddingFinalizer, ListEvent::FinalizerAdded(_)) => true,
        (ListState::ListingGateways, ListEvent::GatewaysListed(_)) => true,
        (ListState::Applying { .. }, ListEvent::Applied(_)) => true,
        _ => false,
    }
}

/// The reconcile of a revocation list heeds only what it waits for: anything else changes
/// nothing. One that is being deleted begins by giving up its finalizer, any other by taking it.
/// Once the finalizer is given up the reconcile is over until the next change;
/// where it cannot be given up or taken, that is an error. What ends the reconcile
/// ends it for good, and it ends in no other way.
pub proof fn law_revocation_list_heeds_what_it_waits_for(
    obj: MCPGRevocationList,
    b: Begin,
    s: ListState,
    e: ListEvent,
    n: ListState,
    x: ListAction,
    detail: String,
)
    ensures
        crate::controllers::revocation_list::flow::starts(b, s, x) ==> {
            &&& b.deleting ==> s is RemovingFinalizer && x is RemoveFinalizer
            &&& !b.deleting ==> s is AddingFinalizer && x is AddFinalizer
        },
        crate::controllers::revocation_list::flow::step_is(obj, b, s, e, n, x) && !revocation_list_waits_for(s, e) ==> n == s && x is Nothing,
        crate::controllers::revocation_list::flow::step_is(
            obj,
            b,
            ListState::RemovingFinalizer,
            ListEvent::FinalizerRemoved(Ok(())),
            n,
            x,
        ) ==> n is Done && (x matches ListAction::Stop(v) && v.requeue is AwaitChange && v.outcome is Success),
        crate::controllers::revocation_list::flow::step_is(
            obj,
            b,
            ListState::RemovingFinalizer,
            ListEvent::FinalizerRemoved(Err(detail)),
            n,
            x,
        ) ==> n is Done && x == ListAction::Fail(ReconcileError::Finalizer(detail)),
        crate::controllers::revocation_list::flow::step_is(
            obj,
            b,
            ListState::AddingFinalizer,
            ListEvent::FinalizerAdded(Err(detail)),
            n,
            x,
        ) ==> n is Done && x == ListAction::Fail(ReconcileError::Finalizer(detail)),
        crate::controllers::revocation_list::flow::step_is(obj, b, s, e, n, x) && !(s is Done) ==> (n is Done <==> x is Complete || x is Stop || x is Fail),
{
}

/// What the reconcile of a cluster waits for in each state.
pub open spec fn cluster_waits_for(s: ClusterState, e: ClusterEvent) -> bool {
    match (s, e) {
        (ClusterState::RemovingFinalizer, ClusterEvent::FinalizerRemoved(_)) => true,
        (ClusterState::AddingFinalizer, ClusterEvent::FinalizerAdded(_)) => true,
        (ClusterState::FindingPlugin, ClusterEvent::PluginFound(_)) => true,
        (ClusterState::ListingGateways(_), ClusterEvent::GatewaysListed(_)) => true,
        _ => false,
    }
}

/// The reconcile of a cluster heeds only what it waits for: anything else changes
/// nothing. One that is being deleted begins by giving up its finalizer, any other by taking it.
/// Once the finalizer is given up the reconcile is over until the next change;
/// where it cannot be given up or taken, that is an error. What ends the reconcile
/// ends it for good, and it ends in no other way.
pub proof fn law_cluster_heeds_what_it_waits_for(
    obj: MCPGCluster,
    b: Begin,
    s: ClusterState,
    e: ClusterEvent,
    n: ClusterState,
    x: ClusterAction,
    detail: String,
)
    ensures
        crate::controllers::cluster::flow::starts(b, s, x) ==> {
            &&& b.deleting ==> s is RemovingFinalizer && x is RemoveFinalizer
            &&& !b.deleting ==> s is AddingFinalizer && x is AddFinalizer
        },
        crate::controllers::cluster::flow::step_is(obj, b, s, e, n, x) && !cluster_waits_for(s, e) ==> n == s && x is Nothing,
        crate::controllers::cluster::flow::step_is(
            obj,
            b,
            ClusterState::RemovingFinalizer,
            ClusterEvent::FinalizerRemoved(Ok(())),
            n,
            x,
        ) ==> n is Done && (x matches ClusterAction::Stop(v) && v.requeue is AwaitChange && v.outcome is Success),
        crate::controllers::cluster::flow::step_is(
            obj,
            b,
            ClusterState::RemovingFinalizer,
            ClusterEvent::FinalizerRemoved(Err(detail)),
            n,
            x,
        ) ==> n is Done && x == ClusterAction::Fail(ReconcileError::Finalizer(detail)),
        crate::controllers::cluster::flow::step_is(
            obj,
            b,
            ClusterState::AddingFinalizer,
            ClusterEvent::FinalizerAdded(Err(detail)),
            n,
            x,
        ) ==> n is Done && x == ClusterAction::Fail(ReconcileError::Finalizer(detail)),
        crate::controllers::cluster::flow::step_is(obj, b, s, e, n, x) && !(s is Done) ==> (n is Done <==> x is Complete || x is Stop || x is Fail),
{
}

/// What the reconcile of a mirror waits for in each state.
pub open spec fn mirror_waits_for(s: MirrorState, e: MirrorEvent) -> bool {
    match (s, e) {
        (MirrorState::RemovingFinalizer, MirrorEvent::FinalizerRemoved(_)) => true,
        (MirrorState::AddingFinalizer, MirrorEvent::FinalizerAdded(_)) => true,
        (MirrorState::FindingService, MirrorEvent::ServiceFound(_)) => true,
        (MirrorState::ListingPlugins(_), MirrorEvent::PluginsListed(_)) => true,
        _ => false,
    }
}

/// The reconcile of a mirror heeds only what it waits for: anything else changes
/// nothing. One that is being deleted begins by giving up its finalizer, any other by taking it.
/// Once the finalizer is given up the reconcile is over until the next change;
/// where it cannot be given up or taken, that is an error. What ends the reconcile
/// ends it for good, and it ends in no other way.
pub proof fn law_mirror_heeds_what_it_waits_for(
    obj: MCPGPluginMirror,
    b: Begin,
    s: MirrorState,
    e: MirrorEvent,
    n: MirrorState,
    x: MirrorAction,
    detail: String,
)
    ensures
        crate::controllers::plugin_mirror::flow::starts(b, s, x) ==> {
            &&& b.deleting ==> s is RemovingFinalizer && x is RemoveFinalizer
            &&& !b.deleting ==> s is AddingFinalizer && x is AddFinalizer
        },
        crate::controllers::plugin_mirror::flow::step_is(obj, b, s, e, n, x) && !mirror_waits_for(s, e) ==> n == s && x is Nothing,
        crate::controllers::plugin_mirror::flow::step_is(
            obj,
            b,
            MirrorState::RemovingFinalizer,
            MirrorEvent::FinalizerRemoved(Ok(())),
            n,
            x,
        ) ==> n is Done && (x matches MirrorAction::Stop(v) && v.requeue is AwaitChange && v.outcome is Success),
        crate::controllers::plugin_mirror::flow::step_is(
            obj,
            b,
            MirrorState::RemovingFinalizer,
            MirrorEvent::FinalizerRemoved(Err(detail)),
            n,
            x,
        ) ==> n is Done && x == MirrorAction::Fail(ReconcileError::Finalizer(detail)),
        crate::controllers::plugin_mirror::flow::step_is(
            obj,
            b,
            MirrorState::AddingFinalizer,
            MirrorEvent::FinalizerAdded(Err(detail)),
            n,
            x,
        ) ==> n is Done && x == MirrorAction::Fail(ReconcileError::Finalizer(detail)),
        crate::controllers::plugin_mirror::flow::step_is(obj, b, s, e, n, x) && !(s is Done) ==> (n is Done <==> x is Complete || x is Stop || x is Fail),
{
}

/// What the reconcile of a route waits for in each state.
pub open spec fn route_waits_for(s: RouteState, e: RouteEvent) -> bool {
    match (s, e) {
        (RouteState::RemovingFinalizer, RouteEvent::FinalizerRemoved(_)) => true,
        (RouteState::AddingFinalizer, RouteEvent::FinalizerAdded(_)) => true,
        (RouteState::FindingGateway, RouteEvent::GatewayFound(_)) => true,
        _ => false,
    }
}

/// The reconcile of a route heeds only what it waits for: anything else changes
/// nothing. One that is being deleted begins by giving up its finalizer, any other by taking it.
/// Once the finalizer is given up the reconcile is over until the next change;
/// where it cannot be given up or taken, that is an error. What ends the reconcile
/// ends it for good, and it ends in no other way.
pub proof fn law_route_heeds_what_it_waits_for(
    obj: MCPGRoute,
    b: Begin,
    s: RouteState,
    e: RouteEvent,
    n: RouteState,
    x: RouteAction,
    detail: String,
)
    ensures
        crate::controllers::route::flow::starts(b, s, x) ==> {
            &&& b.deleting ==> s is RemovingFinalizer && x is RemoveFinalizer
            &&& !b.deleting ==> s is AddingFinalizer && x is AddFinalizer
        },
        crate::controllers::route::flow::step_is(obj, b, s, e, n, x) && !route_waits_for(s, e) ==> n == s && x is Nothing,
        crate::controllers::route::flow::step_is(
            obj,
            b,
            RouteState::RemovingFinalizer,
            RouteEvent::FinalizerRemoved(Ok(())),
            n,
            x,
        ) ==> n is Done && (x matches RouteAction::Stop(v) && v.requeue is AwaitChange && v.outcome is Success),
        crate::controllers::route::flow::step_is(
            obj,
            b,
            RouteState::RemovingFinalizer,
            RouteEvent::FinalizerRemoved(Err(detail)),
            n,
            x,
        ) ==> n is Done && x == RouteAction::Fail(ReconcileError::Finalizer(detail)),
        crate::controllers::route::flow::step_is(
            obj,
            b,
            RouteState::AddingFinalizer,
            RouteEvent::FinalizerAdded(Err(detail)),
            n,
            x,
        ) ==> n is Done && x == RouteAction::Fail(ReconcileError::Finalizer(detail)),
        crate::controllers::route::flow::step_is(obj, b, s, e, n, x) && !(s is Done) ==> (n is Done <==> x is Complete || x is Stop || x is Fail),
{
}

/// What the reconcile of a server waits for in each state.
pub open spec fn server_waits_for(s: ServerState, e: ServerEvent) -> bool {
    match (s, e) {
        (ServerState::RemovingFinalizer, ServerEvent::FinalizerRemoved(_)) => true,
        (ServerState::AddingFinalizer, ServerEvent::FinalizerAdded(_)) => true,
        (ServerState::CheckingImage, ServerEvent::ImageChecked(_)) => true,
        (ServerState::ApplyingDeployment(_), ServerEvent::DeploymentApplied(_)) => true,
        (ServerState::ApplyingService(_), ServerEvent::ServiceApplied(_)) => true,
        (ServerState::FindingDeployment(_), ServerEvent::DeploymentFound(_)) => true,
        (ServerState::FindingGateway(_, _), ServerEvent::GatewayFound(_)) => true,
        _ => false,
    }
}

/// The reconcile of a server heeds only what it waits for: anything else changes
/// nothing. One that is being deleted begins by giving up its finalizer, any other by taking it.
/// Once the finalizer is given up the reconcile is over until the next change;
/// where it cannot be given up or taken, that is an error. What ends the reconcile
/// ends it for good, and it ends in no other way.
pub proof fn law_server_heeds_what_it_waits_for(
    obj: MCPGServer,
    b: Begin,
    s: ServerState,
    e: ServerEvent,
    n: ServerState,
    x: ServerAction,
    detail: String,
)
    ensures
        crate::controllers::server::flow::starts(b, s, x) ==> {
            &&& b.deleting ==> s is RemovingFinalizer && x is RemoveFinalizer
            &&& !b.deleting ==> s is AddingFinalizer && x is AddFinalizer
        },
        crate::controllers::server::flow::step_is(obj, b, s, e, n, x) && !server_waits_for(s, e) ==> n == s && x is Nothing,
        crate::controllers::server::flow::step_is(
            obj,
            b,
            ServerState::RemovingFinalizer,
            ServerEvent::FinalizerRemoved(Ok(())),
            n,
            x,
        ) ==> n is Done && (x matches ServerAction::Stop(v) && v.requeue is AwaitChange && v.outcome is Success),
        crate::controllers::server::flow::step_is(
            obj,
            b,
            ServerState::RemovingFinalizer,
            ServerEvent::FinalizerRemoved(Err(detail)),
            n,
            x,
        ) ==> n is Done && x == ServerAction::Fail(ReconcileError::Finalizer(detail)),
        crate::controllers::server::flow::step_is(
            obj,
            b,
            ServerState::AddingFinalizer,
            ServerEvent::FinalizerAdded(Err(detail)),
            n,
            x,
        ) ==> n is Done && x == ServerAction::Fail(ReconcileError::Finalizer(detail)),
        crate::controllers::server::flow::step_is(obj, b, s, e, n, x) && !(s is Done) ==> (n is Done <==> x is Complete || x is Stop || x is Fail),
{
}

} // verus!
