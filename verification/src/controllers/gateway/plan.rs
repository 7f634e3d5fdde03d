//! The order in which a gateway's children are applied.
use vstd::prelude::*;

verus! {

/// What a gateway's reconcile applies.
#[derive(Debug, Clone, Copy, PartialEq, Eq, Structural)]
pub enum GatewayChild {
    ConfigMap,
    Service,
    ServiceAccount,
    Deployment,
    /// The route at the shared edge.
    HttpRoute,
    /// The listeners and certificates of custom domains.
    EdgeDomains,
    Autoscaler,
    DisruptionBudget,
}

/// Which of the optional children a gateway has.
#[derive(Debug, Clone, Copy, PartialEq, Eq, Structural)]
pub struct OptionalChildren {
    pub http_route: bool,
    pub autoscaler: bool,
    pub disruption_budget: bool,
}

/// One child, when the gateway has it.
pub open spec fn child_if(has: bool, c: GatewayChild) -> Seq<GatewayChild> {
    if has {
        seq![c]
    } else {
        Seq::empty()
    }
}

/// The children in the order in which they are applied. The config comes
/// before the Deployment that mounts it, and the route before the listeners
/// that it binds to.
pub open spec fn order(has: OptionalChildren) -> Seq<GatewayChild> {
    seq![
        GatewayChild::ConfigMap,
        GatewayChild::Service,
        GatewayChild::ServiceAccount,
        GatewayChild::Deployment,
    ] + child_if(has.http_route, GatewayChild::HttpRoute) + seq![GatewayChild::EdgeDomains]
        + child_if(has.autoscaler, GatewayChild::Autoscaler) + child_if(
        has.disruption_budget,
        GatewayChild::DisruptionBudget,
    )
}

/// The children in the order in which they are applied.
pub fn apply_order(has: OptionalChildren) -> (r: Vec<GatewayChild>)
    ensures
        r@ == order(has),
{
    let mut out: Vec<GatewayChild> = Vec::new();
    out.push(GatewayChild::ConfigMap);
    out.push(GatewayChild::Service);
    out.push(GatewayChild::ServiceAccount);
    out.push(GatewayChild::Deployment);
    if has.http_route {
        out.push(GatewayChild::HttpRoute);
    }
    out.push(GatewayChild::EdgeDomains);
    if has.autoscaler {
        out.push(GatewayChild::Autoscaler);
    }
    if has.disruption_budget {
        out.push(GatewayChild::DisruptionBudget);
    }
    assert(out@ =~= order(has));
    out
}

} // verus!
