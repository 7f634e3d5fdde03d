//! The route controller: is a route bound to its gateway?
use vstd::prelude::*;

use crate::api::conditions::{event, Event, EventType};
use crate::api::resources::{
    existing_conditions, gateway_namespace, status_conditions, MCPGGateway, MCPGRoute,
    MCPGRouteSpec, ObjectRef,
};
use crate::controllers::report::{
    put, resync, resync_verdict, set_cond, Report, ReportView,
};
use crate::text::{decimal, decimal_text, has_text, same, texts, trim, trimmed};

verus! {

/// The gateway a route targets, as `namespace/name`.
pub open spec fn bound_to(route: MCPGRoute, ns: Seq<char>) -> Seq<char> {
    gateway_namespace(route.spec.gateway_ref, ns) + "/"@ + route.spec.gateway_ref.name@
}

/// Whether a gateway accepts routes from the given namespace: it is its own,
/// or it is listed.
pub open spec fn accepts(gw: MCPGGateway, gw_ns: Seq<char>, ns: Seq<char>) -> bool {
    gw_ns == ns || texts(gw.spec.accepted_route_namespaces@).contains(ns)
}

/// Whether a gateway accepts routes from the given namespace.
pub fn accepts_route(gw: &MCPGGateway, gw_ns: &str, route_ns: &str) -> (r: bool)
    ensures
        r == accepts(*gw, gw_ns@, route_ns@),
{
    same(gw_ns, route_ns) || has_text(&gw.spec.accepted_route_namespaces, route_ns)
}

/// Whether a route is bound, and the reason and message that say so.
pub open spec fn binding(
    route: MCPGRoute,
    ns: Seq<char>,
    gateway: Option<MCPGGateway>,
) -> (bool, Seq<char>, Seq<char>) {
    let target = "MCPGGateway/"@ + bound_to(route, ns);
    match gateway {
        None => (false, "GatewayNotFound"@, target + " not found"@),
        Some(gw) => if accepts(gw, gateway_namespace(route.spec.gateway_ref, ns), ns) {
            (true, "GatewayBound"@, "bound to MCPGGateway/"@ + bound_to(route, ns))
        } else {
            (
                false,
                "NamespaceNotAccepted"@,
                target + " does not list namespace '"@ + ns
                    + "' in spec.acceptedRouteNamespaces"@,
            )
        },
    }
}

/// Whether a chain names a plugin by an empty id.
pub open spec fn has_empty_id(chain: Seq<Seq<char>>) -> bool {
    exists|i: int| 0 <= i < chain.len() && trim(#[trigger] chain[i]).len() == 0
}

/// Whether some chain of a route names a plugin by an empty id.
pub open spec fn chain_broken(s: MCPGRouteSpec) -> bool {
    has_empty_id(texts(s.identity_chain@)) || has_empty_id(texts(s.policy_chain@))
        || has_empty_id(texts(s.audit_chain@))
}

fn empty_id(chain: &Vec<String>) -> (r: bool)
    ensures
        r == has_empty_id(texts(chain@)),
{
    let mut i: usize = 0;
    while i < chain.len()
        invariant
            i <= chain.len(),
            forall|j: int| 0 <= j < i ==> trim(#[trigger] texts(chain@)[j]).len() != 0,
        decreases chain.len() - i,
    {
        assert(texts(chain@)[i as int] == chain@[i as int]@);
        if trimmed(chain[i].as_str()).as_str().is_empty() {
            return true;
        }
        i = i + 1;
    }
    false
}

/// The first plugin of a route's chains that cannot be meant: one with an
/// empty id. Whether the gateway has the others is for the gateway to say.
pub fn missing_chain_plugins(route: &MCPGRoute) -> (r: Option<String>)
    ensures
        match r {
            Some(s) => chain_broken(route.spec) && s@ == "<empty>"@,
            None => !chain_broken(route.spec),
        },
{
    if empty_id(&route.spec.identity_chain) || empty_id(&route.spec.policy_chain) || empty_id(
        &route.spec.audit_chain,
    ) {
        Some("<empty>".to_owned())
    } else {
        None
    }
}

/// The tenant of a route, for display.
pub open spec fn tenant_text(s: MCPGRouteSpec) -> Seq<char> {
    match s.tenant {
        Some(t) => t@,
        None => "<none>"@,
    }
}

/// Whether a route is ready, and the reason and message that say so: it is
/// bound, matches some tool, and names no plugin by an empty id.
pub open spec fn readiness(
    route: MCPGRoute,
    ns: Seq<char>,
    gateway: Option<MCPGGateway>,
) -> (bool, Seq<char>, Seq<char>) {
    let b = binding(route, ns, gateway);
    if !b.0 {
        b
    } else if route.spec.tools@.len() == 0 {
        (
            false,
            "NoMatchedTools"@,
            "route matches no tools (spec.match.tools is empty)"@,
        )
    } else if chain_broken(route.spec) {
        (
            false,
            "ChainPluginMissing"@,
            "chain references plugin '<empty>' not declared on the gateway's pluginSetRef"@,
        )
    } else {
        (
            true,
            "Reconciled"@,
            decimal(route.spec.tools@.len()) + " tool(s) scoped to tenant '"@ + tenant_text(
                route.spec,
            ) + "'"@,
        )
    }
}

/// The text of the condition that says what the chains are good for.
pub open spec fn chains_note() -> Seq<char> {
    "identity/policy/audit chains are validated + recorded, but the gateway runtime does not yet dispatch them per-route; tool-access scoping (see Ready) is enforced"@
}

/// The report on a route.
pub open spec fn route_report(
    route: MCPGRoute,
    ns: Seq<char>,
    generation: i64,
    gateway: Option<MCPGGateway>,
) -> ReportView {
    let b = binding(route, ns, gateway);
    let r = readiness(route, ns, gateway);
    ReportView {
        conditions: put(
            put(
                put(
                    status_conditions(route.status),
                    "GatewayBound"@,
                    b.0,
                    b.1,
                    b.2,
                    generation,
                ),
                "Ready"@,
                r.0,
                r.1,
                r.2,
                generation,
            ),
            "ChainsEnforced"@,
            false,
            "PerRouteDispatchUnsupported"@,
            chains_note(),
            generation,
        ),
        event: if b.0 {
            None
        } else {
            Some(event(EventType::Warning, b.1, b.2, "Bind"@))
        },
        verdict: resync_verdict(r.0),
    }
}

/// The status of a route, and what else follows its reconcile.
#[derive(Debug)]
pub struct RouteReport {
    pub report: Report,
    pub observed_generation: i64,
    pub matched_tools: u64,
    pub bound_gateway: String,
}

/// Whether a report is the one on a route, given the gateway it targets where
/// that was found.
pub open spec fn reports(
    route: MCPGRoute,
    ns: Seq<char>,
    generation: i64,
    gateway: Option<MCPGGateway>,
    r: RouteReport,
) -> bool {
    &&& r.report@ == route_report(route, ns, generation, gateway)
    &&& r.observed_generation == generation
    &&& r.matched_tools == route.spec.tools@.len()
    &&& r.bound_gateway@ == bound_to(route, ns)
}

/// The gateway that was looked up.
pub open spec fn found(g: Option<&MCPGGateway>) -> Option<MCPGGateway> {
    match g {
        Some(g) => Some(*g),
        None => None,
    }
}

fn bind(route: &MCPGRoute, ns: &str, gateway: Option<&MCPGGateway>) -> (r: (
    bool,
    &'static str,
    String,
))
    ensures
        (r.0, r.1@, r.2@) == binding(*route, ns@, found(gateway)),
{
    let gw_ns = route.spec.gateway_namespace(ns);
    let target = gw_ns.clone().concat("/").concat(route.spec.gateway_ref.name.as_str());
    match gateway {
        None => (
            false,
            "GatewayNotFound",
            "MCPGGateway/".to_owned().concat(target.as_str()).concat(" not found"),
        ),
        Some(gw) => if accepts_route(gw, gw_ns.as_str(), ns) {
            (
                true,
                "GatewayBound",
                "bound to MCPGGateway/".to_owned().concat(target.as_str()),
            )
        } else {
            (
                false,
                "NamespaceNotAccepted",
                "MCPGGateway/".to_owned().concat(target.as_str()).concat(
                    " does not list namespace '",
                ).concat(ns).concat("' in spec.acceptedRouteNamespaces"),
            )
        },
    }
}

/// Reports on a route, given the gateway it targets where that was found.
pub fn report_route(
    route: &MCPGRoute,
    ns: &str,
    generation: i64,
    gateway: Option<&MCPGGateway>,
) -> (r: RouteReport)
    ensures
        reports(*route, ns@, generation, found(gateway), r),
{
    let (bound, bound_reason, bound_msg) = bind(route, ns, gateway);
    let mut conditions = existing_conditions(&route.status);
    set_cond(
        &mut conditions,
        "GatewayBound",
        bound,
        bound_reason,
        bound_msg.as_str(),
        generation,
    );
    let tools: u64 = route.spec.tools.len() as u64;
    let (ready, ready_reason, ready_msg) = if !bound {
        (false, bound_reason, bound_msg.clone())
    } else if route.spec.tools.len() == 0 {
        (
            false,
            "NoMatchedTools",
            "route matches no tools (spec.match.tools is empty)".to_owned(),
        )
    } else if missing_chain_plugins(route).is_some() {
        (
            false,
            "ChainPluginMissing",
            "chain references plugin '<empty>' not declared on the gateway's pluginSetRef".to_owned(),
        )
    } else {
        let tenant = match &route.spec.tenant {
            Some(t) => t.clone(),
            None => "<none>".to_owned(),
        };
        (
            true,
            "Reconciled",
            decimal_text(tools).concat(" tool(s) scoped to tenant '").concat(
                tenant.as_str(),
            ).concat("'"),
        )
    };
    set_cond(&mut conditions, "Ready", ready, ready_reason, ready_msg.as_str(), generation);
    set_cond(
        &mut conditions,
        "ChainsEnforced",
        false,
        "PerRouteDispatchUnsupported",
        "identity/policy/audit chains are validated + recorded, but the gateway runtime does not yet dispatch them per-route; tool-access scoping (see Ready) is enforced",
        generation,
    );
    let event = if bound {
        None
    } else {
        Some(Event::new(EventType::Warning, bound_reason, bound_msg.as_str(), "Bind"))
    };
    let gw_ns = route.spec.gateway_namespace(ns);
    RouteReport {
        report: Report { conditions, event, verdict: resync(ready) },
        observed_generation: generation,
        matched_tools: tools,
        bound_gateway: gw_ns.concat("/").concat(route.spec.gateway_ref.name.as_str()),
    }
}

/// The routes that a changed gateway concerns. There is no index from
/// gateways to routes, so there are none: a route notices at its next
/// resync.
pub fn map_gateway_to_routes(_gw: &MCPGGateway) -> (r: Vec<ObjectRef>)
    ensures
        r@.len() == 0,
{
    Vec::new()
}

/// A route from another namespace is ready only when the gateway listed that
/// namespace.
pub proof fn law_cross_namespace_needs_consent(
    route: MCPGRoute,
    ns: Seq<char>,
    gateway: MCPGGateway,
)
    requires
        gateway_namespace(route.spec.gateway_ref, ns) != ns,
        readiness(route, ns, Some(gateway)).0,
    ensures
        texts(gateway.spec.accepted_route_namespaces@).contains(ns),
{
}

/// The route controller and the gateway agree: a route is reported as bound
/// to a gateway exactly when that gateway folds it into its rules.
pub proof fn law_bound_iff_folded_in(route: MCPGRoute, ns: Seq<char>, gateway: MCPGGateway)
    requires
        route.metadata@.namespace == Some(ns),
    ensures
        binding(route, ns, Some(gateway)).0 <==> crate::controllers::gateway::routes::route_accepted(
            route,
            route.spec.gateway_ref.name@,
            gateway_namespace(route.spec.gateway_ref, ns),
            texts(gateway.spec.accepted_route_namespaces@),
        ),
{
}

} // verus!
