//! Which routes may be written.
use vstd::prelude::*;

use crate::admission::decision::{
    admitted, finds, first_defect, first_of, flagged, judge_with_warnings, lemma_first_defect,
    lemma_no_defect, Decision, DecisionView,
};
use crate::api::resources::{MCPGRoute, MCPGRouteSpec, RouteToolRef};
use crate::text::{blank, decimal, decimal_text, is_blank, same, texts, trim, trimmed};

verus! {

/// Whether an earlier tool has the same id.
pub open spec fn tool_repeats(v: Seq<RouteToolRef>, i: int) -> bool {
    exists|j: int| 0 <= j < i && trim((#[trigger] v[j]).id@) == trim(v[i].id@)
}

/// What is wrong with the tool at position `i`.
pub open spec fn tool_defect(v: Seq<RouteToolRef>, i: int) -> Option<Seq<char>> {
    first_of(
        flagged(
            blank(v[i].id@),
            "spec.match.tools["@ + decimal(i as nat) + "].id must not be empty"@,
        ),
        flagged(
            tool_repeats(v, i),
            "spec.match.tools contains duplicate tool id '"@ + trim(v[i].id@) + "'"@,
        ),
    )
}

/// What is wrong with a chain: one of its plugins has no id.
pub open spec fn chain_defect(name: Seq<char>, chain: Seq<String>) -> Option<Seq<char>> {
    first_defect(
        chain.len(),
        |i: int|
            flagged(
                blank(chain[i]@),
                "spec."@ + name + "["@ + decimal(i as nat) + "] must not be empty"@,
            ),
    )
}

/// What is wrong with a route.
pub open spec fn route_defect(s: MCPGRouteSpec) -> Option<Seq<char>> {
    first_of(
        flagged(blank(s.gateway_ref.name@), "spec.gatewayRef.name must not be empty"@),
        first_of(
            flagged(
                s.tools@.len() == 0,
                "spec.match.tools must list at least one tool (a route that matches no tools has no effect)"@,
            ),
            first_of(
                first_defect(s.tools@.len(), |i: int| tool_defect(s.tools@, i)),
                first_of(
                    chain_defect("identityChain"@, s.identity_chain@),
                    first_of(
                        chain_defect("policyChain"@, s.policy_chain@),
                        chain_defect("auditChain"@, s.audit_chain@),
                    ),
                ),
            ),
        ),
    )
}

/// What whoever writes a route is warned of: its tools are open to everyone.
pub open spec fn route_warnings(s: MCPGRouteSpec) -> Seq<Seq<char>> {
    if s.tenant is None {
        seq![
            "spec.attributes.tenant is unset: this route's tools will be reachable by ANY caller the gateway admits (no tenant scoping). Set attributes.tenant for a tenant-isolated route."@,
        ]
    } else {
        Seq::empty()
    }
}

fn repeats_tool(v: &Vec<RouteToolRef>, i: usize) -> (r: bool)
    requires
        i < v@.len(),
    ensures
        r == tool_repeats(v@, i as int),
{
    let id = trimmed(v[i].id.as_str());
    let mut j: usize = 0;
    while j < i
        invariant
            j <= i,
            i < v@.len(),
            id@ == trim(v@[i as int].id@),
            forall|k: int| 0 <= k < j ==> trim((#[trigger] v@[k]).id@) != id@,
        decreases i - j,
    {
        if same(trimmed(v[j].id.as_str()).as_str(), id.as_str()) {
            return true;
        }
        j = j + 1;
    }
    false
}

fn check_tools(v: &Vec<RouteToolRef>) -> (r: Result<(), String>)
    ensures
        finds(r, first_defect(v@.len(), |i: int| tool_defect(v@, i))),
{
    let ghost at = |i: int| tool_defect(v@, i);
    let mut i: usize = 0;
    while i < v.len()
        invariant
            i <= v.len(),
            at == |i: int| tool_defect(v@, i),
            first_defect(i as nat, at) is None,
        decreases v.len() - i,
    {
        if is_blank(v[i].id.as_str()) {
            let m = "spec.match.tools[".to_owned().concat(
                decimal_text(i as u64).as_str(),
            ).concat("].id must not be empty");
            proof {
                lemma_first_defect(v@.len(), at, i as nat);
            }
            return Err(m);
        }
        if repeats_tool(v, i) {
            let m = "spec.match.tools contains duplicate tool id '".to_owned().concat(
                trimmed(v[i].id.as_str()).as_str(),
            ).concat("'");
            proof {
                lemma_first_defect(v@.len(), at, i as nat);
            }
            return Err(m);
        }
        i = i + 1;
    }
    Ok(())
}

fn check_chain(name: &str, chain: &Vec<String>) -> (r: Result<(), String>)
    ensures
        finds(r, chain_defect(name@, chain@)),
{
    let ghost at = |i: int|
        flagged(
            blank(chain@[i]@),
            "spec."@ + name@ + "["@ + decimal(i as nat) + "] must not be empty"@,
        );
    let mut i: usize = 0;
    while i < chain.len()
        invariant
            i <= chain.len(),
            at == |i: int|
                flagged(
                    blank(chain@[i]@),
                    "spec."@ + name@ + "["@ + decimal(i as nat) + "] must not be empty"@,
                ),
            first_defect(i as nat, at) is None,
            chain_defect(name@, chain@) == first_defect(chain@.len(), at),
        decreases chain.len() - i,
    {
        if is_blank(chain[i].as_str()) {
            let m = "spec.".to_owned().concat(name).concat("[").concat(
                decimal_text(i as u64).as_str(),
            ).concat("] must not be empty");
            proof {
                lemma_first_defect(chain@.len(), at, i as nat);
            }
            return Err(m);
        }
        i = i + 1;
    }
    Ok(())
}

/// Checks a route: the warnings, or what is wrong with it.
pub fn validate_spec(obj: &MCPGRoute) -> (r: Result<Vec<String>, String>)
    ensures
        match r {
            Ok(w) => route_defect(obj.spec) is None && texts(w@) == route_warnings(obj.spec),
            Err(m) => route_defect(obj.spec) == Some(m@),
        },
{
    let s = &obj.spec;
    if is_blank(s.gateway_ref.name.as_str()) {
        return Err("spec.gatewayRef.name must not be empty".to_owned());
    }
    if s.tools.len() == 0 {
        return Err(
            "spec.match.tools must list at least one tool (a route that matches no tools has no effect)".to_owned(),
        );
    }
    match check_tools(&s.tools) {
        Ok(_) => {},
        Err(m) => return Err(m),
    }
    match check_chain("identityChain", &s.identity_chain) {
        Ok(_) => {},
        Err(m) => return Err(m),
    }
    match check_chain("policyChain", &s.policy_chain) {
        Ok(_) => {},
        Err(m) => return Err(m),
    }
    match check_chain("auditChain", &s.audit_chain) {
        Ok(_) => {},
        Err(m) => return Err(m),
    }
    let mut warnings: Vec<String> = Vec::new();
    if s.tenant.is_none() {
        warnings.push(
            "spec.attributes.tenant is unset: this route's tools will be reachable by ANY caller the gateway admits (no tenant scoping). Set attributes.tenant for a tenant-isolated route.".to_owned(),
        );
    }
    assert(texts(warnings@) =~= route_warnings(obj.spec));
    Ok(warnings)
}

/// Reviews a route that is about to be written; a deletion has none.
pub fn validate(obj: Option<&MCPGRoute>) -> (r: Decision)
    ensures
        match obj {
            Some(s) => match route_defect(s.spec) {
                Some(m) => r@ == DecisionView::Deny(m),
                None => r@ == DecisionView::Admit(route_warnings(s.spec)),
            },
            None => r@ == DecisionView::Admit(Seq::empty()),
        },
{
    match obj {
        Some(s) => judge_with_warnings(validate_spec(s)),
        None => admitted(),
    }
}

/// The tools of an admitted route have different ids.
pub proof fn law_tools_are_distinct(s: MCPGRouteSpec, i: int, j: int)
    requires
        route_defect(s) is None,
        0 <= j < i < s.tools@.len(),
    ensures
        trim(s.tools@[i].id@) != trim(s.tools@[j].id@),
{
    lemma_no_defect(s.tools@.len(), |i: int| tool_defect(s.tools@, i), i);
    assert(!tool_repeats(s.tools@, i));
}

/// An admitted route never has the broken chain that would keep it from
/// being ready.
pub proof fn law_admitted_chains_are_whole(s: MCPGRouteSpec)
    requires
        route_defect(s) is None,
    ensures
        !crate::controllers::route::report::chain_broken(s),
{
    lemma_chain("identityChain"@, s.identity_chain@);
    lemma_chain("policyChain"@, s.policy_chain@);
    lemma_chain("auditChain"@, s.audit_chain@);
}

proof fn lemma_chain(name: Seq<char>, chain: Seq<String>)
    requires
        chain_defect(name, chain) is None,
    ensures
        !crate::controllers::route::report::has_empty_id(texts(chain)),
{
    let at = |i: int|
        flagged(
            blank(chain[i]@),
            "spec."@ + name + "["@ + decimal(i as nat) + "] must not be empty"@,
        );
    assert forall|i: int| 0 <= i < chain.len() implies trim(#[trigger] texts(chain)[i]).len()
        != 0 by {
        lemma_no_defect(chain.len(), at, i);
        assert(at(i) is None);
    }
}

} // verus!
