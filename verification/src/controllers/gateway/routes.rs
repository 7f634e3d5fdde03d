//! Soft tenancy: routes become tenant-scoped tool-access rules of the
//! gateway they target.
use vstd::prelude::*;

use crate::api::resources::{gateway_namespace, MCPGRoute, RouteToolRef};
use crate::json::{
    ensure_path, fields_of, get, get_str, items_view, leaf_at, lemma_items, lemma_items_set, put_at,
    Json, JsonView,
};
use crate::ordered::{
    add_sorted, ascending, law_sorted_set, law_sorted_set_order_free, lemma_insert_ascending,
    lemma_insert_present, place, sorted_set,
};
use crate::text::{has_text, join, joined, same, texts};

verus! {

/// `s` with a backslash before every backslash and double quote.
pub open spec fn escaped(s: Seq<char>) -> Seq<char>
    decreases s.len(),
{
    if s.len() == 0 {
        Seq::empty()
    } else {
        escaped(s.drop_last()) + escaped_char(s.last())
    }
}

/// One character of a string literal.
pub open spec fn escaped_char(c: char) -> Seq<char> {
    if c == '\\' || c == '"' {
        seq!['\\', c]
    } else {
        seq![c]
    }
}

/// `s` as a CEL string literal.
pub open spec fn cel_literal(s: Seq<char>) -> Seq<char> {
    seq!['"'] + escaped(s) + seq!['"']
}

/// `s` as a CEL string literal: in double quotes, with backslashes and
/// double quotes escaped.
pub fn cel_quote(s: &str) -> (r: String)
    ensures
        r@ == cel_literal(s@),
{
    let v = crate::text::chars_of(s);
    let mut out = String::new();
    out.push('"');
    let mut i: usize = 0;
    assert(out@ =~= seq!['"'] + escaped(v@.take(0)));
    while i < v.len()
        invariant
            i <= v.len(),
            out@ == seq!['"'] + escaped(v@.take(i as int)),
        decreases v.len() - i,
    {
        let ghost was = out@;
        if v[i] == '\\' || v[i] == '"' {
            out.push('\\');
        }
        out.push(v[i]);
        assert(out@ =~= was + escaped_char(v@[i as int]));
        i = i + 1;
        assert(v@.take(i as int).drop_last() =~= v@.take(i - 1));
        assert(out@ =~= seq!['"'] + escaped(v@.take(i as int)));
    }
    out.push('"');
    assert(v@.take(i as int) =~= v@);
    assert(out@ =~= cel_literal(s@));
    out
}

proof fn lemma_escaped_front(s: Seq<char>)
    requires
        s.len() > 0,
    ensures
        escaped(s) == escaped_char(s[0]) + escaped(s.skip(1)),
    decreases s.len(),
{
    if s.len() == 1 {
        assert(s.drop_last() =~= Seq::empty());
        assert(s.skip(1) =~= Seq::empty());
        assert(escaped(s) =~= escaped_char(s[0]) + escaped(s.skip(1)));
    } else {
        lemma_escaped_front(s.drop_last());
        assert(s.drop_last().skip(1) =~= s.skip(1).drop_last());
        assert(escaped(s) =~= escaped_char(s[0]) + escaped(s.skip(1)));
    }
}

/// Different texts have different literals.
pub proof fn law_cel_quote_injective(a: Seq<char>, b: Seq<char>)
    requires
        cel_literal(a) == cel_literal(b),
    ensures
        a == b,
{
    let x = cel_literal(a);
    assert(escaped(a) =~= x.subrange(1, x.len() - 1));
    assert(escaped(b) =~= x.subrange(1, x.len() - 1));
    lemma_escaped_injective(a, b);
}

proof fn lemma_escaped_injective(a: Seq<char>, b: Seq<char>)
    requires
        escaped(a) == escaped(b),
    ensures
        a == b,
    decreases a.len(),
{
    if a.len() == 0 {
        if b.len() > 0 {
            lemma_escaped_front(b);
            assert(escaped(b).len() >= 1);
        }
        assert(a =~= b);
    } else if b.len() == 0 {
        lemma_escaped_front(a);
        assert(escaped(a).len() >= 1);
    } else {
        lemma_escaped_front(a);
        lemma_escaped_front(b);
        let x = escaped(a);
        assert(x[0] == escaped_char(a[0])[0]);
        assert(x[0] == escaped_char(b[0])[0]);
        if escaped_char(a[0]).len() == 2 {
            assert(x[1] == a[0]);
            assert(escaped_char(b[0]).len() == 2);
            assert(x[1] == b[0]);
            assert(escaped(a.skip(1)) =~= x.skip(2));
            assert(escaped(b.skip(1)) =~= x.skip(2));
        } else {
            assert(escaped_char(b[0]).len() == 1);
            assert(escaped(a.skip(1)) =~= x.skip(1));
            assert(escaped(b.skip(1)) =~= x.skip(1));
        }
        lemma_escaped_injective(a.skip(1), b.skip(1));
        assert(a =~= seq![a[0]] + a.skip(1));
        assert(b =~= seq![b[0]] + b.skip(1));
    }
}

/// Whether a route targets the gateway from a namespace that the gateway
/// accepts routes from: its own, or one that it lists.
pub open spec fn route_accepted(
    route: MCPGRoute,
    gateway_name: Seq<char>,
    gateway_ns: Seq<char>,
    accepted: Seq<Seq<char>>,
) -> bool {
    match route.metadata.namespace {
        Some(ns) => {
            &&& route.spec.gateway_ref.name@ == gateway_name
            &&& gateway_namespace(route.spec.gateway_ref, ns@) == gateway_ns
            &&& ns@ == gateway_ns || accepted.contains(ns@)
        },
        None => false,
    }
}

/// The condition under which a route's tools are reachable: the caller
/// belongs to the route's tenant, or anyone when it names none.
pub open spec fn route_predicate(tenant: Option<Seq<char>>) -> Seq<char> {
    match tenant {
        Some(t) => "identity.attributes.tenant == "@ + cel_literal(t),
        None => "true"@,
    }
}

/// Each tool of a route with the route's condition.
pub open spec fn tool_pairs(tools: Seq<RouteToolRef>, predicate: Seq<char>) -> Seq<
    (Seq<char>, Seq<char>),
> {
    tools.map_values(|t: RouteToolRef| (t.id@, predicate))
}

/// The tools of all accepted routes, each with its route's condition.
pub open spec fn route_pairs(
    routes: Seq<MCPGRoute>,
    gateway_name: Seq<char>,
    gateway_ns: Seq<char>,
    accepted: Seq<Seq<char>>,
) -> Seq<(Seq<char>, Seq<char>)>
    decreases routes.len(),
{
    if routes.len() == 0 {
        Seq::empty()
    } else {
        let before = route_pairs(routes.drop_last(), gateway_name, gateway_ns, accepted);
        let r = routes.last();
        if route_accepted(r, gateway_name, gateway_ns, accepted) {
            before + tool_pairs(r.spec.tools@, route_predicate(crate::text::opt_text(r.spec.tenant)))
        } else {
            before
        }
    }
}

/// How many routes are accepted.
pub open spec fn accepted_count(
    routes: Seq<MCPGRoute>,
    gateway_name: Seq<char>,
    gateway_ns: Seq<char>,
    accepted: Seq<Seq<char>>,
) -> nat
    decreases routes.len(),
{
    if routes.len() == 0 {
        0
    } else {
        accepted_count(routes.drop_last(), gateway_name, gateway_ns, accepted) + (
        if route_accepted(routes.last(), gateway_name, gateway_ns, accepted) {
            1nat
        } else {
            0nat
        })
    }
}

/// The tools named by a list of pairs.
pub open spec fn pair_tools(p: Seq<(Seq<char>, Seq<char>)>) -> Seq<Seq<char>> {
    p.map_values(|x: (Seq<char>, Seq<char>)| x.0)
}

/// The conditions that a list of pairs holds for one tool.
pub open spec fn tool_predicates(p: Seq<(Seq<char>, Seq<char>)>, tool: Seq<char>) -> Seq<Seq<char>>
    decreases p.len(),
{
    if p.len() == 0 {
        Seq::empty()
    } else {
        let before = tool_predicates(p.drop_last(), tool);
        if p.last().0 == tool {
            before.push(p.last().1)
        } else {
            before
        }
    }
}

/// Any of the given conditions, which are distinct and in order.
pub open spec fn any_of(predicates: Seq<Seq<char>>) -> Seq<char> {
    if predicates.contains("true"@) {
        "true"@
    } else if predicates.len() == 1 {
        predicates[0]
    } else {
        join(predicates.map_values(|p: Seq<char>| "("@ + p + ")"@), " || "@)
    }
}

/// Whether a rule is for the given tool.
pub open spec fn rule_is_for(rule: JsonView, tool: Seq<char>) -> bool {
    get_str(rule, "tool_name"@) == Some(tool)
}

/// Where the first rule for the given tool stands.
pub open spec fn rule_index(rules: Seq<JsonView>, tool: Seq<char>) -> Option<int>
    decreases rules.len(),
{
    if rules.len() == 0 {
        None
    } else {
        match rule_index(rules.drop_last(), tool) {
            Some(i) => Some(i),
            None => if rule_is_for(rules.last(), tool) {
                Some(rules.len() - 1)
            } else {
                None
            },
        }
    }
}

/// The condition of a rule after a route adds its own: either of the two
/// lets a caller through, and `true` lets everyone through.
pub open spec fn combined(prev: Option<Seq<char>>, cel: Seq<char>) -> Seq<char> {
    if cel == "true"@ {
        "true"@
    } else {
        match prev {
            Some(p) => if p == "true"@ {
                p
            } else {
                "("@ + p + ") || ("@ + cel + ")"@
            },
            None => cel,
        }
    }
}

/// The rule that a route adds for a tool that has none.
pub open spec fn new_rule(tool: Seq<char>, cel: Seq<char>) -> JsonView {
    JsonView::Object(
        Map::<Seq<char>, JsonView>::empty().insert("tool_name"@, JsonView::Str(tool)).insert(
            "minimum_trust"@,
            JsonView::Str("verified"@),
        ).insert("cel_allow_if"@, JsonView::Str(cel)),
    )
}

/// The rules after one tool got a further condition.
pub open spec fn with_rule(rules: Seq<JsonView>, tool: Seq<char>, cel: Seq<char>) -> Seq<JsonView> {
    match rule_index(rules, tool) {
        Some(i) => rules.update(
            i,
            JsonView::Object(
                fields_of(rules[i]).insert(
                    "cel_allow_if"@,
                    JsonView::Str(combined(get_str(rules[i], "cel_allow_if"@), cel)),
                ),
            ),
        ),
        None => rules.push(new_rule(tool, cel)),
    }
}

/// The rules after every tool in `tools`, in that order, got the conditions
/// that the pairs hold for it.
pub open spec fn with_rules(
    rules: Seq<JsonView>,
    tools: Seq<Seq<char>>,
    p: Seq<(Seq<char>, Seq<char>)>,
) -> Seq<JsonView>
    decreases tools.len(),
{
    if tools.len() == 0 {
        rules
    } else {
        with_rule(
            with_rules(rules, tools.drop_last(), p),
            tools.last(),
            any_of(sorted_set(tool_predicates(p, tools.last()))),
        )
    }
}

/// Where the tool-access rules stand in a gateway's config.
pub open spec fn rules_path() -> Seq<Seq<char>> {
    seq!["governance"@, "policy"@, "tool_access"@, "rules"@]
}

/// The elements of an array; anything else has none.
pub open spec fn elements(j: JsonView) -> Seq<JsonView> {
    match j {
        JsonView::Array(a) => a,
        _ => Seq::empty(),
    }
}

/// A gateway's config after the given tools got their conditions, in
/// ascending order of the tools.
pub open spec fn config_with_pairs(config: JsonView, p: Seq<(Seq<char>, Seq<char>)>) -> JsonView {
    if p.len() == 0 {
        config
    } else {
        put_at(
            config,
            rules_path(),
            JsonView::Array(
                with_rules(elements(leaf_at(config, rules_path())), sorted_set(pair_tools(p)), p),
            ),
        )
    }
}

proof fn lemma_rule_index_take(rules: Seq<JsonView>, tool: Seq<char>, n: int)
    requires
        0 <= n <= rules.len(),
        rule_index(rules.take(n), tool) is Some,
    ensures
        rule_index(rules, tool) == rule_index(rules.take(n), tool),
    decreases rules.len() - n,
{
    if n < rules.len() {
        assert(rules.take(n + 1).drop_last() =~= rules.take(n));
        lemma_rule_index_take(rules, tool, n + 1);
    } else {
        assert(rules.take(n) =~= rules);
    }
}

/// Where the first rule for the given tool stands.
fn find_rule(rules: &Vec<Json>, tool: &str) -> (r: Option<usize>)
    ensures
        match r {
            Some(i) => i < rules.len() && rule_index(items_view(rules@), tool@) == Some(i as int),
            None => rule_index(items_view(rules@), tool@) is None,
        },
{
    let mut i: usize = 0;
    proof {
        lemma_items(rules@);
        assert(items_view(rules@).take(0) =~= Seq::empty());
    }
    while i < rules.len()
        invariant
            i <= rules.len(),
            items_view(rules@).len() == rules@.len(),
            rule_index(items_view(rules@).take(i as int), tool@) is None,
        decreases rules.len() - i,
    {
        proof {
            lemma_items(rules@);
            assert(items_view(rules@).take(i + 1).drop_last() =~= items_view(rules@).take(
                i as int,
            ));
            assert(items_view(rules@)[i as int] == rules@[i as int].view());
        }
        let hit = match rules[i].get_str("tool_name") {
            Some(t) => same(t, tool),
            None => false,
        };
        if hit {
            proof {
                lemma_rule_index_take(items_view(rules@), tool@, i + 1);
            }
            return Some(i);
        }
        i = i + 1;
    }
    assert(items_view(rules@).take(i as int) =~= items_view(rules@));
    None
}

/// The condition of a rule after a route adds its own.
fn combine(prev: Option<&str>, cel: &str) -> (r: String)
    ensures
        r@ == combined(crate::text::opt_str(prev), cel@),
{
    if same(cel, "true") {
        return "true".to_owned();
    }
    match prev {
        Some(p) => {
            if same(p, "true") {
                p.to_owned()
            } else {
                "(".to_owned().concat(p).concat(") || (").concat(cel).concat(")")
            }
        },
        None => cel.to_owned(),
    }
}

/// Adds a condition for one tool to the rules.
fn add_rule(rules: &mut Vec<Json>, tool: &str, cel: &str)
    ensures
        items_view(final(rules)@) == with_rule(items_view(old(rules)@), tool@, cel@),
{
    match find_rule(rules, tool) {
        Some(i) => {
            let ghost was = rules@;
            proof {
                lemma_items(was);
            }
            let c = combine(rules[i].get_str("cel_allow_if"), cel);
            let mut rule = rules[i].clone();
            rule.set("cel_allow_if", Json::Str(c));
            proof {
                assert(items_view(was)[i as int] == was[i as int].view());
                lemma_items_set(was, i as int, rule);
            }
            rules.set(i, rule);
        },
        None => {
            let ghost was = rules@;
            let mut rule = Json::Object(Vec::new());
            rule.set("tool_name", Json::str(tool));
            rule.set("minimum_trust", Json::str("verified"));
            rule.set("cel_allow_if", Json::str(cel));
            rules.push(rule);
            proof {
                assert(rules@.drop_last() =~= was);
            }
        },
    }
}

/// Any of the given conditions.
fn any(predicates: &Vec<String>) -> (r: String)
    ensures
        r@ == any_of(texts(predicates@)),
{
    if has_text(predicates, "true") {
        return "true".to_owned();
    }
    if predicates.len() == 1 {
        return predicates[0].clone();
    }
    let mut parts: Vec<String> = Vec::new();
    let mut i: usize = 0;
    while i < predicates.len()
        invariant
            i <= predicates.len(),
            texts(parts@) == texts(predicates@).take(i as int).map_values(
                |p: Seq<char>| "("@ + p + ")"@,
            ),
        decreases predicates.len() - i,
    {
        let part = "(".to_owned().concat(predicates[i].as_str()).concat(")");
        proof {
            let f = |p: Seq<char>| "("@ + p + ")"@;
            assert(texts(parts@.push(part)) =~= texts(parts@).push(part@));
            assert(texts(predicates@).take(i + 1).map_values(f) =~= texts(predicates@).take(
                i as int,
            ).map_values(f).push(f(texts(predicates@)[i as int])));
        }
        parts.push(part);
        i = i + 1;
    }
    assert(texts(predicates@).take(i as int) =~= texts(predicates@));
    joined(&parts, " || ")
}

/// What the tools collected so far amount to.
spec fn collected(
    tools: Seq<String>,
    predicates: Seq<Vec<String>>,
    p: Seq<(Seq<char>, Seq<char>)>,
) -> bool {
    &&& texts(tools) == sorted_set(pair_tools(p))
    &&& ascending(texts(tools))
    &&& predicates.len() == tools.len()
    &&& forall|i: int|
        0 <= i < tools.len() ==> texts((#[trigger] predicates[i])@) == sorted_set(
            tool_predicates(p, texts(tools)[i]),
        )
}

proof fn lemma_no_predicates(p: Seq<(Seq<char>, Seq<char>)>, tool: Seq<char>)
    requires
        !pair_tools(p).contains(tool),
    ensures
        tool_predicates(p, tool) == Seq::<Seq<char>>::empty(),
    decreases p.len(),
{
    if p.len() > 0 {
        assert(pair_tools(p)[p.len() - 1] == p.last().0);
        if pair_tools(p.drop_last()).contains(tool) {
            let i = choose|i: int|
                0 <= i < p.len() - 1 && pair_tools(p.drop_last())[i] == tool;
            assert(pair_tools(p)[i] == tool);
        }
        lemma_no_predicates(p.drop_last(), tool);
    }
}

/// Adds one tool with its condition to the collection.
fn collect(
    tools: &mut Vec<String>,
    predicates: &mut Vec<Vec<String>>,
    tool: &str,
    predicate: &str,
    Ghost(p): Ghost<Seq<(Seq<char>, Seq<char>)>>,
)
    requires
        collected(old(tools)@, old(predicates)@, p),
    ensures
        collected(final(tools)@, final(predicates)@, p.push((tool@, predicate@))),
{
    let ghost q = p.push((tool@, predicate@));
    let ghost t0 = tools@;
    let ghost p0 = predicates@;
    proof {
        assert(q.drop_last() =~= p);
        assert(pair_tools(q) =~= pair_tools(p).push(tool@));
        assert(pair_tools(q).drop_last() =~= pair_tools(p));
        law_sorted_set(pair_tools(p));
        lemma_insert_ascending(texts(t0), tool@);
        assert forall|t: Seq<char>| t != tool@ implies tool_predicates(q, t) == tool_predicates(
            p,
            t,
        ) by {}
        assert(tool_predicates(q, tool@) == tool_predicates(p, tool@).push(predicate@));
        assert(tool_predicates(q, tool@).drop_last() =~= tool_predicates(p, tool@));
        law_sorted_set(tool_predicates(p, tool@));
    }
    let (i, found) = place(tools, tool);
    if found {
        proof {
            lemma_insert_present(texts(t0), tool@);
        }
        let mut ps: Vec<String> = Vec::new();
        std::mem::swap(&mut ps, &mut predicates[i]);
        assert(texts(ps@) == sorted_set(tool_predicates(p, tool@)));
        add_sorted(&mut ps, predicate);
        predicates.set(i, ps);
        proof {
            assert forall|j: int| 0 <= j < tools@.len() implies texts(
                (#[trigger] predicates@[j])@,
            ) == sorted_set(tool_predicates(q, texts(tools@)[j])) by {
                if j != i {
                    assert(predicates@[j] == p0[j]);
                    if texts(tools@)[j] == tool@ {
                        if j < i {
                            assert(crate::text::before(texts(t0)[j], texts(t0)[i as int]));
                        } else {
                            assert(crate::text::before(texts(t0)[i as int], texts(t0)[j]));
                        }
                        crate::ordered::lemma_irreflexive(tool@);
                    }
                }
            }
        }
    } else {
        proof {
            lemma_no_predicates(p, tool@);
        }
        let mut ps: Vec<String> = Vec::new();
        ps.push(predicate.to_owned());
        tools.insert(i, tool.to_owned());
        predicates.insert(i, ps);
        proof {
            assert(texts(tools@) =~= texts(t0).insert(i as int, tool@));
            assert(texts(ps@) =~= seq![predicate@]);
            reveal_with_fuel(sorted_set, 2);
            assert(tool_predicates(q, tool@).drop_last() =~= Seq::<Seq<char>>::empty());
            assert forall|j: int| 0 <= j < tools@.len() implies texts(
                (#[trigger] predicates@[j])@,
            ) == sorted_set(tool_predicates(q, texts(tools@)[j])) by {
                if j < i {
                    assert(predicates@[j] == p0[j]);
                    assert(texts(tools@)[j] == texts(t0)[j]);
                    assert(texts(t0).contains(texts(t0)[j]));
                } else if j > i {
                    assert(predicates@[j] == p0[j - 1]);
                    assert(texts(tools@)[j] == texts(t0)[j - 1]);
                    assert(texts(t0).contains(texts(t0)[j - 1]));
                } else {
                    assert(tool_predicates(q, tool@) =~= seq![predicate@]);
                }
            }
        }
    }
}

/// Gives every collected tool its conditions.
fn add_rules(
    rules: &mut Vec<Json>,
    tools: &Vec<String>,
    predicates: &Vec<Vec<String>>,
    Ghost(p): Ghost<Seq<(Seq<char>, Seq<char>)>>,
)
    requires
        collected(tools@, predicates@, p),
    ensures
        items_view(final(rules)@) == with_rules(items_view(old(rules)@), texts(tools@), p),
{
    let mut i: usize = 0;
    while i < tools.len()
        invariant
            i <= tools.len(),
            collected(tools@, predicates@, p),
            items_view(rules@) == with_rules(
                items_view(old(rules)@),
                texts(tools@).take(i as int),
                p,
            ),
        decreases tools.len() - i,
    {
        assert(texts(predicates@[i as int]@) == sorted_set(
            tool_predicates(p, texts(tools@)[i as int]),
        ));
        let cel = any(&predicates[i]);
        add_rule(rules, tools[i].as_str(), cel.as_str());
        i = i + 1;
        assert(texts(tools@).take(i as int).drop_last() =~= texts(tools@).take(i - 1));
    }
    assert(texts(tools@).take(i as int) =~= texts(tools@));
}

/// Folds every route that targets the gateway from an accepted namespace
/// into the tool-access rules of its config, and returns how many there
/// were.
///
/// A tool named by several routes is reachable by any of their tenants; a
/// rule that is already there keeps its other fields and gains the routes'
/// condition as an alternative.
pub fn apply_routes_to_config(
    routes: &Vec<MCPGRoute>,
    gateway_name: &str,
    gateway_ns: &str,
    accepted: &Vec<String>,
    config: &mut Json,
) -> (merged: usize)
    ensures
        merged == accepted_count(routes@, gateway_name@, gateway_ns@, texts(accepted@)),
        final(config).view() == config_with_pairs(
            old(config).view(),
            route_pairs(routes@, gateway_name@, gateway_ns@, texts(accepted@)),
        ),
{
    let ghost acc = texts(accepted@);
    let mut tools: Vec<String> = Vec::new();
    let mut predicates: Vec<Vec<String>> = Vec::new();
    let mut merged: usize = 0;
    let mut i: usize = 0;
    let ghost mut p = Seq::<(Seq<char>, Seq<char>)>::empty();
    proof {
        assert(texts(tools@) =~= sorted_set(pair_tools(p)));
        assert(routes@.take(0) =~= Seq::empty());
    }
    while i < routes.len()
        invariant
            i <= routes.len(),
            acc == texts(accepted@),
            p == route_pairs(routes@.take(i as int), gateway_name@, gateway_ns@, acc),
            collected(tools@, predicates@, p),
            merged <= i,
            merged == accepted_count(routes@.take(i as int), gateway_name@, gateway_ns@, acc),
        decreases routes.len() - i,
    {
        let route = &routes[i];
        proof {
            assert(routes@.take(i + 1).drop_last() =~= routes@.take(i as int));
            assert(routes@.take(i + 1).last() == routes@[i as int]);
        }
        let ok = match &route.metadata.namespace {
            Some(ns) => same(route.spec.gateway_ref.name.as_str(), gateway_name) && same(
                route.spec.gateway_namespace(ns.as_str()).as_str(),
                gateway_ns,
            ) && (same(ns.as_str(), gateway_ns) || has_text(accepted, ns.as_str())),
            None => false,
        };
        assert(ok == route_accepted(*route, gateway_name@, gateway_ns@, acc));
        if ok {
            merged = merged + 1;
            let predicate = match &route.spec.tenant {
                Some(t) => "identity.attributes.tenant == ".to_owned().concat(
                    cel_quote(t.as_str()).as_str(),
                ),
                None => "true".to_owned(),
            };
            let ghost base = p;
            let ghost added = tool_pairs(route.spec.tools@, predicate@);
            let mut k: usize = 0;
            assert(base + added.take(0) =~= base);
            while k < route.spec.tools.len()
                invariant
                    k <= route.spec.tools.len(),
                    added == tool_pairs(route.spec.tools@, predicate@),
                    p == base + added.take(k as int),
                    collected(tools@, predicates@, p),
                decreases route.spec.tools.len() - k,
            {
                collect(
                    &mut tools,
                    &mut predicates,
                    route.spec.tools[k].id.as_str(),
                    predicate.as_str(),
                    Ghost(p),
                );
                k = k + 1;
                proof {
                    assert(added.take(k as int) =~= added.take(k - 1).push(added[k - 1]));
                    p = p.push((route.spec.tools@[k - 1].id@, predicate@));
                    assert(p =~= base + added.take(k as int));
                }
            }
            assert(added.take(k as int) =~= added);
        }
        i = i + 1;
    }
    assert(routes@.take(i as int) =~= routes@);
    proof {
        law_sorted_set(pair_tools(p));
        if p.len() > 0 {
            assert(pair_tools(p)[0] == p[0].0);
            assert(pair_tools(p).contains(p[0].0));
        }
        if tools@.len() > 0 {
            assert(texts(tools@).contains(texts(tools@)[0]));
        }
    }
    if tools.len() == 0 {
        return merged;
    }
    let path = vec!["governance", "policy", "tool_access", "rules"];
    assert(path@.map_values(|s: &str| s@) =~= rules_path());
    let leaf = ensure_path(config, path.as_slice());
    let mut rules: Vec<Json> = Vec::new();
    match leaf {
        Json::Array(a) => {
            std::mem::swap(&mut rules, a);
        },
        _ => {},
    }
    assert(items_view(rules@) =~= elements(
        leaf_at(old(config).view(), rules_path()),
    ));
    add_rules(&mut rules, &tools, &predicates, Ghost(p));
    *leaf = Json::Array(rules);
    merged
}

spec fn gives(
    r: MCPGRoute,
    gateway_name: Seq<char>,
    gateway_ns: Seq<char>,
    accepted: Seq<Seq<char>>,
    x: (Seq<char>, Seq<char>),
) -> bool {
    route_accepted(r, gateway_name, gateway_ns, accepted) && tool_pairs(
        r.spec.tools@,
        route_predicate(crate::text::opt_text(r.spec.tenant)),
    ).contains(x)
}

proof fn lemma_pairs_contain(
    routes: Seq<MCPGRoute>,
    gateway_name: Seq<char>,
    gateway_ns: Seq<char>,
    accepted: Seq<Seq<char>>,
    x: (Seq<char>, Seq<char>),
)
    ensures
        route_pairs(routes, gateway_name, gateway_ns, accepted).contains(x) <==> exists|i: int|
            0 <= i < routes.len() && gives(
                #[trigger] routes[i],
                gateway_name,
                gateway_ns,
                accepted,
                x,
            ),
    decreases routes.len(),
{
    let all = route_pairs(routes, gateway_name, gateway_ns, accepted);
    if routes.len() > 0 {
        let init = routes.drop_last();
        let last = routes.last();
        let before = route_pairs(init, gateway_name, gateway_ns, accepted);
        let added = tool_pairs(
            last.spec.tools@,
            route_predicate(crate::text::opt_text(last.spec.tenant)),
        );
        lemma_pairs_contain(init, gateway_name, gateway_ns, accepted, x);
        if all.contains(x) {
            let k = choose|k: int| 0 <= k < all.len() && all[k] == x;
            if k < before.len() {
                assert(before[k] == x);
                assert(before.contains(x));
                let i = choose|i: int|
                    0 <= i < init.len() && gives(
                        #[trigger] init[i],
                        gateway_name,
                        gateway_ns,
                        accepted,
                        x,
                    );
                assert(gives(routes[i], gateway_name, gateway_ns, accepted, x));
            } else {
                assert(added[k - before.len()] == x);
                assert(gives(routes[routes.len() - 1], gateway_name, gateway_ns, accepted, x));
            }
        }
        if exists|i: int|
            0 <= i < routes.len() && gives(
                #[trigger] routes[i],
                gateway_name,
                gateway_ns,
                accepted,
                x,
            ) {
            let i = choose|i: int|
                0 <= i < routes.len() && gives(
                    #[trigger] routes[i],
                    gateway_name,
                    gateway_ns,
                    accepted,
                    x,
                );
            if i < routes.len() - 1 {
                assert(gives(init[i], gateway_name, gateway_ns, accepted, x));
                assert(before.contains(x));
                let k = choose|k: int| 0 <= k < before.len() && before[k] == x;
                assert(all[k] == x);
            } else {
                let k = choose|k: int| 0 <= k < added.len() && added[k] == x;
                assert(all[before.len() + k] == x);
            }
        }
    }
}

proof fn lemma_predicates_contain(p: Seq<(Seq<char>, Seq<char>)>, tool: Seq<char>, y: Seq<char>)
    ensures
        tool_predicates(p, tool).contains(y) <==> p.contains((tool, y)),
    decreases p.len(),
{
    if p.len() > 0 {
        let init = p.drop_last();
        lemma_predicates_contain(init, tool, y);
        let before = tool_predicates(init, tool);
        let all = tool_predicates(p, tool);
        if all.contains(y) {
            let i = choose|i: int| 0 <= i < all.len() && all[i] == y;
            if i < before.len() {
                assert(before[i] == y);
                let k = choose|k: int| 0 <= k < init.len() && init[k] == (tool, y);
                assert(p[k] == (tool, y));
            } else {
                assert(p[p.len() - 1] == (tool, y));
            }
        }
        if p.contains((tool, y)) {
            let k = choose|k: int| 0 <= k < p.len() && p[k] == (tool, y);
            if k < p.len() - 1 {
                assert(init[k] == (tool, y));
                let i = choose|i: int| 0 <= i < before.len() && before[i] == y;
                assert(all[i] == y);
            } else {
                assert(all[before.len() as int] == y);
            }
        }
    }
}

proof fn lemma_with_rules_same(
    rules: Seq<JsonView>,
    tools: Seq<Seq<char>>,
    p: Seq<(Seq<char>, Seq<char>)>,
    q: Seq<(Seq<char>, Seq<char>)>,
)
    requires
        forall|x: (Seq<char>, Seq<char>)| p.contains(x) <==> q.contains(x),
    ensures
        with_rules(rules, tools, p) == with_rules(rules, tools, q),
    decreases tools.len(),
{
    if tools.len() > 0 {
        lemma_with_rules_same(rules, tools.drop_last(), p, q);
        let t = tools.last();
        assert forall|y: Seq<char>|
            tool_predicates(p, t).contains(y) <==> tool_predicates(q, t).contains(y) by {
            lemma_predicates_contain(p, t, y);
            lemma_predicates_contain(q, t, y);
        }
        law_sorted_set_order_free(tool_predicates(p, t), tool_predicates(q, t));
    }
}

/// What routes do to a config does not depend on the order in which they
/// are listed, nor on a route being listed twice.
pub proof fn law_routes_order_free(
    a: Seq<MCPGRoute>,
    b: Seq<MCPGRoute>,
    gateway_name: Seq<char>,
    gateway_ns: Seq<char>,
    accepted: Seq<Seq<char>>,
    config: JsonView,
)
    requires
        forall|r: MCPGRoute| a.contains(r) <==> b.contains(r),
    ensures
        config_with_pairs(config, route_pairs(a, gateway_name, gateway_ns, accepted))
            == config_with_pairs(config, route_pairs(b, gateway_name, gateway_ns, accepted)),
{
    let p = route_pairs(a, gateway_name, gateway_ns, accepted);
    let q = route_pairs(b, gateway_name, gateway_ns, accepted);
    assert forall|x: (Seq<char>, Seq<char>)| p.contains(x) <==> q.contains(x) by {
        lemma_pairs_contain(a, gateway_name, gateway_ns, accepted, x);
        lemma_pairs_contain(b, gateway_name, gateway_ns, accepted, x);
        if p.contains(x) {
            let i = choose|i: int|
                0 <= i < a.len() && gives(#[trigger] a[i], gateway_name, gateway_ns, accepted, x);
            assert(a.contains(a[i]));
            let k = choose|k: int| 0 <= k < b.len() && b[k] == a[i];
            assert(gives(b[k], gateway_name, gateway_ns, accepted, x));
        }
        if q.contains(x) {
            let i = choose|i: int|
                0 <= i < b.len() && gives(#[trigger] b[i], gateway_name, gateway_ns, accepted, x);
            assert(b.contains(b[i]));
            let k = choose|k: int| 0 <= k < a.len() && a[k] == b[i];
            assert(gives(a[k], gateway_name, gateway_ns, accepted, x));
        }
    }
    assert forall|y: Seq<char>| pair_tools(p).contains(y) <==> pair_tools(q).contains(y) by {
        if pair_tools(p).contains(y) {
            let i = choose|i: int| 0 <= i < p.len() && pair_tools(p)[i] == y;
            assert(p.contains(p[i]));
            let k = choose|k: int| 0 <= k < q.len() && q[k] == p[i];
            assert(pair_tools(q)[k] == y);
        }
        if pair_tools(q).contains(y) {
            let i = choose|i: int| 0 <= i < q.len() && pair_tools(q)[i] == y;
            assert(q.contains(q[i]));
            let k = choose|k: int| 0 <= k < p.len() && p[k] == q[i];
            assert(pair_tools(p)[k] == y);
        }
    }
    law_sorted_set_order_free(pair_tools(p), pair_tools(q));
    lemma_with_rules_same(
        elements(leaf_at(config, rules_path())),
        sorted_set(pair_tools(p)),
        p,
        q,
    );
    if p.len() > 0 {
        assert(p.contains(p[0]));
        assert(q.contains(p[0]));
    }
    if q.len() > 0 {
        assert(q.contains(q[0]));
        assert(p.contains(q[0]));
    }
}

/// A further route that the gateway does not accept changes nothing.
pub proof fn law_unaccepted_route_has_no_effect(
    routes: Seq<MCPGRoute>,
    r: MCPGRoute,
    gateway_name: Seq<char>,
    gateway_ns: Seq<char>,
    accepted: Seq<Seq<char>>,
    config: JsonView,
)
    requires
        !route_accepted(r, gateway_name, gateway_ns, accepted),
    ensures
        config_with_pairs(
            config,
            route_pairs(routes.push(r), gateway_name, gateway_ns, accepted),
        ) == config_with_pairs(config, route_pairs(routes, gateway_name, gateway_ns, accepted)),
        accepted_count(routes.push(r), gateway_name, gateway_ns, accepted) == accepted_count(
            routes,
            gateway_name,
            gateway_ns,
            accepted,
        ),
{
    assert(routes.push(r).drop_last() =~= routes);
}

proof fn lemma_rule_index(rules: Seq<JsonView>, tool: Seq<char>)
    ensures
        rule_index(rules, tool) matches Some(i) ==> 0 <= i < rules.len() && rule_is_for(
            rules[i],
            tool,
        ),
    decreases rules.len(),
{
    if rules.len() > 0 {
        lemma_rule_index(rules.drop_last(), tool);
    }
}

/// Rules for tools that no accepted route names stay as they are, and no
/// rule is dropped.
pub proof fn law_other_rules_kept(
    rules: Seq<JsonView>,
    tools: Seq<Seq<char>>,
    p: Seq<(Seq<char>, Seq<char>)>,
    i: int,
)
    requires
        0 <= i < rules.len(),
        forall|t: Seq<char>| tools.contains(t) ==> !rule_is_for(rules[i], t),
    ensures
        with_rules(rules, tools, p).len() >= rules.len(),
        with_rules(rules, tools, p)[i] == rules[i],
    decreases tools.len(),
{
    if tools.len() > 0 {
        assert forall|t: Seq<char>| tools.drop_last().contains(t) implies !rule_is_for(
            rules[i],
            t,
        ) by {
            let k = choose|k: int| 0 <= k < tools.len() - 1 && tools.drop_last()[k] == t;
            assert(tools[k] == t);
            assert(tools.contains(t));
        }
        law_other_rules_kept(rules, tools.drop_last(), p, i);
        let mid = with_rules(rules, tools.drop_last(), p);
        assert(tools[tools.len() - 1] == tools.last());
        assert(tools.contains(tools.last()));
        lemma_rule_index(mid, tools.last());
    }
}

/// A tool that some accepted route names without a tenant is open to every
/// caller the gateway admits.
pub proof fn law_untenanted_route_opens_tool(
    p: Seq<(Seq<char>, Seq<char>)>,
    tool: Seq<char>,
    prev: Option<Seq<char>>,
)
    requires
        p.contains((tool, route_predicate(None))),
    ensures
        combined(prev, any_of(sorted_set(tool_predicates(p, tool)))) == "true"@,
{
    lemma_predicates_contain(p, tool, "true"@);
    law_sorted_set(tool_predicates(p, tool));
}

/// Routes touch nothing of a config but its tool-access rules.
pub proof fn law_routes_touch_only_rules(
    config: JsonView,
    p: Seq<(Seq<char>, Seq<char>)>,
    other: Seq<Seq<char>>,
    at: int,
)
    requires
        0 <= at < rules_path().len(),
        at < other.len(),
        rules_path().take(at) == other.take(at),
        rules_path()[at] != other[at],
    ensures
        leaf_at(config_with_pairs(config, p), other) == leaf_at(config, other),
{
    if p.len() > 0 {
        crate::json::law_put_keeps_others(
            config,
            rules_path(),
            JsonView::Array(
                with_rules(elements(leaf_at(config, rules_path())), sorted_set(pair_tools(p)), p),
            ),
            other,
            at,
        );
    }
}

/// How the gateway reads conditions for one caller: which texts are
/// conditions, and which of them hold for the caller, whose tenant is known or
/// not.
pub struct Caller {
    pub is_condition: spec_fn(Seq<char>) -> bool,
    pub holds: spec_fn(Seq<char>) -> bool,
    pub tenant: Option<Seq<char>>,
}

/// Several conditions as alternatives: each in brackets, with `||` between
/// them.
pub open spec fn alternatives(conditions: Seq<Seq<char>>) -> Seq<char>
    decreases conditions.len(),
{
    if conditions.len() <= 1 {
        "("@ + conditions[0] + ")"@
    } else {
        alternatives(conditions.drop_last()) + " || ("@ + conditions.last() + ")"@
    }
}

/// What is left of a string literal after its opening quote stands for: the
/// characters up to the closing quote, which ends it, where a backslash lets
/// a backslash or a quote stand for itself.
pub open spec fn quoted_rest(s: Seq<char>) -> Option<Seq<char>>
    decreases s.len(),
{
    if s.len() == 0 {
        None
    } else if s[0] == '"' {
        if s.len() == 1 {
            Some(Seq::empty())
        } else {
            None
        }
    } else if s[0] == '\\' {
        if s.len() >= 2 && (s[1] == '\\' || s[1] == '"') {
            match quoted_rest(s.skip(2)) {
                Some(r) => Some(seq![s[1]] + r),
                None => None,
            }
        } else {
            None
        }
    } else {
        match quoted_rest(s.skip(1)) {
            Some(r) => Some(seq![s[0]] + r),
            None => None,
        }
    }
}

/// The text that a string literal stands for.
pub open spec fn literal_text(s: Seq<char>) -> Option<Seq<char>> {
    if s.len() > 0 && s[0] == '"' {
        quoted_rest(s.skip(1))
    } else {
        None
    }
}

/// Whether conditions mean to a caller what they mean in CEL: `true` holds,
/// alternatives hold when one of them does, and a comparison with the tenant
/// holds when the caller is of the tenant that the literal stands for.
pub open spec fn reads_cel(c: Caller) -> bool {
    &&& (c.is_condition)("true"@)
    &&& (c.holds)("true"@)
    &&& forall|ps: Seq<Seq<char>>|
        ps.len() > 0 && (forall|i: int| 0 <= i < ps.len() ==> (c.is_condition)(#[trigger] ps[i]))
            ==> (c.is_condition)(#[trigger] alternatives(ps)) && ((c.holds)(alternatives(ps)) <==> (
        exists|i: int| 0 <= i < ps.len() && (c.holds)(#[trigger] ps[i])))
    &&& forall|literal: Seq<char>| (#[trigger] literal_text(literal)) is Some ==> (c.is_condition)(
        "identity.attributes.tenant == "@ + literal,
    ) && ((c.holds)("identity.attributes.tenant == "@ + literal) <==> c.tenant == literal_text(
        literal,
    ))
}

proof fn lemma_quoted(s: Seq<char>)
    ensures
        quoted_rest(escaped(s) + seq!['"']) == Some(s),
    decreases s.len(),
{
    let q = escaped(s) + seq!['"'];
    if s.len() == 0 {
        assert(q =~= seq!['"']);
        assert(quoted_rest(q) == Some(Seq::<char>::empty()));
        assert(s =~= Seq::empty());
    } else {
        lemma_escaped_front(s);
        let rest = escaped(s.skip(1)) + seq!['"'];
        lemma_quoted(s.skip(1));
        assert(s =~= seq![s[0]] + s.skip(1));
        if s[0] == '\\' || s[0] == '"' {
            assert(q =~= seq!['\\', s[0]] + rest);
            assert(q.skip(2) =~= rest);
        } else {
            assert(q =~= seq![s[0]] + rest);
            assert(q.skip(1) =~= rest);
        }
    }
}

/// A literal stands for the text that it was made of.
pub proof fn law_literal_stands_for_its_text(s: Seq<char>)
    ensures
        literal_text(cel_literal(s)) == Some(s),
{
    lemma_quoted(s);
    assert(cel_literal(s).skip(1) =~= escaped(s) + seq!['"']);
}

proof fn lemma_alternatives(ps: Seq<Seq<char>>)
    requires
        ps.len() > 0,
    ensures
        join(ps.map_values(|p: Seq<char>| "("@ + p + ")"@), " || "@) == alternatives(ps),
    decreases ps.len(),
{
    let f = |p: Seq<char>| "("@ + p + ")"@;
    let parts = ps.map_values(f);
    if ps.len() > 1 {
        lemma_alternatives(ps.drop_last());
        assert(parts.drop_last() =~= ps.drop_last().map_values(f));
        reveal_strlit(" || ");
        reveal_strlit("(");
        reveal_strlit(" || (");
        assert(" || "@ + "("@ =~= " || ("@);
        assert(join(parts, " || "@) =~= alternatives(ps.drop_last()) + " || "@ + ("("@ + ps.last()
            + ")"@));
        assert(join(parts, " || "@) =~= alternatives(ps));
    }
}

/// What a list of conditions amounts to, for a caller.
spec fn one_holds(c: Caller, ps: Seq<Seq<char>>) -> bool {
    exists|i: int| 0 <= i < ps.len() && (c.holds)(#[trigger] ps[i])
}

proof fn lemma_any_of(c: Caller, ps: Seq<Seq<char>>)
    requires
        reads_cel(c),
        ps.len() > 0,
        forall|i: int| 0 <= i < ps.len() ==> (c.is_condition)(#[trigger] ps[i]),
    ensures
        (c.is_condition)(any_of(ps)),
        (c.holds)(any_of(ps)) <==> one_holds(c, ps),
{
    if ps.contains("true"@) {
        let i = choose|i: int| 0 <= i < ps.len() && ps[i] == "true"@;
        assert((c.holds)(ps[i]));
    } else if ps.len() == 1 {
        assert(any_of(ps) == ps[0]);
    } else {
        lemma_alternatives(ps);
        assert((c.is_condition)(alternatives(ps)));
    }
}

proof fn lemma_combined(c: Caller, prev: Option<Seq<char>>, cel: Seq<char>)
    requires
        reads_cel(c),
        prev matches Some(p) ==> (c.is_condition)(p),
        (c.is_condition)(cel),
    ensures
        (c.is_condition)(combined(prev, cel)),
        (c.holds)(combined(prev, cel)) <==> (prev matches Some(p) && (c.holds)(p)) || (c.holds)(
            cel,
        ),
{
    if let Some(p) = prev {
        let ps = seq![p, cel];
        assert(ps.drop_last() =~= seq![p]);
        reveal_with_fuel(alternatives, 2);
        reveal_strlit(")");
        reveal_strlit(" || (");
        reveal_strlit(") || (");
        assert(")"@ + " || ("@ =~= ") || ("@);
        assert(alternatives(ps) =~= "("@ + p + ") || ("@ + cel + ")"@);
        assert forall|i: int| 0 <= i < ps.len() implies (c.is_condition)(#[trigger] ps[i]) by {}
        assert(ps[0] == p && ps[1] == cel);
        assert((c.is_condition)(alternatives(ps)));
    }
}

/// Whether a route may be folded into a gateway: it stands in the gateway's
/// own namespace or in one that the gateway accepts routes from, and names the
/// gateway, and its namespace where that is another.
pub open spec fn targets(
    r: MCPGRoute,
    gateway: Seq<char>,
    gateway_ns: Seq<char>,
    accepted: Seq<Seq<char>>,
) -> bool {
    &&& r.metadata@.namespace matches Some(own) && {
        &&& own == gateway_ns || accepted.contains(own)
        &&& r.spec.gateway_ref.namespace is None ==> own == gateway_ns
    }
    &&& r.spec.gateway_ref.name@ == gateway
    &&& r.spec.gateway_ref.namespace matches Some(n) ==> n@ == gateway_ns
}

/// Whether such a route names a tool.
pub open spec fn names_tool(
    r: MCPGRoute,
    gateway: Seq<char>,
    gateway_ns: Seq<char>,
    accepted: Seq<Seq<char>>,
    tool: Seq<char>,
) -> bool {
    &&& targets(r, gateway, gateway_ns, accepted)
    &&& exists|j: int| 0 <= j < r.spec.tools@.len() && (#[trigger] r.spec.tools@[j]).id@ == tool
}

/// Whether a route opens its tools to callers of this tenant: it is for the
/// tenant, or for everyone.
pub open spec fn is_for_tenant(r: MCPGRoute, tenant: Option<Seq<char>>) -> bool {
    r.spec.tenant matches Some(t) ==> tenant == Some(t@)
}

/// Whether some route names a tool.
pub open spec fn is_routed(
    routes: Seq<MCPGRoute>,
    gateway: Seq<char>,
    gateway_ns: Seq<char>,
    accepted: Seq<Seq<char>>,
    tool: Seq<char>,
) -> bool {
    exists|k: int|
        0 <= k < routes.len() && names_tool(
            #[trigger] routes[k],
            gateway,
            gateway_ns,
            accepted,
            tool,
        )
}

/// Whether some route opens a tool to callers of this tenant.
pub open spec fn is_granted(
    routes: Seq<MCPGRoute>,
    gateway: Seq<char>,
    gateway_ns: Seq<char>,
    accepted: Seq<Seq<char>>,
    tool: Seq<char>,
    tenant: Option<Seq<char>>,
) -> bool {
    exists|k: int|
        0 <= k < routes.len() && names_tool(
            #[trigger] routes[k],
            gateway,
            gateway_ns,
            accepted,
            tool,
        ) && is_for_tenant(routes[k], tenant)
}

proof fn lemma_predicate(c: Caller, r: MCPGRoute)
    requires
        reads_cel(c),
    ensures
        ({
            let y = route_predicate(crate::text::opt_text(r.spec.tenant));
            (c.is_condition)(y) && ((c.holds)(y) <==> is_for_tenant(r, c.tenant))
        }),
{
    if let Some(t) = r.spec.tenant {
        law_literal_stands_for_its_text(t@);
        assert(literal_text(cel_literal(t@)) == Some(t@));
        let y = "identity.attributes.tenant == "@ + cel_literal(t@);
        assert((c.is_condition)(y));
    }
}

proof fn lemma_gives(
    r: MCPGRoute,
    gateway: Seq<char>,
    gateway_ns: Seq<char>,
    accepted: Seq<Seq<char>>,
    tool: Seq<char>,
    y: Seq<char>,
)
    ensures
        gives(r, gateway, gateway_ns, accepted, (tool, y)) <==> names_tool(
            r,
            gateway,
            gateway_ns,
            accepted,
            tool,
        ) && y == route_predicate(crate::text::opt_text(r.spec.tenant)),
{
    let z = route_predicate(crate::text::opt_text(r.spec.tenant));
    let pairs = tool_pairs(r.spec.tools@, z);
    if pairs.contains((tool, y)) {
        let j = choose|j: int| 0 <= j < pairs.len() && pairs[j] == (tool, y);
        assert(r.spec.tools@[j].id@ == tool);
    }
    if exists|j: int| 0 <= j < r.spec.tools@.len() && (#[trigger] r.spec.tools@[j]).id@ == tool {
        let j = choose|j: int|
            0 <= j < r.spec.tools@.len() && (#[trigger] r.spec.tools@[j]).id@ == tool;
        assert(pairs[j] == (tool, z));
    }
}

/// The condition that routes give to a tool that they name.
spec fn routed_condition(p: Seq<(Seq<char>, Seq<char>)>, tool: Seq<char>) -> Seq<char> {
    any_of(sorted_set(tool_predicates(p, tool)))
}

proof fn lemma_routed(
    c: Caller,
    routes: Seq<MCPGRoute>,
    gateway: Seq<char>,
    gateway_ns: Seq<char>,
    accepted: Seq<Seq<char>>,
    tool: Seq<char>,
)
    requires
        reads_cel(c),
    ensures
        ({
            let p = route_pairs(routes, gateway, gateway_ns, accepted);
            &&& pair_tools(p).contains(tool) <==> is_routed(
                routes,
                gateway,
                gateway_ns,
                accepted,
                tool,
            )
            &&& pair_tools(p).contains(tool) ==> (c.is_condition)(routed_condition(p, tool)) && ((
            c.holds)(routed_condition(p, tool)) <==> is_granted(
                routes,
                gateway,
                gateway_ns,
                accepted,
                tool,
                c.tenant,
            ))
        }),
{
    let p = route_pairs(routes, gateway, gateway_ns, accepted);
    let s = tool_predicates(p, tool);
    let u = sorted_set(s);
    law_sorted_set(s);
    assert forall|y: Seq<char>| #[trigger] u.contains(y) <==> exists|k: int|
        0 <= k < routes.len() && names_tool(
            #[trigger] routes[k],
            gateway,
            gateway_ns,
            accepted,
            tool,
        ) && y == route_predicate(crate::text::opt_text(routes[k].spec.tenant)) by {
        lemma_predicates_contain(p, tool, y);
        lemma_pairs_contain(routes, gateway, gateway_ns, accepted, (tool, y));
        if p.contains((tool, y)) {
            let k = choose|k: int|
                0 <= k < routes.len() && gives(
                    #[trigger] routes[k],
                    gateway,
                    gateway_ns,
                    accepted,
                    (tool, y),
                );
            lemma_gives(routes[k], gateway, gateway_ns, accepted, tool, y);
        }
        if exists|k: int|
            0 <= k < routes.len() && names_tool(
                #[trigger] routes[k],
                gateway,
                gateway_ns,
                accepted,
                tool,
            ) && y == route_predicate(crate::text::opt_text(routes[k].spec.tenant)) {
            let k = choose|k: int|
                0 <= k < routes.len() && names_tool(
                    #[trigger] routes[k],
                    gateway,
                    gateway_ns,
                    accepted,
                    tool,
                ) && y == route_predicate(crate::text::opt_text(routes[k].spec.tenant));
            lemma_gives(routes[k], gateway, gateway_ns, accepted, tool, y);
            assert(gives(routes[k], gateway, gateway_ns, accepted, (tool, y)));
        }
    }
    if pair_tools(p).contains(tool) {
        let i = choose|i: int| 0 <= i < p.len() && pair_tools(p)[i] == tool;
        assert(p[i] == (tool, p[i].1));
        assert(p.contains((tool, p[i].1)));
        lemma_predicates_contain(p, tool, p[i].1);
        assert(s.contains(p[i].1));
        assert(u.contains(p[i].1));
    }
    if is_routed(routes, gateway, gateway_ns, accepted, tool) {
        let k = choose|k: int|
            0 <= k < routes.len() && names_tool(
                #[trigger] routes[k],
                gateway,
                gateway_ns,
                accepted,
                tool,
            );
        let y = route_predicate(crate::text::opt_text(routes[k].spec.tenant));
        assert(u.contains(y));
        assert(s.contains(y));
        lemma_predicates_contain(p, tool, y);
        let i = choose|i: int| 0 <= i < p.len() && p[i] == (tool, y);
        assert(pair_tools(p)[i] == tool);
    }
    if pair_tools(p).contains(tool) {
        assert(u.len() > 0);
        assert forall|i: int| 0 <= i < u.len() implies (c.is_condition)(#[trigger] u[i]) by {
            assert(u.contains(u[i]));
            let k = choose|k: int|
                0 <= k < routes.len() && names_tool(
                    #[trigger] routes[k],
                    gateway,
                    gateway_ns,
                    accepted,
                    tool,
                ) && u[i] == route_predicate(crate::text::opt_text(routes[k].spec.tenant));
            lemma_predicate(c, routes[k]);
        }
        lemma_any_of(c, u);
        if one_holds(c, u) {
            let i = choose|i: int| 0 <= i < u.len() && (c.holds)(#[trigger] u[i]);
            assert(u.contains(u[i]));
            let k = choose|k: int|
                0 <= k < routes.len() && names_tool(
                    #[trigger] routes[k],
                    gateway,
                    gateway_ns,
                    accepted,
                    tool,
                ) && u[i] == route_predicate(crate::text::opt_text(routes[k].spec.tenant));
            lemma_predicate(c, routes[k]);
            assert(is_for_tenant(routes[k], c.tenant));
        }
        if is_granted(routes, gateway, gateway_ns, accepted, tool, c.tenant) {
            let k = choose|k: int|
                0 <= k < routes.len() && names_tool(
                    #[trigger] routes[k],
                    gateway,
                    gateway_ns,
                    accepted,
                    tool,
                ) && is_for_tenant(routes[k], c.tenant);
            lemma_predicate(c, routes[k]);
            let y = route_predicate(crate::text::opt_text(routes[k].spec.tenant));
            assert(u.contains(y));
            let i = choose|i: int| 0 <= i < u.len() && u[i] == y;
            assert((c.holds)(u[i]));
        }
    }
}

/// Whether the rule at a position is the first for a tool.
pub open spec fn is_first_rule(rules: Seq<JsonView>, tool: Seq<char>, i: int) -> bool {
    &&& 0 <= i < rules.len()
    &&& get_str(rules[i], "tool_name"@) == Some(tool)
    &&& forall|j: int| 0 <= j < i ==> get_str(#[trigger] rules[j], "tool_name"@) != Some(tool)
}

/// Whether there is no rule for a tool.
pub open spec fn has_no_rule(rules: Seq<JsonView>, tool: Seq<char>) -> bool {
    forall|j: int| 0 <= j < rules.len() ==> get_str(#[trigger] rules[j], "tool_name"@) != Some(tool)
}

proof fn lemma_first_rule(rules: Seq<JsonView>, tool: Seq<char>)
    ensures
        match rule_index(rules, tool) {
            Some(i) => is_first_rule(rules, tool, i),
            None => has_no_rule(rules, tool),
        },
    decreases rules.len(),
{
    if rules.len() > 0 {
        let init = rules.drop_last();
        lemma_first_rule(init, tool);
        assert forall|j: int| 0 <= j < init.len() implies #[trigger] rules[j] == init[j] by {}
        match rule_index(init, tool) {
            Some(i) => {
                assert forall|j: int| 0 <= j < i implies get_str(
                    #[trigger] rules[j],
                    "tool_name"@,
                ) != Some(tool) by {
                    assert(init[j] == rules[j]);
                }
            },
            None => {
                assert forall|j: int| 0 <= j < init.len() implies get_str(
                    #[trigger] rules[j],
                    "tool_name"@,
                ) != Some(tool) by {
                    assert(init[j] == rules[j]);
                }
            },
        }
    }
}

proof fn lemma_rule_keys()
    ensures
        "tool_name"@ != "minimum_trust"@,
        "tool_name"@ != "cel_allow_if"@,
        "minimum_trust"@ != "cel_allow_if"@,
{
    reveal_strlit("tool_name");
    reveal_strlit("minimum_trust");
    reveal_strlit("cel_allow_if");
    assert("tool_name"@.len() == 9);
    assert("minimum_trust"@.len() == 13);
    assert("cel_allow_if"@.len() == 12);
}

/// A rule with a further condition.
spec fn widened(rule: JsonView, cel: Seq<char>) -> JsonView {
    JsonView::Object(
        fields_of(rule).insert(
            "cel_allow_if"@,
            JsonView::Str(combined(get_str(rule, "cel_allow_if"@), cel)),
        ),
    )
}

/// What the rules are once these tools got their conditions.
spec fn widened_rules(
    rules: Seq<JsonView>,
    tools: Seq<Seq<char>>,
    p: Seq<(Seq<char>, Seq<char>)>,
    after: Seq<JsonView>,
) -> bool {
    &&& after.len() >= rules.len()
    &&& forall|i: int|
        0 <= i < rules.len() ==> get_str(#[trigger] after[i], "tool_name"@) == get_str(
            rules[i],
            "tool_name"@,
        )
    &&& forall|t: Seq<char>, i: int| #[trigger]
        is_first_rule(rules, t, i) ==> after[i] == (if tools.contains(t) {
            widened(rules[i], routed_condition(p, t))
        } else {
            rules[i]
        })
    &&& forall|i: int|
        0 <= i < rules.len() && (forall|t: Seq<char>| !is_first_rule(rules, t, i))
            ==> #[trigger] after[i] == rules[i]
    &&& forall|i: int|
        rules.len() <= i < after.len() ==> exists|t: Seq<char>| #[trigger]
            tools.contains(t) && has_no_rule(rules, t) && #[trigger] after[i] == new_rule(
                t,
                routed_condition(p, t),
            )
    &&& forall|t: Seq<char>| #[trigger]
        tools.contains(t) && has_no_rule(rules, t) ==> exists|i: int|
            rules.len() <= i < after.len() && #[trigger] after[i] == new_rule(
                t,
                routed_condition(p, t),
            )
}

proof fn lemma_with_rules(
    rules: Seq<JsonView>,
    tools: Seq<Seq<char>>,
    p: Seq<(Seq<char>, Seq<char>)>,
)
    requires
        tools.no_duplicates(),
    ensures
        widened_rules(rules, tools, p, with_rules(rules, tools, p)),
    decreases tools.len(),
{
    lemma_rule_keys();
    let after = with_rules(rules, tools, p);
    if tools.len() == 0 {
        assert forall|t: Seq<char>| !tools.contains(t) by {}
    } else {
        let init = tools.drop_last();
        let x = tools.last();
        let mid = with_rules(rules, init, p);
        lemma_with_rules(rules, init, p);
        assert(!init.contains(x)) by {
            if init.contains(x) {
                let k = choose|k: int| 0 <= k < init.len() && init[k] == x;
                assert(tools[k] == tools[tools.len() - 1]);
            }
        }
        assert forall|t: Seq<char>| #[trigger] tools.contains(t) <==> init.contains(t) || t == x by {
            if tools.contains(t) {
                let k = choose|k: int| 0 <= k < tools.len() && tools[k] == t;
                if k < init.len() {
                    assert(init[k] == t);
                }
            }
            if init.contains(t) {
                let k = choose|k: int| 0 <= k < init.len() && init[k] == t;
                assert(tools[k] == t);
            }
            assert(tools[tools.len() - 1] == x);
        }
        let cel = routed_condition(p, x);
        lemma_first_rule(mid, x);
        lemma_first_rule(rules, x);
        // The first rule for this tool is where it was.
        assert(rule_index(mid, x) == rule_index(rules, x)) by {
            match rule_index(rules, x) {
                Some(i) => {
                    assert(get_str(mid[i], "tool_name"@) == Some(x));
                    match rule_index(mid, x) {
                        Some(k) => {
                            if k < i {
                                assert(get_str(mid[k], "tool_name"@) == get_str(
                                    rules[k],
                                    "tool_name"@,
                                ));
                            } else if i < k {
                                assert(get_str(mid[i], "tool_name"@) != Some(x));
                            }
                        },
                        None => {
                            assert(get_str(mid[i], "tool_name"@) != Some(x));
                        },
                    }
                },
                None => {
                    if let Some(k) = rule_index(mid, x) {
                        if k < rules.len() {
                            assert(get_str(mid[k], "tool_name"@) == get_str(
                                rules[k],
                                "tool_name"@,
                            ));
                        } else {
                            let t = choose|t: Seq<char>| #[trigger]
                                init.contains(t) && has_no_rule(rules, t) && mid[k] == new_rule(
                                    t,
                                    routed_condition(p, t),
                                );
                            assert(get_str(mid[k], "tool_name"@) == Some(t));
                        }
                    }
                },
            }
        }
        match rule_index(mid, x) {
            Some(i) => {
                assert(is_first_rule(rules, x, i));
                assert(mid[i] == rules[i]);
                assert(after =~= mid.update(i, widened(mid[i], cel)));
                assert forall|k: int| 0 <= k < rules.len() implies get_str(
                    #[trigger] after[k],
                    "tool_name"@,
                ) == get_str(rules[k], "tool_name"@) by {
                    if k != i {
                        assert(after[k] == mid[k]);
                    }
                }
                assert forall|t: Seq<char>, k: int| #[trigger]
                    is_first_rule(rules, t, k) implies after[k] == (if tools.contains(t) {
                    widened(rules[k], routed_condition(p, t))
                } else {
                    rules[k]
                }) by {
                    if k == i {
                        assert(t == x);
                    } else {
                        assert(after[k] == mid[k]);
                        if t == x {
                            if k < i {
                                assert(get_str(rules[k], "tool_name"@) != Some(x));
                            } else {
                                assert(get_str(rules[i], "tool_name"@) != Some(x));
                            }
                        }
                    }
                }
                assert forall|k: int|
                    0 <= k < rules.len() && (forall|t: Seq<char>| !is_first_rule(rules, t, k))
                    implies #[trigger] after[k] == rules[k] by {
                    assert(k != i);
                    assert(after[k] == mid[k]);
                }
                assert forall|k: int| rules.len() <= k < after.len() implies exists|t: Seq<char>|
                    #[trigger]
                    tools.contains(t) && has_no_rule(rules, t) && #[trigger] after[k] == new_rule(
                        t,
                        routed_condition(p, t),
                    ) by {
                    assert(after[k] == mid[k]);
                    let t = choose|t: Seq<char>| #[trigger]
                        init.contains(t) && has_no_rule(rules, t) && mid[k] == new_rule(
                            t,
                            routed_condition(p, t),
                        );
                    assert(tools.contains(t));
                }
                assert forall|t: Seq<char>| #[trigger]
                    tools.contains(t) && has_no_rule(rules, t) implies exists|k: int|
                    rules.len() <= k < after.len() && #[trigger] after[k] == new_rule(
                        t,
                        routed_condition(p, t),
                    ) by {
                    assert(get_str(rules[i], "tool_name"@) == Some(x));
                    assert(t != x);
                    assert(init.contains(t));
                    let k = choose|k: int|
                        rules.len() <= k < mid.len() && #[trigger] mid[k] == new_rule(
                            t,
                            routed_condition(p, t),
                        );
                    assert(after[k] == mid[k]);
                }
            },
            None => {
                assert(after =~= mid.push(new_rule(x, cel)));
                assert(has_no_rule(rules, x));
                assert forall|t: Seq<char>, k: int| #[trigger]
                    is_first_rule(rules, t, k) implies after[k] == (if tools.contains(t) {
                    widened(rules[k], routed_condition(p, t))
                } else {
                    rules[k]
                }) by {
                    assert(get_str(rules[k], "tool_name"@) != Some(x));
                    assert(t != x);
                    assert(after[k] == mid[k]);
                }
                assert forall|k: int|
                    0 <= k < rules.len() && (forall|t: Seq<char>| !is_first_rule(rules, t, k))
                    implies #[trigger] after[k] == rules[k] by {
                    assert(after[k] == mid[k]);
                }
                assert forall|k: int| 0 <= k < rules.len() implies get_str(
                    #[trigger] after[k],
                    "tool_name"@,
                ) == get_str(rules[k], "tool_name"@) by {
                    assert(after[k] == mid[k]);
                }
                assert forall|k: int| rules.len() <= k < after.len() implies exists|t: Seq<char>|
                    #[trigger]
                    tools.contains(t) && has_no_rule(rules, t) && #[trigger] after[k] == new_rule(
                        t,
                        routed_condition(p, t),
                    ) by {
                    if k < mid.len() {
                        assert(after[k] == mid[k]);
                        let t = choose|t: Seq<char>| #[trigger]
                            init.contains(t) && has_no_rule(rules, t) && mid[k] == new_rule(
                                t,
                                routed_condition(p, t),
                            );
                        assert(tools.contains(t));
                    } else {
                        assert(tools.contains(x));
                    }
                }
                assert forall|t: Seq<char>| #[trigger]
                    tools.contains(t) && has_no_rule(rules, t) implies exists|k: int|
                    rules.len() <= k < after.len() && #[trigger] after[k] == new_rule(
                        t,
                        routed_condition(p, t),
                    ) by {
                    if t == x {
                        assert(after[mid.len() as int] == new_rule(t, routed_condition(p, t)));
                    } else {
                        assert(init.contains(t));
                        let k = choose|k: int|
                            rules.len() <= k < mid.len() && #[trigger] mid[k] == new_rule(
                                t,
                                routed_condition(p, t),
                            );
                        assert(after[k] == mid[k]);
                    }
                }
            },
        }
    }
}

/// The tool-access rules in a config.
pub open spec fn tool_rules(config: JsonView) -> Seq<JsonView> {
    elements(leaf_at(config, seq!["governance"@, "policy"@, "tool_access"@, "rules"@]))
}

proof fn lemma_tool_rules(
    routes: Seq<MCPGRoute>,
    gateway: Seq<char>,
    gateway_ns: Seq<char>,
    accepted: Seq<Seq<char>>,
    config: JsonView,
)
    ensures
        ({
            let p = route_pairs(routes, gateway, gateway_ns, accepted);
            widened_rules(
                tool_rules(config),
                sorted_set(pair_tools(p)),
                p,
                tool_rules(config_with_pairs(config, p)),
            )
        }),
{
    let p = route_pairs(routes, gateway, gateway_ns, accepted);
    let tools = sorted_set(pair_tools(p));
    let rules = tool_rules(config);
    assert(rules_path() =~= seq!["governance"@, "policy"@, "tool_access"@, "rules"@]);
    law_sorted_set(pair_tools(p));
    assert(tools.no_duplicates()) by {
        assert forall|i: int, j: int| 0 <= i < j < tools.len() implies tools[i] != tools[j] by {
            if tools[i] == tools[j] {
                assert(crate::text::before(tools[i], tools[j]));
                crate::ordered::lemma_irreflexive(tools[i]);
            }
        }
    }
    if p.len() > 0 {
        lemma_with_rules(rules, tools, p);
        crate::json::law_put_then_leaf(
            config,
            rules_path(),
            JsonView::Array(with_rules(rules, tools, p)),
        );
    } else {
        assert forall|t: Seq<char>| !tools.contains(t) by {
            if tools.contains(t) {
                assert(pair_tools(p).contains(t));
            }
        }
    }
}

/// Routes only ever let more callers through: whoever the rule for a tool let
/// through is still let through, every caller of an accepted route's tenant is
/// let through for the tools that the route names, and nobody else is. The
/// rule keeps its other fields, and a rule for a tool that no accepted route
/// names stays as it is.
pub proof fn law_routes_widen_a_rule(
    routes: Seq<MCPGRoute>,
    gateway: Seq<char>,
    gateway_ns: Seq<char>,
    accepted: Seq<Seq<char>>,
    config: JsonView,
    c: Caller,
    tool: Seq<char>,
    i: int,
)
    requires
        reads_cel(c),
        is_first_rule(tool_rules(config), tool, i),
        get_str(tool_rules(config)[i], "cel_allow_if"@) matches Some(d) ==> (c.is_condition)(d),
    ensures
        ({
            let before = tool_rules(config)[i];
            let after = tool_rules(
                config_with_pairs(config, route_pairs(routes, gateway, gateway_ns, accepted)),
            );
            let routed = is_routed(routes, gateway, gateway_ns, accepted, tool);
            let granted = is_granted(routes, gateway, gateway_ns, accepted, tool, c.tenant);
            &&& after.len() >= tool_rules(config).len()
            &&& !routed ==> after[i] == before
            &&& routed ==> {
                &&& get_str(after[i], "tool_name"@) == Some(tool)
                &&& get_str(after[i], "cel_allow_if"@) matches Some(now)
                &&& (c.is_condition)(now)
                &&& (c.holds)(now) <==> granted || (get_str(before, "cel_allow_if"@) matches Some(
                    was,
                ) && (c.holds)(was))
                &&& forall|key: Seq<char>|
                    key != "cel_allow_if"@ ==> #[trigger] get(after[i], key) == get(before, key)
            }
        }),
{
    lemma_rule_keys();
    let p = route_pairs(routes, gateway, gateway_ns, accepted);
    lemma_tool_rules(routes, gateway, gateway_ns, accepted, config);
    lemma_routed(c, routes, gateway, gateway_ns, accepted, tool);
    law_sorted_set(pair_tools(p));
    assert(sorted_set(pair_tools(p)).contains(tool) <==> pair_tools(p).contains(tool));
    let rules = tool_rules(config);
    assert(is_first_rule(rules, tool, i));
    if pair_tools(p).contains(tool) {
        lemma_combined(c, get_str(rules[i], "cel_allow_if"@), routed_condition(p, tool));
    }
}

/// A tool that has no rule gets one exactly when an accepted route names it:
/// for callers with a verified identity, and among them for those of the
/// routes' tenants and nobody else.
pub proof fn law_routes_add_a_rule(
    routes: Seq<MCPGRoute>,
    gateway: Seq<char>,
    gateway_ns: Seq<char>,
    accepted: Seq<Seq<char>>,
    config: JsonView,
    c: Caller,
    tool: Seq<char>,
)
    requires
        reads_cel(c),
        has_no_rule(tool_rules(config), tool),
    ensures
        ({
            let after = tool_rules(
                config_with_pairs(config, route_pairs(routes, gateway, gateway_ns, accepted)),
            );
            let routed = is_routed(routes, gateway, gateway_ns, accepted, tool);
            let granted = is_granted(routes, gateway, gateway_ns, accepted, tool, c.tenant);
            &&& routed <==> exists|i: int|
                0 <= i < after.len() && get_str(#[trigger] after[i], "tool_name"@) == Some(tool)
            &&& forall|i: int|
                0 <= i < after.len() && get_str(#[trigger] after[i], "tool_name"@) == Some(tool)
                    ==> {
                    &&& get_str(after[i], "minimum_trust"@) == Some("verified"@)
                    &&& get_str(after[i], "cel_allow_if"@) matches Some(now)
                    &&& (c.is_condition)(now)
                    &&& (c.holds)(now) <==> granted
                }
        }),
{
    lemma_rule_keys();
    let p = route_pairs(routes, gateway, gateway_ns, accepted);
    let rules = tool_rules(config);
    let after = tool_rules(config_with_pairs(config, p));
    let tools = sorted_set(pair_tools(p));
    lemma_tool_rules(routes, gateway, gateway_ns, accepted, config);
    lemma_routed(c, routes, gateway, gateway_ns, accepted, tool);
    law_sorted_set(pair_tools(p));
    assert(tools.contains(tool) <==> pair_tools(p).contains(tool));
    assert forall|i: int|
        0 <= i < after.len() && get_str(#[trigger] after[i], "tool_name"@) == Some(tool) implies i
        >= rules.len() && after[i] == new_rule(tool, routed_condition(p, tool)) && tools.contains(
        tool,
    ) by {
        if i < rules.len() {
            assert(get_str(after[i], "tool_name"@) == get_str(rules[i], "tool_name"@));
        } else {
            let t = choose|t: Seq<char>| #[trigger]
                tools.contains(t) && has_no_rule(rules, t) && after[i] == new_rule(
                    t,
                    routed_condition(p, t),
                );
            assert(get_str(after[i], "tool_name"@) == Some(t));
        }
    }
    if tools.contains(tool) {
        let i = choose|i: int|
            rules.len() <= i < after.len() && #[trigger] after[i] == new_rule(
                tool,
                routed_condition(p, tool),
            );
        assert(get_str(after[i], "tool_name"@) == Some(tool));
    }
}

/// The routes that are counted are those that may be folded in.
pub proof fn law_folded_routes_are_counted(
    routes: Seq<MCPGRoute>,
    r: MCPGRoute,
    gateway: Seq<char>,
    gateway_ns: Seq<char>,
    accepted: Seq<Seq<char>>,
)
    ensures
        accepted_count(Seq::empty(), gateway, gateway_ns, accepted) == 0,
        accepted_count(routes.push(r), gateway, gateway_ns, accepted) == accepted_count(
            routes,
            gateway,
            gateway_ns,
            accepted,
        ) + (if targets(r, gateway, gateway_ns, accepted) {
            1nat
        } else {
            0nat
        }),
{
    assert(routes.push(r).drop_last() =~= routes);
}

} // verus!
