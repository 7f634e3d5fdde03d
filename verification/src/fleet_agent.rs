//! The cell agent: what it applies, what it reports, when it reconnects.
use vstd::prelude::*;

use crate::api::conditions::{condition_true, conditions_view, is_true, Condition};
use crate::text::{decimal, decimal_text, ends, ends_with, opt_str, same, text_of, trim, trimmed};

verus! {

/// The least time between two attempts to connect, in seconds.
pub const RECONNECT_MIN: u64 = 2;

/// The longest time between two attempts to connect, in seconds.
pub const RECONNECT_MAX: u64 = 60;

/// The pause after an attempt to connect: the least one when the channel had
/// been open, else twice the last one, up to the longest.
pub fn next_backoff(last_secs: u64, attached: bool) -> (r: u64)
    requires
        2 * last_secs <= u64::MAX,
    ensures
        attached ==> r == RECONNECT_MIN,
        !attached ==> r == (if 2 * last_secs > RECONNECT_MAX {
            RECONNECT_MAX as int
        } else {
            2 * last_secs
        }),
        r <= RECONNECT_MAX,
{
    if attached {
        RECONNECT_MIN
    } else if last_secs * 2 > RECONNECT_MAX {
        RECONNECT_MAX
    } else {
        last_secs * 2
    }
}

/// Why there is no enrolment token.
#[derive(Debug, Clone)]
pub enum TokenError {
    /// The file could not be read.
    Unreadable { path: String },
    /// The file is empty.
    EmptyFile { path: String },
    /// None was given.
    Missing,
}

/// A file that was to be read: its path, and its content when it could be.
#[derive(Debug)]
pub struct TokenFile {
    pub path: String,
    pub content: Option<String>,
}

/// The enrolment token: the content of the file when one is named, else the
/// one that was given inline; without white space around it, and never
/// empty.
pub fn read_token(inline: Option<&str>, file: Option<&TokenFile>) -> (r: Result<
    String,
    TokenError,
>)
    ensures
        match file {
            Some(f) => match f.content {
                None => r matches Err(TokenError::Unreadable { path }) && path@ == f.path@,
                Some(c) => if trim(c@).len() == 0 {
                    r matches Err(TokenError::EmptyFile { path }) && path@ == f.path@
                } else {
                    r matches Ok(t) && t@ == trim(c@)
                },
            },
            None => match opt_str(inline) {
                Some(s) => if trim(s).len() == 0 {
                    r matches Err(TokenError::Missing)
                } else {
                    r matches Ok(t) && t@ == trim(s)
                },
                None => r matches Err(TokenError::Missing),
            },
        },
        r matches Ok(t) ==> t@.len() > 0,
{
    match file {
        Some(f) => {
            let t = match &f.content {
                Some(c) => trimmed(c.as_str()),
                None => return Err(TokenError::Unreadable { path: f.path.clone() }),
            };
            if t.as_str().is_empty() {
                return Err(TokenError::EmptyFile { path: f.path.clone() });
            }
            Ok(t)
        },
        None => match inline {
            Some(s) => {
                let t = trimmed(s);
                if t.as_str().is_empty() {
                    return Err(TokenError::Missing);
                }
                Ok(t)
            },
            None => Err(TokenError::Missing),
        },
    }
}

/// Where an object of an assignment goes: one of a namespaced kind into the
/// assignment's namespace, whatever namespace it names itself and also where
/// it names none. One of a cluster-wide kind goes into none.
pub fn pinned_namespace(namespaced: bool, assigned: &str) -> (r: Option<String>)
    ensures
        match r {
            Some(n) => namespaced && n@ == assigned@,
            None => !namespaced,
        },
{
    if namespaced {
        Some(assigned.to_owned())
    } else {
        None
    }
}

/// What is wrong with the object at position `index` of an assignment: it
/// has no name.
pub fn object_name(name: Option<&str>, index: usize) -> (r: Result<String, String>)
    ensures
        match opt_str(name) {
            Some(n) => r matches Ok(s) && s@ == n,
            None => r matches Err(m) && m@ == "object "@ + decimal(index as nat)
                + " has no metadata.name"@,
        },
{
    match name {
        Some(n) => Ok(n.to_owned()),
        None => Err(
            "object ".to_owned().concat(decimal_text(index as u64).as_str()).concat(
                " has no metadata.name",
            ),
        ),
    }
}

/// Whether a failed deletion counts. What is gone needs no deleting.
pub fn delete_failed(code: Option<u16>) -> (r: bool)
    ensures
        r == (code != Some(404u16)),
{
    match code {
        Some(c) => c != 404,
        None => true,
    }
}

/// The number in a CPU quantity, and whether it counts whole cores rather
/// than thousandths.
pub open spec fn cpu_parts(q: Seq<char>) -> (Seq<char>, bool) {
    let t = trim(q);
    if ends_with(t, "m"@) {
        (t.drop_last(), false)
    } else {
        (t, true)
    }
}

fn without_last(s: &str, n: usize) -> (r: String)
    requires
        n <= s@.len(),
    ensures
        r@ == s@.take(s@.len() - n),
{
    let v = crate::text::chars_of(s);
    text_of(&v, 0, v.len() - n)
}

/// Parts a CPU quantity into its number and its unit.
pub fn split_cpu_quantity(q: &str) -> (r: (String, bool))
    ensures
        (r.0@, r.1) == cpu_parts(q@),
{
    let t = trimmed(q);
    if ends(t.as_str(), "m") {
        proof {
            reveal_strlit("m");
            assert(t@.take(t@.len() - 1) =~= t@.drop_last());
        }
        (without_last(t.as_str(), 1), false)
    } else {
        (t, true)
    }
}

/// The units of memory quantities, in the order in which they are tried: the
/// binary ones first, so that `Mi` is not taken for `M`.
pub open spec fn memory_units() -> Seq<(Seq<char>, i64)> {
    seq![
        ("Ki"@, 1024),
        ("Mi"@, 1048576),
        ("Gi"@, 1073741824),
        ("Ti"@, 1099511627776),
        ("Pi"@, 1125899906842624),
        ("k"@, 1000),
        ("K"@, 1000),
        ("M"@, 1000000),
        ("G"@, 1000000000),
        ("T"@, 1000000000000),
    ]
}

/// The number in a memory quantity, and how many bytes it counts, trying the
/// units from the given one on.
pub open spec fn memory_from(t: Seq<char>, i: int) -> (Seq<char>, i64)
    decreases memory_units().len() - i,
{
    if i < 0 || i >= memory_units().len() {
        (t, 1)
    } else if ends_with(t, memory_units()[i].0) {
        (t.take(t.len() - memory_units()[i].0.len()), memory_units()[i].1)
    } else {
        memory_from(t, i + 1)
    }
}

/// The number in a memory quantity, and how many bytes it counts.
pub open spec fn memory_parts(q: Seq<char>) -> (Seq<char>, i64) {
    memory_from(trim(q), 0)
}

fn try_unit(t: &str, unit: &str) -> (r: Option<String>)
    ensures
        match r {
            Some(n) => ends_with(t@, unit@) && n@ == t@.take(t@.len() - unit@.len()),
            None => !ends_with(t@, unit@),
        },
{
    if ends(t, unit) {
        let n = crate::text::chars_of(unit).len();
        Some(without_last(t, n))
    } else {
        None
    }
}

/// Parts a memory quantity into its number and its unit in bytes.
pub fn split_memory_quantity(q: &str) -> (r: (String, i64))
    ensures
        (r.0@, r.1) == memory_parts(q@),
{
    let t = trimmed(q);
    proof {
        reveal_with_fuel(memory_from, 11);
    }
    match try_unit(t.as_str(), "Ki") {
        Some(n) => return (n, 1024),
        None => {},
    }
    match try_unit(t.as_str(), "Mi") {
        Some(n) => return (n, 1048576),
        None => {},
    }
    match try_unit(t.as_str(), "Gi") {
        Some(n) => return (n, 1073741824),
        None => {},
    }
    match try_unit(t.as_str(), "Ti") {
        Some(n) => return (n, 1099511627776),
        None => {},
    }
    match try_unit(t.as_str(), "Pi") {
        Some(n) => return (n, 1125899906842624),
        None => {},
    }
    match try_unit(t.as_str(), "k") {
        Some(n) => return (n, 1000),
        None => {},
    }
    match try_unit(t.as_str(), "K") {
        Some(n) => return (n, 1000),
        None => {},
    }
    match try_unit(t.as_str(), "M") {
        Some(n) => return (n, 1000000),
        None => {},
    }
    match try_unit(t.as_str(), "G") {
        Some(n) => return (n, 1000000000),
        None => {},
    }
    match try_unit(t.as_str(), "T") {
        Some(n) => return (n, 1000000000000),
        None => {},
    }
    (t, 1)
}

/// What is known of a node. Quantities that it does not report are missing.
#[derive(Debug)]
pub struct NodeFacts {
    pub unschedulable: Option<bool>,
    pub conditions: Vec<Condition>,
    pub cpu_millicores: Option<i64>,
    pub memory_bytes: Option<i64>,
}

/// What one container asks for.
#[derive(Debug, Clone, Copy)]
pub struct ContainerRequest {
    pub cpu_millicores: Option<i64>,
    pub memory_bytes: Option<i64>,
}

/// What is known of a pod.
#[derive(Debug)]
pub struct PodFacts {
    pub phase: Option<String>,
    pub containers: Vec<ContainerRequest>,
}

/// What a cell reports of itself.
#[derive(Debug, Clone, Copy, PartialEq, Eq, Structural)]
pub struct CellObservation {
    pub allocatable_cpu_m: i64,
    pub allocatable_mem_bytes: i64,
    pub requested_cpu_m: i64,
    pub requested_mem_bytes: i64,
    pub gateway_count: i32,
}

/// Whether a node takes pods: it is not cordoned, and says that it is ready.
pub open spec fn node_counts(n: NodeFacts) -> bool {
    n.unschedulable != Some(true) && is_true(conditions_view(n.conditions@), "Ready"@)
}

/// Whether a pod still holds what it asked for.
pub open spec fn pod_counts(p: PodFacts) -> bool {
    match p.phase {
        Some(ph) => ph@ != "Succeeded"@ && ph@ != "Failed"@,
        None => true,
    }
}

/// A quantity, or nothing.
pub open spec fn amount(q: Option<i64>) -> int {
    match q {
        Some(n) => n as int,
        None => 0,
    }
}

/// The CPU of each node, where it counts.
pub open spec fn node_cpu(v: Seq<NodeFacts>) -> Seq<int> {
    v.map_values(
        |n: NodeFacts|
            if node_counts(n) {
                amount(n.cpu_millicores)
            } else {
                0
            },
    )
}

/// The memory of each node, where it counts.
pub open spec fn node_memory(v: Seq<NodeFacts>) -> Seq<int> {
    v.map_values(
        |n: NodeFacts|
            if node_counts(n) {
                amount(n.memory_bytes)
            } else {
                0
            },
    )
}

/// What all containers of the pods that count ask for, one after the other.
pub open spec fn requests(v: Seq<PodFacts>) -> Seq<ContainerRequest>
    decreases v.len(),
{
    if v.len() == 0 {
        Seq::empty()
    } else if pod_counts(v.last()) {
        requests(v.drop_last()) + v.last().containers@
    } else {
        requests(v.drop_last())
    }
}

/// The CPU that each container asks for.
pub open spec fn request_cpu(v: Seq<ContainerRequest>) -> Seq<int> {
    v.map_values(|c: ContainerRequest| amount(c.cpu_millicores))
}

/// The memory that each container asks for.
pub open spec fn request_memory(v: Seq<ContainerRequest>) -> Seq<int> {
    v.map_values(|c: ContainerRequest| amount(c.memory_bytes))
}

/// The sum of the numbers.
pub open spec fn sum(s: Seq<int>) -> int
    decreases s.len(),
{
    if s.len() == 0 {
        0
    } else {
        sum(s.drop_last()) + s.last()
    }
}

/// Whether adding up the numbers one by one stays within 64 bits.
pub open spec fn fits(s: Seq<int>) -> bool {
    forall|i: int| 0 <= i <= s.len() ==> i64::MIN <= sum(#[trigger] s.take(i)) <= i64::MAX
}

/// Adds up the numbers; nothing when a partial sum does not fit.
pub fn total(v: &Vec<i64>) -> (r: Option<i64>)
    ensures
        match r {
            Some(n) => fits(v@.map_values(|x: i64| x as int)) && n == sum(
                v@.map_values(|x: i64| x as int),
            ),
            None => !fits(v@.map_values(|x: i64| x as int)),
        },
{
    let ghost s = v@.map_values(|x: i64| x as int);
    let mut acc: i64 = 0;
    let mut i: usize = 0;
    assert(s.take(0) =~= Seq::empty());
    while i < v.len()
        invariant
            i <= v.len(),
            s == v@.map_values(|x: i64| x as int),
            acc == sum(s.take(i as int)),
            forall|j: int|
                0 <= j <= i ==> i64::MIN <= sum(#[trigger] s.take(j)) <= i64::MAX,
        decreases v.len() - i,
    {
        proof {
            assert(s.take(i + 1).drop_last() =~= s.take(i as int));
            assert(s.take(i + 1).last() == v@[i as int]);
        }
        match acc.checked_add(v[i]) {
            Some(n) => {
                acc = n;
            },
            None => {
                assert(!(i64::MIN <= sum(s.take(i + 1)) <= i64::MAX));
                return None;
            },
        }
        i = i + 1;
    }
    assert(s.take(i as int) =~= s);
    Some(acc)
}

fn or_zero(q: Option<i64>) -> (r: i64)
    ensures
        r == amount(q),
{
    match q {
        Some(n) => n,
        None => 0,
    }
}

fn node_takes_pods(n: &NodeFacts) -> (r: bool)
    ensures
        r == node_counts(*n),
{
    let cordoned = match n.unschedulable {
        Some(b) => b,
        None => false,
    };
    !cordoned && condition_true(&n.conditions, "Ready")
}

fn pod_holds(p: &PodFacts) -> (r: bool)
    ensures
        r == pod_counts(*p),
{
    match &p.phase {
        Some(ph) => !same(ph.as_str(), "Succeeded") && !same(ph.as_str(), "Failed"),
        None => true,
    }
}

fn node_quantities(nodes: &Vec<NodeFacts>) -> (r: (Vec<i64>, Vec<i64>))
    ensures
        r.0@.map_values(|x: i64| x as int) == node_cpu(nodes@),
        r.1@.map_values(|x: i64| x as int) == node_memory(nodes@),
{
    let mut cpu: Vec<i64> = Vec::new();
    let mut memory: Vec<i64> = Vec::new();
    let mut i: usize = 0;
    let ghost c = node_cpu(nodes@);
    let ghost m = node_memory(nodes@);
    proof {
        assert(cpu@.map_values(|x: i64| x as int) =~= c.take(0));
        assert(memory@.map_values(|x: i64| x as int) =~= m.take(0));
    }
    while i < nodes.len()
        invariant
            i <= nodes.len(),
            c == node_cpu(nodes@),
            m == node_memory(nodes@),
            cpu@.map_values(|x: i64| x as int) == c.take(i as int),
            memory@.map_values(|x: i64| x as int) == m.take(i as int),
        decreases nodes.len() - i,
    {
        let (a, b): (i64, i64) = if node_takes_pods(&nodes[i]) {
            (or_zero(nodes[i].cpu_millicores), or_zero(nodes[i].memory_bytes))
        } else {
            (0, 0)
        };
        proof {
            assert(c.take(i + 1) =~= c.take(i as int).push(c[i as int]));
            assert(m.take(i + 1) =~= m.take(i as int).push(m[i as int]));
            assert(cpu@.push(a).map_values(|x: i64| x as int) =~= cpu@.map_values(
                |x: i64| x as int,
            ).push(a as int));
            assert(memory@.push(b).map_values(|x: i64| x as int) =~= memory@.map_values(
                |x: i64| x as int,
            ).push(b as int));
        }
        cpu.push(a);
        memory.push(b);
        i = i + 1;
    }
    proof {
        assert(c.take(i as int) =~= c);
        assert(m.take(i as int) =~= m);
    }
    (cpu, memory)
}

fn pod_quantities(pods: &Vec<PodFacts>) -> (r: (Vec<i64>, Vec<i64>))
    ensures
        r.0@.map_values(|x: i64| x as int) == request_cpu(requests(pods@)),
        r.1@.map_values(|x: i64| x as int) == request_memory(requests(pods@)),
{
    let mut cpu: Vec<i64> = Vec::new();
    let mut memory: Vec<i64> = Vec::new();
    let mut i: usize = 0;
    proof {
        assert(pods@.take(0) =~= Seq::empty());
        assert(cpu@.map_values(|x: i64| x as int) =~= request_cpu(requests(pods@.take(0))));
        assert(memory@.map_values(|x: i64| x as int) =~= request_memory(
            requests(pods@.take(0)),
        ));
    }
    while i < pods.len()
        invariant
            i <= pods.len(),
            cpu@.map_values(|x: i64| x as int) == request_cpu(requests(pods@.take(i as int))),
            memory@.map_values(|x: i64| x as int) == request_memory(
                requests(pods@.take(i as int)),
            ),
        decreases pods.len() - i,
    {
        let ghost before = requests(pods@.take(i as int));
        let ghost own = pods@[i as int].containers@;
        proof {
            assert(pods@.take(i + 1).drop_last() =~= pods@.take(i as int));
            assert(pods@.take(i + 1).last() == pods@[i as int]);
        }
        if pod_holds(&pods[i]) {
            let mut k: usize = 0;
            proof {
                assert(before + own.take(0) =~= before);
            }
            while k < pods[i as usize].containers.len()
                invariant
                    i < pods.len(),
                    own == pods@[i as int].containers@,
                    k <= own.len(),
                    cpu@.map_values(|x: i64| x as int) == request_cpu(
                        before + own.take(k as int),
                    ),
                    memory@.map_values(|x: i64| x as int) == request_memory(
                        before + own.take(k as int),
                    ),
                decreases own.len() - k,
            {
                let c = pods[i].containers[k];
                let a: i64 = or_zero(c.cpu_millicores);
                let b: i64 = or_zero(c.memory_bytes);
                proof {
                    let now = before + own.take(k as int);
                    assert(before + own.take(k + 1) =~= now.push(own[k as int]));
                    assert(request_cpu(now.push(own[k as int])) =~= request_cpu(now).push(
                        a as int,
                    ));
                    assert(request_memory(now.push(own[k as int])) =~= request_memory(now).push(
                        b as int,
                    ));
                    assert(cpu@.push(a).map_values(|x: i64| x as int) =~= cpu@.map_values(
                        |x: i64| x as int,
                    ).push(a as int));
                    assert(memory@.push(b).map_values(|x: i64| x as int) =~= memory@.map_values(
                        |x: i64| x as int,
                    ).push(b as int));
                }
                cpu.push(a);
                memory.push(b);
                k = k + 1;
            }
            assert(own.take(k as int) =~= own);
        }
        i = i + 1;
    }
    assert(pods@.take(i as int) =~= pods@);
    (cpu, memory)
}

/// How many gateways a cell reports; none when they could not be listed.
pub open spec fn reported_gateways(n: Option<usize>) -> i32 {
    match n {
        Some(n) => n as i32,
        None => 0,
    }
}

/// What a cell reports of itself: what the nodes that take pods have, what
/// the pods that are not done ask for, and how many gateways there are.
/// `None` when a sum does not fit.
pub fn observe(nodes: &Vec<NodeFacts>, pods: &Vec<PodFacts>, gateways: Option<usize>) -> (r: Option<
    CellObservation,
>)
    ensures
        r is Some == (fits(node_cpu(nodes@)) && fits(node_memory(nodes@)) && fits(
            request_cpu(requests(pods@)),
        ) && fits(request_memory(requests(pods@)))),
        r matches Some(o) ==> {
            &&& o.allocatable_cpu_m == sum(node_cpu(nodes@))
            &&& o.allocatable_mem_bytes == sum(node_memory(nodes@))
            &&& o.requested_cpu_m == sum(request_cpu(requests(pods@)))
            &&& o.requested_mem_bytes == sum(request_memory(requests(pods@)))
            &&& o.gateway_count == reported_gateways(gateways)
        },
{
    let (node_cpus, node_mem) = node_quantities(nodes);
    let (pod_cpus, pod_mem) = pod_quantities(pods);
    let gateway_count: i32 = match gateways {
        Some(n) => {
            #[verifier::truncate]
            (n as i32)
        },
        None => 0,
    };
    match (total(&node_cpus), total(&node_mem), total(&pod_cpus), total(&pod_mem)) {
        (Some(a), Some(b), Some(c), Some(d)) => Some(
            CellObservation {
                allocatable_cpu_m: a,
                allocatable_mem_bytes: b,
                requested_cpu_m: c,
                requested_mem_bytes: d,
                gateway_count,
            },
        ),
        _ => None,
    }
}

/// A node that is cordoned, or that is not ready, adds nothing to what a
/// cell has.
pub proof fn law_unusable_node_adds_nothing(v: Seq<NodeFacts>, n: NodeFacts)
    requires
        !node_counts(n),
    ensures
        sum(node_cpu(v.push(n))) == sum(node_cpu(v)),
        sum(node_memory(v.push(n))) == sum(node_memory(v)),
{
    assert(node_cpu(v.push(n)).drop_last() =~= node_cpu(v));
    assert(node_memory(v.push(n)).drop_last() =~= node_memory(v));
}

/// A node adds what it has to what a cell has, unless it is cordoned or does not
/// say that it is ready. A cell without nodes has nothing.
pub proof fn law_node_adds_what_it_has(v: Seq<NodeFacts>, n: NodeFacts)
    ensures
        sum(node_cpu(v.push(n))) - sum(node_cpu(v)) == if n.unschedulable == Some(true) || !is_true(
            conditions_view(n.conditions@),
            "Ready"@,
        ) || n.cpu_millicores is None {
            0
        } else {
            n.cpu_millicores->0 as int
        },
        sum(node_memory(v.push(n))) - sum(node_memory(v)) == if n.unschedulable == Some(true)
            || !is_true(conditions_view(n.conditions@), "Ready"@) || n.memory_bytes is None {
            0
        } else {
            n.memory_bytes->0 as int
        },
        sum(node_cpu(Seq::empty())) == 0,
        sum(node_memory(Seq::empty())) == 0,
{
    assert(node_cpu(v.push(n)).drop_last() =~= node_cpu(v));
    assert(node_memory(v.push(n)).drop_last() =~= node_memory(v));
}

proof fn lemma_sum_add(a: Seq<int>, b: Seq<int>)
    ensures
        sum(a + b) == sum(a) + sum(b),
    decreases b.len(),
{
    if b.len() == 0 {
        assert(a + b =~= a);
    } else {
        assert((a + b).drop_last() =~= a + b.drop_last());
        lemma_sum_add(a, b.drop_last());
    }
}

/// A pod adds what its containers ask for to what a cell is asked for, unless
/// it has succeeded or failed. A cell without pods is asked for nothing.
pub proof fn law_pod_adds_what_it_asks_for(v: Seq<PodFacts>, p: PodFacts)
    ensures
        p.phase is None || (p.phase->0@ != "Succeeded"@ && p.phase->0@ != "Failed"@) ==> {
            &&& sum(request_cpu(requests(v.push(p)))) == sum(request_cpu(requests(v))) + sum(
                request_cpu(p.containers@),
            )
            &&& sum(request_memory(requests(v.push(p)))) == sum(request_memory(requests(v)))
                + sum(request_memory(p.containers@))
        },
        p.phase matches Some(ph) ==> (ph@ == "Succeeded"@ || ph@ == "Failed"@ ==> {
            &&& sum(request_cpu(requests(v.push(p)))) == sum(request_cpu(requests(v)))
            &&& sum(request_memory(requests(v.push(p)))) == sum(request_memory(requests(v)))
        }),
        sum(request_cpu(requests(Seq::empty()))) == 0,
        sum(request_memory(requests(Seq::empty()))) == 0,
{
    assert(v.push(p).drop_last() =~= v);
    if pod_counts(p) {
        let a = requests(v);
        let b = p.containers@;
        assert(request_cpu(a + b) =~= request_cpu(a) + request_cpu(b));
        assert(request_memory(a + b) =~= request_memory(a) + request_memory(b));
        lemma_sum_add(request_cpu(a), request_cpu(b));
        lemma_sum_add(request_memory(a), request_memory(b));
    }
}

/// A container adds the CPU and the memory that it asks for, and nothing where
/// it does not say.
pub proof fn law_container_adds_what_it_asks_for(v: Seq<ContainerRequest>, c: ContainerRequest)
    ensures
        sum(request_cpu(v.push(c))) - sum(request_cpu(v)) == (match c.cpu_millicores {
            Some(n) => n as int,
            None => 0,
        }),
        sum(request_memory(v.push(c))) - sum(request_memory(v)) == (match c.memory_bytes {
            Some(n) => n as int,
            None => 0,
        }),
{
    assert(request_cpu(v.push(c)).drop_last() =~= request_cpu(v));
    assert(request_memory(v.push(c)).drop_last() =~= request_memory(v));
}

/// A CPU quantity with an `m` counts thousandths, any other whole cores; its
/// number is all of it but the unit.
pub proof fn law_cpu_quantity(q: Seq<char>, n: Seq<char>)
    ensures
        trim(q) == n + "m"@ ==> cpu_parts(q) == (n, false),
        trim(q) == n && (n.len() == 0 || n.last() != 'm') ==> cpu_parts(q) == (n, true),
{
    reveal_strlit("m");
    let t = trim(q);
    if t == n + "m"@ {
        assert(t.skip(t.len() - 1) =~= "m"@);
        assert(t.drop_last() =~= n);
    }
    if t.len() > 0 && t.last() != 'm' {
        assert(t.skip(t.len() - 1)[0] != "m"@[0]);
    }
}

/// A memory quantity counts by its unit: a power of 1024 for the units with an
/// `i`, a power of 1000 for the others, and bytes without a unit. Its number is
/// all of it but the unit.
pub proof fn law_memory_quantity(q: Seq<char>, n: Seq<char>)
    ensures
        trim(q) == n + "Ki"@ ==> memory_parts(q) == (n, (1024) as i64),
        trim(q) == n + "Mi"@ ==> memory_parts(q) == (n, (1024 * 1024) as i64),
        trim(q) == n + "Gi"@ ==> memory_parts(q) == (n, (1024 * 1024 * 1024) as i64),
        trim(q) == n + "Ti"@ ==> memory_parts(q) == (n, (1024 * 1024 * 1024 * 1024) as i64),
        trim(q) == n + "Pi"@ ==> memory_parts(q) == (n, (1024 * 1024 * 1024 * 1024 * 1024) as i64),
        trim(q) == n + "k"@ ==> memory_parts(q) == (n, (1000) as i64),
        trim(q) == n + "K"@ ==> memory_parts(q) == (n, (1000) as i64),
        trim(q) == n + "M"@ ==> memory_parts(q) == (n, (1000 * 1000) as i64),
        trim(q) == n + "G"@ ==> memory_parts(q) == (n, (1000 * 1000 * 1000) as i64),
        trim(q) == n + "T"@ ==> memory_parts(q) == (n, (1000 * 1000 * 1000 * 1000) as i64),
        trim(q) == n && (n.len() == 0 || '0' <= n.last() <= '9') ==> memory_parts(q) == (n, 1i64),
{
    reveal_strlit("Ki");
    reveal_strlit("Mi");
    reveal_strlit("Gi");
    reveal_strlit("Ti");
    reveal_strlit("Pi");
    reveal_strlit("k");
    reveal_strlit("K");
    reveal_strlit("M");
    reveal_strlit("G");
    reveal_strlit("T");
    reveal_with_fuel(memory_from, 11);
    let t = trim(q);
    lemma_units(t);
    if t == n + "Ki"@ {
        assert(t.take(t.len() - 2) =~= n);
        assert(t.skip(t.len() - 2) =~= "Ki"@);
    }
    if t == n + "Mi"@ {
        assert(t.take(t.len() - 2) =~= n);
        assert(t.skip(t.len() - 2) =~= "Mi"@);
    }
    if t == n + "Gi"@ {
        assert(t.take(t.len() - 2) =~= n);
        assert(t.skip(t.len() - 2) =~= "Gi"@);
    }
    if t == n + "Ti"@ {
        assert(t.take(t.len() - 2) =~= n);
        assert(t.skip(t.len() - 2) =~= "Ti"@);
    }
    if t == n + "Pi"@ {
        assert(t.take(t.len() - 2) =~= n);
        assert(t.skip(t.len() - 2) =~= "Pi"@);
    }
    if t == n + "k"@ {
        assert(t.take(t.len() - 1) =~= n);
        assert(t.skip(t.len() - 1) =~= "k"@);
    }
    if t == n + "K"@ {
        assert(t.take(t.len() - 1) =~= n);
        assert(t.skip(t.len() - 1) =~= "K"@);
    }
    if t == n + "M"@ {
        assert(t.take(t.len() - 1) =~= n);
        assert(t.skip(t.len() - 1) =~= "M"@);
    }
    if t == n + "G"@ {
        assert(t.take(t.len() - 1) =~= n);
        assert(t.skip(t.len() - 1) =~= "G"@);
    }
    if t == n + "T"@ {
        assert(t.take(t.len() - 1) =~= n);
        assert(t.skip(t.len() - 1) =~= "T"@);
    }
}

/// Which units a text can end with.
proof fn lemma_units(t: Seq<char>)
    ensures
        ends_with(t, "Ki"@) ==> t.len() >= 2 && t[t.len() - 2] == 'K' && t.last() == 'i',
        ends_with(t, "Mi"@) ==> t.len() >= 2 && t[t.len() - 2] == 'M' && t.last() == 'i',
        ends_with(t, "Gi"@) ==> t.len() >= 2 && t[t.len() - 2] == 'G' && t.last() == 'i',
        ends_with(t, "Ti"@) ==> t.len() >= 2 && t[t.len() - 2] == 'T' && t.last() == 'i',
        ends_with(t, "Pi"@) ==> t.len() >= 2 && t[t.len() - 2] == 'P' && t.last() == 'i',
        ends_with(t, "k"@) ==> t.len() >= 1 && t.last() == 'k',
        ends_with(t, "K"@) ==> t.len() >= 1 && t.last() == 'K',
        ends_with(t, "M"@) ==> t.len() >= 1 && t.last() == 'M',
        ends_with(t, "G"@) ==> t.len() >= 1 && t.last() == 'G',
        ends_with(t, "T"@) ==> t.len() >= 1 && t.last() == 'T',
{
    reveal_strlit("Ki");
    reveal_strlit("Mi");
    reveal_strlit("Gi");
    reveal_strlit("Ti");
    reveal_strlit("Pi");
    reveal_strlit("k");
    reveal_strlit("K");
    reveal_strlit("M");
    reveal_strlit("G");
    reveal_strlit("T");
    if ends_with(t, "Ki"@) {
        assert(t.skip(t.len() - 2).last() == "Ki"@.last());
        assert(t.skip(t.len() - 2)[0] == "Ki"@[0]);
    }
    if ends_with(t, "Mi"@) {
        assert(t.skip(t.len() - 2).last() == "Mi"@.last());
        assert(t.skip(t.len() - 2)[0] == "Mi"@[0]);
    }
    if ends_with(t, "Gi"@) {
        assert(t.skip(t.len() - 2).last() == "Gi"@.last());
        assert(t.skip(t.len() - 2)[0] == "Gi"@[0]);
    }
    if ends_with(t, "Ti"@) {
        assert(t.skip(t.len() - 2).last() == "Ti"@.last());
        assert(t.skip(t.len() - 2)[0] == "Ti"@[0]);
    }
    if ends_with(t, "Pi"@) {
        assert(t.skip(t.len() - 2).last() == "Pi"@.last());
        assert(t.skip(t.len() - 2)[0] == "Pi"@[0]);
    }
    if ends_with(t, "k"@) {
        assert(t.skip(t.len() - 1).last() == "k"@.last());
        assert(t.skip(t.len() - 1)[0] == "k"@[0]);
    }
    if ends_with(t, "K"@) {
        assert(t.skip(t.len() - 1).last() == "K"@.last());
        assert(t.skip(t.len() - 1)[0] == "K"@[0]);
    }
    if ends_with(t, "M"@) {
        assert(t.skip(t.len() - 1).last() == "M"@.last());
        assert(t.skip(t.len() - 1)[0] == "M"@[0]);
    }
    if ends_with(t, "G"@) {
        assert(t.skip(t.len() - 1).last() == "G"@.last());
        assert(t.skip(t.len() - 1)[0] == "G"@[0]);
    }
    if ends_with(t, "T"@) {
        assert(t.skip(t.len() - 1).last() == "T"@.last());
        assert(t.skip(t.len() - 1)[0] == "T"@[0]);
    }
}

/// A cell reports as many gateways as it found, and none where they could not be
/// listed.
pub proof fn law_gateways_are_counted(n: usize)
    ensures
        n <= i32::MAX ==> reported_gateways(Some(n)) == n,
        reported_gateways(None) == 0,
{
}

} // verus!
