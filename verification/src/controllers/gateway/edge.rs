//! Custom domains of managed-cloud gateways at the shared edge.
use vstd::prelude::*;

use crate::api::objects::or_empty;
use crate::api::resources::MCPGGateway;
use crate::text::{clone_texts, has_text, texts};

verus! {

/// What a gateway wants at the edge: a listener for each domain, and a
/// certificate for each of `certificates`.
#[derive(Debug)]
pub struct EdgePlan {
    pub uid: String,
    pub domains: Vec<String>,
    pub certificates: Vec<String>,
}

/// Whether `r` is what a gateway wants at the edge: nothing when it is not
/// managed-cloud, else its domains, and certificates for them when there is an
/// issuer.
pub open spec fn wants_at_edge(obj: MCPGGateway, issuer: bool, r: Option<EdgePlan>) -> bool {
    &&& r is Some == obj.spec.cloud is Some
    &&& r matches Some(p) ==> {
        let domains = texts(obj.spec.cloud->0.custom_domains@);
        &&& p.uid@ == or_empty(obj.metadata@.uid)
        &&& texts(p.domains@) == domains
        &&& texts(p.certificates@) == (if issuer {
            domains
        } else {
            Seq::empty()
        })
    }
}

/// What a gateway wants at the edge; nothing when it is not managed-cloud.
/// Certificates are wanted only when there is an issuer.
pub fn reconcile_edge_domains(obj: &MCPGGateway, issuer: Option<&str>) -> (r: Option<EdgePlan>)
    ensures
        wants_at_edge(*obj, issuer is Some, r),
{
    match &obj.spec.cloud {
        None => None,
        Some(c) => {
            let certificates = match issuer {
                Some(_) => clone_texts(&c.custom_domains),
                None => {
                    let v: Vec<String> = Vec::new();
                    assert(texts(v@) =~= Seq::empty());
                    v
                },
            };
            Some(
                EdgePlan {
                    uid: obj.metadata.uid_or_empty(),
                    domains: clone_texts(&c.custom_domains),
                    certificates,
                },
            )
        },
    }
}

/// Whether a failure to apply the listeners fails the reconcile. Giving up
/// listeners at an edge that is not there is no failure.
pub fn listener_failure_is_fatal(plan: &EdgePlan) -> (r: bool)
    ensures
        r == (plan.domains@.len() > 0),
{
    plan.domains.len() > 0
}

/// The names in `existing` that are not wanted, in their order.
pub open spec fn stale(existing: Seq<Seq<char>>, wanted: Seq<Seq<char>>) -> Seq<Seq<char>>
    decreases existing.len(),
{
    if existing.len() == 0 {
        Seq::empty()
    } else if wanted.contains(existing.last()) {
        stale(existing.drop_last(), wanted)
    } else {
        stale(existing.drop_last(), wanted).push(existing.last())
    }
}

/// The names in `existing` that are not wanted: what is to be deleted.
pub fn stale_names(existing: &Vec<String>, wanted: &Vec<String>) -> (r: Vec<String>)
    ensures
        texts(r@) == stale(texts(existing@), texts(wanted@)),
{
    let mut out: Vec<String> = Vec::new();
    let mut i: usize = 0;
    assert(texts(out@) =~= stale(texts(existing@).take(0), texts(wanted@)));
    while i < existing.len()
        invariant
            i <= existing.len(),
            texts(out@) == stale(texts(existing@).take(i as int), texts(wanted@)),
        decreases existing.len() - i,
    {
        proof {
            assert(texts(existing@).take(i + 1).drop_last() =~= texts(existing@).take(i as int));
            assert(texts(existing@)[i as int] == existing@[i as int]@);
        }
        if !has_text(wanted, existing[i].as_str()) {
            let s = existing[i].clone();
            proof {
                assert(texts(out@.push(s)) =~= texts(out@).push(s@));
            }
            out.push(s);
        }
        i = i + 1;
    }
    assert(texts(existing@).take(i as int) =~= texts(existing@));
    out
}

/// What is deleted exists and is not wanted; everything else stays.
pub proof fn law_stale(existing: Seq<Seq<char>>, wanted: Seq<Seq<char>>, x: Seq<char>)
    ensures
        stale(existing, wanted).contains(x) <==> existing.contains(x) && !wanted.contains(x),
    decreases existing.len(),
{
    if existing.len() > 0 {
        let init = existing.drop_last();
        let w = stale(init, wanted);
        let r = stale(existing, wanted);
        law_stale(init, wanted, x);
        assert(existing[existing.len() - 1] == existing.last());
        if existing.contains(x) {
            let i = choose|i: int| 0 <= i < existing.len() && existing[i] == x;
            if i < existing.len() - 1 {
                assert(init[i] == x);
            }
        }
        if init.contains(x) {
            let i = choose|i: int| 0 <= i < init.len() && init[i] == x;
            assert(existing[i] == x);
        }
        if !wanted.contains(existing.last()) {
            assert(r[w.len() as int] == existing.last());
            if w.contains(x) {
                let i = choose|i: int| 0 <= i < w.len() && w[i] == x;
                assert(r[i] == x);
            }
            if r.contains(x) {
                let i = choose|i: int| 0 <= i < r.len() && r[i] == x;
                if i < w.len() {
                    assert(w[i] == x);
                }
            }
        }
    }
}

/// Whether a gateway that is being deleted has anything at the edge to give
/// up. Whether that works out never holds up the deletion.
pub fn cleanup_edge_domains(obj: &MCPGGateway) -> (r: Option<String>)
    ensures
        match r {
            Some(uid) => obj.spec.cloud is Some && uid@ == or_empty(obj.metadata@.uid),
            None => obj.spec.cloud is None,
        },
{
    match &obj.spec.cloud {
        Some(_) => Some(obj.metadata.uid_or_empty()),
        None => None,
    }
}

} // verus!
