//! Which clusters may be written.
use vstd::prelude::*;

use crate::admission::decision::{
    admitted, finds, first_defect, first_of, flagged, judge, judged, lemma_first_defect,
    lemma_no_defect, Decision,
};
use crate::api::resources::{ClusterCredentialRef, MCPGCluster, MCPGClusterSpec};
use crate::text::{blank, decimal, decimal_text, is_blank, same};

verus! {

/// What is wrong with the config of a cluster: a single node takes none, any
/// other backend needs one.
pub open spec fn config_defect(s: MCPGClusterSpec) -> Option<Seq<char>> {
    if s.backend.single_node {
        flagged(
            s.config@.len() > 0,
            "spec.config must be empty for the single_node backend (it takes no parameters). Did you mean to set spec.backend to redis / nats / consul / etcd?"@,
        )
    } else {
        flagged(
            s.config@.len() == 0,
            "spec.config must not be empty for the '"@ + s.backend.config_kind@
                + "' backend — it needs at least a connection address (e.g. `url`/`servers`/`endpoints`)."@,
        )
    }
}

/// What is wrong with the transport of a cluster: it is in the clear.
pub open spec fn transport_defect(s: MCPGClusterSpec) -> Option<Seq<char>> {
    match s.insecure_transport_reason {
        Some(reason) => Some(
            "spec.config: "@ + reason@
                + ". The cluster coordinator carries all shared state (sessions, credential-cache events, delivery payloads) across bound gateways — a plaintext transport exposes them. Use a TLS scheme, or set `spec.config.allow_insecure_transport: true` to accept plaintext (local/dev only)."@,
        ),
        None => None,
    }
}

/// Whether an earlier credential has the same name.
pub open spec fn name_repeats(v: Seq<ClusterCredentialRef>, i: int) -> bool {
    exists|j: int| 0 <= j < i && (#[trigger] v[j]).name@ == v[i].name@
}

/// What is wrong with the credential at position `i`.
pub open spec fn credential_defect(v: Seq<ClusterCredentialRef>, i: int) -> Option<Seq<char>> {
    let at = "spec.credentialRefs["@ + decimal(i as nat);
    first_of(
        flagged(blank(v[i].name@), at + "].name must not be empty"@),
        first_of(
            flagged(blank(v[i].secret_name@), at + "].secretName must not be empty"@),
            flagged(
                name_repeats(v, i),
                at + "].name '"@ + v[i].name@
                    + "' is duplicated; each credential name maps to a distinct cred://cluster/<name> and must be unique"@,
            ),
        ),
    )
}

/// What is wrong with a cluster.
pub open spec fn cluster_defect(s: MCPGClusterSpec) -> Option<Seq<char>> {
    first_of(
        config_defect(s),
        first_of(
            transport_defect(s),
            first_defect(
                s.credential_refs@.len(),
                |i: int| credential_defect(s.credential_refs@, i),
            ),
        ),
    )
}

fn repeats_name(v: &Vec<ClusterCredentialRef>, i: usize) -> (r: bool)
    requires
        i < v@.len(),
    ensures
        r == name_repeats(v@, i as int),
{
    let mut j: usize = 0;
    while j < i
        invariant
            j <= i,
            i < v@.len(),
            forall|k: int| 0 <= k < j ==> (#[trigger] v@[k]).name@ != v@[i as int].name@,
        decreases i - j,
    {
        if same(v[j].name.as_str(), v[i].name.as_str()) {
            return true;
        }
        j = j + 1;
    }
    false
}

fn check_credential(v: &Vec<ClusterCredentialRef>, i: usize) -> (r: Result<(), String>)
    requires
        i < v@.len(),
    ensures
        finds(r, credential_defect(v@, i as int)),
{
    let c = &v[i];
    let at = "spec.credentialRefs[".to_owned().concat(decimal_text(i as u64).as_str());
    if is_blank(c.name.as_str()) {
        return Err(at.concat("].name must not be empty"));
    }
    if is_blank(c.secret_name.as_str()) {
        return Err(at.concat("].secretName must not be empty"));
    }
    if repeats_name(v, i) {
        return Err(
            at.concat("].name '").concat(c.name.as_str()).concat(
                "' is duplicated; each credential name maps to a distinct cred://cluster/<name> and must be unique",
            ),
        );
    }
    Ok(())
}

/// Checks a cluster.
pub fn validate_spec(obj: &MCPGCluster) -> (r: Result<(), String>)
    ensures
        finds(r, cluster_defect(obj.spec)),
{
    let s = &obj.spec;
    if s.backend.single_node {
        if s.config.len() > 0 {
            return Err(
                "spec.config must be empty for the single_node backend (it takes no parameters). Did you mean to set spec.backend to redis / nats / consul / etcd?".to_owned(),
            );
        }
    } else if s.config.len() == 0 {
        return Err(
            "spec.config must not be empty for the '".to_owned().concat(
                s.backend.config_kind.as_str(),
            ).concat(
                "' backend — it needs at least a connection address (e.g. `url`/`servers`/`endpoints`).",
            ),
        );
    }
    match &s.insecure_transport_reason {
        Some(reason) => {
            return Err(
                "spec.config: ".to_owned().concat(reason.as_str()).concat(
                    ". The cluster coordinator carries all shared state (sessions, credential-cache events, delivery payloads) across bound gateways — a plaintext transport exposes them. Use a TLS scheme, or set `spec.config.allow_insecure_transport: true` to accept plaintext (local/dev only).",
                ),
            );
        },
        None => {},
    }
    let ghost at = |i: int| credential_defect(s.credential_refs@, i);
    let mut i: usize = 0;
    while i < s.credential_refs.len()
        invariant
            i <= s.credential_refs.len(),
            s == obj.spec,
            at == |i: int| credential_defect(s.credential_refs@, i),
            first_defect(i as nat, at) is None,
            cluster_defect(obj.spec) == first_defect(s.credential_refs@.len(), at),
        decreases s.credential_refs.len() - i,
    {
        match check_credential(&s.credential_refs, i) {
            Ok(_) => {},
            Err(m) => {
                proof {
                    lemma_first_defect(s.credential_refs@.len(), at, i as nat);
                }
                return Err(m);
            },
        }
        i = i + 1;
    }
    Ok(())
}

/// Reviews a cluster that is about to be written; a deletion has none.
pub fn validate(obj: Option<&MCPGCluster>) -> (r: Decision)
    ensures
        match obj {
            Some(c) => r@ == judged(cluster_defect(c.spec)),
            None => r@ == judged(None),
        },
{
    match obj {
        Some(c) => judge(validate_spec(c)),
        None => admitted(),
    }
}

/// The credentials of an admitted cluster have different names.
pub proof fn law_credentials_are_distinct(s: MCPGClusterSpec, i: int, j: int)
    requires
        cluster_defect(s) is None,
        0 <= j < i < s.credential_refs@.len(),
    ensures
        s.credential_refs@[i].name@ != s.credential_refs@[j].name@,
{
    lemma_no_defect(
        s.credential_refs@.len(),
        |i: int| credential_defect(s.credential_refs@, i),
        i,
    );
    assert(!name_repeats(s.credential_refs@, i));
}

/// An admitted cluster speaks to its backend securely, or says that it need
/// not: nothing is wrong with its transport.
pub proof fn law_admitted_transport_is_secure(s: MCPGClusterSpec)
    requires
        cluster_defect(s) is None,
    ensures
        s.insecure_transport_reason is None,
{
}

} // verus!
