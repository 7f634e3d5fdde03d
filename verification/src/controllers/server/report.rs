//! What a server reports: may its workload be rendered, and is it ready?
use vstd::prelude::*;

use crate::api::conditions::{
    conditions_view, event, opt_event, Condition, ConditionView, Event, EventType, EventView,
};
use crate::api::resources::{
    existing_conditions, status_conditions, CosignIdentity, MCPGServer,
};
use crate::controllers::report::{put, resync, resync_verdict, set_cond};
use crate::oci_pull::{digest_of, pinned_digest};
use crate::reconcile::flow::Verdict;
use crate::text::{contains_text, decimal_int, decimal_int_text, occurs, opt_text};

verus! {

/// What is to be done about the signature of a server's image.
#[derive(Debug)]
pub enum ImageCheck {
    /// Nothing: none is asked for.
    NotConfigured,
    /// Nothing: the image is not pinned to a digest, so no signature can be
    /// bound to it.
    DigestRequired,
    /// Check that this image carries a signature of this identity at this
    /// digest.
    Check { image: String, identity: CosignIdentity, digest: String },
}

/// Whether `r` is what is to be done about the signature of a server's image.
pub open spec fn checks(obj: MCPGServer, r: ImageCheck) -> bool {
    match r {
        ImageCheck::NotConfigured => obj.spec.verify is None,
        ImageCheck::DigestRequired => obj.spec.verify is Some && !occurs(
            obj.spec.image@,
            "@sha256:"@,
        ),
        ImageCheck::Check { image, identity, digest } => {
            &&& obj.spec.verify matches Some(wanted)
            &&& identity.certificate_identity_regexp@ == wanted.certificate_identity_regexp@
            &&& identity.oidc_issuer@ == wanted.oidc_issuer@
            &&& image@ == obj.spec.image@
            &&& occurs(obj.spec.image@, "@sha256:"@)
            &&& digest@ == (match pinned_digest(obj.spec.image@) {
                Some(d) => d,
                None => Seq::empty(),
            })
        },
    }
}

/// What is to be done about the signature of a server's image.
pub fn image_check(obj: &MCPGServer) -> (r: ImageCheck)
    ensures
        checks(*obj, r),
{
    match &obj.spec.verify {
        None => ImageCheck::NotConfigured,
        Some(wanted) => {
            if !contains_text(obj.spec.image.as_str(), "@sha256:") {
                ImageCheck::DigestRequired
            } else {
                let digest = match digest_of(obj.spec.image.as_str()) {
                    Some(d) => d,
                    None => String::new(),
                };
                let identity = CosignIdentity {
                    certificate_identity_regexp: wanted.certificate_identity_regexp.clone(),
                    oidc_issuer: wanted.oidc_issuer.clone(),
                };
                ImageCheck::Check { image: obj.spec.image.clone(), identity, digest }
            }
        },
    }
}

/// How the check of a server's image ended.
#[derive(Debug)]
pub enum ImageVerdict {
    NotConfigured,
    DigestRequired,
    Verified,
    /// It failed with this message.
    Failed(String),
}

/// Whether an image may run, and the reason and message that say so.
pub open spec fn image_state(v: ImageVerdict) -> (bool, Seq<char>, Seq<char>) {
    match v {
        ImageVerdict::NotConfigured => (
            true,
            "VerificationNotConfigured"@,
            "spec.verify not set; image admitted without signature verification"@,
        ),
        ImageVerdict::DigestRequired => (
            false,
            "DigestPinRequired"@,
            "spec.verify requires a digest-pinned image (repo@sha256:…)"@,
        ),
        ImageVerdict::Verified => (
            true,
            "CosignVerified"@,
            "cosign keyless signature verified"@,
        ),
        ImageVerdict::Failed(e) => (
            false,
            "CosignVerifyFailed"@,
            "cosign verification failed: "@ + e@,
        ),
    }
}

fn image_text(v: &ImageVerdict) -> (r: (bool, &'static str, String))
    ensures
        (r.0, r.1@, r.2@) == image_state(*v),
{
    match v {
        ImageVerdict::NotConfigured => (
            true,
            "VerificationNotConfigured",
            "spec.verify not set; image admitted without signature verification".to_owned(),
        ),
        ImageVerdict::DigestRequired => (
            false,
            "DigestPinRequired",
            "spec.verify requires a digest-pinned image (repo@sha256:…)".to_owned(),
        ),
        ImageVerdict::Verified => (
            true,
            "CosignVerified",
            "cosign keyless signature verified".to_owned(),
        ),
        ImageVerdict::Failed(e) => (
            false,
            "CosignVerifyFailed",
            "cosign verification failed: ".to_owned().concat(e.as_str()),
        ),
    }
}

/// Whether a server's workload may be rendered: its image may run. A
/// workload that already runs is left alone either way.
pub fn may_render(v: &ImageVerdict) -> (r: bool)
    ensures
        r == image_state(*v).0,
{
    image_text(v).0
}

/// Whether a server is ready, and the reason and message that say so.
pub open spec fn server_ready(s: MCPGServer, v: ImageVerdict, replicas: i32) -> (
    bool,
    Seq<char>,
    Seq<char>,
) {
    let count = decimal_int(replicas as int) + "/"@ + decimal_int(s.spec.desired_replicas as int)
        + " replicas ready"@;
    if !image_state(v).0 {
        (
            false,
            "RenderBlockedByVerification"@,
            "workload not (re)rendered: "@ + image_state(v).2,
        )
    } else if replicas >= s.spec.desired_replicas {
        (true, "Reconciled"@, count)
    } else {
        (false, "RolloutPending"@, count)
    }
}

/// Whether a gateway imports a server, and the reason and message that say
/// so.
pub open spec fn server_binding(s: MCPGServer, ns: Seq<char>, gateway_exists: bool) -> (
    bool,
    Seq<char>,
    Seq<char>,
) {
    match s.spec.federate {
        Some(f) => {
            let gw = "MCPGGateway/"@ + ns + "/"@ + f.gateway_ref.name@;
            if gateway_exists {
                (true, "GatewayBound"@, "federated into "@ + gw)
            } else {
                (false, "GatewayNotFound"@, gw + " not found"@)
            }
        },
        None => (
            false,
            "NotFederated"@,
            "spec.federate not set; the workload runs but no gateway imports it"@,
        ),
    }
}

/// The conditions of a server.
pub open spec fn server_conditions(
    s: MCPGServer,
    ns: Seq<char>,
    generation: i64,
    v: ImageVerdict,
    replicas: i32,
    gateway_exists: bool,
) -> Seq<ConditionView> {
    let i = image_state(v);
    let r = server_ready(s, v, replicas);
    let b = server_binding(s, ns, gateway_exists);
    put(
        put(
            put(status_conditions(s.status), "ImageVerified"@, i.0, i.1, i.2, generation),
            "Ready"@,
            r.0,
            r.1,
            r.2,
            generation,
        ),
        "GatewayBound"@,
        b.0,
        b.1,
        b.2,
        generation,
    )
}

/// The status of a server, and what else follows its reconcile.
#[derive(Debug)]
pub struct ServerReport {
    pub conditions: Vec<Condition>,
    pub observed_generation: i64,
    pub ready_replicas: i32,
    pub endpoint: String,
    pub bound_gateway: Option<String>,
    /// Reports a gateway that is not there.
    pub bind_event: Option<Event>,
    /// Reports an image that may not run.
    pub verify_event: Option<Event>,
    pub verdict: Verdict,
}

/// The event that reports a gateway that is not there.
pub open spec fn bind_event(s: MCPGServer, ns: Seq<char>, gateway_exists: bool) -> Option<
    EventView,
> {
    let b = server_binding(s, ns, gateway_exists);
    if s.spec.federate is Some && !gateway_exists {
        Some(event(EventType::Warning, b.1, b.2, "Bind"@))
    } else {
        None
    }
}

/// The event that reports an image that may not run.
pub open spec fn verify_event(v: ImageVerdict) -> Option<EventView> {
    let i = image_state(v);
    if i.0 {
        None
    } else {
        Some(event(EventType::Warning, i.1, i.2, "Verify"@))
    }
}

/// The gateway that imports a server, as `namespace/name`.
pub open spec fn bound_gateway(s: MCPGServer, ns: Seq<char>, gateway_exists: bool) -> Option<
    Seq<char>,
> {
    match s.spec.federate {
        Some(f) => if gateway_exists {
            Some(ns + "/"@ + f.gateway_ref.name@)
        } else {
            None
        },
        None => None,
    }
}

/// Whether `r` is the report on a server, given how the check of its image
/// ended, how many of its replicas are ready, and whether the gateway it
/// joins is there.
pub open spec fn reports(
    obj: MCPGServer,
    ns: Seq<char>,
    generation: i64,
    verdict: ImageVerdict,
    ready_replicas: i32,
    gateway_exists: bool,
    r: ServerReport,
) -> bool {
    &&& conditions_view(r.conditions@) == server_conditions(
        obj,
        ns,
        generation,
        verdict,
        ready_replicas,
        gateway_exists,
    )
    &&& r.observed_generation == generation
    &&& r.ready_replicas == ready_replicas
    &&& r.endpoint@ == obj.spec.endpoint@
    &&& opt_text(r.bound_gateway) == bound_gateway(obj, ns, gateway_exists)
    &&& opt_event(r.bind_event) == bind_event(obj, ns, gateway_exists)
    &&& opt_event(r.verify_event) == verify_event(verdict)
    &&& r.verdict == resync_verdict(server_ready(obj, verdict, ready_replicas).0)
}

/// Reports on a server.
pub fn report_server(
    obj: &MCPGServer,
    ns: &str,
    generation: i64,
    verdict: &ImageVerdict,
    ready_replicas: i32,
    gateway_exists: bool,
) -> (r: ServerReport)
    ensures
        reports(*obj, ns@, generation, *verdict, ready_replicas, gateway_exists, r),
{
    let (verified, verify_reason, verify_msg) = image_text(verdict);
    let mut conditions = existing_conditions(&obj.status);
    set_cond(
        &mut conditions,
        "ImageVerified",
        verified,
        verify_reason,
        verify_msg.as_str(),
        generation,
    );
    let count = decimal_int_text(ready_replicas as i64).concat("/").concat(
        decimal_int_text(obj.spec.desired_replicas as i64).as_str(),
    ).concat(" replicas ready");
    let (ready, ready_reason, ready_msg) = if !verified {
        (
            false,
            "RenderBlockedByVerification",
            "workload not (re)rendered: ".to_owned().concat(verify_msg.as_str()),
        )
    } else if ready_replicas >= obj.spec.desired_replicas {
        (true, "Reconciled", count)
    } else {
        (false, "RolloutPending", count)
    };
    set_cond(&mut conditions, "Ready", ready, ready_reason, ready_msg.as_str(), generation);
    let mut bound_gateway: Option<String> = None;
    let mut bind_event: Option<Event> = None;
    match &obj.spec.federate {
        Some(f) => {
            let label = "MCPGGateway/".to_owned().concat(ns).concat("/").concat(
                f.gateway_ref.name.as_str(),
            );
            if gateway_exists {
                bound_gateway = Some(
                    ns.to_owned().concat("/").concat(f.gateway_ref.name.as_str()),
                );
                set_cond(
                    &mut conditions,
                    "GatewayBound",
                    true,
                    "GatewayBound",
                    "federated into ".to_owned().concat(label.as_str()).as_str(),
                    generation,
                );
            } else {
                let msg = label.concat(" not found");
                set_cond(
                    &mut conditions,
                    "GatewayBound",
                    false,
                    "GatewayNotFound",
                    msg.as_str(),
                    generation,
                );
                bind_event = Some(
                    Event::new(EventType::Warning, "GatewayNotFound", msg.as_str(), "Bind"),
                );
            }
        },
        None => {
            set_cond(
                &mut conditions,
                "GatewayBound",
                false,
                "NotFederated",
                "spec.federate not set; the workload runs but no gateway imports it",
                generation,
            );
        },
    }
    let verify_event = if verified {
        None
    } else {
        Some(Event::new(EventType::Warning, verify_reason, verify_msg.as_str(), "Verify"))
    };
    ServerReport {
        conditions,
        observed_generation: generation,
        ready_replicas,
        endpoint: obj.spec.endpoint.clone(),
        bound_gateway,
        bind_event,
        verify_event,
        verdict: resync(ready),
    }
}

/// A server whose image may not run is never ready, however many of its
/// replicas are.
pub proof fn law_unverified_is_not_ready(s: MCPGServer, v: ImageVerdict, replicas: i32)
    requires
        !image_state(v).0,
    ensures
        !server_ready(s, v, replicas).0,
{
}

} // verus!
