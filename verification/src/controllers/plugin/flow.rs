//! The steps of a plugin's reconcile, from its finalizer to the publication
//! of the verified artefact.
//!
//! The caller performs one action at a time and hands back what came of it.
use vstd::prelude::*;

use crate::api::objects::{ConfigMap, Secret};
use crate::api::resources::{CosignIdentity, MCPGPlugin, OciImageRef, SigningKeyRef};
use crate::controllers::plugin::report::{
    mirror_failure, published, pull_failure, pulling_status, record_mirror_failure,
    record_published, record_pull_failure, record_pulling, record_revoked, record_verify_failure,
    revoked, verdict, verify_failure, PluginReport, PluginStatus,
};
use crate::controllers::plugin::secret::{
    artefact_secret, artefact_secret_name, build_artefact_secret, can_truncate, secret_name,
};
use crate::controllers::plugin::target::{
    clone_image, resolve_pull_target, same_image, target_is, MirrorLookup, MirrorRewrite, PullTarget,
};
use crate::oci_pull::{pull_error_text, PullArtefact, PullError, PullOptions};
use crate::reconcile::flow::{released, Begin, ReconcileError, Requeue, Verdict};
use crate::telemetry::ReconcileOutcome;

verus! {

/// The key of the provenance in its ConfigMap.
pub const PROVENANCE_KEY: &'static str = "provenance.intoto.jsonl";

/// The revocation list that is authoritative.
pub const CLUSTER_DEFAULT_REVOCATION_LIST: &'static str = "cluster-default";

/// What the signature check found out about an artefact.
#[derive(Debug)]
pub struct VerifiedArtefact {
    /// The SHA-256 of the artefact, in hex.
    pub artifact_hash: String,
    pub signature_verified: bool,
}

/// How the check of signature and revocation ended.
#[derive(Debug)]
pub enum CheckOutcome {
    Verified(VerifiedArtefact),
    Revoked { sha: String, reason: String },
    /// The artefact is not to be trusted, for this reason.
    Rejected(String),
    /// The check did not finish.
    Interrupted(String),
}

/// Where the reconcile of a plugin stands: what it waits for.
#[derive(Debug)]
pub enum PluginState {
    /// The removal of a deleted plugin's finalizer.
    RemovingFinalizer,
    /// The finalizer.
    AddingFinalizer,
    /// The status patch that announces the pull.
    Announcing,
    /// The plugin's mirror.
    ResolvingMirror,
    /// The artefact.
    Pulling,
    /// The key that must have signed the artefact.
    LoadingKey(PullArtefact),
    /// The cluster's revocation list.
    ReadingRevocations(PullArtefact),
    /// The check of signature and revocation.
    Checking(PullArtefact),
    /// The check of the keyless signature.
    CheckingCosign(PullArtefact, VerifiedArtefact),
    /// The provenance.
    FetchingProvenance(PullArtefact, VerifiedArtefact, Option<bool>),
    /// The check of the provenance.
    CheckingProvenance(PullArtefact, VerifiedArtefact, Option<bool>),
    /// The Secret of the given name.
    Applying {
        secret_name: String,
        verified: VerifiedArtefact,
        cosign: Option<bool>,
        slsa: Option<bool>,
    },
    /// Nothing any more.
    Done,
}

/// What came of an action.
#[derive(Debug)]
pub enum PluginEvent {
    FinalizerRemoved(Result<(), String>),
    FinalizerAdded(Result<(), String>),
    /// The announcement was made, or could not be made.
    Announced,
    Mirror(MirrorLookup),
    Pulled(Result<PullArtefact, PullError>),
    KeyLoaded(Result<(), String>),
    /// The revocation list was read. A list that is missing or rejected
    /// counts as an empty one; only a failed request is an error.
    RevocationsRead(Result<(), String>),
    Checked(CheckOutcome),
    CosignChecked(Result<(), String>),
    ProvenanceFetched(Result<ConfigMap, String>),
    ProvenanceChecked(Result<(), String>),
    Applied(Result<(), String>),
}

/// What is to be done next.
#[derive(Debug)]
pub enum PluginAction {
    RemoveFinalizer,
    AddFinalizer,
    /// Patch the status; go on either way.
    Announce(PluginStatus),
    /// Look up the mirror of this name.
    LookUpMirror(String),
    /// Pull this image.
    Pull(OciImageRef, PullOptions),
    /// Load the key that must have signed the artefact.
    LoadKey { key: SigningKeyRef },
    /// Read the revocation list of this name.
    ReadRevocations { list: String },
    /// Check signature and revocation of the artefact in the state, which is
    /// the plugin of this id.
    Check { plugin_id: String },
    /// Check that this image carries a keyless signature of this identity at
    /// this digest.
    CheckCosign { image: OciImageRef, identity: CosignIdentity, digest: String },
    /// Fetch this ConfigMap from the operator's namespace.
    FetchProvenance { config_map: String },
    /// Check this provenance against the artefact's hash and its source.
    CheckProvenance {
        jsonl: String,
        artifact_hash: String,
        source_uri: String,
        source_tag: String,
    },
    /// Apply this Secret.
    Apply(Secret),
    /// Patch the status, publish the event and end; the plugin's failures
    /// are forgotten.
    Complete(PluginReport),
    /// Patch the status, publish the event and end.
    Report(PluginReport),
    /// End without a report.
    Stop(Verdict),
    /// End with an error.
    Fail(ReconcileError),
    /// Nothing: this event was not waited for.
    Nothing,
}

/// The artefact once its hash is known.
pub open spec fn with_hash(a: PullArtefact, hash: String) -> PullArtefact {
    PullArtefact { artifact_sha256: Some(hash), ..a }
}

/// The reconcile ends with the report on an artefact that is not trusted.
pub open spec fn distrusts(
    p: MCPGPlugin,
    b: Begin,
    a: PullArtefact,
    detail: Seq<char>,
    n: PluginState,
    x: PluginAction,
) -> bool {
    x matches PluginAction::Report(r) && n is Done && r@ == verify_failure(
        p,
        b.generation,
        a.manifest_digest@,
        detail,
    )
}

/// Every check passed: the artefact is published as a Secret.
pub open spec fn publishes(
    p: MCPGPlugin,
    b: Begin,
    ns: Seq<char>,
    a: PullArtefact,
    v: VerifiedArtefact,
    cosign: Option<bool>,
    slsa: Option<bool>,
    n: PluginState,
    x: PluginAction,
) -> bool {
    let name = secret_name(b.name@, v.artifact_hash@);
    &&& n matches PluginState::Applying { secret_name: s, verified: v2, cosign: c2, slsa: s2 }
    &&& s@ == name
    &&& v2 == v
    &&& c2 == cosign
    &&& s2 == slsa
    &&& x matches PluginAction::Apply(secret)
    &&& secret@ == artefact_secret(p, ns, name, a)
}

/// The keyless signature was checked, or need not be: the provenance is
/// next, when the plugin must have one.
pub open spec fn after_cosign(
    p: MCPGPlugin,
    b: Begin,
    ns: Seq<char>,
    a: PullArtefact,
    v: VerifiedArtefact,
    cosign: Option<bool>,
    n: PluginState,
    x: PluginAction,
) -> bool {
    match p.spec.trust.slsa_provenance {
        Some(s) => {
            &&& n == PluginState::FetchingProvenance(a, v, cosign)
            &&& x matches PluginAction::FetchProvenance { config_map }
            &&& config_map@ == s.config_map_name@
        },
        None => publishes(p, b, ns, a, v, cosign, None, n, x),
    }
}

/// The signature was checked: the keyless signature is next, when the plugin
/// must have one. It is that of the plugin's own image, not of a mirror's, at
/// the digest that was pulled.
pub open spec fn after_signature(
    p: MCPGPlugin,
    b: Begin,
    ns: Seq<char>,
    a: PullArtefact,
    v: VerifiedArtefact,
    n: PluginState,
    x: PluginAction,
) -> bool {
    match p.spec.trust.cosign_identity {
        Some(identity) => {
            &&& n == PluginState::CheckingCosign(a, v)
            &&& x matches PluginAction::CheckCosign { image, identity: i, digest }
            &&& same_image(image, p.spec.oci)
            &&& i.certificate_identity_regexp@ == identity.certificate_identity_regexp@
            &&& i.oidc_issuer@ == identity.oidc_issuer@
            &&& digest@ == a.manifest_digest@
        },
        None => after_cosign(p, b, ns, a, v, None, n, x),
    }
}

/// The pull begins, or the plugin cannot be pulled.
pub open spec fn pulls_from(
    p: MCPGPlugin,
    b: Begin,
    lookup: MirrorLookup,
    n: PluginState,
    x: PluginAction,
) -> bool {
    match x {
        PluginAction::Pull(o, opt) => n is Pulling && target_is(
            p.spec.oci,
            lookup,
            PullTarget::Pull(o, opt),
        ),
        PluginAction::Report(r) => n is Done && exists|d: String| #[trigger]
            target_is(p.spec.oci, lookup, PullTarget::Unresolved(d)) && r@ == mirror_failure(
                p,
                b.generation,
                d@,
            ),
        PluginAction::Stop(v) => n is Done && target_is(p.spec.oci, lookup, PullTarget::RetryLater)
            && v == verdict(30, ReconcileOutcome::TransientError),
        _ => false,
    }
}

/// The text that reports a provenance that could not be fetched.
pub open spec fn provenance_missing(
    config_map: Seq<char>,
    ns: Seq<char>,
    detail: Seq<char>,
) -> Seq<char> {
    "ConfigMap/"@ + config_map + " not found in "@ + ns + ": "@ + detail
}

/// The text that reports a ConfigMap without a provenance.
pub open spec fn provenance_key_missing(config_map: Seq<char>) -> Seq<char> {
    "ConfigMap/"@ + config_map + " missing data key `provenance.intoto.jsonl`"@
}

/// The name of the ConfigMap with a plugin's provenance.
pub open spec fn provenance_name(p: MCPGPlugin) -> Seq<char> {
    match p.spec.trust.slsa_provenance {
        Some(s) => s.config_map_name@,
        None => Seq::empty(),
    }
}

/// The source that a plugin's provenance must name: its address and its tag.
pub open spec fn provenance_source(p: MCPGPlugin) -> (Seq<char>, Seq<char>) {
    match p.spec.trust.slsa_provenance {
        Some(s) => (s.source_uri@, s.source_tag@),
        None => (Seq::empty(), Seq::empty()),
    }
}

/// The text of a failed provenance check.
pub open spec fn slsa_failed(detail: Seq<char>) -> Seq<char> {
    "SLSA verification failed: "@ + detail
}

/// Whether a reconcile begins in state `s` with action `x`.
pub open spec fn starts(b: Begin, s: PluginState, x: PluginAction) -> bool {
    if b.deleting {
        s is RemovingFinalizer && x is RemoveFinalizer
    } else {
        s is AddingFinalizer && x is AddFinalizer
    }
}

/// Whether the reconcile of plugin `p`, in state `s`, goes on to state `n`
/// with action `x` when `e` happens.
pub open spec fn step_is(
    p: MCPGPlugin,
    b: Begin,
    ns: Seq<char>,
    s: PluginState,
    e: PluginEvent,
    n: PluginState,
    x: PluginAction,
) -> bool {
    match (s, e) {
        (PluginState::RemovingFinalizer, PluginEvent::FinalizerRemoved(r)) => match r {
            Ok(_) => n is Done && x == PluginAction::Stop(
                Verdict { requeue: Requeue::AwaitChange, outcome: ReconcileOutcome::Success },
            ),
            Err(d) => n is Done && x == PluginAction::Fail(ReconcileError::Finalizer(d)),
        },
        (PluginState::AddingFinalizer, PluginEvent::FinalizerAdded(r)) => match r {
            Ok(_) => x matches PluginAction::Announce(status) && n is Announcing && status@
                == pulling_status(p, b.generation),
            Err(d) => n is Done && x == PluginAction::Fail(ReconcileError::Finalizer(d)),
        },
        (PluginState::Announcing, PluginEvent::Announced) => match p.spec.oci.mirror_ref {
            Some(m) => x matches PluginAction::LookUpMirror(name) && n is ResolvingMirror && name@
                == m.name@,
            None => pulls_from(p, b, MirrorLookup::Missing, n, x),
        },
        (PluginState::ResolvingMirror, PluginEvent::Mirror(l)) => pulls_from(p, b, l, n, x),
        (PluginState::Pulling, PluginEvent::Pulled(r)) => match r {
            Ok(a) => {
                &&& n == PluginState::LoadingKey(a)
                &&& x matches PluginAction::LoadKey { key }
                &&& key.secret_name@ == p.spec.trust.signing_key_ref.secret_name@
                &&& key.key@ == p.spec.trust.signing_key_ref.key@
            },
            Err(err) => x matches PluginAction::Report(rep) && n is Done && rep@ == pull_failure(
                p,
                b.generation,
                pull_error_text(err),
            ),
        },
        (PluginState::LoadingKey(a), PluginEvent::KeyLoaded(r)) => match r {
            Ok(_) => {
                &&& n == PluginState::ReadingRevocations(a)
                &&& x matches PluginAction::ReadRevocations { list }
                &&& list@ == "cluster-default"@
            },
            Err(d) => distrusts(p, b, a, d@, n, x),
        },
        (PluginState::ReadingRevocations(a), PluginEvent::RevocationsRead(r)) => match r {
            Ok(_) => {
                &&& n == PluginState::Checking(a)
                &&& x matches PluginAction::Check { plugin_id }
                &&& plugin_id@ == p.spec.plugin_id@
            },
            Err(d) => n is Done && x == PluginAction::Fail(ReconcileError::Kube(d)),
        },
        (PluginState::Checking(a), PluginEvent::Checked(o)) => match o {
            CheckOutcome::Verified(v) => after_signature(
                p,
                b,
                ns,
                with_hash(a, v.artifact_hash),
                v,
                n,
                x,
            ),
            CheckOutcome::Revoked { sha, reason } => x matches PluginAction::Report(rep) && n is Done
                && rep@ == revoked(p, b.generation, a.manifest_digest@, sha@, reason@),
            CheckOutcome::Rejected(d) => distrusts(p, b, a, d@, n, x),
            CheckOutcome::Interrupted(d) => n is Done && x == PluginAction::Fail(
                ReconcileError::Join(d),
            ),
        },
        (PluginState::CheckingCosign(a, v), PluginEvent::CosignChecked(r)) => match r {
            Ok(_) => after_cosign(p, b, ns, a, v, Some(true), n, x),
            Err(d) => distrusts(p, b, a, "cosign verification failed: "@ + d@, n, x),
        },
        (PluginState::FetchingProvenance(a, v, c), PluginEvent::ProvenanceFetched(r)) => match r {
            Err(d) => distrusts(
                p,
                b,
                a,
                slsa_failed(provenance_missing(provenance_name(p), ns, d@)),
                n,
                x,
            ),
            Ok(cm) => if cm.data@.dom().contains("provenance.intoto.jsonl"@) {
                &&& n == PluginState::CheckingProvenance(a, v, c)
                &&& x matches PluginAction::CheckProvenance {
                    jsonl,
                    artifact_hash,
                    source_uri,
                    source_tag,
                }
                &&& jsonl@ == cm.data@["provenance.intoto.jsonl"@]
                &&& artifact_hash@ == v.artifact_hash@
                &&& (source_uri@, source_tag@) == provenance_source(p)
            } else {
                distrusts(
                    p,
                    b,
                    a,
                    slsa_failed(provenance_key_missing(provenance_name(p))),
                    n,
                    x,
                )
            },
        },
        (PluginState::CheckingProvenance(a, v, c), PluginEvent::ProvenanceChecked(r)) => match r {
            Ok(_) => publishes(p, b, ns, a, v, c, Some(true), n, x),
            Err(d) => distrusts(p, b, a, slsa_failed(d@), n, x),
        },
        (
            PluginState::Applying { secret_name: name, verified, cosign, slsa },
            PluginEvent::Applied(r),
        ) => match r {
            Ok(_) => x matches PluginAction::Complete(rep) && n is Done && rep@ == published(
                p,
                b.generation,
                verified.artifact_hash@,
                verified.signature_verified,
                cosign,
                slsa,
                name@,
            ),
            Err(d) => n is Done && x == PluginAction::Fail(ReconcileError::Apply(d)),
        },
        (_, _) => n == s && x is Nothing,
    }
}

/// The first step of a plugin's reconcile.
pub fn start(begin: &Begin) -> (r: (PluginState, PluginAction))
    ensures
        starts(*begin, r.0, r.1),
{
    if begin.deleting {
        (PluginState::RemovingFinalizer, PluginAction::RemoveFinalizer)
    } else {
        (PluginState::AddingFinalizer, PluginAction::AddFinalizer)
    }
}

fn distrust(obj: &MCPGPlugin, begin: &Begin, a: &PullArtefact, detail: &str) -> (r: (
    PluginState,
    PluginAction,
))
    ensures
        distrusts(*obj, *begin, *a, detail@, r.0, r.1),
{
    let report = record_verify_failure(
        obj,
        begin.generation,
        a.manifest_digest.as_str(),
        detail,
    );
    (PluginState::Done, PluginAction::Report(report))
}

fn publish(
    obj: &MCPGPlugin,
    begin: &Begin,
    ns: &str,
    a: PullArtefact,
    v: VerifiedArtefact,
    cosign: Option<bool>,
    slsa: Option<bool>,
) -> (r: (PluginState, PluginAction))
    requires
        can_truncate(begin.name@, 50),
    ensures
        publishes(*obj, *begin, ns@, a, v, cosign, slsa, r.0, r.1),
{
    let name = artefact_secret_name(begin.name.as_str(), v.artifact_hash.as_str());
    let secret = build_artefact_secret(obj, ns, name.as_str(), &a);
    (
        PluginState::Applying { secret_name: name, verified: v, cosign, slsa },
        PluginAction::Apply(secret),
    )
}

fn go_on_after_cosign(
    obj: &MCPGPlugin,
    begin: &Begin,
    ns: &str,
    a: PullArtefact,
    v: VerifiedArtefact,
    cosign: Option<bool>,
) -> (r: (PluginState, PluginAction))
    requires
        can_truncate(begin.name@, 50),
    ensures
        after_cosign(*obj, *begin, ns@, a, v, cosign, r.0, r.1),
{
    match &obj.spec.trust.slsa_provenance {
        Some(s) => (
            PluginState::FetchingProvenance(a, v, cosign),
            PluginAction::FetchProvenance { config_map: s.config_map_name.clone() },
        ),
        None => publish(obj, begin, ns, a, v, cosign, None),
    }
}

fn go_on_after_signature(
    obj: &MCPGPlugin,
    begin: &Begin,
    ns: &str,
    a: PullArtefact,
    v: VerifiedArtefact,
) -> (r: (PluginState, PluginAction))
    requires
        can_truncate(begin.name@, 50),
    ensures
        after_signature(*obj, *begin, ns@, a, v, r.0, r.1),
{
    match &obj.spec.trust.cosign_identity {
        Some(wanted) => {
            let image = clone_image(&obj.spec.oci);
            let identity = CosignIdentity {
                certificate_identity_regexp: wanted.certificate_identity_regexp.clone(),
                oidc_issuer: wanted.oidc_issuer.clone(),
            };
            let digest = a.manifest_digest.clone();
            (
                PluginState::CheckingCosign(a, v),
                PluginAction::CheckCosign { image, identity, digest },
            )
        },
        None => go_on_after_cosign(obj, begin, ns, a, v, None),
    }
}

fn pull_from(obj: &MCPGPlugin, begin: &Begin, lookup: MirrorLookup) -> (r: (
    PluginState,
    PluginAction,
))
    ensures
        pulls_from(*obj, *begin, lookup, r.0, r.1),
{
    match resolve_pull_target(&obj.spec.oci, lookup) {
        PullTarget::Pull(o, opt) => (PluginState::Pulling, PluginAction::Pull(o, opt)),
        PullTarget::Unresolved(d) => {
            let report = record_mirror_failure(obj, begin.generation, d.as_str());
            (PluginState::Done, PluginAction::Report(report))
        },
        PullTarget::RetryLater => (
            PluginState::Done,
            PluginAction::Stop(
                Verdict {
                    requeue: Requeue::AfterSecs(30),
                    outcome: ReconcileOutcome::TransientError,
                },
            ),
        ),
    }
}

fn provenance_fetched(
    obj: &MCPGPlugin,
    begin: &Begin,
    ns: &str,
    a: PullArtefact,
    v: VerifiedArtefact,
    cosign: Option<bool>,
    fetched: Result<ConfigMap, String>,
) -> (r: (PluginState, PluginAction))
    ensures
        step_is(
            *obj,
            *begin,
            ns@,
            PluginState::FetchingProvenance(a, v, cosign),
            PluginEvent::ProvenanceFetched(fetched),
            r.0,
            r.1,
        ),
{
    let name = match &obj.spec.trust.slsa_provenance {
        Some(s) => s.config_map_name.clone(),
        None => String::new(),
    };
    match fetched {
        Err(d) => {
            let detail = "ConfigMap/".to_owned().concat(name.as_str()).concat(
                " not found in ",
            ).concat(ns).concat(": ").concat(d.as_str());
            let detail = "SLSA verification failed: ".to_owned().concat(detail.as_str());
            distrust(obj, begin, &a, detail.as_str())
        },
        Ok(cm) => match cm.data.get(PROVENANCE_KEY) {
            Some(jsonl) => {
                let (source_uri, source_tag) = match &obj.spec.trust.slsa_provenance {
                    Some(s) => (s.source_uri.clone(), s.source_tag.clone()),
                    None => (String::new(), String::new()),
                };
                let action = PluginAction::CheckProvenance {
                    jsonl: jsonl.clone(),
                    artifact_hash: v.artifact_hash.clone(),
                    source_uri,
                    source_tag,
                };
                (PluginState::CheckingProvenance(a, v, cosign), action)
            },
            None => {
                let detail = "ConfigMap/".to_owned().concat(name.as_str()).concat(
                    " missing data key `provenance.intoto.jsonl`",
                );
                let detail = "SLSA verification failed: ".to_owned().concat(detail.as_str());
                distrust(obj, begin, &a, detail.as_str())
            },
        },
    }
}

/// One step of a plugin's reconcile.
pub fn step(
    obj: &MCPGPlugin,
    begin: &Begin,
    operator_ns: &str,
    state: PluginState,
    event: PluginEvent,
) -> (r: (PluginState, PluginAction))
    requires
        can_truncate(begin.name@, 50),
    ensures
        step_is(*obj, *begin, operator_ns@, state, event, r.0, r.1),
{
    match (state, event) {
        (PluginState::RemovingFinalizer, PluginEvent::FinalizerRemoved(r)) => match r {
            Ok(_) => (PluginState::Done, PluginAction::Stop(released())),
            Err(d) => (PluginState::Done, PluginAction::Fail(ReconcileError::Finalizer(d))),
        },
        (PluginState::AddingFinalizer, PluginEvent::FinalizerAdded(r)) => match r {
            Ok(_) => {
                let status = record_pulling(obj, begin.generation);
                (PluginState::Announcing, PluginAction::Announce(status))
            },
            Err(d) => (PluginState::Done, PluginAction::Fail(ReconcileError::Finalizer(d))),
        },
        (PluginState::Announcing, PluginEvent::Announced) => match &obj.spec.oci.mirror_ref {
            Some(m) => (
                PluginState::ResolvingMirror,
                PluginAction::LookUpMirror(m.name.clone()),
            ),
            None => pull_from(obj, begin, MirrorLookup::Missing),
        },
        (PluginState::ResolvingMirror, PluginEvent::Mirror(l)) => pull_from(obj, begin, l),
        (PluginState::Pulling, PluginEvent::Pulled(r)) => match r {
            Ok(a) => {
                let key = SigningKeyRef {
                    secret_name: obj.spec.trust.signing_key_ref.secret_name.clone(),
                    key: obj.spec.trust.signing_key_ref.key.clone(),
                };
                (PluginState::LoadingKey(a), PluginAction::LoadKey { key })
            },
            Err(e) => {
                let report = record_pull_failure(obj, begin.generation, e.message().as_str());
                (PluginState::Done, PluginAction::Report(report))
            },
        },
        (PluginState::LoadingKey(a), PluginEvent::KeyLoaded(r)) => match r {
            Ok(_) => {
                let list = CLUSTER_DEFAULT_REVOCATION_LIST.to_owned();
                (PluginState::ReadingRevocations(a), PluginAction::ReadRevocations { list })
            },
            Err(d) => distrust(obj, begin, &a, d.as_str()),
        },
        (PluginState::ReadingRevocations(a), PluginEvent::RevocationsRead(r)) => match r {
            Ok(_) => {
                let plugin_id = obj.spec.plugin_id.clone();
                (PluginState::Checking(a), PluginAction::Check { plugin_id })
            },
            Err(d) => (PluginState::Done, PluginAction::Fail(ReconcileError::Kube(d))),
        },
        (PluginState::Checking(mut a), PluginEvent::Checked(o)) => match o {
            CheckOutcome::Verified(v) => {
                a.artifact_sha256 = Some(v.artifact_hash.clone());
                go_on_after_signature(obj, begin, operator_ns, a, v)
            },
            CheckOutcome::Revoked { sha, reason } => {
                let report = record_revoked(
                    obj,
                    begin.generation,
                    a.manifest_digest.as_str(),
                    sha.as_str(),
                    reason.as_str(),
                );
                (PluginState::Done, PluginAction::Report(report))
            },
            CheckOutcome::Rejected(d) => distrust(obj, begin, &a, d.as_str()),
            CheckOutcome::Interrupted(d) => (
                PluginState::Done,
                PluginAction::Fail(ReconcileError::Join(d)),
            ),
        },
        (PluginState::CheckingCosign(a, v), PluginEvent::CosignChecked(r)) => match r {
            Ok(_) => go_on_after_cosign(obj, begin, operator_ns, a, v, Some(true)),
            Err(d) => {
                let detail = "cosign verification failed: ".to_owned().concat(d.as_str());
                distrust(obj, begin, &a, detail.as_str())
            },
        },
        (PluginState::FetchingProvenance(a, v, c), PluginEvent::ProvenanceFetched(r)) => {
            provenance_fetched(obj, begin, operator_ns, a, v, c, r)
        },
        (PluginState::CheckingProvenance(a, v, c), PluginEvent::ProvenanceChecked(r)) => match r {
            Ok(_) => publish(obj, begin, operator_ns, a, v, c, Some(true)),
            Err(d) => {
                let detail = "SLSA verification failed: ".to_owned().concat(d.as_str());
                distrust(obj, begin, &a, detail.as_str())
            },
        },
        (
            PluginState::Applying { secret_name: name, verified, cosign, slsa },
            PluginEvent::Applied(r),
        ) => match r {
            Ok(_) => {
                let report = record_published(
                    obj,
                    begin.generation,
                    verified.artifact_hash.as_str(),
                    verified.signature_verified,
                    cosign,
                    slsa,
                    name.as_str(),
                );
                (PluginState::Done, PluginAction::Complete(report))
            },
            Err(d) => (PluginState::Done, PluginAction::Fail(ReconcileError::Apply(d))),
        },
        (s, _) => (s, PluginAction::Nothing),
    }
}

/// Whether the states, events and actions are those of a reconcile of `p`:
/// each event leads from one state to the next. `actions[0]` is the first
/// action, and each further one answers an event.
pub open spec fn is_run(
    p: MCPGPlugin,
    b: Begin,
    ns: Seq<char>,
    states: Seq<PluginState>,
    events: Seq<PluginEvent>,
    actions: Seq<PluginAction>,
) -> bool {
    &&& states.len() == events.len() + 1
    &&& actions.len() == events.len() + 1
    &&& starts(b, states[0], actions[0])
    &&& forall|i: int|
        0 <= i < events.len() ==> step_is(
            p,
            b,
            ns,
            states[i],
            #[trigger] events[i],
            states[i + 1],
            actions[i + 1],
        )
}

/// Whether two artefacts are the same, but for what is known of their hash.
pub open spec fn same_artefact(a: PullArtefact, c: PullArtefact) -> bool {
    &&& a.manifest_digest == c.manifest_digest
    &&& a.artifact_bytes == c.artifact_bytes
    &&& a.signature_bytes == c.signature_bytes
    &&& a.descriptor_bytes == c.descriptor_bytes
}

/// Whether one of the first `n` events is this artefact, pulled.
pub open spec fn was_pulled(events: Seq<PluginEvent>, n: int, a: PullArtefact) -> bool {
    exists|i: int|
        0 <= i < n && ((#[trigger] events[i]) matches PluginEvent::Pulled(Ok(c)) && same_artefact(
            c,
            a,
        ))
}

/// Whether one of the first `n` events is the key of the plugin.
pub open spec fn key_was_loaded(events: Seq<PluginEvent>, n: int) -> bool {
    exists|i: int| 0 <= i < n && (#[trigger] events[i]) matches PluginEvent::KeyLoaded(Ok(_))
}

/// Whether one of the first `n` events is the revocation list, read.
pub open spec fn revocations_were_read(events: Seq<PluginEvent>, n: int) -> bool {
    exists|i: int|
        0 <= i < n && (#[trigger] events[i]) matches PluginEvent::RevocationsRead(Ok(_))
}

/// Whether one of the first `n` events is a passed check of signature and
/// revocation, for an artefact with this hash.
pub open spec fn was_verified(events: Seq<PluginEvent>, n: int, hash: Seq<char>) -> bool {
    exists|i: int|
        0 <= i < n && ((#[trigger] events[i]) matches PluginEvent::Checked(CheckOutcome::Verified(v))
            && v.artifact_hash@ == hash)
}

/// Whether one of the first `n` events is a passed check of the keyless
/// signature.
pub open spec fn cosign_passed(events: Seq<PluginEvent>, n: int) -> bool {
    exists|i: int| 0 <= i < n && (#[trigger] events[i]) matches PluginEvent::CosignChecked(Ok(_))
}

/// Whether one of the first `n` events is a passed check of the provenance.
pub open spec fn provenance_passed(events: Seq<PluginEvent>, n: int) -> bool {
    exists|i: int|
        0 <= i < n && (#[trigger] events[i]) matches PluginEvent::ProvenanceChecked(Ok(_))
}

/// What the first `n` events must have been when they led to state `s`.
spec fn earned(p: MCPGPlugin, events: Seq<PluginEvent>, n: int, s: PluginState) -> bool {
    let cosign_done = p.spec.trust.cosign_identity is Some ==> cosign_passed(events, n);
    match s {
        PluginState::LoadingKey(a) => was_pulled(events, n, a),
        PluginState::ReadingRevocations(a) => was_pulled(events, n, a) && key_was_loaded(events, n),
        PluginState::Checking(a) => was_pulled(events, n, a) && key_was_loaded(events, n)
            && revocations_were_read(events, n),
        PluginState::CheckingCosign(a, v) => was_pulled(events, n, a) && key_was_loaded(events, n)
            && revocations_were_read(events, n) && was_verified(events, n, v.artifact_hash@),
        PluginState::FetchingProvenance(a, v, _) => was_pulled(events, n, a) && key_was_loaded(
            events,
            n,
        ) && revocations_were_read(events, n) && was_verified(events, n, v.artifact_hash@)
            && cosign_done,
        PluginState::CheckingProvenance(a, v, _) => was_pulled(events, n, a) && key_was_loaded(
            events,
            n,
        ) && revocations_were_read(events, n) && was_verified(events, n, v.artifact_hash@)
            && cosign_done,
        _ => true,
    }
}

/// What was among the first `n - 1` events is among the first `n`.
proof fn lemma_earlier(events: Seq<PluginEvent>, n: int)
    requires
        0 < n,
    ensures
        forall|a: PullArtefact, c: PullArtefact|
            was_pulled(events, n - 1, a) && #[trigger] same_artefact(a, c) ==> was_pulled(
                events,
                n,
                c,
            ),
        key_was_loaded(events, n - 1) ==> key_was_loaded(events, n),
        revocations_were_read(events, n - 1) ==> revocations_were_read(events, n),
        forall|h: Seq<char>|
            was_verified(events, n - 1, h) ==> #[trigger] was_verified(events, n, h),
        cosign_passed(events, n - 1) ==> cosign_passed(events, n),
{
    assert forall|a: PullArtefact, c: PullArtefact|
        was_pulled(events, n - 1, a) && #[trigger] same_artefact(a, c) implies was_pulled(
        events,
        n,
        c,
    ) by {
        let i = choose|i: int|
            0 <= i < n - 1 && ((#[trigger] events[i]) matches PluginEvent::Pulled(Ok(d))
                && same_artefact(d, a));
        assert(events[i] matches PluginEvent::Pulled(Ok(d)) && same_artefact(d, c));
    }
}

proof fn lemma_earned(
    p: MCPGPlugin,
    b: Begin,
    ns: Seq<char>,
    states: Seq<PluginState>,
    events: Seq<PluginEvent>,
    actions: Seq<PluginAction>,
    n: int,
)
    requires
        is_run(p, b, ns, states, events, actions),
        0 <= n <= events.len(),
    ensures
        earned(p, events, n, states[n]),
    decreases n,
{
    if n > 0 {
        lemma_earned(p, b, ns, states, events, actions, n - 1);
        lemma_earlier(events, n);
        let e = events[n - 1];
        assert(step_is(p, b, ns, states[n - 1], e, states[n], actions[n]));
        match (states[n - 1], e) {
            (PluginState::Pulling, PluginEvent::Pulled(Ok(a))) => {
                assert(same_artefact(a, a));
                assert(was_pulled(events, n, a));
            },
            (PluginState::LoadingKey(a), PluginEvent::KeyLoaded(Ok(_))) => {
                assert(same_artefact(a, a));
                assert(key_was_loaded(events, n));
            },
            (PluginState::ReadingRevocations(a), PluginEvent::RevocationsRead(Ok(_))) => {
                assert(same_artefact(a, a));
                assert(revocations_were_read(events, n));
            },
            (PluginState::Checking(a), PluginEvent::Checked(CheckOutcome::Verified(v))) => {
                assert(same_artefact(a, with_hash(a, v.artifact_hash)));
                assert(was_verified(events, n, v.artifact_hash@));
            },
            (PluginState::CheckingCosign(a, v), PluginEvent::CosignChecked(Ok(_))) => {
                assert(same_artefact(a, a));
                assert(cosign_passed(events, n));
            },
            (PluginState::FetchingProvenance(a, v, _), _) => {
                assert(same_artefact(a, a));
            },
            _ => {},
        }
    }
}

/// Only a trusted artefact is published: when a reconcile applies a Secret,
/// the Secret holds the artefact as it was pulled; the key was loaded and the
/// revocation list read, and the check of signature and revocation passed;
/// and where the plugin asks for a keyless signature or for a provenance,
/// that check passed too.
pub proof fn law_only_trusted_artefacts_are_published(
    p: MCPGPlugin,
    b: Begin,
    ns: Seq<char>,
    states: Seq<PluginState>,
    events: Seq<PluginEvent>,
    actions: Seq<PluginAction>,
    k: int,
)
    requires
        is_run(p, b, ns, states, events, actions),
        0 <= k <= events.len(),
        actions[k] is Apply,
    ensures
        key_was_loaded(events, k),
        revocations_were_read(events, k),
        p.spec.trust.cosign_identity is Some ==> cosign_passed(events, k),
        p.spec.trust.slsa_provenance is Some ==> provenance_passed(events, k),
        exists|a: PullArtefact, v: VerifiedArtefact|
            {
                &&& was_pulled(events, k, a)
                &&& was_verified(events, k, v.artifact_hash@)
                &&& actions[k]->Apply_0@ == #[trigger] artefact_secret(
                    p,
                    ns,
                    secret_name(b.name@, v.artifact_hash@),
                    a,
                )
            },
{
    assert(k > 0);
    lemma_earned(p, b, ns, states, events, actions, k - 1);
    lemma_earlier(events, k);
    let e = events[k - 1];
    let s = states[k - 1];
    assert(step_is(p, b, ns, s, e, states[k], actions[k]));
    match (s, e) {
        (PluginState::Checking(a), PluginEvent::Checked(CheckOutcome::Verified(v))) => {
            assert(same_artefact(a, with_hash(a, v.artifact_hash)));
            assert(was_verified(events, k, v.artifact_hash@));
        },
        (PluginState::CheckingCosign(a, v), PluginEvent::CosignChecked(_)) => {
            assert(same_artefact(a, a));
            assert(cosign_passed(events, k));
        },
        (PluginState::CheckingProvenance(a, v, _), PluginEvent::ProvenanceChecked(_)) => {
            assert(same_artefact(a, a));
            assert(provenance_passed(events, k));
        },
        _ => {},
    }
}

/// The keyless signature is that of the plugin's own image, never of a
/// mirror's, and is checked at the digest of the artefact that was pulled,
/// from wherever it was pulled.
pub proof fn law_signature_is_bound_to_the_pull(
    p: MCPGPlugin,
    b: Begin,
    ns: Seq<char>,
    states: Seq<PluginState>,
    events: Seq<PluginEvent>,
    actions: Seq<PluginAction>,
    k: int,
)
    requires
        is_run(p, b, ns, states, events, actions),
        0 <= k <= events.len(),
        actions[k] is CheckCosign,
    ensures
        same_image(actions[k]->image, p.spec.oci),
        exists|a: PullArtefact| #[trigger]
            was_pulled(events, k, a) && actions[k]->digest@ == a.manifest_digest@,
{
    assert(k > 0);
    lemma_earned(p, b, ns, states, events, actions, k);
    assert(step_is(p, b, ns, states[k - 1], events[k - 1], states[k], actions[k]));
}

/// A deleted plugin is not pulled: its reconcile takes the finalizer off and
/// ends.
pub proof fn law_deleted_plugin_is_not_pulled(
    p: MCPGPlugin,
    b: Begin,
    ns: Seq<char>,
    states: Seq<PluginState>,
    events: Seq<PluginEvent>,
    actions: Seq<PluginAction>,
    k: int,
)
    requires
        is_run(p, b, ns, states, events, actions),
        0 <= k <= events.len(),
        b.deleting,
    ensures
        states[k] is RemovingFinalizer || states[k] is Done,
        actions[k] is RemoveFinalizer || actions[k] is Stop || actions[k] is Fail
            || actions[k] is Nothing,
    decreases k,
{
    if k > 0 {
        law_deleted_plugin_is_not_pulled(p, b, ns, states, events, actions, k - 1);
        assert(step_is(p, b, ns, states[k - 1], events[k - 1], states[k], actions[k]));
    }
}

/// A plugin that names a mirror is pulled from that mirror or not at all: no
/// step of its reconcile pulls an image that the mirror did not name.
pub proof fn law_mirror_never_bypassed(
    p: MCPGPlugin,
    b: Begin,
    ns: Seq<char>,
    s: PluginState,
    e: PluginEvent,
    n: PluginState,
    x: PluginAction,
)
    requires
        p.spec.oci.mirror_ref is Some,
        step_is(p, b, ns, s, e, n, x),
        x is Pull,
    ensures
        e matches PluginEvent::Mirror(MirrorLookup::Found(m, MirrorRewrite::Rewritten(image)))
            && x->Pull_0.image@ == image@,
{
}

/// A reconcile that ended stays ended.
pub proof fn law_done_is_final(
    p: MCPGPlugin,
    b: Begin,
    ns: Seq<char>,
    e: PluginEvent,
    n: PluginState,
    x: PluginAction,
)
    requires
        step_is(p, b, ns, PluginState::Done, e, n, x),
    ensures
        n is Done,
        x is Nothing,
{
}

} // verus!
