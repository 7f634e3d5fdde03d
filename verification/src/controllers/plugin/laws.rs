//! What holds of a plugin's reconcile, whatever happens in it.
use vstd::prelude::*;

use crate::api::conditions::{
    law_told_is_first, lemma_upserts_are_told, tells, told, EventType,
};
use crate::api::resources::{ref_name, MCPGPlugin};
use crate::controllers::plugin::flow::{
    is_run, step_is, CheckOutcome, PluginAction, PluginEvent, PluginState,
};
use crate::controllers::plugin::report::{
    mirror_failure, pull_failure, pulling_status, revoked, verify_failure,
    PluginReportView, PluginStatus,
};
use crate::controllers::plugin::secret::secret_name;
use crate::controllers::plugin::target::{MirrorLookup, MirrorRewrite};
use crate::oci_pull::PullArtefact;
use crate::reconcile::flow::{Begin, ReconcileError, Requeue};
use crate::telemetry::ReconcileOutcome;
use crate::text::{ends_with, occurs, texts};
use crate::text_laws::law_parts_are_found;

verus! {

/// The checks of an artefact are those that the plugin declares: whenever a
/// reconcile asks for a key, it is the declared data key of the declared
/// Secret; for a check of the artefact, the plugin's own id; for a keyless
/// signature, the declared identity on the plugin's own image; for a
/// provenance, the declared ConfigMap and source; for revocations, the list of
/// the whole cluster.
pub proof fn law_checks_are_as_declared(
    p: MCPGPlugin,
    b: Begin,
    ns: Seq<char>,
    states: Seq<PluginState>,
    events: Seq<PluginEvent>,
    actions: Seq<PluginAction>,
    k: int,
)
    requires
        is_run(p, b, ns, states, events, actions),
        0 <= k <= events.len(),
    ensures
        actions[k] matches PluginAction::LoadKey { key } ==> key.secret_name@
            == p.spec.trust.signing_key_ref.secret_name@ && key.key@
            == p.spec.trust.signing_key_ref.key@,
        actions[k] matches PluginAction::ReadRevocations { list } ==> list@ == "cluster-default"@,
        actions[k] matches PluginAction::Check { plugin_id } ==> plugin_id@ == p.spec.plugin_id@,
        actions[k] matches PluginAction::CheckCosign { image, identity, digest } ==> {
            &&& p.spec.trust.cosign_identity matches Some(wanted)
            &&& identity.certificate_identity_regexp@ == wanted.certificate_identity_regexp@
            &&& identity.oidc_issuer@ == wanted.oidc_issuer@
            &&& image.image@ == p.spec.oci.image@
            &&& ref_name(image.pull_secret_ref) == ref_name(p.spec.oci.pull_secret_ref)
        },
        actions[k] matches PluginAction::FetchProvenance { config_map } ==> {
            &&& p.spec.trust.slsa_provenance matches Some(wanted)
            &&& config_map@ == wanted.config_map_name@
        },
        actions[k] matches PluginAction::CheckProvenance {
            jsonl,
            artifact_hash,
            source_uri,
            source_tag,
        } ==> {
            &&& p.spec.trust.slsa_provenance matches Some(wanted)
            &&& source_uri@ == wanted.source_uri@
            &&& source_tag@ == wanted.source_tag@
            &&& k > 0
            &&& events[k - 1] matches PluginEvent::ProvenanceFetched(Ok(cm))
            &&& cm.data@.dom().contains("provenance.intoto.jsonl"@)
            &&& jsonl@ == cm.data@["provenance.intoto.jsonl"@]
        },
        actions[k] matches PluginAction::LookUpMirror(name) ==> {
            &&& p.spec.oci.mirror_ref matches Some(m)
            &&& name@ == m.name@
        },
{
    lemma_flags(p, b, ns, states, events, actions, k);
    if k > 0 {
        lemma_flags(p, b, ns, states, events, actions, k - 1);
        assert(step_is(p, b, ns, states[k - 1], events[k - 1], states[k], actions[k]));
    }
}

/// What a state says of the further checks: only those that the plugin
/// declares were made, and each that was made passed.
spec fn flags(p: MCPGPlugin, s: PluginState) -> bool {
    let cosign = p.spec.trust.cosign_identity;
    let slsa = p.spec.trust.slsa_provenance;
    match s {
        PluginState::CheckingCosign(_, _) => cosign is Some,
        PluginState::FetchingProvenance(_, _, c) => slsa is Some && c == (if cosign is Some {
            Some(true)
        } else {
            None
        }),
        PluginState::CheckingProvenance(_, _, c) => slsa is Some && c == (if cosign is Some {
            Some(true)
        } else {
            None
        }),
        PluginState::Applying { cosign: c, slsa: s, .. } => c == (if cosign is Some {
            Some(true)
        } else {
            None
        }) && s == (if slsa is Some {
            Some(true)
        } else {
            None
        }),
        _ => true,
    }
}

proof fn lemma_flags(
    p: MCPGPlugin,
    b: Begin,
    ns: Seq<char>,
    states: Seq<PluginState>,
    events: Seq<PluginEvent>,
    actions: Seq<PluginAction>,
    k: int,
)
    requires
        is_run(p, b, ns, states, events, actions),
        0 <= k <= events.len(),
    ensures
        flags(p, states[k]),
    decreases k,
{
    if k > 0 {
        lemma_flags(p, b, ns, states, events, actions, k - 1);
        assert(step_is(p, b, ns, states[k - 1], events[k - 1], states[k], actions[k]));
    }
}

/// Whether an event is the success that a state waits for.
pub open spec fn succeeds(p: MCPGPlugin, s: PluginState, e: PluginEvent) -> bool {
    match (s, e) {
        (PluginState::AddingFinalizer, PluginEvent::FinalizerAdded(Ok(_))) => true,
        (PluginState::Announcing, PluginEvent::Announced) => true,
        (
            PluginState::ResolvingMirror,
            PluginEvent::Mirror(MirrorLookup::Found(_, MirrorRewrite::Rewritten(_))),
        ) => true,
        (PluginState::Pulling, PluginEvent::Pulled(Ok(_))) => true,
        (PluginState::LoadingKey(_), PluginEvent::KeyLoaded(Ok(_))) => true,
        (PluginState::ReadingRevocations(_), PluginEvent::RevocationsRead(Ok(_))) => true,
        (PluginState::Checking(_), PluginEvent::Checked(CheckOutcome::Verified(_))) => true,
        (PluginState::CheckingCosign(_, _), PluginEvent::CosignChecked(Ok(_))) => true,
        (
            PluginState::FetchingProvenance(_, _, _),
            PluginEvent::ProvenanceFetched(Ok(cm)),
        ) => cm.data@.dom().contains("provenance.intoto.jsonl"@),
        (PluginState::CheckingProvenance(_, _, _), PluginEvent::ProvenanceChecked(Ok(_))) => true,
        _ => false,
    }
}

/// How far a reconcile has come.
pub open spec fn progress(s: PluginState) -> nat {
    match s {
        PluginState::AddingFinalizer => 1,
        PluginState::Announcing => 2,
        PluginState::ResolvingMirror => 3,
        PluginState::Pulling => 4,
        PluginState::LoadingKey(_) => 5,
        PluginState::ReadingRevocations(_) => 6,
        PluginState::Checking(_) => 7,
        PluginState::CheckingCosign(_, _) => 8,
        PluginState::FetchingProvenance(_, _, _) => 9,
        PluginState::CheckingProvenance(_, _, _) => 10,
        PluginState::Applying { .. } => 11,
        _ => 0,
    }
}

/// A trusted plugin gets published: every success brings its reconcile
/// further, towards the Secret, and none ends it. Once the Secret is applied
/// the reconcile is complete.
pub proof fn law_success_leads_to_publication(
    p: MCPGPlugin,
    b: Begin,
    ns: Seq<char>,
    s: PluginState,
    e: PluginEvent,
    n: PluginState,
    x: PluginAction,
)
    requires
        step_is(p, b, ns, s, e, n, x),
    ensures
        succeeds(p, s, e) ==> {
            &&& progress(n) > progress(s)
            &&& !(x is Report || x is Complete || x is Stop || x is Fail || x is Nothing)
            &&& n is Applying <==> x is Apply
            &&& n is Pulling <==> x is Pull
        },
        s is Applying && (e matches PluginEvent::Applied(Ok(_))) ==> n is Done && x is Complete,
        x is Complete ==> s is Applying && (e matches PluginEvent::Applied(Ok(_))),
{
}

/// What is published is what was pulled: the Secret stands in the operator's
/// namespace, cannot be changed, and holds the artefact, its descriptor and
/// its signature, where it has one, byte for byte and nothing else. It is
/// labelled with the plugin's version, and the state remembers its name.
pub proof fn law_secret_holds_the_artefact(
    p: MCPGPlugin,
    b: Begin,
    ns: Seq<char>,
    s: PluginState,
    e: PluginEvent,
    n: PluginState,
    x: PluginAction,
)
    requires
        step_is(p, b, ns, s, e, n, x),
        x is Apply,
    ensures
        exists|a: PullArtefact|
            {
                &&& #[trigger] carries(s, a)
                &&& x->Apply_0@.data matches Some(data)
                &&& data.dom().contains("plugin.so"@) && data["plugin.so"@] == a.artifact_bytes@
                &&& data.dom().contains("plugin.yaml"@) && data["plugin.yaml"@]
                    == a.descriptor_bytes@
                &&& data.dom().contains("plugin.sig"@) == (a.signature_bytes is Some)
                &&& a.signature_bytes matches Some(sig) ==> data["plugin.sig"@] == sig@
                &&& forall|k: Seq<char>| #[trigger]
                    data.dom().contains(k) ==> k == "plugin.so"@ || k == "plugin.yaml"@ || k
                        == "plugin.sig"@
            },
        x->Apply_0@.metadata.namespace == Some(ns),
        x->Apply_0@.immutable == Some(true),
        x->Apply_0@.metadata.labels matches Some(labels) && labels.dom().contains(
            "mcpg.dev/version"@,
        ) && labels["mcpg.dev/version"@] == p.spec.version@ && labels.dom().contains(
            "app.kubernetes.io/managed-by"@,
        ) && labels["app.kubernetes.io/managed-by"@] == "mcpg-operator"@,
        n matches PluginState::Applying { secret_name: name, .. } && x->Apply_0@.metadata.name
            == Some(name@),
{
    lemma_data_keys();
    lemma_label_keys();
    let a = match s {
        PluginState::Checking(a) => a,
        PluginState::CheckingCosign(a, _) => a,
        PluginState::FetchingProvenance(a, _, _) => a,
        PluginState::CheckingProvenance(a, _, _) => a,
        _ => arbitrary(),
    };
    assert(carries(s, a));
}

/// Whether a state carries an artefact.
pub open spec fn carries(s: PluginState, a: PullArtefact) -> bool {
    match s {
        PluginState::LoadingKey(c) => c == a,
        PluginState::ReadingRevocations(c) => c == a,
        PluginState::Checking(c) => c == a,
        PluginState::CheckingCosign(c, _) => c == a,
        PluginState::FetchingProvenance(c, _, _) => c == a,
        PluginState::CheckingProvenance(c, _, _) => c == a,
        _ => false,
    }
}

proof fn lemma_data_keys()
    ensures
        "plugin.so"@ != "plugin.yaml"@,
        "plugin.so"@ != "plugin.sig"@,
        "plugin.yaml"@ != "plugin.sig"@,
{
    reveal_strlit("plugin.so");
    reveal_strlit("plugin.yaml");
    reveal_strlit("plugin.sig");
    assert("plugin.so"@.len() == 9);
    assert("plugin.yaml"@.len() == 11);
    assert("plugin.sig"@.len() == 10);
}

proof fn lemma_label_keys()
    ensures
        "mcpg.dev/version"@ != "app.kubernetes.io/managed-by"@,
        "mcpg.dev/version"@ != "mcpg.dev/plugin"@,
        "mcpg.dev/version"@ != "mcpg.dev/digest-prefix"@,
        "mcpg.dev/version"@ != "mcpg.dev/manifest-digest"@,
        "app.kubernetes.io/managed-by"@ != "mcpg.dev/plugin"@,
        "app.kubernetes.io/managed-by"@ != "mcpg.dev/digest-prefix"@,
        "app.kubernetes.io/managed-by"@ != "mcpg.dev/manifest-digest"@,
        "mcpg.dev/plugin"@ != "mcpg.dev/digest-prefix"@,
        "mcpg.dev/plugin"@ != "mcpg.dev/manifest-digest"@,
        "mcpg.dev/digest-prefix"@ != "mcpg.dev/manifest-digest"@,
{
    reveal_strlit("mcpg.dev/version");
    reveal_strlit("app.kubernetes.io/managed-by");
    reveal_strlit("mcpg.dev/plugin");
    reveal_strlit("mcpg.dev/digest-prefix");
    reveal_strlit("mcpg.dev/manifest-digest");
    assert("mcpg.dev/version"@.len() == 16);
    assert("app.kubernetes.io/managed-by"@.len() == 28);
    assert("mcpg.dev/plugin"@.len() == 15);
    assert("mcpg.dev/digest-prefix"@.len() == 22);
    assert("mcpg.dev/manifest-digest"@.len() == 24);
}

proof fn lemma_types()
    ensures
        "Pulled"@ != "Verified"@,
        "Pulled"@ != "Revoked"@,
        "Pulled"@ != "Ready"@,
        "Pulled"@ != "Progressing"@,
        "Verified"@ != "Revoked"@,
        "Verified"@ != "Ready"@,
        "Verified"@ != "Progressing"@,
        "Revoked"@ != "Ready"@,
        "Revoked"@ != "Progressing"@,
        "Ready"@ != "Progressing"@,
        "True"@ != "False"@,
{
    reveal_strlit("Pulled");
    reveal_strlit("Verified");
    reveal_strlit("Revoked");
    reveal_strlit("Ready");
    reveal_strlit("Progressing");
    reveal_strlit("True");
    reveal_strlit("False");
    assert("Pulled"@.len() == 6);
    assert("Verified"@.len() == 8);
    assert("Revoked"@.len() == 7);
    assert("Ready"@.len() == 5);
    assert("Progressing"@.len() == 11);
    assert("True"@.len() == 4);
    assert("False"@.len() == 5);
}

/// Whether a report tells that the plugin is not ready, for this reason and
/// with this message.
pub open spec fn tells_not_ready(
    r: PluginReportView,
    generation: i64,
    reason: Seq<char>,
    message: Seq<char>,
) -> bool {
    &&& tells(r.status.conditions, "Ready"@, "False"@, reason, Some(generation))
    &&& told(r.status.conditions, "Ready"@)->0.message == message
    &&& r.status.observed_generation == Some(generation)
    &&& r.status.artefact_secret_name is None
    &&& r.event matches Some(e) && e.type_ == EventType::Warning
}

/// Whether a report says nothing of what was pulled: neither which artefact it
/// was nor how any check of it ended.
pub open spec fn knows_nothing(r: PluginReportView) -> bool {
    &&& r.status.resolved_digest is None
    &&& r.status.signature_valid is None
    &&& r.status.cosign_verified is None
    &&& r.status.slsa_verified is None
    &&& r.status.revoked_by_sha is None
}

/// A plugin that could not be pulled, verified or trusted is reported as not
/// ready, names no Secret, and carries the cause; what did pass is reported as
/// passed. Whoever uses plugins by their status can therefore not use it.
pub proof fn law_failures_are_reported(
    p: MCPGPlugin,
    generation: i64,
    digest: Seq<char>,
    sha: Seq<char>,
    detail: Seq<char>,
)
    ensures
        ({
            let r = mirror_failure(p, generation, detail);
            &&& r.event->0.action == "Pull"@
            &&& r.event->0.reason == "MirrorUnresolved"@
            &&& tells_not_ready(r, generation, "MirrorUnresolved"@, detail)
            &&& tells(r.status.conditions, "Pulled"@, "False"@, "MirrorUnresolved"@, Some(generation))
            &&& knows_nothing(r)
            &&& r.verdict.outcome == ReconcileOutcome::DependencyPending
            &&& r.verdict.requeue == Requeue::AfterSecs(60)
        }),
        ({
            let r = pull_failure(p, generation, detail);
            &&& r.event->0.action == "Pull"@
            &&& r.event->0.reason == "PullFailed"@
            &&& occurs(r.event->0.note, p.spec.oci.image@)
            &&& ends_with(r.event->0.note, detail)
            &&& tells_not_ready(r, generation, "PullFailed"@, detail)
            &&& tells(r.status.conditions, "Pulled"@, "False"@, "PullFailed"@, Some(generation))
            &&& knows_nothing(r)
            &&& r.verdict.outcome == ReconcileOutcome::TransientError
            &&& r.verdict.requeue == Requeue::AfterSecs(60)
        }),
        ({
            let r = verify_failure(p, generation, digest, detail);
            &&& r.event->0.action == "Verify"@
            &&& r.event->0.reason == "TrustGateFailed"@
            &&& occurs(r.event->0.note, p.spec.oci.image@)
            &&& ends_with(r.event->0.note, detail)
            &&& tells_not_ready(r, generation, "VerificationFailed"@, detail)
            &&& tells(r.status.conditions, "Pulled"@, "True"@, "Reconciled"@, Some(generation))
            &&& tells(r.status.conditions, "Verified"@, "False"@, "SignatureFailed"@, Some(generation))
            &&& r.status.signature_valid == Some(false)
            &&& r.status.resolved_digest == Some(digest)
            &&& r.verdict.outcome == ReconcileOutcome::PermanentError
            &&& r.verdict.requeue == Requeue::AfterSecs(600)
        }),
        ({
            let r = revoked(p, generation, digest, sha, detail);
            &&& r.event->0.action == "Revoke"@
            &&& r.event->0.reason == "ArtefactRevoked"@
            &&& tells_not_ready(
                r,
                generation,
                "ArtefactRevoked"@,
                "plugin sha256:"@ + sha + " is revoked: "@ + detail,
            )
            &&& tells(r.status.conditions, "Pulled"@, "True"@, "Reconciled"@, Some(generation))
            &&& tells(r.status.conditions, "Verified"@, "True"@, "Reconciled"@, Some(generation))
            &&& tells(r.status.conditions, "Revoked"@, "True"@, "ArtefactRevoked"@, Some(generation))
            &&& r.status.signature_valid == Some(true)
            &&& r.status.revoked_by_sha == Some(true)
            &&& r.status.resolved_digest == Some(
                if sha.len() > 0 {
                    sha
                } else {
                    digest
                },
            )
            &&& r.verdict.outcome == ReconcileOutcome::Success
            &&& r.verdict.requeue == Requeue::AfterSecs(600)
        }),
        tells(
            pulling_status(p, generation).conditions,
            "Progressing"@,
            "True"@,
            "PullingArtefact"@,
            Some(generation),
        ),
{
    lemma_types();
    lemma_upserts_are_told();
    let image = p.spec.oci.image@;
    law_parts_are_found("OCI pull for "@, image, " failed: "@ + detail);
    law_parts_are_found("OCI pull for "@ + image + " failed: "@, detail, Seq::empty());
    assert("OCI pull for "@ + image + (" failed: "@ + detail) =~= "OCI pull for "@ + image
        + " failed: "@ + detail);
    law_parts_are_found("verification failed for "@, image, ": "@ + detail);
    law_parts_are_found("verification failed for "@ + image + ": "@, detail, Seq::empty());
    assert("verification failed for "@ + image + (": "@ + detail) =~= "verification failed for "@
        + image + ": "@ + detail);
}

/// A published plugin is reported as pulled, verified, not revoked and ready,
/// with the hash that was verified and the Secret that holds it; of the
/// further checks it reports those that it declares, as passed.
pub proof fn law_publication_is_reported(
    p: MCPGPlugin,
    b: Begin,
    ns: Seq<char>,
    states: Seq<PluginState>,
    events: Seq<PluginEvent>,
    actions: Seq<PluginAction>,
    k: int,
)
    requires
        is_run(p, b, ns, states, events, actions),
        0 < k <= events.len(),
        actions[k] is Complete,
    ensures
        ({
            let r = actions[k]->Complete_0@;
            &&& tells(r.status.conditions, "Pulled"@, "True"@, "Reconciled"@, Some(b.generation))
            &&& tells(r.status.conditions, "Verified"@, "True"@, "Reconciled"@, Some(b.generation))
            &&& tells(r.status.conditions, "Revoked"@, "False"@, "Reconciled"@, Some(b.generation))
            &&& tells(r.status.conditions, "Ready"@, "True"@, "Reconciled"@, Some(b.generation))
            &&& r.status.observed_generation == Some(b.generation)
            &&& r.status.revoked_by_sha == Some(false)
            &&& r.status.cosign_verified == (if p.spec.trust.cosign_identity is Some {
                Some(true)
            } else {
                None
            })
            &&& r.status.slsa_verified == (if p.spec.trust.slsa_provenance is Some {
                Some(true)
            } else {
                None
            })
            &&& states[k - 1] matches PluginState::Applying { secret_name: name, verified, .. }
            &&& r.status.artefact_secret_name == Some(name@)
            &&& r.status.resolved_digest == Some(verified.artifact_hash@)
            &&& r.status.signature_valid == Some(verified.signature_verified)
            &&& r.event matches Some(e) && e.type_ == EventType::Normal
            &&& r.verdict.outcome == ReconcileOutcome::Success
            &&& r.verdict.requeue == Requeue::AfterSecs(600)
        }),
{
    lemma_types();
    lemma_flags(p, b, ns, states, events, actions, k - 1);
    assert(step_is(p, b, ns, states[k - 1], events[k - 1], states[k], actions[k]));
    let c = actions[k]->Complete_0@.status.conditions;
    law_told_is_first(c, "Pulled"@, 0);
    law_told_is_first(c, "Verified"@, 1);
    law_told_is_first(c, "Revoked"@, 2);
    law_told_is_first(c, "Ready"@, 3);
}

/// Whether an action ends a reconcile with a report that the plugin is not
/// ready, with this message.
pub open spec fn reports_not_ready(x: PluginAction, generation: i64, message: Seq<char>) -> bool {
    &&& x matches PluginAction::Report(r)
    &&& told(r@.status.conditions, "Ready"@) matches Some(c)
    &&& c.status == "False"@
    &&& c.message == message
    &&& c.observed_generation == Some(generation)
    &&& r@.status.artefact_secret_name is None
}

/// Nothing untrusted is published: each failure of a check ends the reconcile
/// with a report that the plugin is not ready, with the cause as its message.
/// A revoked artefact is reported as revoked, any other one that failed a check
/// as not validly signed, with the digest of what was pulled. A failed request
/// is an error, so that the reconcile is tried again.
pub proof fn law_distrust_is_reported(
    p: MCPGPlugin,
    b: Begin,
    ns: Seq<char>,
    s: PluginState,
    e: PluginEvent,
    n: PluginState,
    x: PluginAction,
)
    requires
        step_is(p, b, ns, s, e, n, x),
    ensures
        x is Report ==> n is Done && told(x->Report_0@.status.conditions, "Ready"@)->0.status
            == "False"@ && x->Report_0@.status.artefact_secret_name is None,
        match (s, e) {
            (PluginState::Pulling, PluginEvent::Pulled(Err(err))) => reports_not_ready(
                x,
                b.generation,
                crate::oci_pull::pull_error_text(err),
            ) && told(x->Report_0@.status.conditions, "Pulled"@)->0.status == "False"@,
            (PluginState::LoadingKey(a), PluginEvent::KeyLoaded(Err(d))) => reports_not_ready(
                x,
                b.generation,
                d@,
            ) && unsigned(x, a),
            (PluginState::Checking(a), PluginEvent::Checked(CheckOutcome::Rejected(d))) => {
                reports_not_ready(x, b.generation, d@) && unsigned(x, a)
            },
            (
                PluginState::Checking(a),
                PluginEvent::Checked(CheckOutcome::Revoked { sha, reason }),
            ) => {
                &&& reports_not_ready(
                    x,
                    b.generation,
                    "plugin sha256:"@ + sha@ + " is revoked: "@ + reason@,
                )
                &&& told(x->Report_0@.status.conditions, "Revoked"@)->0.status == "True"@
                &&& x->Report_0@.status.revoked_by_sha == Some(true)
                &&& x->Report_0@.status.resolved_digest == Some(
                    if sha@.len() > 0 {
                        sha@
                    } else {
                        a.manifest_digest@
                    },
                )
            },
            (PluginState::CheckingCosign(a, _), PluginEvent::CosignChecked(Err(d))) => {
                reports_not_ready(x, b.generation, "cosign verification failed: "@ + d@)
                    && unsigned(x, a)
            },
            (PluginState::FetchingProvenance(a, _, _), PluginEvent::ProvenanceFetched(Err(_))) => {
                x is Report && unsigned(x, a)
            },
            (PluginState::FetchingProvenance(a, _, _), PluginEvent::ProvenanceFetched(Ok(cm))) => {
                !cm.data@.dom().contains("provenance.intoto.jsonl"@) ==> x is Report && unsigned(
                    x,
                    a,
                )
            },
            (PluginState::CheckingProvenance(a, _, _), PluginEvent::ProvenanceChecked(Err(d))) => {
                reports_not_ready(x, b.generation, "SLSA verification failed: "@ + d@)
                    && unsigned(x, a)
            },
            (PluginState::RemovingFinalizer, PluginEvent::FinalizerRemoved(Err(d))) => x
                == PluginAction::Fail(ReconcileError::Finalizer(d)),
            (PluginState::AddingFinalizer, PluginEvent::FinalizerAdded(Err(d))) => x
                == PluginAction::Fail(ReconcileError::Finalizer(d)),
            (PluginState::ReadingRevocations(_), PluginEvent::RevocationsRead(Err(d))) => x
                == PluginAction::Fail(ReconcileError::Kube(d)),
            (PluginState::Checking(_), PluginEvent::Checked(CheckOutcome::Interrupted(d))) => x
                == PluginAction::Fail(ReconcileError::Join(d)),
            (PluginState::Applying { .. }, PluginEvent::Applied(Err(d))) => x
                == PluginAction::Fail(ReconcileError::Apply(d)),
            _ => true,
        },
{
    lemma_types();
    lemma_upserts_are_told();
}

/// Whether a report says that an artefact is not validly signed.
pub open spec fn unsigned(x: PluginAction, a: PullArtefact) -> bool {
    &&& x matches PluginAction::Report(r)
    &&& r@.status.signature_valid == Some(false)
    &&& r@.status.resolved_digest == Some(a.manifest_digest@)
    &&& told(r@.status.conditions, "Verified"@) matches Some(c) && c.status == "False"@
}

/// Whether an action pulls this image, with the credentials of this Secret,
/// speaking without TLS to these registries only.
pub open spec fn pulls(
    x: PluginAction,
    image: Seq<char>,
    secret: Option<Seq<char>>,
    insecure: Seq<Seq<char>>,
) -> bool {
    x matches PluginAction::Pull(o, options) && o.image@ == image && ref_name(o.pull_secret_ref)
        == secret && texts(options.insecure_registries@) == insecure && options.timeout_secs
        == 300
}

/// A plugin without a mirror is pulled as it declares, and over TLS alone. One
/// with a mirror is pulled from the mirror alone, with the mirror's own
/// credentials, and without TLS exactly where the mirror says so; where the
/// mirror is missing or does not hold the image, the plugin is reported as not
/// ready; where it could not be looked up, that is tried again.
pub proof fn law_plugin_is_pulled_from_where_it_says(
    p: MCPGPlugin,
    b: Begin,
    ns: Seq<char>,
    s: PluginState,
    e: PluginEvent,
    n: PluginState,
    x: PluginAction,
)
    requires
        step_is(p, b, ns, s, e, n, x),
    ensures
        s is Announcing && e is Announced && p.spec.oci.mirror_ref is None ==> pulls(
            x,
            p.spec.oci.image@,
            ref_name(p.spec.oci.pull_secret_ref),
            Seq::empty(),
        ),
        s is Announcing && e is Announced ==> (p.spec.oci.mirror_ref matches Some(m) ==> x
            matches PluginAction::LookUpMirror(name) && name@ == m.name@),
        s is ResolvingMirror && p.spec.oci.mirror_ref is Some ==> match e {
            PluginEvent::Mirror(MirrorLookup::Found(m, MirrorRewrite::Rewritten(image))) => pulls(
                x,
                image@,
                match m.spec.auth {
                    Some(a) => Some(a.secret_name@),
                    None => None,
                },
                if m.spec.endpoint.insecure {
                    seq![m.spec.endpoint.service.host@]
                } else {
                    Seq::empty()
                },
            ),
            PluginEvent::Mirror(MirrorLookup::Failed) => x matches PluginAction::Stop(v) && v.outcome
                == ReconcileOutcome::TransientError && v.requeue == Requeue::AfterSecs(30),
            PluginEvent::Mirror(_) => x matches PluginAction::Report(r) && told(
                r@.status.conditions,
                "Ready"@,
            )->0.status == "False"@ && told(r@.status.conditions, "Pulled"@)->0.status == "False"@,
            _ => x is Nothing,
        },
{
    lemma_types();
    lemma_upserts_are_told();
    if x is Pull {
        if x->Pull_1.insecure_registries@.len() == 0 {
            assert(texts(x->Pull_1.insecure_registries@) =~= Seq::empty());
        }
    }
}

/// Different versions of a plugin are kept under different names: the names
/// differ wherever the beginnings of the hashes do.
pub proof fn law_versions_have_their_own_secrets(plugin: Seq<char>, a: Seq<char>, b: Seq<char>)
    requires
        a.len() >= 8,
        b.len() >= 8,
        a.take(8) != b.take(8),
    ensures
        secret_name(plugin, a) != secret_name(plugin, b),
        crate::text::starts_with(secret_name(plugin, a), "mcpg-plugin-"@),
        crate::text::ends_with(secret_name(plugin, a), "-"@ + a.take(8)),
{
    let x = secret_name(plugin, a);
    let y = secret_name(plugin, b);
    reveal_strlit("mcpg-plugin-");
    reveal_strlit("-");
    assert(crate::text::first(a, 8) =~= a.take(8));
    assert(crate::text::first(b, 8) =~= b.take(8));
    assert(x.skip(x.len() - 8) =~= a.take(8));
    assert(y.skip(y.len() - 8) =~= b.take(8));
    assert(x.skip(x.len() - 9) =~= "-"@ + a.take(8));
    assert(x.take(12) =~= "mcpg-plugin-"@);
}

/// A short name of a plugin is part of the name of its Secret as it is, so
/// different plugins never share a Secret of the same version.
pub proof fn law_plugins_have_their_own_secrets(a: Seq<char>, b: Seq<char>, sha: Seq<char>)
    requires
        a != b,
        vstd::utf8::encode_utf8(a).len() <= 50,
        vstd::utf8::encode_utf8(b).len() <= 50,
    ensures
        secret_name(a, sha) != secret_name(b, sha),
{
    let x = secret_name(a, sha);
    let y = secret_name(b, sha);
    reveal_strlit("mcpg-plugin-");
    let rest = "-"@ + crate::controllers::plugin::secret::digest_prefix(sha);
    assert(x =~= "mcpg-plugin-"@ + a + rest);
    assert(y =~= "mcpg-plugin-"@ + b + rest);
    if x == y {
        assert(a.len() == b.len());
        assert(a =~= x.subrange(12, 12 + a.len() as int));
        assert(b =~= y.subrange(12, 12 + b.len() as int));
    }
}

/// Before anything is pulled it is announced that the plugin is being pulled.
pub proof fn law_pull_is_announced(
    p: MCPGPlugin,
    b: Begin,
    ns: Seq<char>,
    n: PluginState,
    x: PluginAction,
)
    requires
        step_is(
            p,
            b,
            ns,
            PluginState::AddingFinalizer,
            PluginEvent::FinalizerAdded(Ok(())),
            n,
            x,
        ),
    ensures
        n is Announcing,
        x matches PluginAction::Announce(status) && tells(
            status@.conditions,
            "Progressing"@,
            "True"@,
            "PullingArtefact"@,
            Some(b.generation),
        ) && status@.observed_generation == Some(b.generation),
{
    lemma_types();
    lemma_upserts_are_told();
}

/// Two statuses that say the same hold the same.
pub proof fn law_status_hides_nothing(a: PluginStatus, b: PluginStatus)
    requires
        a@ == b@,
    ensures
        a.observed_generation == b.observed_generation,
        a.signature_valid == b.signature_valid,
        a.cosign_verified == b.cosign_verified,
        a.slsa_verified == b.slsa_verified,
        a.revoked_by_sha == b.revoked_by_sha,
        crate::text::opt_text(a.resolved_digest) == crate::text::opt_text(b.resolved_digest),
        crate::text::opt_text(a.artefact_secret_name) == crate::text::opt_text(
            b.artefact_secret_name,
        ),
        crate::api::conditions::conditions_view(a.conditions@)
            == crate::api::conditions::conditions_view(b.conditions@),
{
    assert(a@.observed_generation == a.observed_generation);
    assert(b@.observed_generation == b.observed_generation);
}

} // verus!
