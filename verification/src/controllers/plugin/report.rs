//! What a plugin reports after each way a reconcile can end.
use vstd::prelude::*;

use crate::api::conditions::{
    cond, conditions_view, event, opt_event, set_condition, upsert, Condition, ConditionView,
    Event, EventType, EventView,
};
use crate::api::resources::MCPGPlugin;
use crate::reconcile::flow::{Requeue, Verdict};
use crate::telemetry::ReconcileOutcome;
use crate::text::{first, first_chars, opt_text};

verus! {

/// The status of a plugin.
#[derive(Debug)]
pub struct PluginStatus {
    pub conditions: Vec<Condition>,
    pub observed_generation: Option<i64>,
    pub resolved_digest: Option<String>,
    pub signature_valid: Option<bool>,
    pub cosign_verified: Option<bool>,
    pub slsa_verified: Option<bool>,
    pub revoked_by_sha: Option<bool>,
    pub artefact_secret_name: Option<String>,
}

/// What the status of a plugin says.
#[verifier::ext_equal]
pub struct PluginStatusView {
    pub conditions: Seq<ConditionView>,
    pub observed_generation: Option<i64>,
    pub resolved_digest: Option<Seq<char>>,
    pub signature_valid: Option<bool>,
    pub cosign_verified: Option<bool>,
    pub slsa_verified: Option<bool>,
    pub revoked_by_sha: Option<bool>,
    pub artefact_secret_name: Option<Seq<char>>,
}

impl View for PluginStatus {
    type V = PluginStatusView;

    open spec fn view(&self) -> PluginStatusView {
        PluginStatusView {
            conditions: conditions_view(self.conditions@),
            observed_generation: self.observed_generation,
            resolved_digest: opt_text(self.resolved_digest),
            signature_valid: self.signature_valid,
            cosign_verified: self.cosign_verified,
            slsa_verified: self.slsa_verified,
            revoked_by_sha: self.revoked_by_sha,
            artefact_secret_name: opt_text(self.artefact_secret_name),
        }
    }
}

/// Everything that follows a reconcile of a plugin: the status to patch,
/// the event to publish, and the verdict.
#[derive(Debug)]
pub struct PluginReport {
    pub status: PluginStatus,
    pub event: Option<Event>,
    pub verdict: Verdict,
}

/// What a report says.
#[verifier::ext_equal]
pub struct PluginReportView {
    pub status: PluginStatusView,
    pub event: Option<EventView>,
    pub verdict: Verdict,
}

impl View for PluginReport {
    type V = PluginReportView;

    open spec fn view(&self) -> PluginReportView {
        PluginReportView {
            status: self.status@,
            event: opt_event(self.event),
            verdict: self.verdict,
        }
    }
}

/// The conditions a plugin has.
pub open spec fn plugin_conditions(p: MCPGPlugin) -> Seq<ConditionView> {
    match p.status {
        Some(s) => conditions_view(s.conditions@),
        None => Seq::empty(),
    }
}

fn existing(p: &MCPGPlugin) -> (r: Vec<Condition>)
    ensures
        conditions_view(r@) == plugin_conditions(*p),
{
    match &p.status {
        Some(s) => crate::api::conditions::clone_conditions(&s.conditions),
        None => {
            let v: Vec<Condition> = Vec::new();
            assert(conditions_view(v@) =~= Seq::empty());
            v
        },
    }
}

/// A status of which only the conditions are known.
pub open spec fn bare_status(conditions: Seq<ConditionView>, generation: i64) -> PluginStatusView {
    PluginStatusView {
        conditions,
        observed_generation: Some(generation),
        resolved_digest: None,
        signature_valid: None,
        cosign_verified: None,
        slsa_verified: None,
        revoked_by_sha: None,
        artefact_secret_name: None,
    }
}

fn bare(conditions: Vec<Condition>, generation: i64) -> (r: PluginStatus)
    ensures
        r@ == bare_status(conditions_view(conditions@), generation),
{
    PluginStatus {
        conditions,
        observed_generation: Some(generation),
        resolved_digest: None,
        signature_valid: None,
        cosign_verified: None,
        slsa_verified: None,
        revoked_by_sha: None,
        artefact_secret_name: None,
    }
}

/// The verdict with the given parts.
pub open spec fn verdict(secs: u64, outcome: ReconcileOutcome) -> Verdict {
    Verdict { requeue: Requeue::AfterSecs(secs), outcome }
}

/// The status of a plugin whose pull begins.
pub open spec fn pulling_status(p: MCPGPlugin, generation: i64) -> PluginStatusView {
    bare_status(
        upsert(
            plugin_conditions(p),
            cond(
                "Progressing"@,
                "True"@,
                "PullingArtefact"@,
                "pulling "@ + p.spec.oci.image@,
                Some(generation),
            ),
        ),
        generation,
    )
}

/// The status of a plugin whose pull begins.
pub fn record_pulling(obj: &MCPGPlugin, generation: i64) -> (r: PluginStatus)
    ensures
        r@ == pulling_status(*obj, generation),
{
    let mut conditions = existing(obj);
    set_condition(
        &mut conditions,
        Condition::new(
            "Progressing",
            "True",
            "PullingArtefact",
            "pulling ".to_owned().concat(obj.spec.oci.image.as_str()).as_str(),
            Some(generation),
        ),
    );
    bare(conditions, generation)
}

/// The report on a plugin whose mirror cannot be used: nothing was pulled.
pub open spec fn mirror_failure(
    p: MCPGPlugin,
    generation: i64,
    detail: Seq<char>,
) -> PluginReportView {
    PluginReportView {
        status: bare_status(
            upsert(
                upsert(
                    plugin_conditions(p),
                    cond("Pulled"@, "False"@, "MirrorUnresolved"@, detail, Some(generation)),
                ),
                cond("Ready"@, "False"@, "MirrorUnresolved"@, detail, Some(generation)),
            ),
            generation,
        ),
        event: Some(event(EventType::Warning, "MirrorUnresolved"@, detail, "Pull"@)),
        verdict: verdict(60, ReconcileOutcome::DependencyPending),
    }
}

/// The report on a plugin whose mirror cannot be used.
pub fn record_mirror_failure(obj: &MCPGPlugin, generation: i64, detail: &str) -> (r: PluginReport)
    ensures
        r@ == mirror_failure(*obj, generation, detail@),
{
    let mut conditions = existing(obj);
    set_condition(
        &mut conditions,
        Condition::new("Pulled", "False", "MirrorUnresolved", detail, Some(generation)),
    );
    set_condition(
        &mut conditions,
        Condition::new("Ready", "False", "MirrorUnresolved", detail, Some(generation)),
    );
    PluginReport {
        status: bare(conditions, generation),
        event: Some(Event::new(EventType::Warning, "MirrorUnresolved", detail, "Pull")),
        verdict: Verdict {
            requeue: Requeue::AfterSecs(60),
            outcome: ReconcileOutcome::DependencyPending,
        },
    }
}

/// The report on a plugin that could not be pulled.
pub open spec fn pull_failure(
    p: MCPGPlugin,
    generation: i64,
    detail: Seq<char>,
) -> PluginReportView {
    PluginReportView {
        status: bare_status(
            upsert(
                upsert(
                    plugin_conditions(p),
                    cond("Pulled"@, "False"@, "PullFailed"@, detail, Some(generation)),
                ),
                cond("Ready"@, "False"@, "PullFailed"@, detail, Some(generation)),
            ),
            generation,
        ),
        event: Some(
            event(
                EventType::Warning,
                "PullFailed"@,
                "OCI pull for "@ + p.spec.oci.image@ + " failed: "@ + detail,
                "Pull"@,
            ),
        ),
        verdict: verdict(60, ReconcileOutcome::TransientError),
    }
}

/// The report on a plugin that could not be pulled.
pub fn record_pull_failure(obj: &MCPGPlugin, generation: i64, detail: &str) -> (r: PluginReport)
    ensures
        r@ == pull_failure(*obj, generation, detail@),
{
    let mut conditions = existing(obj);
    set_condition(
        &mut conditions,
        Condition::new("Pulled", "False", "PullFailed", detail, Some(generation)),
    );
    set_condition(
        &mut conditions,
        Condition::new("Ready", "False", "PullFailed", detail, Some(generation)),
    );
    let note = "OCI pull for ".to_owned().concat(obj.spec.oci.image.as_str()).concat(
        " failed: ",
    ).concat(detail);
    PluginReport {
        status: bare(conditions, generation),
        event: Some(Event::new(EventType::Warning, "PullFailed", note.as_str(), "Pull")),
        verdict: Verdict {
            requeue: Requeue::AfterSecs(60),
            outcome: ReconcileOutcome::TransientError,
        },
    }
}

/// The report on a plugin that could not be verified. The digest that was
/// pulled is kept, so that it can be looked up in the registry.
pub open spec fn verify_failure(
    p: MCPGPlugin,
    generation: i64,
    manifest_digest: Seq<char>,
    detail: Seq<char>,
) -> PluginReportView {
    PluginReportView {
        status: PluginStatusView {
            signature_valid: Some(false),
            resolved_digest: Some(manifest_digest),
            ..bare_status(
                upsert(
                    upsert(
                        upsert(
                            plugin_conditions(p),
                            cond("Pulled"@, "True"@, "Reconciled"@, ""@, Some(generation)),
                        ),
                        cond("Verified"@, "False"@, "SignatureFailed"@, detail, Some(generation)),
                    ),
                    cond("Ready"@, "False"@, "VerificationFailed"@, detail, Some(generation)),
                ),
                generation,
            )
        },
        event: Some(
            event(
                EventType::Warning,
                "TrustGateFailed"@,
                "verification failed for "@ + p.spec.oci.image@ + ": "@ + detail,
                "Verify"@,
            ),
        ),
        verdict: verdict(600, ReconcileOutcome::PermanentError),
    }
}

/// The report on a plugin that could not be verified.
pub fn record_verify_failure(
    obj: &MCPGPlugin,
    generation: i64,
    manifest_digest: &str,
    detail: &str,
) -> (r: PluginReport)
    ensures
        r@ == verify_failure(*obj, generation, manifest_digest@, detail@),
{
    let mut conditions = existing(obj);
    set_condition(
        &mut conditions,
        Condition::new("Pulled", "True", "Reconciled", "", Some(generation)),
    );
    set_condition(
        &mut conditions,
        Condition::new("Verified", "False", "SignatureFailed", detail, Some(generation)),
    );
    set_condition(
        &mut conditions,
        Condition::new("Ready", "False", "VerificationFailed", detail, Some(generation)),
    );
    let note = "verification failed for ".to_owned().concat(obj.spec.oci.image.as_str()).concat(
        ": ",
    ).concat(detail);
    let mut status = bare(conditions, generation);
    status.signature_valid = Some(false);
    status.resolved_digest = Some(manifest_digest.to_owned());
    PluginReport {
        status,
        event: Some(Event::new(EventType::Warning, "TrustGateFailed", note.as_str(), "Verify")),
        verdict: Verdict {
            requeue: Requeue::AfterSecs(600),
            outcome: ReconcileOutcome::PermanentError,
        },
    }
}

/// The text that reports a revoked artefact.
pub open spec fn revoked_message(sha: Seq<char>, reason: Seq<char>) -> Seq<char> {
    "plugin sha256:"@ + sha + " is revoked: "@ + reason
}

/// The report on a plugin that is revoked. Refusing it is what the operator
/// is for, so the reconcile succeeded.
pub open spec fn revoked(
    p: MCPGPlugin,
    generation: i64,
    manifest_digest: Seq<char>,
    sha: Seq<char>,
    reason: Seq<char>,
) -> PluginReportView {
    let message = revoked_message(sha, reason);
    PluginReportView {
        status: PluginStatusView {
            resolved_digest: Some(
                if sha.len() == 0 {
                    manifest_digest
                } else {
                    sha
                },
            ),
            signature_valid: Some(true),
            revoked_by_sha: Some(true),
            ..bare_status(
                upsert(
                    upsert(
                        upsert(
                            upsert(
                                plugin_conditions(p),
                                cond("Pulled"@, "True"@, "Reconciled"@, ""@, Some(generation)),
                            ),
                            cond("Verified"@, "True"@, "Reconciled"@, ""@, Some(generation)),
                        ),
                        cond("Revoked"@, "True"@, "ArtefactRevoked"@, message, Some(generation)),
                    ),
                    cond("Ready"@, "False"@, "ArtefactRevoked"@, message, Some(generation)),
                ),
                generation,
            )
        },
        event: Some(
            event(
                EventType::Warning,
                "ArtefactRevoked"@,
                "plugin sha256:"@ + first(sha, 12) + " is on the cluster revocation list ("@
                    + reason + ")"@,
                "Revoke"@,
            ),
        ),
        verdict: verdict(600, ReconcileOutcome::Success),
    }
}

/// The report on a plugin that is revoked.
pub fn record_revoked(
    obj: &MCPGPlugin,
    generation: i64,
    manifest_digest: &str,
    sha: &str,
    reason: &str,
) -> (r: PluginReport)
    ensures
        r@ == revoked(*obj, generation, manifest_digest@, sha@, reason@),
{
    let mut conditions = existing(obj);
    let message = "plugin sha256:".to_owned().concat(sha).concat(" is revoked: ").concat(reason);
    set_condition(
        &mut conditions,
        Condition::new("Pulled", "True", "Reconciled", "", Some(generation)),
    );
    set_condition(
        &mut conditions,
        Condition::new("Verified", "True", "Reconciled", "", Some(generation)),
    );
    set_condition(
        &mut conditions,
        Condition::new("Revoked", "True", "ArtefactRevoked", message.as_str(), Some(generation)),
    );
    set_condition(
        &mut conditions,
        Condition::new("Ready", "False", "ArtefactRevoked", message.as_str(), Some(generation)),
    );
    let digest = if sha.is_empty() {
        manifest_digest.to_owned()
    } else {
        sha.to_owned()
    };
    let note = "plugin sha256:".to_owned().concat(first_chars(sha, 12).as_str()).concat(
        " is on the cluster revocation list (",
    ).concat(reason).concat(")");
    let mut status = bare(conditions, generation);
    status.resolved_digest = Some(digest);
    status.signature_valid = Some(true);
    status.revoked_by_sha = Some(true);
    PluginReport {
        status,
        event: Some(Event::new(EventType::Warning, "ArtefactRevoked", note.as_str(), "Revoke")),
        verdict: Verdict {
            requeue: Requeue::AfterSecs(600),
            outcome: ReconcileOutcome::Success,
        },
    }
}

/// The conditions of a plugin that was pulled, verified and published.
pub open spec fn success(generation: i64) -> Seq<ConditionView> {
    seq![
        cond("Pulled"@, "True"@, "Reconciled"@, ""@, Some(generation)),
        cond("Verified"@, "True"@, "Reconciled"@, ""@, Some(generation)),
        cond("Revoked"@, "False"@, "Reconciled"@, ""@, Some(generation)),
        cond("Ready"@, "True"@, "Reconciled"@, ""@, Some(generation)),
    ]
}

/// The conditions of a plugin that was pulled, verified and published.
pub fn success_conditions(generation: i64) -> (r: Vec<Condition>)
    ensures
        conditions_view(r@) == success(generation),
{
    let mut c: Vec<Condition> = Vec::new();
    c.push(Condition::new("Pulled", "True", "Reconciled", "", Some(generation)));
    c.push(Condition::new("Verified", "True", "Reconciled", "", Some(generation)));
    c.push(Condition::new("Revoked", "False", "Reconciled", "", Some(generation)));
    c.push(Condition::new("Ready", "True", "Reconciled", "", Some(generation)));
    assert(conditions_view(c@) =~= success(generation));
    c
}

/// The report on a plugin that was pulled, verified and published.
pub open spec fn published(
    p: MCPGPlugin,
    generation: i64,
    artifact_hash: Seq<char>,
    signature_verified: bool,
    cosign_verified: Option<bool>,
    slsa_verified: Option<bool>,
    secret_name: Seq<char>,
) -> PluginReportView {
    PluginReportView {
        status: PluginStatusView {
            conditions: success(generation),
            observed_generation: Some(generation),
            resolved_digest: Some(artifact_hash),
            signature_valid: Some(signature_verified),
            cosign_verified,
            slsa_verified,
            revoked_by_sha: Some(false),
            artefact_secret_name: Some(secret_name),
        },
        event: Some(
            event(
                EventType::Normal,
                "Pulled"@,
                "Plugin "@ + p.spec.plugin_id@ + " pulled, verified, and materialised (sha256:"@
                    + first(artifact_hash, 12) + "…)"@,
                "PullVerifyMaterialise"@,
            ),
        ),
        verdict: verdict(600, ReconcileOutcome::Success),
    }
}

/// The report on a plugin that was pulled, verified and published.
pub fn record_published(
    obj: &MCPGPlugin,
    generation: i64,
    artifact_hash: &str,
    signature_verified: bool,
    cosign_verified: Option<bool>,
    slsa_verified: Option<bool>,
    secret_name: &str,
) -> (r: PluginReport)
    ensures
        r@ == published(
            *obj,
            generation,
            artifact_hash@,
            signature_verified,
            cosign_verified,
            slsa_verified,
            secret_name@,
        ),
{
    let note = "Plugin ".to_owned().concat(obj.spec.plugin_id.as_str()).concat(
        " pulled, verified, and materialised (sha256:",
    ).concat(first_chars(artifact_hash, 12).as_str()).concat("…)");
    PluginReport {
        status: PluginStatus {
            conditions: success_conditions(generation),
            observed_generation: Some(generation),
            resolved_digest: Some(artifact_hash.to_owned()),
            signature_valid: Some(signature_verified),
            cosign_verified,
            slsa_verified,
            revoked_by_sha: Some(false),
            artefact_secret_name: Some(secret_name.to_owned()),
        },
        event: Some(
            Event::new(EventType::Normal, "Pulled", note.as_str(), "PullVerifyMaterialise"),
        ),
        verdict: Verdict {
            requeue: Requeue::AfterSecs(600),
            outcome: ReconcileOutcome::Success,
        },
    }
}

} // verus!
