//! The steps of a pull, from its credentials to the unpacked artefact.
//!
//! The caller performs one action at a time and hands back what came of it.
use vstd::prelude::*;

use crate::api::objects::{clone_bytes, ByteMap};
use crate::api::resources::{clone_opt, OciImageRef};
use crate::oci_pull::{
    after_transfer, docker_config, pinned_digest, pull_request, registry_auth, requests,
    resolve_pull_auth, secret_key, ArtifactKind, DockerConfigAuth, OciAuth, OciAuthView,
    PullArtefact, PullError, PullOptions, PullRequest, PullTransfer,
};
use crate::text::{clone_texts, opt_text, texts};

verus! {

/// A file that could not be read or made.
#[derive(Debug, Clone)]
pub struct IoFailure {
    pub path: String,
    pub detail: String,
}

/// What an unpacked package consists of.
#[derive(Debug, Clone, Copy, PartialEq, Eq, Structural)]
pub struct PackageFiles {
    pub kind: ArtifactKind,
    /// Whether it holds a signature.
    pub signed: bool,
}

/// Where a pull stands: what it waits for.
#[derive(Debug)]
pub enum PullState {
    /// The pull secret.
    FindingSecret(PullRequest),
    /// The credentials in the pull secret.
    ParsingConfig(PullRequest),
    /// A directory for the package.
    MakingDirectory(PullRequest, OciAuth),
    /// The package.
    Transferring(PullRequest),
    /// The unpacked package with this manifest digest.
    Unpacking(PullRequest, String),
    /// The artefact of the package with this manifest digest, and whether
    /// there is a signature.
    ReadingArtefact(String, bool),
    /// The signature.
    ReadingSignature(String, Vec<u8>),
    /// The descriptor.
    ReadingDescriptor(String, Vec<u8>, Option<Vec<u8>>),
    /// Nothing any more.
    Done,
}

/// What came of an action. One that failed carries its message.
#[derive(Debug)]
pub enum PullEvent {
    /// The data of the pull secret.
    SecretFound(Result<ByteMap, String>),
    /// The credentials by registry, in ascending order.
    ConfigParsed(Result<Vec<(String, DockerConfigAuth)>, String>),
    DirectoryMade(Result<(), IoFailure>),
    Transferred(PullTransfer),
    Unpacked(Result<PackageFiles, String>),
    FileRead(Result<Vec<u8>, IoFailure>),
}

/// What is to be done next.
#[derive(Debug)]
pub enum PullAction {
    /// Look up the Secret of this name in the operator's namespace.
    FindSecret(String),
    /// Read the credentials from this document.
    ParseConfig(Vec<u8>),
    MakeDirectory,
    /// Transfer the package that the reference names, which must have the
    /// digest where there is one, within the time. The insecure registries,
    /// and no others, are spoken to without TLS.
    Transfer {
        reference: String,
        auth: OciAuth,
        expected_digest: Option<String>,
        insecure_registries: Vec<String>,
        timeout_secs: u64,
    },
    Unpack,
    ReadArtefact,
    ReadSignature,
    ReadDescriptor,
    /// End with this result.
    Finish(Result<PullArtefact, PullError>),
    /// Nothing: this event was not waited for.
    Nothing,
}

/// The pull ends with an error.
pub open spec fn fails(err: PullError, n: PullState, x: PullAction) -> bool {
    n is Done && x == PullAction::Finish(Err(err))
}

/// The error of a file that could not be read or made.
pub open spec fn io_error(e: IoFailure) -> PullError {
    PullError::Io { path: e.path, detail: e.detail }
}

/// The pull ends with the error of a malformed pull secret.
pub open spec fn malformed(
    secret: Seq<char>,
    detail: Seq<char>,
    n: PullState,
    x: PullAction,
) -> bool {
    &&& n is Done
    &&& x matches PullAction::Finish(Err(PullError::MalformedDockerConfig { name, detail: d }))
    &&& name@ == secret
    &&& d@ == detail
}

/// The credentials are known: a directory is made.
pub open spec fn makes_directory(
    q: PullRequest,
    auth: OciAuthView,
    n: PullState,
    x: PullAction,
) -> bool {
    &&& n matches PullState::MakingDirectory(p, a)
    &&& p == q
    &&& a@ == auth
    &&& x is MakeDirectory
}

/// The name of the pull secret of a request; empty when it names none.
pub open spec fn secret_of(q: PullRequest) -> Seq<char> {
    match q.secret {
        Some(s) => s.0@,
        None => Seq::empty(),
    }
}

/// The registry of a request's credentials; empty when it needs none.
pub open spec fn credentials_for(q: PullRequest) -> Seq<char> {
    match q.secret {
        Some(s) => s.1@,
        None => Seq::empty(),
    }
}

/// Whether a pull begins in state `s` with action `x`: with its credentials
/// where the image names a pull secret.
pub open spec fn starts(
    spec: OciImageRef,
    options: PullOptions,
    s: PullState,
    x: PullAction,
) -> bool {
    match spec.pull_secret_ref {
        Some(p) => {
            &&& s matches PullState::FindingSecret(q)
            &&& requests(spec, options, q)
            &&& x matches PullAction::FindSecret(name)
            &&& name@ == p.name@
        },
        None => {
            &&& s matches PullState::MakingDirectory(q, a)
            &&& requests(spec, options, q)
            &&& a is Anonymous
            &&& x is MakeDirectory
        },
    }
}

/// Whether an event in state `s` leads to state `n` and action `x`.
pub open spec fn step_is(s: PullState, e: PullEvent, n: PullState, x: PullAction) -> bool {
    match (s, e) {
        (PullState::FindingSecret(q), PullEvent::SecretFound(r)) => match r {
            Ok(data) => match secret_key(data@) {
                Some(key) => {
                    &&& n == PullState::ParsingConfig(q)
                    &&& x matches PullAction::ParseConfig(bytes)
                    &&& bytes@ == data@[key]
                },
                None => {
                    &&& n is Done
                    &&& x matches PullAction::Finish(
                        Err(PullError::MissingSecretKey { name, key }),
                    )
                    &&& name@ == secret_of(q)
                    &&& key@ == ".dockerconfigjson"@
                },
            },
            Err(d) => fails(PullError::Kube(d), n, x),
        },
        (PullState::ParsingConfig(q), PullEvent::ConfigParsed(r)) => match r {
            Ok(auths) => match registry_auth(auths@, credentials_for(q)) {
                Ok(auth) => makes_directory(q, auth, n, x),
                Err(d) => malformed(secret_of(q), d, n, x),
            },
            Err(d) => malformed(secret_of(q), d@, n, x),
        },
        (PullState::MakingDirectory(q, auth), PullEvent::DirectoryMade(r)) => match r {
            Ok(_) => {
                &&& n == PullState::Transferring(q)
                &&& x matches PullAction::Transfer {
                    reference,
                    auth: a,
                    expected_digest,
                    insecure_registries,
                    timeout_secs,
                }
                &&& reference@ == q.reference@
                &&& a == auth
                &&& opt_text(expected_digest) == opt_text(q.expected_digest)
                &&& texts(insecure_registries@) == texts(q.insecure_registries@)
                &&& timeout_secs == q.timeout_secs
            },
            Err(f) => fails(io_error(f), n, x),
        },
        (PullState::Transferring(q), PullEvent::Transferred(t)) => match t {
            PullTransfer::Done { manifest_digest } => n == PullState::Unpacking(
                q,
                manifest_digest,
            ) && x is Unpack,
            PullTransfer::Failed(d) => fails(PullError::Upstream(d), n, x),
            PullTransfer::TimedOut => {
                &&& n is Done
                &&& x matches PullAction::Finish(Err(PullError::Timeout { reference, timeout_secs }))
                &&& reference@ == q.reference@
                &&& timeout_secs == q.timeout_secs
            },
        },
        (PullState::Unpacking(q, digest), PullEvent::Unpacked(r)) => match r {
            Ok(p) => match p.kind {
                ArtifactKind::Native => n == PullState::ReadingArtefact(digest, p.signed)
                    && x is ReadArtefact,
                ArtifactKind::Wasm => {
                    &&& n is Done
                    &&& x matches PullAction::Finish(
                        Err(PullError::UnexpectedWasmArtifact { reference }),
                    )
                    &&& reference@ == q.reference@
                },
            },
            Err(d) => fails(PullError::Unpack(d), n, x),
        },
        (PullState::ReadingArtefact(digest, signed), PullEvent::FileRead(r)) => match r {
            Ok(bytes) => if signed {
                n == PullState::ReadingSignature(digest, bytes) && x is ReadSignature
            } else {
                n == PullState::ReadingDescriptor(digest, bytes, None) && x is ReadDescriptor
            },
            Err(f) => fails(io_error(f), n, x),
        },
        (PullState::ReadingSignature(digest, bytes), PullEvent::FileRead(r)) => match r {
            Ok(signature) => n == PullState::ReadingDescriptor(digest, bytes, Some(signature))
                && x is ReadDescriptor,
            Err(f) => fails(io_error(f), n, x),
        },
        (
            PullState::ReadingDescriptor(digest, bytes, signature),
            PullEvent::FileRead(r),
        ) => match r {
            Ok(descriptor) => n is Done && x == PullAction::Finish(
                Ok(
                    PullArtefact {
                        manifest_digest: digest,
                        artifact_sha256: None,
                        artifact_bytes: bytes,
                        signature_bytes: signature,
                        descriptor_bytes: descriptor,
                    },
                ),
            ),
            Err(f) => fails(io_error(f), n, x),
        },
        (_, _) => n == s && x is Nothing,
    }
}

fn fail(err: PullError) -> (r: (PullState, PullAction))
    ensures
        fails(err, r.0, r.1),
{
    (PullState::Done, PullAction::Finish(Err(err)))
}

fn fail_io(f: IoFailure) -> (r: (PullState, PullAction))
    ensures
        fails(io_error(f), r.0, r.1),
{
    fail(PullError::Io { path: f.path, detail: f.detail })
}

/// The first step of a pull.
pub fn start(spec: &OciImageRef, options: &PullOptions) -> (r: (PullState, PullAction))
    ensures
        starts(*spec, *options, r.0, r.1),
{
    let request = pull_request(spec, options);
    match &spec.pull_secret_ref {
        Some(p) => (PullState::FindingSecret(request), PullAction::FindSecret(p.name.clone())),
        None => (
            PullState::MakingDirectory(request, OciAuth::Anonymous),
            PullAction::MakeDirectory,
        ),
    }
}

fn secret_found(q: PullRequest, found: Result<ByteMap, String>) -> (r: (PullState, PullAction))
    ensures
        step_is(PullState::FindingSecret(q), PullEvent::SecretFound(found), r.0, r.1),
{
    let name = match &q.secret {
        Some(s) => s.0.clone(),
        None => String::new(),
    };
    match found {
        Ok(data) => match docker_config(&data, name.as_str()) {
            Ok(bytes) => {
                let copy = clone_bytes(bytes);
                (PullState::ParsingConfig(q), PullAction::ParseConfig(copy))
            },
            Err(e) => fail(e),
        },
        Err(d) => fail(PullError::Kube(d)),
    }
}

fn config_parsed(
    q: PullRequest,
    parsed: Result<Vec<(String, DockerConfigAuth)>, String>,
) -> (r: (PullState, PullAction))
    ensures
        step_is(PullState::ParsingConfig(q), PullEvent::ConfigParsed(parsed), r.0, r.1),
{
    let (name, registry) = match &q.secret {
        Some(s) => (s.0.clone(), s.1.clone()),
        None => (String::new(), String::new()),
    };
    match parsed {
        Ok(auths) => match resolve_pull_auth(&auths, name.as_str(), registry.as_str()) {
            Ok(auth) => (PullState::MakingDirectory(q, auth), PullAction::MakeDirectory),
            Err(e) => fail(e),
        },
        Err(detail) => fail(PullError::MalformedDockerConfig { name, detail }),
    }
}

/// One step of a pull: what an event leads to.
pub fn pull_and_unpack(state: PullState, event: PullEvent) -> (r: (PullState, PullAction))
    ensures
        step_is(state, event, r.0, r.1),
{
    match (state, event) {
        (PullState::FindingSecret(q), PullEvent::SecretFound(r)) => secret_found(q, r),
        (PullState::ParsingConfig(q), PullEvent::ConfigParsed(r)) => config_parsed(q, r),
        (PullState::MakingDirectory(q, auth), PullEvent::DirectoryMade(r)) => match r {
            Ok(_) => {
                let action = PullAction::Transfer {
                    reference: q.reference.clone(),
                    auth,
                    expected_digest: clone_opt(&q.expected_digest),
                    insecure_registries: clone_texts(&q.insecure_registries),
                    timeout_secs: q.timeout_secs,
                };
                (PullState::Transferring(q), action)
            },
            Err(f) => fail_io(f),
        },
        (PullState::Transferring(q), PullEvent::Transferred(t)) => match after_transfer(&q, t) {
            Ok(digest) => (PullState::Unpacking(q, digest), PullAction::Unpack),
            Err(e) => fail(e),
        },
        (PullState::Unpacking(q, digest), PullEvent::Unpacked(r)) => match r {
            Ok(p) => match p.kind {
                ArtifactKind::Native => (
                    PullState::ReadingArtefact(digest, p.signed),
                    PullAction::ReadArtefact,
                ),
                ArtifactKind::Wasm => fail(
                    PullError::UnexpectedWasmArtifact { reference: q.reference.clone() },
                ),
            },
            Err(d) => fail(PullError::Unpack(d)),
        },
        (PullState::ReadingArtefact(digest, signed), PullEvent::FileRead(r)) => match r {
            Ok(bytes) => if signed {
                (PullState::ReadingSignature(digest, bytes), PullAction::ReadSignature)
            } else {
                (PullState::ReadingDescriptor(digest, bytes, None), PullAction::ReadDescriptor)
            },
            Err(f) => fail_io(f),
        },
        (PullState::ReadingSignature(digest, bytes), PullEvent::FileRead(r)) => match r {
            Ok(signature) => (
                PullState::ReadingDescriptor(digest, bytes, Some(signature)),
                PullAction::ReadDescriptor,
            ),
            Err(f) => fail_io(f),
        },
        (
            PullState::ReadingDescriptor(digest, bytes, signature),
            PullEvent::FileRead(r),
        ) => match r {
            Ok(descriptor) => {
                let artefact = PullArtefact {
                    manifest_digest: digest,
                    artifact_sha256: None,
                    artifact_bytes: bytes,
                    signature_bytes: signature,
                    descriptor_bytes: descriptor,
                };
                (PullState::Done, PullAction::Finish(Ok(artefact)))
            },
            Err(f) => fail_io(f),
        },
        (state, _) => (state, PullAction::Nothing),
    }
}

/// Whether the states, events and actions are those of a pull of `spec`:
/// each event leads from one state to the next. `actions[0]` is the first
/// action, and each further one answers an event.
pub open spec fn is_run(
    spec: OciImageRef,
    options: PullOptions,
    states: Seq<PullState>,
    events: Seq<PullEvent>,
    actions: Seq<PullAction>,
) -> bool {
    &&& states.len() == events.len() + 1
    &&& actions.len() == events.len() + 1
    &&& starts(spec, options, states[0], actions[0])
    &&& forall|i: int|
        0 <= i < events.len() ==> step_is(
            states[i],
            #[trigger] events[i],
            states[i + 1],
            actions[i + 1],
        )
}

/// Whether one of the first `n` events is a package with this manifest
/// digest that arrived.
pub open spec fn arrived(events: Seq<PullEvent>, n: int, digest: String) -> bool {
    exists|i: int|
        0 <= i < n && (#[trigger] events[i]) == PullEvent::Transferred(
            PullTransfer::Done { manifest_digest: digest },
        )
}

/// Whether one of the first `n` events is a native package, unpacked.
pub open spec fn was_native(events: Seq<PullEvent>, n: int) -> bool {
    exists|i: int|
        0 <= i < n && ((#[trigger] events[i]) matches PullEvent::Unpacked(Ok(p)) && p.kind is Native)
}

/// Whether one of the first `n` events is a file with these bytes, read.
pub open spec fn was_read(events: Seq<PullEvent>, n: int, bytes: Vec<u8>) -> bool {
    exists|i: int| 0 <= i < n && (#[trigger] events[i]) == PullEvent::FileRead(Ok(bytes))
}

/// Whether a request is for this image, and the pull waits for it.
spec fn request_in(s: PullState) -> Option<PullRequest> {
    match s {
        PullState::FindingSecret(q) => Some(q),
        PullState::ParsingConfig(q) => Some(q),
        PullState::MakingDirectory(q, _) => Some(q),
        PullState::Transferring(q) => Some(q),
        PullState::Unpacking(q, _) => Some(q),
        _ => None,
    }
}

/// What the first `n` events must have been when they led to state `s`.
spec fn earned(
    spec: OciImageRef,
    options: PullOptions,
    events: Seq<PullEvent>,
    n: int,
    s: PullState,
) -> bool {
    &&& request_in(s) matches Some(q) ==> requests(spec, options, q)
    &&& match s {
        PullState::Unpacking(_, d) => arrived(events, n, d),
        PullState::ReadingArtefact(d, _) => arrived(events, n, d) && was_native(events, n),
        PullState::ReadingSignature(d, a) => arrived(events, n, d) && was_native(events, n)
            && was_read(events, n, a),
        PullState::ReadingDescriptor(d, a, g) => arrived(events, n, d) && was_native(events, n)
            && was_read(events, n, a) && (g matches Some(v) ==> was_read(events, n, v)),
        _ => true,
    }
}

proof fn lemma_earlier(events: Seq<PullEvent>, n: int)
    requires
        0 < n,
    ensures
        forall|d: String| arrived(events, n - 1, d) ==> #[trigger] arrived(events, n, d),
        was_native(events, n - 1) ==> was_native(events, n),
        forall|v: Vec<u8>| was_read(events, n - 1, v) ==> #[trigger] was_read(events, n, v),
{
}

proof fn lemma_earned(
    spec: OciImageRef,
    options: PullOptions,
    states: Seq<PullState>,
    events: Seq<PullEvent>,
    actions: Seq<PullAction>,
    n: int,
)
    requires
        is_run(spec, options, states, events, actions),
        0 <= n <= events.len(),
    ensures
        earned(spec, options, events, n, states[n]),
    decreases n,
{
    if n > 0 {
        lemma_earned(spec, options, states, events, actions, n - 1);
        lemma_earlier(events, n);
        let e = events[n - 1];
        assert(step_is(states[n - 1], e, states[n], actions[n]));
        match e {
            PullEvent::Transferred(PullTransfer::Done { manifest_digest }) => {
                assert(arrived(events, n, manifest_digest));
            },
            PullEvent::Unpacked(Ok(p)) => {
                assert(p.kind is Native ==> was_native(events, n));
            },
            PullEvent::FileRead(Ok(v)) => {
                assert(was_read(events, n, v));
            },
            _ => {},
        }
    }
}

/// A pull that succeeds hands out what arrived: the digest is that of the
/// package that was transferred, the package was native, and the bytes are
/// those that were read from it.
pub proof fn law_pull_is_faithful(
    spec: OciImageRef,
    options: PullOptions,
    states: Seq<PullState>,
    events: Seq<PullEvent>,
    actions: Seq<PullAction>,
    k: int,
)
    requires
        is_run(spec, options, states, events, actions),
        0 <= k <= events.len(),
    ensures
        actions[k] matches PullAction::Finish(Ok(a)) ==> {
            &&& arrived(events, k, a.manifest_digest)
            &&& was_native(events, k)
            &&& was_read(events, k, a.artifact_bytes)
            &&& was_read(events, k, a.descriptor_bytes)
            &&& a.signature_bytes matches Some(v) ==> was_read(events, k, v)
        },
{
    if k > 0 {
        lemma_earned(spec, options, states, events, actions, k - 1);
        lemma_earlier(events, k);
        let e = events[k - 1];
        assert(step_is(states[k - 1], e, states[k], actions[k]));
        match e {
            PullEvent::FileRead(Ok(v)) => {
                assert(was_read(events, k, v));
            },
            _ => {},
        }
    }
}

/// Only the image that was asked for is transferred, at the digest that its
/// reference pins where it pins one, within the time allowed, and without TLS
/// only from the registries that were said to be insecure.
pub proof fn law_transfer_is_as_asked(
    spec: OciImageRef,
    options: PullOptions,
    states: Seq<PullState>,
    events: Seq<PullEvent>,
    actions: Seq<PullAction>,
    k: int,
)
    requires
        is_run(spec, options, states, events, actions),
        0 <= k <= events.len(),
    ensures
        actions[k] matches PullAction::Transfer {
            reference,
            expected_digest,
            insecure_registries,
            timeout_secs,
            ..
        } ==> {
            &&& reference@ == spec.image@
            &&& opt_text(expected_digest) == pinned_digest(spec.image@)
            &&& texts(insecure_registries@) == texts(options.insecure_registries@)
            &&& timeout_secs == options.timeout_secs
        },
{
    if k > 0 {
        lemma_earned(spec, options, states, events, actions, k - 1);
        assert(step_is(states[k - 1], events[k - 1], states[k], actions[k]));
    }
}

/// A pull that ended stays ended.
pub proof fn law_done_is_final(e: PullEvent, n: PullState, x: PullAction)
    requires
        step_is(PullState::Done, e, n, x),
    ensures
        n is Done,
        x is Nothing,
{
}

} // verus!
