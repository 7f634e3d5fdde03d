use mcpg_operator::api::objects::{ByteMap, ConfigMap, ObjectMeta};
use mcpg_operator::api::resources::{
    CosignIdentity, LocalObjectReference, MCPGPlugin, MCPGPluginMirror, MCPGPluginMirrorSpec,
    MCPGPluginSpec, MirrorAuth, MirrorEndpoint, MirrorService, MirrorUpstream, OciImageRef,
    PluginTrust, SlsaProvenance,
};
use mcpg_operator::controllers::plugin::flow::{
    start, step, CheckOutcome, PluginAction, PluginEvent, PluginState, VerifiedArtefact,
};
use mcpg_operator::controllers::plugin::secret::{
    artefact_secret_name, build_artefact_secret, name_can_be_cut, truncate_kube_name,
};
use mcpg_operator::controllers::plugin::target::{
    resolve_pull_target, MirrorLookup, MirrorRewrite, PullTarget,
};
use mcpg_operator::oci_pull::{
    after_transfer, basic_auth, docker_config, pull_request, resolve_pull_auth,
    DockerConfigAuth, OciAuth, PullArtefact, PullError, PullOptions, PullTransfer,
};
use mcpg_operator::reconcile::flow::{Begin, ReconcileError, Requeue};
use mcpg_operator::strmap::StringMap;

#[test]
fn artefact_secret_name_includes_plugin_and_digest_prefix() {
    let n = artefact_secret_name(
        "identity-workload-1.2.3-linux-amd64",
        "abcd1234deadbeef5678",
    );
    assert!(
        n.starts_with("mcpg-plugin-identity-workload-1.2.3-linux-amd64-"),
        "{n}"
    );
    assert!(n.ends_with("-abcd1234"), "{n}");
}

#[test]
fn artefact_secret_name_truncates_overlong_plugin_names() {
    let long = "x".repeat(150);
    let n = artefact_secret_name(&long, "deadbeefcafebabe");
    assert!(n.len() <= 253);
    assert!(n.starts_with("mcpg-plugin-"));
}

#[test]
fn artefact_secret_name_handles_empty_sha() {
    let n = artefact_secret_name("foo", "");
    assert!(n.ends_with("-unknown"), "{n}");
}

#[test]
fn truncate_kube_name_under_max_passes_through() {
    assert_eq!(truncate_kube_name("foo", 50), "foo");
}

#[test]
fn truncate_kube_name_appends_deterministic_suffix_on_truncate() {
    let n1 = truncate_kube_name(&"x".repeat(200), 30);
    let n2 = truncate_kube_name(&"x".repeat(200), 30);
    assert_eq!(n1, n2);
    assert_eq!(n1.len(), 30);
}

#[test]
fn the_suffix_is_the_hash_of_the_name() {
    let n = truncate_kube_name(&"a".repeat(55), 50);
    assert_eq!(n, format!("{}-9f4390f8", "a".repeat(41)));
    assert!(name_can_be_cut(&"x".repeat(200)));
    assert!(!name_can_be_cut(&"é".repeat(30)));
}

fn plugin(trust: PluginTrust, mirror: Option<&str>) -> MCPGPlugin {
    MCPGPlugin {
        metadata: ObjectMeta {
            name: Some("p".into()),
            uid: Some("uid-p".into()),
            ..Default::default()
        },
        spec: MCPGPluginSpec {
            plugin_id: "a.b".into(),
            version: "1.0.0".into(),
            plugin_class: "policy".into(),
            oci: OciImageRef {
                image: "ghcr.io/x/y:1".into(),
                pull_secret_ref: None,
                mirror_ref: mirror.map(|m| LocalObjectReference { name: m.into() }),
            },
            trust,
        },
        status: None,
    }
}

fn begin() -> Begin {
    Begin {
        namespace: String::new(),
        name: "p".into(),
        generation: 7,
        deleting: false,
    }
}

fn artefact() -> PullArtefact {
    PullArtefact {
        manifest_digest: "sha256:feed".into(),
        artifact_sha256: None,
        artifact_bytes: vec![1, 2],
        signature_bytes: Some(vec![3]),
        descriptor_bytes: vec![4],
    }
}

fn verified() -> CheckOutcome {
    CheckOutcome::Verified(VerifiedArtefact {
        artifact_hash: "abcd1234ffff".into(),
        signature_verified: true,
    })
}

fn go(p: &MCPGPlugin, s: PluginState, e: PluginEvent) -> (PluginState, PluginAction) {
    step(p, &begin(), "mcpg-system", s, e)
}

#[test]
fn a_plugin_is_pulled_checked_and_published() {
    let p = plugin(PluginTrust::default(), None);
    let (s, a) = start(&begin());
    assert!(matches!(a, PluginAction::AddFinalizer));
    let (s, a) = go(&p, s, PluginEvent::FinalizerAdded(Ok(())));
    match a {
        PluginAction::Announce(status) => {
            assert_eq!(status.conditions[0].reason, "PullingArtefact");
            assert_eq!(status.conditions[0].message, "pulling ghcr.io/x/y:1");
        }
        other => panic!("{other:?}"),
    }
    let (s, a) = go(&p, s, PluginEvent::Announced);
    assert!(matches!(a, PluginAction::Pull(o, _) if o.image == "ghcr.io/x/y:1"));
    let (s, a) = go(&p, s, PluginEvent::Pulled(Ok(artefact())));
    assert!(matches!(a, PluginAction::LoadKey { .. }));
    let (s, a) = go(&p, s, PluginEvent::KeyLoaded(Ok(())));
    assert!(matches!(a, PluginAction::ReadRevocations { list } if list == "cluster-default"));
    let (s, a) = go(&p, s, PluginEvent::RevocationsRead(Ok(())));
    assert!(matches!(a, PluginAction::Check { plugin_id } if plugin_id == p.spec.plugin_id));
    let (s, a) = go(&p, s, PluginEvent::Checked(verified()));
    match a {
        PluginAction::Apply(secret) => {
            assert_eq!(secret.metadata.name.as_deref(), Some("mcpg-plugin-p-abcd1234"));
            assert_eq!(secret.metadata.namespace.as_deref(), Some("mcpg-system"));
            let data = secret.data.unwrap();
            assert_eq!(data.entries.len(), 3);
        }
        other => panic!("{other:?}"),
    }
    let (s, a) = go(&p, s, PluginEvent::Applied(Ok(())));
    assert!(matches!(s, PluginState::Done));
    match a {
        PluginAction::Complete(r) => {
            assert_eq!(
                r.status.artefact_secret_name.as_deref(),
                Some("mcpg-plugin-p-abcd1234")
            );
            assert_eq!(r.status.signature_valid, Some(true));
            assert_eq!(r.status.cosign_verified, None);
            assert_eq!(r.status.observed_generation, Some(7));
        }
        other => panic!("{other:?}"),
    }
}

#[test]
fn the_keyless_signature_is_that_of_the_upstream_image() {
    let p = plugin(
        PluginTrust {
            cosign_identity: Some(CosignIdentity::default()),
            ..Default::default()
        },
        Some("mirror"),
    );
    let (_, a) = go(&p, PluginState::Checking(artefact()), PluginEvent::Checked(verified()));
    match a {
        PluginAction::CheckCosign { image, digest, .. } => {
            assert_eq!(image.image, "ghcr.io/x/y:1");
            assert_eq!(digest, "sha256:feed");
        }
        other => panic!("{other:?}"),
    }
}

#[test]
fn every_demanded_check_comes_before_publication() {
    let p = plugin(
        PluginTrust {
            cosign_identity: Some(CosignIdentity {
                certificate_identity_regexp: "^ci$".into(),
                oidc_issuer: "https://issuer".into(),
            }),
            slsa_provenance: Some(SlsaProvenance {
                config_map_name: "prov".into(),
                source_uri: "u".into(),
                source_tag: "t".into(),
            }),
            ..Default::default()
        },
        None,
    );
    let (s, a) = go(&p, PluginState::Checking(artefact()), PluginEvent::Checked(verified()));
    match a {
        PluginAction::CheckCosign { image, identity, digest } => {
            assert_eq!(image.image, p.spec.oci.image);
            assert_eq!(identity.certificate_identity_regexp, "^ci$");
            assert_eq!(identity.oidc_issuer, "https://issuer");
            assert_eq!(digest, "sha256:feed");
        }
        other => panic!("{other:?}"),
    }
    let (s, a) = go(&p, s, PluginEvent::CosignChecked(Ok(())));
    assert!(matches!(a, PluginAction::FetchProvenance { config_map } if config_map == "prov"));
    let mut data = StringMap::new();
    data.insert("provenance.intoto.jsonl", "{}");
    let cm = ConfigMap { metadata: ObjectMeta::default(), data };
    let (s, a) = go(&p, s, PluginEvent::ProvenanceFetched(Ok(cm)));
    assert!(
        matches!(a, PluginAction::CheckProvenance { jsonl, artifact_hash, source_uri, source_tag } if jsonl == "{}" && artifact_hash == "abcd1234ffff" && source_uri == "u" && source_tag == "t")
    );
    let (s, a) = go(&p, s, PluginEvent::ProvenanceChecked(Ok(())));
    assert!(matches!(a, PluginAction::Apply(_)));
    let (_, a) = go(&p, s, PluginEvent::Applied(Ok(())));
    match a {
        PluginAction::Complete(r) => {
            assert_eq!(r.status.cosign_verified, Some(true));
            assert_eq!(r.status.slsa_verified, Some(true));
        }
        other => panic!("{other:?}"),
    }
}

#[test]
fn a_failed_check_ends_the_reconcile() {
    let p = plugin(PluginTrust::default(), None);
    let (s, a) = go(
        &p,
        PluginState::Checking(artefact()),
        PluginEvent::Checked(CheckOutcome::Rejected("bad signature".into())),
    );
    assert!(matches!(s, PluginState::Done));
    match a {
        PluginAction::Report(r) => {
            let ready = r.status.conditions.iter().find(|c| c.type_ == "Ready").unwrap();
            assert_eq!(ready.status, "False");
            assert!(ready.message.contains("bad signature"), "{}", ready.message);
            assert_eq!(r.status.signature_valid, Some(false));
        }
        other => panic!("{other:?}"),
    }
    let (_, a) = go(
        &p,
        PluginState::Checking(artefact()),
        PluginEvent::Checked(CheckOutcome::Revoked { sha: "abcd".into(), reason: "cve".into() }),
    );
    match a {
        PluginAction::Report(r) => assert_eq!(r.status.revoked_by_sha, Some(true)),
        other => panic!("{other:?}"),
    }
    let (_, a) = go(
        &p,
        PluginState::Checking(artefact()),
        PluginEvent::Checked(CheckOutcome::Interrupted("panic".into())),
    );
    assert!(matches!(a, PluginAction::Fail(ReconcileError::Join(m)) if m == "panic"));
    let (_, a) = go(
        &p,
        PluginState::ReadingRevocations(artefact()),
        PluginEvent::RevocationsRead(Err("down".into())),
    );
    assert!(matches!(a, PluginAction::Fail(ReconcileError::Kube(m)) if m == "down"));
    let (s, a) = go(&p, PluginState::Done, PluginEvent::Announced);
    assert!(matches!(s, PluginState::Done));
    assert!(matches!(a, PluginAction::Nothing));
}

#[test]
fn a_pull_failure_is_reported() {
    let p = plugin(PluginTrust::default(), None);
    let (_, a) = go(
        &p,
        PluginState::Pulling,
        PluginEvent::Pulled(Err(PullError::Unpack("short".into()))),
    );
    match a {
        PluginAction::Report(r) => {
            assert_eq!(
                r.event.unwrap().note,
                "OCI pull for ghcr.io/x/y:1 failed: unpack: short"
            );
            assert_eq!(r.verdict.requeue, Requeue::AfterSecs(60));
        }
        other => panic!("{other:?}"),
    }
}

fn mirror(auth: Option<&str>, insecure: bool) -> MCPGPluginMirror {
    MCPGPluginMirror {
        metadata: ObjectMeta::default(),
        spec: MCPGPluginMirrorSpec {
            endpoint: MirrorEndpoint {
                service: MirrorService {
                    namespace: "m".into(),
                    name: "reg".into(),
                    port: 5000,
                    host: "reg.m.svc:5000".into(),
                },
                insecure,
            },
            upstream: MirrorUpstream { registry: "ghcr.io".into(), namespace: "z".into() },
            auth: auth.map(|s| MirrorAuth { secret_name: s.into() }),
        },
        status: None,
    }
}

#[test]
fn a_mirrored_plugin_never_falls_back() {
    let p = plugin(PluginTrust::default(), Some("airgap"));
    let rewritten = MirrorRewrite::Rewritten("reg.m.svc:5000/x/y:1".into());
    match resolve_pull_target(&p.spec.oci, MirrorLookup::Found(mirror(Some("creds"), true), rewritten)) {
        PullTarget::Pull(o, opt) => {
            assert_eq!(o.image, "reg.m.svc:5000/x/y:1");
            assert_eq!(o.pull_secret_ref.unwrap().name, "creds");
            assert_eq!(opt.insecure_registries, vec!["reg.m.svc:5000"]);
        }
        other => panic!("{other:?}"),
    }
    match resolve_pull_target(&p.spec.oci, MirrorLookup::Missing) {
        PullTarget::Unresolved(d) => assert_eq!(
            d,
            "oci.mirrorRef points at MCPGPluginMirror/airgap which does not exist; refusing to fall back to the public registry"
        ),
        other => panic!("{other:?}"),
    }
    assert!(matches!(
        resolve_pull_target(
            &p.spec.oci,
            MirrorLookup::Found(mirror(None, false), MirrorRewrite::NotApplicable)
        ),
        PullTarget::Unresolved(_)
    ));
    let (s, a) = go(&p, PluginState::ResolvingMirror, PluginEvent::Mirror(MirrorLookup::Failed));
    assert!(matches!(s, PluginState::Done));
    assert!(matches!(a, PluginAction::Stop(v) if v.requeue == Requeue::AfterSecs(30)));
}

#[test]
fn the_secret_is_labelled_by_its_content() {
    let p = plugin(PluginTrust::default(), None);
    let mut a = artefact();
    a.artifact_sha256 = Some("abcd1234ffff".into());
    let s = build_artefact_secret(&p, "mcpg-system", "n", &a);
    assert!(s.metadata.owner_references.is_none());
    assert_eq!(s.immutable, Some(true));
    assert_eq!(s.type_.as_deref(), Some("mcpg.dev/plugin"));
    let labels = s.metadata.labels.unwrap();
    assert_eq!(labels.get("mcpg.dev/plugin").unwrap(), "a-b");
    assert_eq!(labels.get("mcpg.dev/version").unwrap(), "1.0.0");
    assert_eq!(labels.get("mcpg.dev/digest-prefix").unwrap(), "abcd1234");
    assert_eq!(labels.get("mcpg.dev/manifest-digest").unwrap(), "sha256-feed");
    let data = s.data.unwrap();
    assert_eq!(data.get("plugin.so").unwrap(), &vec![1, 2]);
    assert_eq!(data.get("plugin.yaml").unwrap(), &vec![4]);
    assert_eq!(data.get("plugin.sig").unwrap(), &vec![3]);
}

fn auth_entry(user: Option<&str>, pass: Option<&str>, auth: Option<&str>) -> DockerConfigAuth {
    DockerConfigAuth {
        username: user.map(str::to_owned),
        password: pass.map(str::to_owned),
        auth: auth.map(str::to_owned),
    }
}

#[test]
fn credentials_are_read_from_base64() {
    let auths = vec![("ghcr.io".to_owned(), auth_entry(None, None, Some(" dXNlcjpwYXNz ")))];
    match resolve_pull_auth(&auths, "pull", "ghcr.io").unwrap() {
        OciAuth::Basic { username, password } => {
            assert_eq!(username, "user");
            assert_eq!(password, "pass");
        }
        other => panic!("{other:?}"),
    }
    let bad = vec![("ghcr.io".to_owned(), auth_entry(None, None, Some("!!!")))];
    match resolve_pull_auth(&bad, "pull", "ghcr.io").unwrap_err() {
        PullError::MalformedDockerConfig { name, detail } => {
            assert_eq!(name, "pull");
            assert!(
                detail.starts_with("base64 decode `auths.ghcr.io.auth`: Invalid symbol 33"),
                "{detail}"
            );
        }
        other => panic!("{other:?}"),
    }
}

#[test]
fn credentials_fall_back_to_plain_fields_and_to_none() {
    let plain = vec![(
        "ghcr.io/v2/".to_owned(),
        auth_entry(Some("u"), Some("p"), None),
    )];
    assert!(matches!(
        resolve_pull_auth(&plain, "pull", "ghcr.io").unwrap(),
        OciAuth::Basic { .. }
    ));
    assert!(matches!(
        resolve_pull_auth(&plain, "pull", "quay.io").unwrap(),
        OciAuth::Anonymous
    ));
    let other = vec![(
        "ghcr.io.other.example".to_owned(),
        auth_entry(None, None, Some("dTpw")),
    )];
    assert!(matches!(
        resolve_pull_auth(&other, "pull", "ghcr.io").unwrap(),
        OciAuth::Anonymous
    ));
    for (address, named) in [
        ("ghcr.io", true),
        ("ghcr.io/team", true),
        ("ghcr.io/", true),
        ("ghcr.io:443", false),
        ("https://ghcr.io", false),
        ("https://ghcr.io/v2/", false),
    ] {
        let auths = vec![(address.to_owned(), auth_entry(None, None, Some("dTpw")))];
        let auth = resolve_pull_auth(&auths, "pull", "ghcr.io").unwrap();
        assert_eq!(matches!(auth, OciAuth::Basic { .. }), named, "{address}");
    }
    let half = vec![("quay.io".to_owned(), auth_entry(Some("u"), None, Some("  ")))];
    assert!(matches!(
        resolve_pull_auth(&half, "pull", "quay.io").unwrap(),
        OciAuth::Anonymous
    ));
}

#[test]
fn decoded_credentials_must_be_a_pair_of_texts() {
    assert_eq!(
        basic_auth("r", b"nopair".to_vec()).unwrap_err(),
        "`auths.r.auth` is not `user:pass`"
    );
    let err = basic_auth("r", vec![0xff]).unwrap_err();
    assert_eq!(
        err,
        "`auths.r.auth` not utf-8: invalid utf-8 sequence of 1 bytes from index 0"
    );
    assert!(
        matches!(basic_auth("r", b"u:p:q".to_vec()).unwrap(), OciAuth::Basic { username, password } if username == "u" && password == "p:q")
    );
}

#[test]
fn a_pull_secret_has_one_of_two_keys() {
    let mut data = ByteMap::new();
    assert!(matches!(
        docker_config(&data, "s"),
        Err(PullError::MissingSecretKey { name, key }) if name == "s" && key == ".dockerconfigjson"
    ));
    data.insert("dockerconfigjson", vec![1]);
    assert_eq!(docker_config(&data, "s").unwrap(), &vec![1]);
    data.insert(".dockerconfigjson", vec![2]);
    assert_eq!(docker_config(&data, "s").unwrap(), &vec![2]);
}

#[test]
fn a_pull_is_bounded() {
    let spec = OciImageRef {
        image: "ghcr.io/x/y@sha256:abcd".into(),
        pull_secret_ref: Some(LocalObjectReference { name: "creds".into() }),
        mirror_ref: None,
    };
    let req = pull_request(&spec, &PullOptions::default());
    assert_eq!(req.reference, "ghcr.io/x/y@sha256:abcd");
    assert_eq!(req.expected_digest.as_deref(), Some("sha256:abcd"));
    assert_eq!(req.secret, Some(("creds".to_owned(), "ghcr.io".to_owned())));
    assert!(matches!(
        after_transfer(&req, PullTransfer::TimedOut),
        Err(PullError::Timeout { reference, .. }) if reference == "ghcr.io/x/y@sha256:abcd"
    ));
    assert!(
        matches!(after_transfer(&req, PullTransfer::Failed("x".into())), Err(PullError::Upstream(m)) if m == "x")
    );
    assert_eq!(
        after_transfer(&req, PullTransfer::Done { manifest_digest: "d".into() }).unwrap(),
        "d"
    );
}

#[test]
fn a_deleted_plugin_only_loses_its_finalizer() {
    let p = plugin(PluginTrust::default(), None);
    let gone = Begin { deleting: true, ..begin() };
    let (s, a) = start(&gone);
    assert!(matches!(a, PluginAction::RemoveFinalizer));
    let (s, a) = step(&p, &gone, "mcpg-system", s, PluginEvent::FinalizerRemoved(Ok(())));
    assert!(matches!(s, PluginState::Done));
    assert!(matches!(a, PluginAction::Stop(v) if v.requeue == Requeue::AwaitChange));
    let (s, _) = start(&gone);
    let (_, a) = step(
        &p,
        &gone,
        "mcpg-system",
        s,
        PluginEvent::FinalizerRemoved(Err("conflict".into())),
    );
    assert!(matches!(a, PluginAction::Fail(ReconcileError::Finalizer(d)) if d == "conflict"));
    let (s, _) = start(&begin());
    let (s, a) = go(&p, s, PluginEvent::FinalizerAdded(Err("conflict".into())));
    assert!(matches!(s, PluginState::Done));
    assert!(matches!(a, PluginAction::Fail(ReconcileError::Finalizer(_))));
}
