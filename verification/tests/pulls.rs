use mcpg_operator::api::objects::ByteMap;
use mcpg_operator::api::resources::{LocalObjectReference, OciImageRef};
use mcpg_operator::oci_pull::flow::{
    pull_and_unpack, start, IoFailure, PackageFiles, PullAction, PullEvent, PullState,
};
use mcpg_operator::oci_pull::{
    ArtifactKind, DockerConfigAuth, OciAuth, PullArtefact, PullError, PullOptions, PullTransfer,
};

fn image(secret: Option<&str>) -> OciImageRef {
    OciImageRef {
        image: "ghcr.io/x/y@sha256:abcd".into(),
        pull_secret_ref: secret.map(|n| LocalObjectReference { name: n.into() }),
        mirror_ref: None,
    }
}

fn unpacked(kind: ArtifactKind, signed: bool) -> PullEvent {
    PullEvent::Unpacked(Ok(PackageFiles { kind, signed }))
}

fn broken() -> PullEvent {
    PullEvent::FileRead(Err(IoFailure {
        path: "/tmp/f".into(),
        detail: "gone".into(),
    }))
}

/// Runs an anonymous pull on the given events; the result of the last one.
fn pull(events: Vec<PullEvent>) -> Result<PullArtefact, PullError> {
    let (mut state, mut action) = start(&image(None), &PullOptions::default());
    for e in events {
        (state, action) = pull_and_unpack(state, e);
    }
    assert!(matches!(state, PullState::Done));
    match action {
        PullAction::Finish(r) => r,
        other => panic!("{other:?}"),
    }
}

fn arrived() -> Vec<PullEvent> {
    vec![
        PullEvent::DirectoryMade(Ok(())),
        PullEvent::Transferred(PullTransfer::Done {
            manifest_digest: "sha256:abcd".into(),
        }),
    ]
}

#[test]
fn a_pull_reads_what_arrived() {
    let mut events = arrived();
    events.push(unpacked(ArtifactKind::Native, true));
    for bytes in [vec![1], vec![2], vec![3]] {
        events.push(PullEvent::FileRead(Ok(bytes)));
    }
    let a = pull(events).unwrap();
    assert_eq!(a.manifest_digest, "sha256:abcd");
    assert_eq!(a.artifact_sha256, None);
    assert_eq!(a.artifact_bytes, [1]);
    assert_eq!(a.signature_bytes, Some(vec![2]));
    assert_eq!(a.descriptor_bytes, [3]);
    let mut events = arrived();
    events.push(unpacked(ArtifactKind::Native, false));
    events.push(PullEvent::FileRead(Ok(vec![1])));
    events.push(PullEvent::FileRead(Ok(vec![3])));
    let a = pull(events).unwrap();
    assert_eq!(a.signature_bytes, None);
    assert_eq!(a.descriptor_bytes, [3]);
}

#[test]
fn a_pull_takes_native_packages_only() {
    let mut events = arrived();
    events.push(unpacked(ArtifactKind::Wasm, false));
    assert!(matches!(
        pull(events),
        Err(PullError::UnexpectedWasmArtifact { reference }) if reference == "ghcr.io/x/y@sha256:abcd"
    ));
    let mut events = arrived();
    events.push(PullEvent::Unpacked(Err("short".into())));
    assert!(matches!(pull(events), Err(PullError::Unpack(d)) if d == "short"));
}

#[test]
fn a_pull_that_hangs_times_out() {
    let events = vec![
        PullEvent::DirectoryMade(Ok(())),
        PullEvent::Transferred(PullTransfer::TimedOut),
    ];
    assert!(matches!(
        pull(events),
        Err(PullError::Timeout { timeout_secs: 300, .. })
    ));
    let events = vec![
        PullEvent::DirectoryMade(Ok(())),
        PullEvent::Transferred(PullTransfer::Failed("denied".into())),
    ];
    assert!(matches!(pull(events), Err(PullError::Upstream(d)) if d == "denied"));
    let events = vec![PullEvent::DirectoryMade(Err(IoFailure {
        path: "/tmp".into(),
        detail: "full".into(),
    }))];
    assert!(matches!(
        pull(events),
        Err(PullError::Io { path, detail }) if path == "/tmp" && detail == "full"
    ));
    let mut events = arrived();
    events.push(unpacked(ArtifactKind::Native, true));
    events.push(broken());
    assert!(matches!(pull(events), Err(PullError::Io { path, .. }) if path == "/tmp/f"));
}

#[test]
fn a_pull_with_a_secret_resolves_its_credentials_first() {
    let options = PullOptions {
        insecure_registries: vec!["ghcr.io".into()],
        ..PullOptions::default()
    };
    let (s, a) = start(&image(Some("creds")), &options);
    assert!(matches!(a, PullAction::FindSecret(n) if n == "creds"));
    let mut data = ByteMap::new();
    data.insert(".dockerconfigjson", vec![7]);
    let (s, a) = pull_and_unpack(s, PullEvent::SecretFound(Ok(data)));
    assert!(matches!(a, PullAction::ParseConfig(b) if b == [7]));
    let auths = vec![(
        "ghcr.io".to_owned(),
        DockerConfigAuth {
            username: Some("u".into()),
            password: Some("p".into()),
            auth: None,
        },
    )];
    let (s, a) = pull_and_unpack(s, PullEvent::ConfigParsed(Ok(auths)));
    assert!(matches!(a, PullAction::MakeDirectory));
    let (_, a) = pull_and_unpack(s, PullEvent::DirectoryMade(Ok(())));
    match a {
        PullAction::Transfer {
            reference,
            auth,
            expected_digest,
            insecure_registries,
            timeout_secs,
        } => {
            assert_eq!(reference, "ghcr.io/x/y@sha256:abcd");
            assert!(matches!(auth, OciAuth::Basic { username, .. } if username == "u"));
            assert_eq!(expected_digest.as_deref(), Some("sha256:abcd"));
            assert_eq!(insecure_registries, ["ghcr.io"]);
            assert_eq!(timeout_secs, 300);
        }
        other => panic!("{other:?}"),
    }
}

#[test]
fn a_pull_secret_can_be_wrong() {
    let begin = || start(&image(Some("creds")), &PullOptions::default()).0;
    let end = |s, e| match pull_and_unpack(s, e).1 {
        PullAction::Finish(Err(e)) => e,
        other => panic!("{other:?}"),
    };
    let e = end(begin(), PullEvent::SecretFound(Err("forbidden".into())));
    assert!(matches!(e, PullError::Kube(d) if d == "forbidden"));
    let e = end(begin(), PullEvent::SecretFound(Ok(ByteMap::new())));
    assert!(matches!(e, PullError::MissingSecretKey { name, .. } if name == "creds"));
    let mut data = ByteMap::new();
    data.insert("dockerconfigjson", vec![1]);
    let (s, _) = pull_and_unpack(begin(), PullEvent::SecretFound(Ok(data)));
    let e = end(s, PullEvent::ConfigParsed(Err("no json".into())));
    assert!(matches!(
        e,
        PullError::MalformedDockerConfig { name, detail } if name == "creds" && detail == "no json"
    ));
    let (s, a) = pull_and_unpack(PullState::Done, PullEvent::DirectoryMade(Ok(())));
    assert!(matches!(s, PullState::Done));
    assert!(matches!(a, PullAction::Nothing));
}
