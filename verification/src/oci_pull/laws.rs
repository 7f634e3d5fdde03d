//! What image references, credentials and pulls come to.
use vstd::prelude::*;
use vstd::utf8::*;

use crate::api::objects::ByteMap;
use crate::api::resources::OciImageRef;
use crate::oci_pull::flow::{starts, step_is, IoFailure, PackageFiles, PullAction, PullEvent, PullState};
use crate::oci_pull::{
    auth_entry, base64_decoded, cut, digest_hex, entry_auth, first_where, is_registry, is_under,
    last_segment, names_registry, pinned_digest, registry_auth, registry_of, repository, requests,
    secret_key, ArtifactKind, DockerConfigAuth, OciAuth, OciAuthView, PullError, PullOptions,
    PullRequest, PullTransfer,
};
use crate::text::{find, lower, opt_text, rfind, starts_with, texts, trim};
use crate::text_laws::{law_find, law_parts_are_found};

verus! {

/// A text is cut at the first separator: what stands before has none, and what
/// stands behind is the rest. Without a separator it is not cut.
pub proof fn law_cut(a: Seq<char>, c: char, b: Seq<char>)
    ensures
        !a.contains(c) ==> cut(a + seq![c] + b, c) == Some((a, b)) && cut(a, c) is None,
        a.contains(c) ==> cut(a, c) is Some,
{
    let s = a + seq![c] + b;
    law_find(s, c);
    law_find(a, c);
    if !a.contains(c) {
        assert(s[a.len() as int] == c);
        let i = find(s, c)->0;
        if i < a.len() {
            assert(s[i] == a[i]);
            assert(a.contains(a[i]));
        }
        assert(i == a.len());
        assert(s.take(i) =~= a);
        assert(s.skip(i + 1) =~= b);
    }
}

/// The registry of a reference is the host that it names before the first
/// slash; what has neither a dot nor a port is no host, and the image is then one
/// of Docker Hub, as is one without a slash.
pub proof fn law_registry(host: Seq<char>, rest: Seq<char>)
    requires
        !host.contains('/'),
    ensures
        host.contains('.') || host.contains(':') ==> registry_of(host + seq!['/'] + rest) == host,
        !host.contains('.') && !host.contains(':') ==> registry_of(host + seq!['/'] + rest)
            == "index.docker.io"@,
        registry_of(host) == "index.docker.io"@,
{
    law_cut(host, '/', rest);
}

/// Neither a tag nor a digest is part of the repository, and a port of the
/// registry is no tag. The digest is what follows the `@`.
pub proof fn law_repository(
    path: Seq<char>,
    name: Seq<char>,
    tag: Seq<char>,
    digest: Seq<char>,
)
    requires
        path.len() == 0 || path.last() == '/',
        !path.contains('@'),
        !name.contains('/') && !name.contains(':') && !name.contains('@'),
        !tag.contains('/') && !tag.contains('@'),
    ensures
        repository(path + name) == path + name,
        repository(path + name + seq![':'] + tag) == path + name,
        repository(path + name + seq!['@'] + digest) == path + name,
        repository(path + name + seq![':'] + tag + seq!['@'] + digest) == path + name,
        pinned_digest(path + name) is None,
        pinned_digest(path + name + seq![':'] + tag) is None,
        pinned_digest(path + name + seq!['@'] + digest) == Some(digest),
        pinned_digest(path + name + seq![':'] + tag + seq!['@'] + digest) == Some(digest),
{
    let bare = path + name;
    let tagged = path + name + seq![':'] + tag;
    assert(!bare.contains('@')) by {
        lemma_joined_lacks(path, name, '@');
    }
    assert(!tagged.contains('@')) by {
        lemma_joined_lacks(bare, seq![':'], '@');
        lemma_joined_lacks(bare + seq![':'], tag, '@');
    }
    law_cut(bare, '@', digest);
    law_cut(tagged, '@', digest);
    lemma_untagged(path, name);
    lemma_tagged(path, name, tag);
}

proof fn lemma_joined_lacks(a: Seq<char>, b: Seq<char>, c: char)
    requires
        !a.contains(c),
        !b.contains(c),
    ensures
        !(a + b).contains(c),
{
    if (a + b).contains(c) {
        let k = choose|k: int| 0 <= k < (a + b).len() && (a + b)[k] == c;
        if k < a.len() {
            assert(a[k] == c);
        } else {
            assert(b[k - a.len()] == c);
        }
    }
}

proof fn lemma_last_slash(path: Seq<char>, tail: Seq<char>)
    requires
        path.len() == 0 || path.last() == '/',
        !tail.contains('/'),
    ensures
        last_segment(path + tail) == path.len(),
{
    let s = path + tail;
    law_find(s, '/');
    match rfind(s, '/') {
        Some(i) => {
            if i >= path.len() {
                assert(tail[i - path.len()] == '/');
            } else if i < path.len() - 1 {
                assert(s[path.len() - 1] == '/');
            }
        },
        None => {
            if path.len() > 0 {
                assert(s[path.len() - 1] == '/');
                assert(s.contains('/'));
            }
        },
    }
}

proof fn lemma_untagged(path: Seq<char>, name: Seq<char>)
    requires
        path.len() == 0 || path.last() == '/',
        !name.contains('/') && !name.contains(':'),
        !(path + name).contains('@'),
    ensures
        repository(path + name) == path + name,
{
    let s = path + name;
    law_find(s, '@');
    lemma_last_slash(path, name);
    assert(s.skip(path.len() as int) =~= name);
    law_find(name, ':');
}

proof fn lemma_tagged(path: Seq<char>, name: Seq<char>, tag: Seq<char>)
    requires
        path.len() == 0 || path.last() == '/',
        !name.contains('/') && !name.contains(':'),
        !tag.contains('/'),
        !(path + name + seq![':'] + tag).contains('@'),
    ensures
        repository(path + name + seq![':'] + tag) == path + name,
{
    let s = path + name + seq![':'] + tag;
    let tail = name + seq![':'] + tag;
    assert(s =~= path + tail);
    law_find(s, '@');
    lemma_joined_lacks(name, seq![':'], '/');
    lemma_joined_lacks(name + seq![':'], tag, '/');
    lemma_last_slash(path, tail);
    assert(s.skip(path.len() as int) =~= tail);
    law_cut(name, ':', tag);
    law_find(tail, ':');
    let i = find(tail, ':')->0;
    assert(tail.take(i) == name);
    assert(tail.take(i).len() == name.len());
    assert(s.take(path.len() + i) =~= path + name);
}

/// Of a digest its hex digits count, in lower case, with or without the prefix.
pub proof fn law_digest_is_its_hex(hex: Seq<char>)
    ensures
        digest_hex("sha256:"@ + hex) == lower(hex),
        !starts_with(hex, "sha256:"@) ==> digest_hex(hex) == lower(hex),
{
    law_parts_are_found(Seq::empty(), "sha256:"@, hex);
}

proof fn lemma_first(auths: Seq<(String, DockerConfigAuth)>, p: spec_fn(Seq<char>) -> bool)
    ensures
        match first_where(auths, p) {
            Some(i) => 0 <= i < auths.len() && p(auths[i].0@) && forall|j: int|
                0 <= j < i ==> !p((#[trigger] auths[j]).0@),
            None => forall|j: int| 0 <= j < auths.len() ==> !p((#[trigger] auths[j]).0@),
        },
    decreases auths.len(),
{
    if auths.len() > 0 {
        let init = auths.drop_last();
        lemma_first(init, p);
        assert forall|j: int| 0 <= j < init.len() implies #[trigger] auths[j] == init[j] by {}
    }
}

/// The credentials for a registry are those under its own address, or, where
/// there are none, the first under a path of it; there are none exactly when no
/// address is the registry or a path of it.
pub proof fn law_credentials_are_the_registrys(
    auths: Seq<(String, DockerConfigAuth)>,
    registry: Seq<char>,
)
    ensures
        match auth_entry(auths, registry) {
            Some(i) => {
                &&& 0 <= i < auths.len()
                &&& auths[i].0@ == registry || {
                    &&& starts_with(auths[i].0@, registry + "/"@)
                    &&& forall|j: int| 0 <= j < auths.len() ==> (#[trigger] auths[j]).0@ != registry
                    &&& forall|j: int|
                        0 <= j < i ==> !starts_with((#[trigger] auths[j]).0@, registry + "/"@)
                }
            },
            None => forall|j: int|
                0 <= j < auths.len() ==> (#[trigger] auths[j]).0@ != registry && !starts_with(
                    auths[j].0@,
                    registry + "/"@,
                ),
        },
        (exists|j: int| 0 <= j < auths.len() && (#[trigger] auths[j]).0@ == registry) ==> (
        auth_entry(auths, registry) matches Some(i) && auths[i].0@ == registry),
        registry_auth(auths, registry) == (match auth_entry(auths, registry) {
            Some(i) => entry_auth(registry, auths[i].1),
            None => Ok(OciAuthView::Anonymous),
        }),
{
    let exact = is_registry(registry);
    let under = names_registry(registry);
    lemma_first(auths, exact);
    lemma_first(auths, under);
    assert forall|j: int| 0 <= j < auths.len() implies exact((#[trigger] auths[j]).0@) == (
    auths[j].0@ == registry) && under(auths[j].0@) == is_under(auths[j].0@, registry) by {}
}

/// An entry with a token gives the user before the first colon of what the
/// token decodes to, and the password behind it; one without a token gives its
/// user and password; one with neither gives nothing. A token that does not
/// decode, or holds no colon, gives an error.
pub proof fn law_entry_gives_its_credentials(
    registry: Seq<char>,
    e: DockerConfigAuth,
    user: Seq<char>,
    password: Seq<char>,
)
    ensures
        e.auth matches Some(t) ==> (trim(t@).len() > 0 && !user.contains(':') && base64_decoded(
            trim(t@),
        ) == Ok::<Seq<u8>, Seq<char>>(encode_utf8(user + seq![':'] + password)) ==> entry_auth(
            registry,
            e,
        ) == Ok::<OciAuthView, Seq<char>>(OciAuthView::Basic { username: user, password })),
        e.auth matches Some(t) ==> (trim(t@).len() > 0 && base64_decoded(trim(t@)) is Err
            ==> entry_auth(registry, e) is Err),
        e.auth matches Some(t) ==> (trim(t@).len() > 0 && !user.contains(':') && base64_decoded(
            trim(t@),
        ) == Ok::<Seq<u8>, Seq<char>>(encode_utf8(user)) ==> entry_auth(registry, e) is Err),
        e.auth is None || trim(e.auth->0@).len() == 0 ==> entry_auth(registry, e) == Ok::<
            OciAuthView,
            Seq<char>,
        >(
            match (e.username, e.password) {
                (Some(u), Some(p)) => OciAuthView::Basic { username: u@, password: p@ },
                _ => OciAuthView::Anonymous,
            },
        ),
{
    let both = user + seq![':'] + password;
    encode_utf8_valid_utf8(both);
    encode_utf8_decode_utf8(both);
    encode_utf8_valid_utf8(user);
    encode_utf8_decode_utf8(user);
    law_cut(user, ':', password);
}

/// The document with the credentials is the one under the key with the dot, else
/// the one under the key without.
pub proof fn law_secret_key(data: Map<Seq<char>, Seq<u8>>)
    ensures
        secret_key(data) == Some(".dockerconfigjson"@) <==> data.dom().contains(
            ".dockerconfigjson"@,
        ),
        secret_key(data) is None <==> !data.dom().contains(".dockerconfigjson"@)
            && !data.dom().contains("dockerconfigjson"@),
        secret_key(data) matches Some(k) ==> data.dom().contains(k) && (k == ".dockerconfigjson"@
            || k == "dockerconfigjson"@),
{
    reveal_strlit(".dockerconfigjson");
    reveal_strlit("dockerconfigjson");
    assert(".dockerconfigjson"@.len() == 17);
    assert("dockerconfigjson"@.len() == 16);
}

/// What is asked of a pull is the image itself, with the credentials of its own
/// registry out of its own pull secret where it names one, at the digest that it
/// pins, within the bounds that were given.
pub proof fn law_pull_asks_for_the_image(
    spec: OciImageRef,
    options: PullOptions,
    q: PullRequest,
    host: Seq<char>,
    rest: Seq<char>,
)
    requires
        requests(spec, options, q),
        !host.contains('/'),
        host.contains('.') || host.contains(':'),
        spec.image@ == host + seq!['/'] + rest,
    ensures
        q.reference@ == spec.image@,
        q.secret is Some <==> spec.pull_secret_ref is Some,
        q.secret matches Some(s) ==> s.0@ == spec.pull_secret_ref->0.name@ && s.1@ == host,
        opt_text(q.expected_digest) == pinned_digest(spec.image@),
        texts(q.insecure_registries@) == texts(options.insecure_registries@),
        q.timeout_secs == options.timeout_secs,
{
    law_registry(host, rest);
}

/// A pull with a secret begins by looking the secret up, and goes on with the
/// document in it; one without begins at once, without credentials.
pub proof fn law_pull_begins_with_its_secret(
    spec: OciImageRef,
    options: PullOptions,
    s: PullState,
    x: PullAction,
    data: ByteMap,
    n: PullState,
    y: PullAction,
)
    requires
        starts(spec, options, s, x),
        spec.pull_secret_ref is Some ==> step_is(s, PullEvent::SecretFound(Ok(data)), n, y),
    ensures
        spec.pull_secret_ref matches Some(p) ==> {
            &&& x matches PullAction::FindSecret(name) && name@ == p.name@
            &&& data@.dom().contains(".dockerconfigjson"@) ==> (y matches PullAction::ParseConfig(b)
                && b@ == data@[".dockerconfigjson"@])
            &&& !data@.dom().contains(".dockerconfigjson"@) && data@.dom().contains(
                "dockerconfigjson"@,
            ) ==> (y matches PullAction::ParseConfig(b) && b@ == data@["dockerconfigjson"@])
            &&& !data@.dom().contains(".dockerconfigjson"@) && !data@.dom().contains(
                "dockerconfigjson"@,
            ) ==> (y matches PullAction::Finish(Err(PullError::MissingSecretKey { name, key }))
                && name@ == p.name@ && key@ == ".dockerconfigjson"@)
        },
        spec.pull_secret_ref is None ==> x is MakeDirectory && (s matches PullState::MakingDirectory(
            _,
            a,
        ) && a is Anonymous),
{
}

/// The package is transferred with the credentials of its registry.
pub proof fn law_transfer_uses_the_credentials(
    q: PullRequest,
    auths: Vec<(String, DockerConfigAuth)>,
    s: PullState,
    x: PullAction,
    n: PullState,
    y: PullAction,
)
    requires
        q.secret is Some,
        registry_auth(auths@, (q.secret->0).1@) is Ok,
        step_is(PullState::ParsingConfig(q), PullEvent::ConfigParsed(Ok(auths)), s, x),
        step_is(s, PullEvent::DirectoryMade(Ok(())), n, y),
    ensures
        x is MakeDirectory,
        y matches PullAction::Transfer { reference, auth, expected_digest, timeout_secs, .. } && {
            &&& reference@ == q.reference@
            &&& auth@ == registry_auth(auths@, (q.secret->0).1@)->Ok_0
            &&& opt_text(expected_digest) == opt_text(q.expected_digest)
            &&& timeout_secs == q.timeout_secs
        },
        n == PullState::Transferring(q),
{
}

/// Credentials that cannot be read end the pull with an error that names the
/// secret.
pub proof fn law_bad_credentials_end_the_pull(
    q: PullRequest,
    parsed: Result<Vec<(String, DockerConfigAuth)>, String>,
    s: PullState,
    x: PullAction,
)
    requires
        q.secret is Some,
        step_is(PullState::ParsingConfig(q), PullEvent::ConfigParsed(parsed), s, x),
        parsed is Err || registry_auth(parsed->Ok_0@, (q.secret->0).1@) is Err,
    ensures
        s is Done,
        x matches PullAction::Finish(Err(PullError::MalformedDockerConfig { name, detail })) && name@
            == (q.secret->0).0@ && detail@ == (match parsed {
            Ok(auths) => registry_auth(auths@, (q.secret->0).1@)->Err_0,
            Err(d) => d@,
        }),
{
}

/// A signed package is read file by file, and each file ends up where it belongs
/// in the artefact, beside the digest of what arrived.
pub proof fn law_signed_package_is_read(
    q: PullRequest,
    digest: String,
    artefact: Vec<u8>,
    signature: Vec<u8>,
    descriptor: Vec<u8>,
    s: Seq<PullState>,
    x: Seq<PullAction>,
)
    requires
        s.len() == 5,
        x.len() == 5,
        step_is(
            PullState::Transferring(q),
            PullEvent::Transferred(PullTransfer::Done { manifest_digest: digest }),
            s[0],
            x[0],
        ),
        step_is(
            s[0],
            PullEvent::Unpacked(Ok(PackageFiles { kind: ArtifactKind::Native, signed: true })),
            s[1],
            x[1],
        ),
        step_is(s[1], PullEvent::FileRead(Ok(artefact)), s[2], x[2]),
        step_is(s[2], PullEvent::FileRead(Ok(signature)), s[3], x[3]),
        step_is(s[3], PullEvent::FileRead(Ok(descriptor)), s[4], x[4]),
    ensures
        x[0] is Unpack,
        x[1] is ReadArtefact,
        x[2] is ReadSignature,
        x[3] is ReadDescriptor,
        s[4] is Done,
        x[4] matches PullAction::Finish(Ok(a)) && {
            &&& a.manifest_digest@ == digest@
            &&& a.artifact_bytes@ == artefact@
            &&& a.signature_bytes matches Some(g) && g@ == signature@
            &&& a.descriptor_bytes@ == descriptor@
        },
{
}

/// An unsigned package is read likewise, without a signature.
pub proof fn law_unsigned_package_is_read(
    q: PullRequest,
    digest: String,
    artefact: Vec<u8>,
    descriptor: Vec<u8>,
    s: Seq<PullState>,
    x: Seq<PullAction>,
)
    requires
        s.len() == 3,
        x.len() == 3,
        step_is(
            PullState::Unpacking(q, digest),
            PullEvent::Unpacked(Ok(PackageFiles { kind: ArtifactKind::Native, signed: false })),
            s[0],
            x[0],
        ),
        step_is(s[0], PullEvent::FileRead(Ok(artefact)), s[1], x[1]),
        step_is(s[1], PullEvent::FileRead(Ok(descriptor)), s[2], x[2]),
    ensures
        x[0] is ReadArtefact,
        x[1] is ReadDescriptor,
        s[2] is Done,
        x[2] matches PullAction::Finish(Ok(a)) && {
            &&& a.manifest_digest@ == digest@
            &&& a.artifact_bytes@ == artefact@
            &&& a.signature_bytes is None
            &&& a.descriptor_bytes@ == descriptor@
        },
{
}

/// Whether the pull ends with this error.
pub open spec fn ends_with_error(n: PullState, x: PullAction, e: PullError) -> bool {
    n is Done && x == PullAction::Finish(Err(e))
}

/// Whatever fails ends the pull, with an error that says what failed. A package
/// that is not native, and one that takes too long, fail.
pub proof fn law_failures_end_the_pull(
    q: PullRequest,
    auth: OciAuth,
    digest: String,
    signed: bool,
    bytes: Vec<u8>,
    signature: Option<Vec<u8>>,
    detail: String,
    io: IoFailure,
    n: PullState,
    x: PullAction,
)
    ensures
        step_is(PullState::FindingSecret(q), PullEvent::SecretFound(Err(detail)), n, x)
            ==> ends_with_error(n, x, PullError::Kube(detail)),
        step_is(PullState::MakingDirectory(q, auth), PullEvent::DirectoryMade(Err(io)), n, x)
            ==> ends_with_error(n, x, PullError::Io { path: io.path, detail: io.detail }),
        step_is(
            PullState::Transferring(q),
            PullEvent::Transferred(PullTransfer::Failed(detail)),
            n,
            x,
        ) ==> ends_with_error(n, x, PullError::Upstream(detail)),
        step_is(PullState::Transferring(q), PullEvent::Transferred(PullTransfer::TimedOut), n, x)
            ==> n is Done && (x matches PullAction::Finish(
            Err(PullError::Timeout { reference, timeout_secs }),
        ) && reference@ == q.reference@ && timeout_secs == q.timeout_secs),
        step_is(PullState::Unpacking(q, digest), PullEvent::Unpacked(Err(detail)), n, x)
            ==> ends_with_error(n, x, PullError::Unpack(detail)),
        step_is(
            PullState::Unpacking(q, digest),
            PullEvent::Unpacked(Ok(PackageFiles { kind: ArtifactKind::Wasm, signed })),
            n,
            x,
        ) ==> n is Done && (x matches PullAction::Finish(
            Err(PullError::UnexpectedWasmArtifact { reference }),
        ) && reference@ == q.reference@),
        step_is(PullState::ReadingArtefact(digest, signed), PullEvent::FileRead(Err(io)), n, x)
            ==> ends_with_error(n, x, PullError::Io { path: io.path, detail: io.detail }),
        step_is(PullState::ReadingSignature(digest, bytes), PullEvent::FileRead(Err(io)), n, x)
            ==> ends_with_error(n, x, PullError::Io { path: io.path, detail: io.detail }),
        step_is(
            PullState::ReadingDescriptor(digest, bytes, signature),
            PullEvent::FileRead(Err(io)),
            n,
            x,
        ) ==> ends_with_error(n, x, PullError::Io { path: io.path, detail: io.detail }),
{
}

/// Two credentials that say the same are the same: both are none, or both have
/// the same user and the same password.
pub proof fn law_credentials_hide_nothing(a: OciAuth, b: OciAuth)
    requires
        a@ == b@,
    ensures
        a is Anonymous <==> b is Anonymous,
        a is Basic ==> a->username@ == b->username@ && a->password@ == b->password@,
        a is Basic ==> (a@ matches OciAuthView::Basic { username, password } && username
            == a->username@ && password == a->password@),
{
}

} // verus!
