//! Image references, and the credentials and bounds of a pull.
use base64::Engine;
use vstd::prelude::*;
use vstd::utf8::*;

use crate::api::objects::ByteMap;
use crate::api::resources::OciImageRef;
use crate::text::{
    begins, chars_of, clone_texts, decimal, decimal_text, find, find_char, has_char, lemma_find, lower, lowered,
    opt_text, rfind, rfind_char, same, starts_with, strip_prefix, text_of, texts, trim,
    trimmed, without_prefix,
};

pub mod flow;
pub mod laws;

verus! {

/// How long a pull may take, in seconds, unless it is told otherwise.
pub const DEFAULT_PULL_TIMEOUT_SECS: u64 = 300;

/// The bounds of a pull.
#[derive(Debug, Clone)]
pub struct PullOptions {
    /// Registries that are spoken to without TLS: in-cluster mirrors only.
    pub insecure_registries: Vec<String>,
    /// How long the pull may take.
    pub timeout_secs: u64,
}

impl Default for PullOptions {
    fn default() -> (r: PullOptions)
        ensures
            r.insecure_registries@.len() == 0,
            r.timeout_secs == DEFAULT_PULL_TIMEOUT_SECS,
    {
        PullOptions { insecure_registries: Vec::new(), timeout_secs: DEFAULT_PULL_TIMEOUT_SECS }
    }
}

/// A plugin package, pulled and unpacked.
#[derive(Debug, Clone)]
pub struct PullArtefact {
    /// The digest of the manifest that was pulled.
    pub manifest_digest: String,
    /// The SHA-256 of the artefact, once it was verified.
    pub artifact_sha256: Option<String>,
    pub artifact_bytes: Vec<u8>,
    pub signature_bytes: Option<Vec<u8>>,
    pub descriptor_bytes: Vec<u8>,
}

/// Why a pull failed.
#[derive(Debug, Clone)]
pub enum PullError {
    Upstream(String),
    Unpack(String),
    MissingSecretKey { name: String, key: String },
    MalformedDockerConfig { name: String, detail: String },
    Kube(String),
    Io { path: String, detail: String },
    UnexpectedWasmArtifact { reference: String },
    Timeout { reference: String, timeout_secs: u64 },
}

/// What a pull error says.
pub open spec fn pull_error_text(e: PullError) -> Seq<char> {
    match e {
        PullError::Upstream(d) => "upstream OCI pull: "@ + d@,
        PullError::Unpack(d) => "unpack: "@ + d@,
        PullError::MissingSecretKey { name, key } => "pull secret `"@ + name@ + "` missing key `"@
            + key@ + "`"@,
        PullError::MalformedDockerConfig { name, detail } => "pull secret `"@ + name@
            + "` malformed dockerconfigjson: "@ + detail@,
        PullError::Kube(d) => "kube: "@ + d@,
        PullError::Io { path, detail } => "I/O at "@ + path@ + ": "@ + detail@,
        PullError::UnexpectedWasmArtifact { reference } => "expected native cdylib artefact in "@
            + reference@
            + ", got WASM artefact instead (only native plugins are supported)"@,
        PullError::Timeout { reference, timeout_secs } => "OCI pull for "@ + reference@
            + " timed out after "@ + decimal(timeout_secs as nat)
            + "s; a slow / hung registry will not block reconciles indefinitely. Investigate registry latency / reachability from the operator"@,
    }
}

impl PullError {
    /// What the error says.
    pub fn message(&self) -> (r: String)
        ensures
            r@ == pull_error_text(*self),
    {
        match self {
            PullError::Upstream(d) => "upstream OCI pull: ".to_owned().concat(d.as_str()),
            PullError::Unpack(d) => "unpack: ".to_owned().concat(d.as_str()),
            PullError::MissingSecretKey { name, key } => "pull secret `".to_owned().concat(
                name.as_str(),
            ).concat("` missing key `").concat(key.as_str()).concat("`"),
            PullError::MalformedDockerConfig { name, detail } => "pull secret `".to_owned().concat(
                name.as_str(),
            ).concat("` malformed dockerconfigjson: ").concat(detail.as_str()),
            PullError::Kube(d) => "kube: ".to_owned().concat(d.as_str()),
            PullError::Io { path, detail } => "I/O at ".to_owned().concat(path.as_str()).concat(
                ": ",
            ).concat(detail.as_str()),
            PullError::UnexpectedWasmArtifact { reference } => {
                "expected native cdylib artefact in ".to_owned().concat(reference.as_str()).concat(
                    ", got WASM artefact instead (only native plugins are supported)",
                )
            },
            PullError::Timeout { reference, timeout_secs } => "OCI pull for ".to_owned().concat(
                reference.as_str(),
            ).concat(" timed out after ").concat(decimal_text(*timeout_secs).as_str()).concat(
                "s; a slow / hung registry will not block reconciles indefinitely. Investigate registry latency / reachability from the operator",
            ),
        }
    }
}

/// `s` cut at the first `c`: what comes before it, and what comes after.
pub open spec fn cut(s: Seq<char>, c: char) -> Option<(Seq<char>, Seq<char>)> {
    match find(s, c) {
        Some(i) => Some((s.take(i), s.skip(i + 1))),
        None => None,
    }
}

/// `s` cut at the first `c`.
pub fn split_once(s: &str, c: char) -> (r: Option<(String, String)>)
    ensures
        match r {
            Some(p) => cut(s@, c) == Some((p.0@, p.1@)),
            None => cut(s@, c) is None,
        },
{
    let v = chars_of(s);
    match find_char(&v, c) {
        Some(i) => {
            proof {
                assert(v@.subrange(0, i as int) =~= v@.take(i as int));
                assert(v@.subrange(i + 1, v@.len() as int) =~= v@.skip(i + 1));
            }
            let a = text_of(&v, 0, i);
            let b = text_of(&v, i + 1, v.len());
            Some((a, b))
        },
        None => None,
    }
}

/// The registry of an image reference: what comes before the first slash,
/// where that looks like a host; else Docker Hub.
pub open spec fn registry_of(reference: Seq<char>) -> Seq<char> {
    match cut(reference, '/') {
        Some((host, _)) => if host.contains('.') || host.contains(':') {
            host
        } else {
            "index.docker.io"@
        },
        None => "index.docker.io"@,
    }
}

/// The registry of an image reference.
pub fn registry_from_reference(reference: &str) -> (r: String)
    ensures
        r@ == registry_of(reference@),
{
    match split_once(reference, '/') {
        Some((host, _)) => {
            if has_char(host.as_str(), '.') || has_char(host.as_str(), ':') {
                host
            } else {
                "index.docker.io".to_owned()
            }
        },
        None => "index.docker.io".to_owned(),
    }
}

/// What comes before the digest of an image reference.
pub open spec fn before_digest(reference: Seq<char>) -> Seq<char> {
    match cut(reference, '@') {
        Some((repo, _)) => repo,
        None => reference,
    }
}

/// Where the last segment of a repository begins.
pub open spec fn last_segment(repo: Seq<char>) -> int {
    match rfind(repo, '/') {
        Some(i) => i + 1,
        None => 0,
    }
}

/// The repository of an image reference, without tag and digest. Only a
/// colon in the last segment separates a tag; an earlier one belongs to the
/// registry's port.
pub open spec fn repository(reference: Seq<char>) -> Seq<char> {
    let repo = before_digest(reference);
    let from = last_segment(repo);
    match find(repo.skip(from), ':') {
        Some(i) => repo.take(from + i),
        None => repo,
    }
}

/// The repository of an image reference, without tag and digest.
pub fn repository_of(reference: &str) -> (r: String)
    ensures
        r@ == repository(reference@),
{
    let repo = match split_once(reference, '@') {
        Some((repo, _)) => repo,
        None => reference.to_owned(),
    };
    let v = chars_of(repo.as_str());
    let from: usize = match rfind_char(&v, '/') {
        Some(i) => i + 1,
        None => 0,
    };
    let tail = text_of(&v, from, v.len());
    let w = chars_of(tail.as_str());
    proof {
        assert(v@.subrange(from as int, v@.len() as int) =~= v@.skip(from as int));
    }
    match find_char(&w, ':') {
        Some(i) => {
            proof {
                assert(v@.subrange(0, from + i) =~= v@.take(from + i));
            }
            text_of(&v, 0, from + i)
        },
        None => repo,
    }
}

/// The digest an image reference pins.
pub open spec fn pinned_digest(reference: Seq<char>) -> Option<Seq<char>> {
    match cut(reference, '@') {
        Some((_, digest)) => Some(digest),
        None => None,
    }
}

/// The digest an image reference pins, if it pins one.
pub fn digest_of(reference: &str) -> (r: Option<String>)
    ensures
        opt_text(r) == pinned_digest(reference@),
{
    match split_once(reference, '@') {
        Some((_, digest)) => Some(digest),
        None => None,
    }
}

/// The reference to the same repository at the given digest.
pub open spec fn pinned(reference: Seq<char>, digest: Seq<char>) -> Seq<char> {
    repository(reference) + "@"@ + digest
}

/// The reference to the same repository at the given digest; a tag or
/// another digest is dropped.
pub fn pin_to_digest(reference: &str, digest: &str) -> (r: String)
    ensures
        r@ == pinned(reference@, digest@),
{
    repository_of(reference).concat("@").concat(digest)
}

/// The hexadecimal part of a digest, in lower case.
pub open spec fn digest_hex(d: Seq<char>) -> Seq<char> {
    lower(
        match strip_prefix(d, "sha256:"@) {
            Some(h) => h,
            None => d,
        },
    )
}

fn hex_part(d: &str) -> (r: String)
    ensures
        r@ == digest_hex(d@),
{
    match without_prefix(d, "sha256:") {
        Some(h) => lowered(h.as_str()),
        None => lowered(d),
    }
}

/// Whether two digests are the same, with or without their prefix and
/// whatever the case of their letters.
pub fn digests_match(a: &str, b: &str) -> (r: bool)
    ensures
        r == (digest_hex(a@) == digest_hex(b@)),
{
    let x = hex_part(a);
    let y = hex_part(b);
    same(x.as_str(), y.as_str())
}

proof fn lemma_repository_no_at(reference: Seq<char>)
    ensures
        find(repository(reference), '@') is None,
{
    let repo = before_digest(reference);
    lemma_find(reference, '@');
    lemma_find(repo, '@');
    lemma_find(repo.skip(last_segment(repo)), ':');
    lemma_find(repository(reference), '@');
    assert(forall|j: int| 0 <= j < repo.len() ==> repo[j] != '@');
    lemma_rfind(repo, '/');
}

proof fn lemma_rfind(s: Seq<char>, c: char)
    ensures
        match rfind(s, c) {
            Some(i) => 0 <= i < s.len() && s[i] == c && forall|j: int| i < j < s.len() ==> s[j] != c,
            None => forall|j: int| 0 <= j < s.len() ==> s[j] != c,
        },
    decreases s.len(),
{
    if s.len() > 0 && s.last() != c {
        lemma_rfind(s.drop_last(), c);
        assert forall|j: int| 0 <= j < s.len() - 1 implies s[j] == s.drop_last()[j] by {}
    }
}

proof fn lemma_cut_at(repo: Seq<char>, digest: Seq<char>)
    requires
        find(repo, '@') is None,
    ensures
        cut(repo + "@"@ + digest, '@') == Some((repo, digest)),
{
    reveal_strlit("@");
    let s = repo + "@"@ + digest;
    lemma_find(s, '@');
    lemma_find(repo, '@');
    assert(s[repo.len() as int] == '@');
    let i = find(s, '@')->0;
    if i < repo.len() {
        assert(s[i] == repo[i]);
    }
    assert(i == repo.len());
    assert(s.take(i) =~= repo);
    assert(s.skip(i + 1) =~= digest);
}

/// Pinning names the digest, whatever the reference named before.
pub proof fn law_pin_names_digest(reference: Seq<char>, digest: Seq<char>)
    ensures
        pinned_digest(pinned(reference, digest)) == Some(digest),
{
    lemma_repository_no_at(reference);
    lemma_cut_at(repository(reference), digest);
}

/// Pinning keeps the repository.
pub proof fn law_pin_keeps_repository(reference: Seq<char>, digest: Seq<char>)
    ensures
        repository(pinned(reference, digest)) == repository(reference),
{
    lemma_repository_no_at(reference);
    lemma_cut_at(repository(reference), digest);
    let repo = before_digest(reference);
    let from = last_segment(repo);
    let r = repository(reference);
    lemma_rfind(repo, '/');
    lemma_rfind(r, '/');
    lemma_find(repo.skip(from), ':');
    assert(last_segment(r) == from) by {
        match find(repo.skip(from), ':') {
            Some(i) => {
                assert(forall|j: int| 0 <= j < r.len() ==> r[j] == repo[j]);
                match rfind(repo, '/') {
                    Some(k) => {
                        assert(r[k] == '/');
                    },
                    None => {},
                }
            },
            None => {},
        }
    }
    lemma_find(r.skip(from), ':');
    match find(r.skip(from), ':') {
        Some(k) => {
            match find(repo.skip(from), ':') {
                Some(i) => {
                    assert(r.skip(from)[k] == repo.skip(from)[k]);
                },
                None => {},
            }
        },
        None => {},
    }
}

/// Pinning a second time leaves the second digest alone.
pub proof fn law_repin(reference: Seq<char>, a: Seq<char>, b: Seq<char>)
    ensures
        pinned(pinned(reference, a), b) == pinned(reference, b),
{
    law_pin_keeps_repository(reference, a);
}

/// A digest matches itself, with and without its prefix.
pub proof fn law_digest_prefix(hex: Seq<char>)
    requires
        !starts_with(hex, "sha256:"@),
    ensures
        digest_hex("sha256:"@ + hex) == digest_hex(hex),
{
    let d = "sha256:"@ + hex;
    assert(d.take("sha256:"@.len() as int) =~= "sha256:"@);
    assert(d.skip("sha256:"@.len() as int) =~= hex);
}

/// The credentials of one registry in a pull secret.
#[derive(Debug, Clone)]
pub struct DockerConfigAuth {
    pub username: Option<String>,
    pub password: Option<String>,
    /// `username:password` in base64.
    pub auth: Option<String>,
}

/// The credentials of a pull.
#[derive(Debug, Clone)]
pub enum OciAuth {
    Anonymous,
    Basic { username: String, password: String },
}

/// What credentials say.
pub enum OciAuthView {
    Anonymous,
    Basic { username: Seq<char>, password: Seq<char> },
}

impl View for OciAuth {
    type V = OciAuthView;

    open spec fn view(&self) -> OciAuthView {
        match self {
            OciAuth::Anonymous => OciAuthView::Anonymous,
            OciAuth::Basic { username, password } => OciAuthView::Basic {
                username: username@,
                password: password@,
            },
        }
    }
}

/// The key under which a pull secret holds the registries' credentials.
pub open spec fn secret_key(data: Map<Seq<char>, Seq<u8>>) -> Option<Seq<char>> {
    if data.dom().contains(".dockerconfigjson"@) {
        Some(".dockerconfigjson"@)
    } else if data.dom().contains("dockerconfigjson"@) {
        Some("dockerconfigjson"@)
    } else {
        None
    }
}

/// The bytes of a pull secret that hold the registries' credentials.
pub fn docker_config<'a>(data: &'a ByteMap, secret_name: &str) -> (r: Result<
    &'a Vec<u8>,
    PullError,
>)
    ensures
        match r {
            Ok(bytes) => secret_key(data@) matches Some(key) && bytes@ == data@[key],
            Err(e) => {
                &&& secret_key(data@) is None
                &&& e matches PullError::MissingSecretKey { name, key } && name@ == secret_name@
                    && key@ == ".dockerconfigjson"@
            },
        },
{
    match data.get(".dockerconfigjson") {
        Some(b) => Ok(b),
        None => match data.get("dockerconfigjson") {
            Some(b) => Ok(b),
            None => Err(
                PullError::MissingSecretKey {
                    name: secret_name.to_owned(),
                    key: ".dockerconfigjson".to_owned(),
                },
            ),
        },
    }
}

/// The first entry whose host satisfies the given condition.
pub open spec fn first_where(
    auths: Seq<(String, DockerConfigAuth)>,
    p: spec_fn(Seq<char>) -> bool,
) -> Option<int>
    decreases auths.len(),
{
    if auths.len() == 0 {
        None
    } else {
        match first_where(auths.drop_last(), p) {
            Some(i) => Some(i),
            None => if p(auths.last().0@) {
                Some(auths.len() - 1)
            } else {
                None
            },
        }
    }
}

/// Whether an address is a path of a registry.
pub open spec fn is_under(address: Seq<char>, registry: Seq<char>) -> bool {
    starts_with(address, registry + "/"@)
}

/// The addresses that are exactly a registry.
pub open spec fn is_registry(registry: Seq<char>) -> spec_fn(Seq<char>) -> bool {
    |address: Seq<char>| address == registry
}

/// The addresses that are a path of a registry.
pub open spec fn names_registry(registry: Seq<char>) -> spec_fn(Seq<char>) -> bool {
    |address: Seq<char>| is_under(address, registry)
}

/// Which entry of a pull secret is for a registry: the one of exactly that
/// address, else the first that is a path of the registry.
pub open spec fn auth_entry(auths: Seq<(String, DockerConfigAuth)>, registry: Seq<char>) -> Option<
    int,
> {
    match first_where(auths, is_registry(registry)) {
        Some(i) => Some(i),
        None => first_where(auths, names_registry(registry)),
    }
}

proof fn lemma_first_where_take(
    auths: Seq<(String, DockerConfigAuth)>,
    p: spec_fn(Seq<char>) -> bool,
    n: int,
)
    requires
        0 <= n <= auths.len(),
        first_where(auths.take(n), p) is Some,
    ensures
        first_where(auths, p) == first_where(auths.take(n), p),
    decreases auths.len() - n,
{
    if n < auths.len() {
        assert(auths.take(n + 1).drop_last() =~= auths.take(n));
        lemma_first_where_take(auths, p, n + 1);
    } else {
        assert(auths.take(n) =~= auths);
    }
}

fn find_auth(auths: &Vec<(String, DockerConfigAuth)>, registry: &str) -> (r: Option<usize>)
    ensures
        match r {
            Some(i) => i < auths.len() && auth_entry(auths@, registry@) == Some(i as int),
            None => auth_entry(auths@, registry@) is None,
        },
{
    let prefix = registry.to_owned().concat("/");
    let ghost exact = is_registry(registry@);
    let ghost named = names_registry(registry@);
    let mut i: usize = 0;
    assert(auths@.take(0) =~= Seq::empty());
    while i < auths.len()
        invariant
            i <= auths.len(),
            exact == is_registry(registry@),
            first_where(auths@.take(i as int), exact) is None,
        decreases auths.len() - i,
    {
        assert(auths@.take(i + 1).drop_last() =~= auths@.take(i as int));
        if same(auths[i].0.as_str(), registry) {
            proof {
                lemma_first_where_take(auths@, exact, i + 1);
            }
            return Some(i);
        }
        i = i + 1;
    }
    assert(auths@.take(i as int) =~= auths@);
    let mut k: usize = 0;
    while k < auths.len()
        invariant
            k <= auths.len(),
            exact == is_registry(registry@),
            named == names_registry(registry@),
            prefix@ == registry@ + "/"@,
            first_where(auths@, exact) is None,
            first_where(auths@.take(k as int), named) is None,
        decreases auths.len() - k,
    {
        assert(auths@.take(k + 1).drop_last() =~= auths@.take(k as int));
        if begins(auths[k].0.as_str(), prefix.as_str()) {
            proof {
                lemma_first_where_take(auths@, named, k + 1);
            }
            return Some(k);
        }
        k = k + 1;
    }
    assert(auths@.take(k as int) =~= auths@);
    None
}

/// What decoding a text from base64 gives: the bytes, or the message of the
/// error.
pub uninterp spec fn base64_decoded(s: Seq<char>) -> Result<Seq<u8>, Seq<char>>;

/// `base64`'s standard engine: the bytes, or the error's message, depend on
/// the text alone.
#[verifier::external_body]
fn base64_decode(s: &str) -> (r: Result<Vec<u8>, base64::DecodeError>)
    ensures
        match r {
            Ok(b) => base64_decoded(s@) is Ok && base64_decoded(s@)->Ok_0 == b@,
            Err(e) => base64_decoded(s@) is Err && base64_decoded(s@)->Err_0
                == decode_error_message(e),
        },
{
    base64::engine::general_purpose::STANDARD.decode(s)
}

/// `base64::DecodeError`, carried without looking inside.
#[verifier::external_type_specification]
#[verifier::external_body]
pub struct ExDecodeError(base64::DecodeError);

/// The message of a `base64::DecodeError`.
pub uninterp spec fn decode_error_message(e: base64::DecodeError) -> Seq<char>;

/// The `Display` text of a `base64::DecodeError`.
#[verifier::external_body]
fn display_decode_error(e: &base64::DecodeError) -> (r: String)
    ensures
        r@ == decode_error_message(*e),
{
    e.to_string()
}

/// What is wrong with bytes that are not UTF-8.
pub uninterp spec fn utf8_error(bytes: Seq<u8>) -> Seq<char>;

/// `String::from_utf8`: the text that the bytes encode, or the message of
/// the error where they encode none.
#[verifier::external_body]
fn string_from_utf8(bytes: Vec<u8>) -> (r: Result<String, String>)
    ensures
        match r {
            Ok(s) => valid_utf8(bytes@) && encode_utf8(s@) == bytes@,
            Err(m) => !valid_utf8(bytes@) && m@ == utf8_error(bytes@),
        },
{
    String::from_utf8(bytes).map_err(|e| e.to_string())
}

/// The credentials that the decoded bytes of an `auth` field hold, or what
/// is wrong with them.
pub open spec fn basic_from_bytes(registry: Seq<char>, bytes: Seq<u8>) -> Result<
    OciAuthView,
    Seq<char>,
> {
    if !valid_utf8(bytes) {
        Err("`auths."@ + registry + ".auth` not utf-8: "@ + utf8_error(bytes))
    } else {
        match cut(decode_utf8(bytes), ':') {
            Some((user, pass)) => Ok(OciAuthView::Basic { username: user, password: pass }),
            None => Err("`auths."@ + registry + ".auth` is not `user:pass`"@),
        }
    }
}

/// The credentials that the decoded bytes of an `auth` field hold, or what
/// is wrong with them.
pub fn basic_auth(registry: &str, bytes: Vec<u8>) -> (r: Result<OciAuth, String>)
    ensures
        match r {
            Ok(a) => basic_from_bytes(registry@, bytes@) == Ok::<OciAuthView, Seq<char>>(a@),
            Err(m) => basic_from_bytes(registry@, bytes@) == Err::<OciAuthView, Seq<char>>(m@),
        },
{
    match string_from_utf8(bytes) {
        Err(m) => Err(
            "`auths.".to_owned().concat(registry).concat(".auth` not utf-8: ").concat(m.as_str()),
        ),
        Ok(text) => {
            proof {
                encode_utf8_decode_utf8(text@);
            }
            match split_once(text.as_str(), ':') {
                Some((username, password)) => Ok(OciAuth::Basic { username, password }),
                None => Err(
                    "`auths.".to_owned().concat(registry).concat(".auth` is not `user:pass`"),
                ),
            }
        },
    }
}

/// Whether an entry carries credentials in base64.
pub open spec fn has_token(e: DockerConfigAuth) -> bool {
    match e.auth {
        Some(t) => trim(t@).len() > 0,
        None => false,
    }
}

/// The credentials of one entry of a pull secret, or what is wrong with
/// them.
pub open spec fn entry_auth(registry: Seq<char>, e: DockerConfigAuth) -> Result<
    OciAuthView,
    Seq<char>,
> {
    if has_token(e) {
        match base64_decoded(trim(e.auth->0@)) {
            Err(m) => Err("base64 decode `auths."@ + registry + ".auth`: "@ + m),
            Ok(bytes) => basic_from_bytes(registry, bytes),
        }
    } else {
        match (e.username, e.password) {
            (Some(u), Some(p)) => Ok(OciAuthView::Basic { username: u@, password: p@ }),
            _ => Ok(OciAuthView::Anonymous),
        }
    }
}

/// The credentials for a registry, or what is wrong with the pull secret. A
/// registry that the secret does not name is pulled from anonymously.
pub open spec fn registry_auth(
    auths: Seq<(String, DockerConfigAuth)>,
    registry: Seq<char>,
) -> Result<OciAuthView, Seq<char>> {
    match auth_entry(auths, registry) {
        Some(i) => entry_auth(registry, auths[i].1),
        None => Ok(OciAuthView::Anonymous),
    }
}

/// Credentials stay with the registry they are for: an entry is used only
/// where it names the registry itself, or a path of it.
pub proof fn law_credentials_stay_home(
    auths: Seq<(String, DockerConfigAuth)>,
    registry: Seq<char>,
)
    requires
        forall|i: int|
            0 <= i < auths.len() ==> (#[trigger] auths[i]).0@ != registry && !is_under(
                auths[i].0@,
                registry,
            ),
    ensures
        registry_auth(auths, registry) == Ok::<OciAuthView, Seq<char>>(OciAuthView::Anonymous),
{
    lemma_first_where(auths, is_registry(registry));
    lemma_first_where(auths, names_registry(registry));
}

proof fn lemma_first_where(auths: Seq<(String, DockerConfigAuth)>, p: spec_fn(Seq<char>) -> bool)
    ensures
        first_where(auths, p) matches Some(i) ==> 0 <= i < auths.len() && p(auths[i].0@),
    decreases auths.len(),
{
    if auths.len() > 0 {
        lemma_first_where(auths.drop_last(), p);
    }
}

/// Picks the credentials for a registry out of a pull secret, whose entries
/// stand in ascending order of their hosts.
pub fn resolve_pull_auth(
    auths: &Vec<(String, DockerConfigAuth)>,
    secret_name: &str,
    registry: &str,
) -> (r: Result<OciAuth, PullError>)
    ensures
        match r {
            Ok(a) => registry_auth(auths@, registry@) == Ok::<OciAuthView, Seq<char>>(a@),
            Err(PullError::MalformedDockerConfig { name, detail }) => registry_auth(
                auths@,
                registry@,
            ) == Err::<OciAuthView, Seq<char>>(detail@) && name@ == secret_name@,
            Err(_) => false,
        },
{
    let i = match find_auth(auths, registry) {
        Some(i) => i,
        None => return Ok(OciAuth::Anonymous),
    };
    let e = &auths[i].1;
    match &e.auth {
        Some(t) => {
            let token = trimmed(t.as_str());
            if !token.as_str().is_empty() {
                return match base64_decode(token.as_str()) {
                    Err(err) => {
                        let m = display_decode_error(&err);
                        Err(
                            PullError::MalformedDockerConfig {
                                name: secret_name.to_owned(),
                                detail: "base64 decode `auths.".to_owned().concat(registry).concat(
                                    ".auth`: ",
                                ).concat(m.as_str()),
                            },
                        )
                    },
                    Ok(bytes) => match basic_auth(registry, bytes) {
                        Ok(a) => Ok(a),
                        Err(detail) => Err(
                            PullError::MalformedDockerConfig {
                                name: secret_name.to_owned(),
                                detail,
                            },
                        ),
                    },
                };
            }
        },
        None => {},
    }
    match (&e.username, &e.password) {
        (Some(u), Some(p)) => Ok(OciAuth::Basic { username: u.clone(), password: p.clone() }),
        _ => Ok(OciAuth::Anonymous),
    }
}

/// What a package holds beside its descriptor.
#[derive(Debug, Clone, Copy, PartialEq, Eq, Structural)]
pub enum ArtifactKind {
    Native,
    Wasm,
}

/// What a pull is asked for: the reference, the registry whose credentials
/// it needs when the image names a pull secret, and the digest that the
/// result must have.
#[derive(Debug, Clone)]
pub struct PullRequest {
    pub reference: String,
    pub secret: Option<(String, String)>,
    pub expected_digest: Option<String>,
    /// Registries that are spoken to without TLS.
    pub insecure_registries: Vec<String>,
    pub timeout_secs: u64,
}

/// Whether this is the request for an image.
pub open spec fn requests(spec: OciImageRef, options: PullOptions, q: PullRequest) -> bool {
    &&& q.reference@ == spec.image@
    &&& match (q.secret, spec.pull_secret_ref) {
        (Some(s), Some(p)) => s.0@ == p.name@ && s.1@ == registry_of(spec.image@),
        (None, None) => true,
        _ => false,
    }
    &&& opt_text(q.expected_digest) == pinned_digest(spec.image@)
    &&& texts(q.insecure_registries@) == texts(options.insecure_registries@)
    &&& q.timeout_secs == options.timeout_secs
}

/// The request of a pull.
pub fn pull_request(spec: &OciImageRef, options: &PullOptions) -> (r: PullRequest)
    ensures
        requests(*spec, *options, r),
{
    let secret = match &spec.pull_secret_ref {
        Some(s) => Some((s.name.clone(), registry_from_reference(spec.image.as_str()))),
        None => None,
    };
    PullRequest {
        reference: spec.image.clone(),
        secret,
        expected_digest: digest_of(spec.image.as_str()),
        insecure_registries: clone_texts(&options.insecure_registries),
        timeout_secs: options.timeout_secs,
    }
}

/// How the transfer of a pull ended.
#[derive(Debug, Clone)]
pub enum PullTransfer {
    /// It finished; the registry reports this manifest digest.
    Done { manifest_digest: String },
    /// It failed with this message.
    Failed(String),
    /// It took longer than it may.
    TimedOut,
}

/// What follows the transfer of a pull: the digest of what arrived, or the
/// error. A registry that hangs fails the pull instead of holding it up.
pub fn after_transfer(request: &PullRequest, transfer: PullTransfer) -> (r: Result<
    String,
    PullError,
>)
    ensures
        match (r, transfer) {
            (Ok(d), PullTransfer::Done { manifest_digest }) => d == manifest_digest,
            (Err(PullError::Upstream(m)), PullTransfer::Failed(n)) => m == n,
            (
                Err(PullError::Timeout { reference, timeout_secs }),
                PullTransfer::TimedOut,
            ) => reference@ == request.reference@ && timeout_secs == request.timeout_secs,
            _ => false,
        },
{
    match transfer {
        PullTransfer::Done { manifest_digest } => Ok(manifest_digest),
        PullTransfer::Failed(m) => Err(PullError::Upstream(m)),
        PullTransfer::TimedOut => Err(
            PullError::Timeout {
                reference: request.reference.clone(),
                timeout_secs: request.timeout_secs,
            },
        ),
    }
}

} // verus!
