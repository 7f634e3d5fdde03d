//! The Secret that holds a verified plugin.
use vstd::prelude::*;
use vstd::utf8::*;

use crate::api::objects::{
    child_meta, clone_bytes, ByteMap, ObjectMeta, Secret, SecretView,
};
use crate::api::resources::MCPGPlugin;
use crate::hashing::{hash_text, hex_text, sha256, text_hash};
use crate::oci_pull::PullArtefact;
use crate::strmap::StringMap;
use crate::text::{first, first_chars, replace_char, replaced};

verus! {

/// The namespace where verified plugins are kept.
pub const DEFAULT_OPERATOR_NAMESPACE: &'static str = "mcpg-system";

/// The namespace where verified plugins are kept.
pub fn operator_namespace() -> (r: String)
    ensures
        r@ == "mcpg-system"@,
{
    DEFAULT_OPERATOR_NAMESPACE.to_owned()
}

/// The first `n` bytes of a text, as text.
pub open spec fn leading(s: Seq<char>, n: int) -> Seq<char> {
    decode_utf8(encode_utf8(s).subrange(0, n))
}

/// A name of at most `max` bytes: a longer one is cut, and told apart from
/// others with the same beginning by a piece of its hash.
pub open spec fn truncated(name: Seq<char>, max: int) -> Seq<char> {
    if encode_utf8(name).len() <= max {
        name
    } else {
        leading(name, max - 9) + "-"@ + text_hash(name).take(8)
    }
}

/// Whether a name can be cut at `max` bytes: it need not be, or the cut
/// falls between two characters.
pub open spec fn can_truncate(name: Seq<char>, max: int) -> bool {
    encode_utf8(name).len() <= max || (max >= 9 && is_char_boundary(encode_utf8(name), max - 9))
}

/// Cuts a name to at most `max` bytes.
pub fn truncate_kube_name(name: &str, max: usize) -> (r: String)
    requires
        can_truncate(name@, max as int),
    ensures
        r@ == truncated(name@, max as int),
        encode_utf8(r@).len() <= max,
        encode_utf8(name@).len() > max ==> encode_utf8(r@).len() == max,
{
    let bytes = name.as_bytes();
    if bytes.len() <= max {
        return name.to_owned();
    }
    let (head, _) = name.split_at(max - 9);
    proof {
        encode_utf8_decode_utf8(head@);
    }
    let digest = hash_text(name);
    proof {
        lemma_truncated_fits(name@, max as int);
    }
    let tail = first_chars(digest.as_str(), 8);
    head.to_owned().concat("-").concat(tail.as_str())
}

/// The piece of a digest that goes into a name.
pub open spec fn digest_prefix(sha: Seq<char>) -> Seq<char> {
    if sha.len() == 0 {
        "unknown"@
    } else {
        first(sha, 8)
    }
}

/// The name of the Secret that holds a verified plugin: different versions
/// of a plugin have different names.
pub open spec fn secret_name(plugin: Seq<char>, sha: Seq<char>) -> Seq<char> {
    "mcpg-plugin-"@ + truncated(plugin, 50) + "-"@ + digest_prefix(sha)
}

/// The name of the Secret that holds a verified plugin.
pub fn artefact_secret_name(plugin_name: &str, artifact_sha256: &str) -> (r: String)
    requires
        can_truncate(plugin_name@, 50),
    ensures
        r@ == secret_name(plugin_name@, artifact_sha256@),
{
    let prefix = first_chars(artifact_sha256, 8);
    let prefix = if prefix.as_str().is_empty() {
        "unknown".to_owned()
    } else {
        prefix
    };
    let short = truncate_kube_name(plugin_name, 50);
    "mcpg-plugin-".to_owned().concat(short.as_str()).concat("-").concat(prefix.as_str())
}

/// Whether a plugin's name can be made part of a Secret's name.
pub fn name_can_be_cut(plugin_name: &str) -> (r: bool)
    ensures
        r == can_truncate(plugin_name@, 50),
{
    plugin_name.as_bytes().len() <= 50 || plugin_name.is_char_boundary(41)
}

/// The data of the Secret: the artefact, its descriptor, and its signature
/// where there is one.
pub open spec fn secret_data(a: PullArtefact) -> Map<Seq<char>, Seq<u8>> {
    let base = Map::<Seq<char>, Seq<u8>>::empty().insert("plugin.so"@, a.artifact_bytes@).insert(
        "plugin.yaml"@,
        a.descriptor_bytes@,
    );
    match a.signature_bytes {
        Some(s) => base.insert("plugin.sig"@, s@),
        None => base,
    }
}

/// The labels of the Secret.
pub open spec fn secret_labels(p: MCPGPlugin, a: PullArtefact) -> Map<Seq<char>, Seq<char>> {
    let base = Map::<Seq<char>, Seq<char>>::empty().insert(
        "app.kubernetes.io/managed-by"@,
        "mcpg-operator"@,
    ).insert("mcpg.dev/plugin"@, replaced(p.spec.plugin_id@, '.', '-')).insert(
        "mcpg.dev/version"@,
        p.spec.version@,
    );
    let digest = match a.artifact_sha256 {
        Some(sha) => base.insert("mcpg.dev/digest-prefix"@, first(sha@, 8)),
        None => base,
    };
    digest.insert(
        "mcpg.dev/manifest-digest"@,
        first(replaced(a.manifest_digest@, ':', '-'), 63),
    )
}

/// The Secret that holds a verified plugin. Its content never changes: a
/// new version has a new name.
pub open spec fn artefact_secret(
    p: MCPGPlugin,
    namespace: Seq<char>,
    name: Seq<char>,
    a: PullArtefact,
) -> SecretView {
    SecretView {
        metadata: child_meta(name, Some(namespace), secret_labels(p, a), None),
        type_: Some("mcpg.dev/plugin"@),
        immutable: Some(true),
        data: Some(secret_data(a)),
    }
}

/// Builds the Secret that holds a verified plugin.
pub fn build_artefact_secret(
    parent: &MCPGPlugin,
    namespace: &str,
    secret_name: &str,
    artefact: &PullArtefact,
) -> (r: Secret)
    ensures
        r@ == artefact_secret(*parent, namespace@, secret_name@, *artefact),
{
    let mut data = ByteMap::new();
    data.insert("plugin.so", clone_bytes(&artefact.artifact_bytes));
    data.insert("plugin.yaml", clone_bytes(&artefact.descriptor_bytes));
    match &artefact.signature_bytes {
        Some(s) => {
            data.insert("plugin.sig", clone_bytes(s));
        },
        None => {},
    }
    let mut labels = StringMap::new();
    labels.insert("app.kubernetes.io/managed-by", "mcpg-operator");
    labels.insert(
        "mcpg.dev/plugin",
        replace_char(parent.spec.plugin_id.as_str(), '.', '-').as_str(),
    );
    labels.insert("mcpg.dev/version", parent.spec.version.as_str());
    match &artefact.artifact_sha256 {
        Some(sha) => {
            labels.insert("mcpg.dev/digest-prefix", first_chars(sha.as_str(), 8).as_str());
        },
        None => {},
    }
    let dashed = replace_char(artefact.manifest_digest.as_str(), ':', '-');
    labels.insert("mcpg.dev/manifest-digest", first_chars(dashed.as_str(), 63).as_str());
    Secret {
        metadata: ObjectMeta::child(secret_name, Some(namespace.to_owned()), labels, None),
        type_: Some("mcpg.dev/plugin".to_owned()),
        immutable: Some(true),
        data: Some(data),
    }
}

/// The encoding of two texts in a row.
pub proof fn lemma_encode_concat(a: Seq<char>, b: Seq<char>)
    ensures
        encode_utf8(a + b) == encode_utf8(a) + encode_utf8(b),
    decreases a.len(),
{
    if a.len() == 0 {
        assert(a + b =~= b);
        assert(encode_utf8(a) + encode_utf8(b) =~= encode_utf8(b));
    } else {
        lemma_encode_concat(a.drop_first(), b);
        assert((a + b).drop_first() =~= a.drop_first() + b);
        assert(encode_utf8(a + b) =~= encode_utf8(a) + encode_utf8(b));
    }
}

proof fn lemma_hex_ascii(bytes: Seq<u8>)
    ensures
        is_ascii_chars(hex_text(bytes)),
{
    assert forall|i: int| 0 <= i < hex_text(bytes).len() implies '\0' <= #[trigger] hex_text(
        bytes,
    )[i] <= '\u{7f}' by {
        let b = bytes[i / 2] as int;
        assert(0 <= b / 16 < 16);
        assert(0 <= b % 16 < 16);
    }
}

proof fn lemma_truncated_fits(name: Seq<char>, max: int)
    requires
        can_truncate(name, max),
        text_hash(name).len() == 64,
    ensures
        encode_utf8(truncated(name, max)).len() <= max,
        encode_utf8(name).len() > max ==> encode_utf8(truncated(name, max)).len() == max,
{
    let bytes = encode_utf8(name);
    if bytes.len() > max {
        let head = leading(name, max - 9);
        let tail = text_hash(name).take(8);
        encode_utf8_valid_utf8(name);
        lemma_boundary(bytes, max - 9);
        valid_utf8_split(bytes, max - 9);
        decode_utf8_encode_utf8(bytes.subrange(0, max - 9));
        assert(encode_utf8(head) == bytes.subrange(0, max - 9));
        lemma_encode_concat(head + "-"@, tail);
        lemma_encode_concat(head, "-"@);
        reveal_strlit("-");
        assert(is_ascii_chars("-"@));
        is_ascii_chars_encode_utf8("-"@);
        lemma_hex_ascii(sha256(bytes));
        assert(is_ascii_chars(tail)) by {
            assert forall|i: int| 0 <= i < tail.len() implies '\0' <= #[trigger] tail[i]
                <= '\u{7f}' by {
                assert(tail[i] == text_hash(name)[i]);
            }
        }
        is_ascii_chars_encode_utf8(tail);
    }
}

proof fn lemma_boundary(bytes: Seq<u8>, i: int)
    requires
        valid_utf8(bytes),
        is_char_boundary(bytes, i),
    ensures
        0 <= i <= bytes.len(),
{
}

} // verus!
