//! Which revocation lists may be written.
use vstd::prelude::*;
use vstd::utf8::*;

use crate::admission::decision::{
    admitted, finds, first_defect, first_of, flagged, judge, judged, lemma_first_defect,
    lemma_no_defect, Decision,
};
use crate::api::resources::{MCPGRevocationList, MCPGRevocationListSpec, RevocationEntry};
use crate::text::{
    blank, chars_of, decimal, decimal_text, is_blank, lower, lowered, same,
};

verus! {

/// The version of revocation lists.
pub const SUPPORTED_VERSION: u8 = 1;

/// Whether a character is a hex digit, in either case.
pub open spec fn hex_char(c: char) -> bool {
    '0' <= c <= '9' || 'a' <= c <= 'f' || 'A' <= c <= 'F'
}

/// Whether a text holds nothing but hex digits.
pub open spec fn all_hex(s: Seq<char>) -> bool {
    forall|i: int| 0 <= i < s.len() ==> hex_char(#[trigger] s[i])
}

/// The hash of an entry, as it is compared: in lower case.
pub open spec fn normal_hash(e: RevocationEntry) -> Seq<char> {
    lower(e.artifact_sha256@)
}

/// Whether an earlier entry revokes the same artefact.
pub open spec fn hash_repeats(v: Seq<RevocationEntry>, i: int) -> bool {
    exists|j: int| 0 <= j < i && normal_hash(#[trigger] v[j]) == normal_hash(v[i])
}

/// What is wrong with the entry at position `i`: its hash is 64 hex digits as
/// it stands and is not repeated, and it gives a reason.
pub open spec fn entry_defect(v: Seq<RevocationEntry>, i: int) -> Option<Seq<char>> {
    let sha = v[i].artifact_sha256@;
    let bytes = encode_utf8(sha).len();
    let at = "spec.revocations["@ + decimal(i as nat);
    first_of(
        flagged(
            bytes != 64,
            at + "].artifactSha256 must be exactly 64 hex characters (got "@ + decimal(bytes)
                + ")"@,
        ),
        first_of(
            flagged(!all_hex(sha), at + "].artifactSha256 must be hex (got `"@ + sha + "`)"@),
            first_of(
                flagged(
                    hash_repeats(v, i),
                    "duplicate artifactSha256 `"@ + normal_hash(v[i]) + "` at index "@ + decimal(
                        i as nat,
                    ) + " (operators consolidate into a single entry per artefact)"@,
                ),
                flagged(blank(v[i].reason@), at + "].reason must not be empty"@),
            ),
        ),
    )
}

/// What is wrong with a revocation list.
pub open spec fn list_defect(s: MCPGRevocationListSpec) -> Option<Seq<char>> {
    first_of(
        flagged(
            s.version != 1,
            "spec.version="@ + decimal(s.version as nat)
                + " but only version=1 is supported"@,
        ),
        first_defect(s.revocations@.len(), |i: int| entry_defect(s.revocations@, i)),
    )
}

fn is_hex(s: &str) -> (r: bool)
    ensures
        r == all_hex(s@),
{
    let v = chars_of(s);
    let mut i: usize = 0;
    while i < v.len()
        invariant
            i <= v.len(),
            v@ == s@,
            forall|j: int| 0 <= j < i ==> hex_char(#[trigger] v@[j]),
        decreases v.len() - i,
    {
        let c = v[i];
        if !(('0' <= c && c <= '9') || ('a' <= c && c <= 'f') || ('A' <= c && c <= 'F')) {
            assert(!hex_char(s@[i as int]));
            return false;
        }
        i = i + 1;
    }
    true
}

fn repeats_hash(v: &Vec<RevocationEntry>, i: usize) -> (r: bool)
    requires
        i < v@.len(),
    ensures
        r == hash_repeats(v@, i as int),
{
    let mine = lowered(v[i].artifact_sha256.as_str());
    let mut j: usize = 0;
    while j < i
        invariant
            j <= i,
            i < v@.len(),
            mine@ == normal_hash(v@[i as int]),
            forall|k: int| 0 <= k < j ==> normal_hash(#[trigger] v@[k]) != mine@,
        decreases i - j,
    {
        let other = lowered(v[j].artifact_sha256.as_str());
        assert(other@ == normal_hash(v@[j as int]));
        if same(other.as_str(), mine.as_str()) {
            return true;
        }
        j = j + 1;
    }
    false
}

fn check_entry(v: &Vec<RevocationEntry>, i: usize) -> (r: Result<(), String>)
    requires
        i < v@.len(),
    ensures
        finds(r, entry_defect(v@, i as int)),
{
    let sha = v[i].artifact_sha256.as_str();
    let n = decimal_text(i as u64);
    let at = "spec.revocations[".to_owned().concat(n.as_str());
    let len: usize = sha.as_bytes().len();
    if len != 64 {
        return Err(
            at.concat("].artifactSha256 must be exactly 64 hex characters (got ").concat(
                decimal_text(len as u64).as_str(),
            ).concat(")"),
        );
    }
    if !is_hex(sha) {
        return Err(
            at.concat("].artifactSha256 must be hex (got `").concat(sha).concat("`)"),
        );
    }
    if repeats_hash(v, i) {
        return Err(
            "duplicate artifactSha256 `".to_owned().concat(
                lowered(sha).as_str(),
            ).concat("` at index ").concat(n.as_str()).concat(
                " (operators consolidate into a single entry per artefact)",
            ),
        );
    }
    if is_blank(v[i].reason.as_str()) {
        return Err(at.concat("].reason must not be empty"));
    }
    Ok(())
}

/// Checks a revocation list.
pub fn validate_spec(obj: &MCPGRevocationList) -> (r: Result<(), String>)
    ensures
        finds(r, list_defect(obj.spec)),
{
    let s = &obj.spec;
    if s.version != SUPPORTED_VERSION {
        return Err(
            "spec.version=".to_owned().concat(decimal_text(s.version as u64).as_str()).concat(
                " but only version=1 is supported",
            ),
        );
    }
    let ghost at = |i: int| entry_defect(s.revocations@, i);
    let mut i: usize = 0;
    while i < s.revocations.len()
        invariant
            i <= s.revocations.len(),
            s == obj.spec,
            at == |i: int| entry_defect(s.revocations@, i),
            first_defect(i as nat, at) is None,
            list_defect(obj.spec) == first_defect(s.revocations@.len(), at),
        decreases s.revocations.len() - i,
    {
        match check_entry(&s.revocations, i) {
            Ok(_) => {},
            Err(m) => {
                proof {
                    lemma_first_defect(s.revocations@.len(), at, i as nat);
                }
                return Err(m);
            },
        }
        i = i + 1;
    }
    Ok(())
}

/// Reviews a revocation list that is about to be written; a deletion has
/// none.
pub fn validate(obj: Option<&MCPGRevocationList>) -> (r: Decision)
    ensures
        match obj {
            Some(l) => r@ == judged(list_defect(l.spec)),
            None => r@ == judged(None),
        },
{
    match obj {
        Some(l) => judge(validate_spec(l)),
        None => admitted(),
    }
}

/// A revocation list is admitted only when every hash is exactly 64 hex
/// digits, with nothing around them: what is handed out under it can match an
/// artefact.
pub proof fn law_admitted_hashes_are_whole(s: MCPGRevocationListSpec, i: int)
    requires
        list_defect(s) is None,
        0 <= i < s.revocations@.len(),
    ensures
        s.revocations@[i].artifact_sha256@.len() == 64,
        all_hex(s.revocations@[i].artifact_sha256@),
{
    lemma_no_defect(s.revocations@.len(), |i: int| entry_defect(s.revocations@, i), i);
    lemma_hex_bytes(s.revocations@[i].artifact_sha256@);
}

/// Hex digits take one byte each.
pub proof fn lemma_hex_bytes(s: Seq<char>)
    requires
        all_hex(s),
    ensures
        encode_utf8(s).len() == s.len(),
{
    assert(is_ascii_chars(s)) by {
        assert forall|i: int| 0 <= i < s.len() implies '\0' <= #[trigger] s[i] <= '\u{7f}' by {
            assert(hex_char(s[i]));
        }
    }
    is_ascii_chars_encode_utf8(s);
}

/// An admitted revocation list revokes each artefact once, whatever the case
/// in which its hash is written.
pub proof fn law_hashes_are_distinct(s: MCPGRevocationListSpec, i: int, j: int)
    requires
        list_defect(s) is None,
        0 <= j < i < s.revocations@.len(),
    ensures
        normal_hash(s.revocations@[i]) != normal_hash(s.revocations@[j]),
{
    lemma_no_defect(s.revocations@.len(), |i: int| entry_defect(s.revocations@, i), i);
    assert(!hash_repeats(s.revocations@, i));
}

} // verus!
