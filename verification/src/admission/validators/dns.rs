//! DNS labels and host names.
use vstd::prelude::*;
use vstd::utf8::*;

use crate::admission::decision::{finds, first_defect, first_of, flagged, lemma_first_defect};
use crate::text::{chars_of, split, split_on, texts};

verus! {

/// Whether a character may stand in a DNS label.
pub open spec fn label_char(c: char) -> bool {
    'a' <= c <= 'z' || '0' <= c <= '9' || c == '-'
}

/// Whether every character may stand in a DNS label.
pub open spec fn label_chars(s: Seq<char>) -> bool {
    forall|i: int| 0 <= i < s.len() ==> label_char(#[trigger] s[i])
}

/// What is wrong with a DNS label: it has 1 to 63 characters, lower-case
/// letters, digits and hyphens, and no hyphen at either end.
pub open spec fn label_defect(s: Seq<char>) -> Option<Seq<char>> {
    if s.len() == 0 {
        Some("must not be empty"@)
    } else if encode_utf8(s).len() > 63 {
        Some("must be ≤ 63 characters"@)
    } else if !label_chars(s) {
        Some("must be lowercase alphanumeric or '-'"@)
    } else if s[0] == '-' || s.last() == '-' {
        Some("must not start or end with '-'"@)
    } else {
        None
    }
}

/// Checks a DNS label.
pub fn validate_dns_label(s: &str) -> (r: Result<(), String>)
    ensures
        finds(r, label_defect(s@)),
{
    if s.is_empty() {
        return Err("must not be empty".to_owned());
    }
    if s.as_bytes().len() > 63 {
        return Err("must be ≤ 63 characters".to_owned());
    }
    let v = chars_of(s);
    let mut i: usize = 0;
    while i < v.len()
        invariant
            i <= v.len(),
            v@ == s@,
            s@.len() > 0,
            encode_utf8(s@).len() <= 63,
            forall|j: int| 0 <= j < i ==> label_char(#[trigger] v@[j]),
        decreases v.len() - i,
    {
        let c = v[i];
        if !(('a' <= c && c <= 'z') || ('0' <= c && c <= '9') || c == '-') {
            assert(!label_char(s@[i as int]));
            return Err("must be lowercase alphanumeric or '-'".to_owned());
        }
        i = i + 1;
    }
    if v[0] == '-' || v[v.len() - 1] == '-' {
        return Err("must not start or end with '-'".to_owned());
    }
    Ok(())
}

/// What is wrong with one label of a host name.
pub open spec fn part_defect(part: Seq<char>) -> Option<Seq<char>> {
    match label_defect(part) {
        Some(e) => Some("label '"@ + part + "' "@ + e),
        None => None,
    }
}

/// What is wrong with a host name: it has at most 253 characters, and its
/// dot-separated parts are DNS labels.
pub open spec fn hostname_defect(s: Seq<char>) -> Option<Seq<char>> {
    first_of(
        flagged(s.len() == 0, "must not be empty"@),
        first_of(
            flagged(encode_utf8(s).len() > 253, "must be ≤ 253 characters"@),
            first_defect(
                split_on(s, '.').len(),
                |i: int| part_defect(split_on(s, '.')[i]),
            ),
        ),
    )
}

/// Checks a host name.
pub fn validate_dns_hostname(s: &str) -> (r: Result<(), String>)
    ensures
        finds(r, hostname_defect(s@)),
{
    if s.is_empty() {
        return Err("must not be empty".to_owned());
    }
    if s.as_bytes().len() > 253 {
        return Err("must be ≤ 253 characters".to_owned());
    }
    let parts = split(s, '.');
    let ghost at = |i: int| part_defect(split_on(s@, '.')[i]);
    let mut i: usize = 0;
    while i < parts.len()
        invariant
            i <= parts.len(),
            texts(parts@) == split_on(s@, '.'),
            at == |i: int| part_defect(split_on(s@, '.')[i]),
            first_defect(i as nat, at) is None,
            hostname_defect(s@) == first_defect(split_on(s@, '.').len(), at),
        decreases parts.len() - i,
    {
        assert(split_on(s@, '.')[i as int] == parts@[i as int]@);
        match validate_dns_label(parts[i].as_str()) {
            Ok(_) => {},
            Err(e) => {
                let m = "label '".to_owned().concat(parts[i].as_str()).concat("' ").concat(
                    e.as_str(),
                );
                proof {
                    lemma_first_defect(split_on(s@, '.').len(), at, i as nat);
                }
                return Err(m);
            },
        }
        i = i + 1;
    }
    Ok(())
}

/// Every part of an admitted host name is a DNS label.
pub proof fn law_hostname_parts_are_labels(s: Seq<char>, i: int)
    requires
        hostname_defect(s) is None,
        0 <= i < split_on(s, '.').len(),
    ensures
        label_defect(split_on(s, '.')[i]) is None,
{
    crate::admission::decision::lemma_no_defect(
        split_on(s, '.').len(),
        |i: int| part_defect(split_on(s, '.')[i]),
        i,
    );
}

} // verus!
