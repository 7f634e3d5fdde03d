//! Which servers may be written.
use vstd::prelude::*;

use crate::admission::decision::{
    admitted, first_of, flagged, judge_with_warnings, Decision, DecisionView,
};
use crate::api::resources::{MCPGServer, MCPGServerSpec, ServerFederate};
use crate::json::Json;
use crate::text::{
    blank, chars_of, contains_text, decimal_int, decimal_int_text, is_blank, occurs, texts,
};

verus! {

/// Whether an image is pinned to a digest.
pub open spec fn pinned(s: MCPGServerSpec) -> bool {
    occurs(s.image@, "@sha256:"@)
}

/// What is wrong with the image of a server.
pub open spec fn image_defect(s: MCPGServerSpec) -> Option<Seq<char>> {
    first_of(
        flagged(
            blank(s.image@),
            "spec.image must be a non-empty container image reference"@,
        ),
        flagged(
            s.verify is Some && !pinned(s),
            "spec.verify requires a digest-pinned spec.image (repo@sha256:…): a tag can be re-pointed after verification"@,
        ),
    )
}

/// What is wrong with the size of a server or its port.
pub open spec fn size_defect(s: MCPGServerSpec) -> Option<Seq<char>> {
    first_of(
        flagged(
            !(1 <= s.port <= 65535),
            "spec.port "@ + decimal_int(s.port as int) + " is not a valid TCP port"@,
        ),
        match s.replicas {
            Some(n) => flagged(n < 0, "spec.replicas must be >= 0"@),
            None => None,
        },
    )
}

/// Whether a character may stand in the name of a federation.
pub open spec fn name_char(c: char) -> bool {
    'a' <= c <= 'z' || 'A' <= c <= 'Z' || '0' <= c <= '9' || c == '-' || c == '_' || c == '.'
}

/// Whether every character may stand in the name of a federation.
pub open spec fn name_chars(s: Seq<char>) -> bool {
    forall|i: int| 0 <= i < s.len() ==> name_char(#[trigger] s[i])
}

/// Whether an optional document is something other than an object.
pub open spec fn not_object(j: Option<Json>) -> bool {
    match j {
        Some(j) => !(j.view() is Object),
        None => false,
    }
}

/// What is wrong with how a server joins a gateway under the given name.
pub open spec fn federate_defect(f: ServerFederate, name: Seq<char>) -> Option<Seq<char>> {
    first_of(
        flagged(
            blank(f.gateway_ref.name@),
            "spec.federate.gatewayRef.name must be non-empty"@,
        ),
        first_of(
            flagged(blank(name), "federation name resolves to empty"@),
            first_of(
                flagged(
                    !name_chars(name),
                    "federation name '"@ + name
                        + "' must be alphanumeric plus '-', '_', '.'"@,
                ),
                first_of(
                    flagged(
                        not_object(f.governance),
                        "spec.federate.governance must be a JSON object"@,
                    ),
                    first_of(
                        flagged(
                            not_object(f.import),
                            "spec.federate.import must be a JSON object"@,
                        ),
                        flagged(
                            not_object(f.auth),
                            "spec.federate.auth must be a JSON object"@,
                        ),
                    ),
                ),
            ),
        ),
    )
}

/// What is wrong with a server.
pub open spec fn server_defect(s: MCPGServerSpec) -> Option<Seq<char>> {
    first_of(
        image_defect(s),
        first_of(
            size_defect(s),
            match s.federate {
                Some(f) => federate_defect(f, s.federation_name@),
                None => None,
            },
        ),
    )
}

/// What whoever writes a server is warned of: an image that may change.
pub open spec fn server_warnings(s: MCPGServerSpec) -> Seq<Seq<char>> {
    if s.verify is None && !pinned(s) {
        seq![
            "spec.image is not digest-pinned; provenance and rollback are ambiguous under a moving tag"@,
        ]
    } else {
        Seq::empty()
    }
}

fn safe_name(s: &str) -> (r: bool)
    ensures
        r == name_chars(s@),
{
    let v = chars_of(s);
    let mut i: usize = 0;
    while i < v.len()
        invariant
            i <= v.len(),
            v@ == s@,
            forall|j: int| 0 <= j < i ==> name_char(#[trigger] v@[j]),
        decreases v.len() - i,
    {
        let c = v[i];
        if !(('a' <= c && c <= 'z') || ('A' <= c && c <= 'Z') || ('0' <= c && c <= '9') || c == '-'
            || c == '_' || c == '.') {
            assert(!name_char(s@[i as int]));
            return false;
        }
        i = i + 1;
    }
    true
}

fn other_than_object(j: &Option<Json>) -> (r: bool)
    ensures
        r == not_object(*j),
{
    match j {
        Some(j) => !j.is_object(),
        None => false,
    }
}

/// Checks a server: the warnings, or what is wrong with it.
pub fn validate_spec(obj: &MCPGServer) -> (r: Result<Vec<String>, String>)
    ensures
        match r {
            Ok(w) => server_defect(obj.spec) is None && texts(w@) == server_warnings(obj.spec),
            Err(m) => server_defect(obj.spec) == Some(m@),
        },
{
    let s = &obj.spec;
    if is_blank(s.image.as_str()) {
        return Err("spec.image must be a non-empty container image reference".to_owned());
    }
    let digest_pinned = contains_text(s.image.as_str(), "@sha256:");
    if s.verify.is_some() && !digest_pinned {
        return Err(
            "spec.verify requires a digest-pinned spec.image (repo@sha256:…): a tag can be re-pointed after verification".to_owned(),
        );
    }
    let mut warnings: Vec<String> = Vec::new();
    if s.verify.is_none() && !digest_pinned {
        warnings.push(
            "spec.image is not digest-pinned; provenance and rollback are ambiguous under a moving tag".to_owned(),
        );
    }
    assert(texts(warnings@) =~= server_warnings(obj.spec));
    if !(1 <= s.port && s.port <= 65535) {
        return Err(
            "spec.port ".to_owned().concat(decimal_int_text(s.port as i64).as_str()).concat(
                " is not a valid TCP port",
            ),
        );
    }
    match s.replicas {
        Some(n) => {
            if n < 0 {
                return Err("spec.replicas must be >= 0".to_owned());
            }
        },
        None => {},
    }
    match &s.federate {
        Some(f) => {
            if is_blank(f.gateway_ref.name.as_str()) {
                return Err("spec.federate.gatewayRef.name must be non-empty".to_owned());
            }
            let name = s.federation_name.as_str();
            if is_blank(name) {
                return Err("federation name resolves to empty".to_owned());
            }
            if !safe_name(name) {
                return Err(
                    "federation name '".to_owned().concat(name).concat(
                        "' must be alphanumeric plus '-', '_', '.'",
                    ),
                );
            }
            if other_than_object(&f.governance) {
                return Err("spec.federate.governance must be a JSON object".to_owned());
            }
            if other_than_object(&f.import) {
                return Err("spec.federate.import must be a JSON object".to_owned());
            }
            if other_than_object(&f.auth) {
                return Err("spec.federate.auth must be a JSON object".to_owned());
            }
        },
        None => {},
    }
    Ok(warnings)
}

/// Reviews a server that is about to be written; a deletion has none.
pub fn validate(obj: Option<&MCPGServer>) -> (r: Decision)
    ensures
        match obj {
            Some(s) => match server_defect(s.spec) {
                Some(m) => r@ == DecisionView::Deny(m),
                None => r@ == DecisionView::Admit(server_warnings(s.spec)),
            },
            None => r@ == DecisionView::Admit(Seq::empty()),
        },
{
    match obj {
        Some(s) => judge_with_warnings(validate_spec(s)),
        None => admitted(),
    }
}

/// An admitted server whose image is to be verified is pinned to a digest, so
/// that the signature stays bound to what runs.
pub proof fn law_verified_image_is_pinned(s: MCPGServerSpec)
    requires
        server_defect(s) is None,
        s.verify is Some,
    ensures
        pinned(s),
{
}

} // verus!
