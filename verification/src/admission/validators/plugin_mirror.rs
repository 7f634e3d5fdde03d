//! Which plugin mirrors may be written.
use vstd::prelude::*;

use crate::admission::decision::{admitted, finds, first_of, flagged, judge, judged, Decision};
use crate::api::resources::{MCPGPluginMirror, MCPGPluginMirrorSpec};
use crate::text::{blank, has_char, is_blank};

verus! {

/// What is wrong with the Service behind a mirror.
pub open spec fn service_defect(s: MCPGPluginMirrorSpec) -> Option<Seq<char>> {
    first_of(
        flagged(
            blank(s.endpoint.service.namespace@),
            "spec.endpoint.service.namespace must not be empty"@,
        ),
        first_of(
            flagged(
                blank(s.endpoint.service.name@),
                "spec.endpoint.service.name must not be empty"@,
            ),
            flagged(
                s.endpoint.service.port == 0,
                "spec.endpoint.service.port must be in 1..=65535"@,
            ),
        ),
    )
}

/// What is wrong with what is mirrored: the registry must look like a host.
pub open spec fn upstream_defect(s: MCPGPluginMirrorSpec) -> Option<Seq<char>> {
    first_of(
        flagged(blank(s.upstream.registry@), "spec.upstream.registry must not be empty"@),
        first_of(
            flagged(
                !s.upstream.registry@.contains('.') && !s.upstream.registry@.contains(':'),
                "spec.upstream.registry '"@ + s.upstream.registry@
                    + "' does not look like a registry host (expected a hostname like 'ghcr.io' or 'host:port')"@,
            ),
            flagged(blank(s.upstream.namespace@), "spec.upstream.namespace must not be empty"@),
        ),
    )
}

/// What is wrong with a mirror.
pub open spec fn mirror_defect(s: MCPGPluginMirrorSpec) -> Option<Seq<char>> {
    first_of(
        service_defect(s),
        first_of(
            upstream_defect(s),
            match s.auth {
                Some(a) => flagged(
                    blank(a.secret_name@),
                    "spec.auth.secretRef.secretName must not be empty when auth is set"@,
                ),
                None => None,
            },
        ),
    )
}

/// Checks a mirror.
pub fn validate_spec(obj: &MCPGPluginMirror) -> (r: Result<(), String>)
    ensures
        finds(r, mirror_defect(obj.spec)),
{
    let s = &obj.spec;
    let svc = &s.endpoint.service;
    if is_blank(svc.namespace.as_str()) {
        return Err("spec.endpoint.service.namespace must not be empty".to_owned());
    }
    if is_blank(svc.name.as_str()) {
        return Err("spec.endpoint.service.name must not be empty".to_owned());
    }
    if svc.port == 0 {
        return Err("spec.endpoint.service.port must be in 1..=65535".to_owned());
    }
    let registry = s.upstream.registry.as_str();
    if is_blank(registry) {
        return Err("spec.upstream.registry must not be empty".to_owned());
    }
    if !has_char(registry, '.') && !has_char(registry, ':') {
        return Err(
            "spec.upstream.registry '".to_owned().concat(registry).concat(
                "' does not look like a registry host (expected a hostname like 'ghcr.io' or 'host:port')",
            ),
        );
    }
    if is_blank(s.upstream.namespace.as_str()) {
        return Err("spec.upstream.namespace must not be empty".to_owned());
    }
    match &s.auth {
        Some(a) => {
            if is_blank(a.secret_name.as_str()) {
                return Err(
                    "spec.auth.secretRef.secretName must not be empty when auth is set".to_owned(),
                );
            }
        },
        None => {},
    }
    Ok(())
}

/// Reviews a mirror that is about to be written; a deletion has none.
pub fn validate(obj: Option<&MCPGPluginMirror>) -> (r: Decision)
    ensures
        match obj {
            Some(m) => r@ == judged(mirror_defect(m.spec)),
            None => r@ == judged(None),
        },
{
    match obj {
        Some(m) => judge(validate_spec(m)),
        None => admitted(),
    }
}

} // verus!
