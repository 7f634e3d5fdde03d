//! Where a plugin is pulled from.
use vstd::prelude::*;

use crate::api::resources::{
    ref_name, LocalObjectReference, MCPGPluginMirror, OciImageRef,
};
use crate::oci_pull::{PullOptions, DEFAULT_PULL_TIMEOUT_SECS};
use crate::text::texts;

verus! {

/// What a mirror makes of an image: the image on the mirror, or nothing
/// when the image is not under what the mirror mirrors.
#[derive(Debug, Clone)]
pub enum MirrorRewrite {
    Rewritten(String),
    NotApplicable,
}

/// How looking up a plugin's mirror ended.
#[derive(Debug)]
pub enum MirrorLookup {
    /// The mirror, and what it makes of the plugin's image.
    Found(MCPGPluginMirror, MirrorRewrite),
    /// There is no such mirror.
    Missing,
    /// The lookup failed.
    Failed,
}

/// Where a plugin is pulled from.
#[derive(Debug)]
pub enum PullTarget {
    /// This image, within these bounds.
    Pull(OciImageRef, PullOptions),
    /// Nowhere, for this reason.
    Unresolved(String),
    /// Not known now; try again.
    RetryLater,
}

/// The text that reports a mirror that does not exist.
pub open spec fn missing_mirror(name: Seq<char>) -> Seq<char> {
    "oci.mirrorRef points at MCPGPluginMirror/"@ + name
        + " which does not exist; refusing to fall back to the public registry"@
}

/// The text that reports a mirror that does not hold the image.
pub open spec fn wrong_mirror(name: Seq<char>, m: MCPGPluginMirror, image: Seq<char>) -> Seq<char> {
    "MCPGPluginMirror/"@ + name + " mirrors '"@ + m.spec.upstream.registry@ + "/"@
        + m.spec.upstream.namespace@ + "' but the plugin image '"@ + image
        + "' is under a different registry/namespace; the mirror cannot serve it"@
}

/// The name of the Secret with a mirror's credentials.
pub open spec fn mirror_secret(m: MCPGPluginMirror) -> Option<Seq<char>> {
    match m.spec.auth {
        Some(a) => Some(a.secret_name@),
        None => None,
    }
}

/// The registries that a pull through a mirror speaks to without TLS.
pub open spec fn insecure_hosts(m: MCPGPluginMirror) -> Seq<Seq<char>> {
    if m.spec.endpoint.insecure {
        seq![m.spec.endpoint.service.host@]
    } else {
        Seq::empty()
    }
}

/// Whether two image references say the same.
pub open spec fn same_image(a: OciImageRef, b: OciImageRef) -> bool {
    &&& a.image@ == b.image@
    &&& ref_name(a.pull_secret_ref) == ref_name(b.pull_secret_ref)
    &&& ref_name(a.mirror_ref) == ref_name(b.mirror_ref)
}

/// An image reference that says the same.
pub fn clone_image(o: &OciImageRef) -> (r: OciImageRef)
    ensures
        same_image(r, *o),
{
    OciImageRef {
        image: o.image.clone(),
        pull_secret_ref: match &o.pull_secret_ref {
            Some(p) => Some(LocalObjectReference { name: p.name.clone() }),
            None => None,
        },
        mirror_ref: match &o.mirror_ref {
            Some(p) => Some(LocalObjectReference { name: p.name.clone() }),
            None => None,
        },
    }
}

/// Whether `r` is where a plugin is pulled from, given what its mirror turned
/// out to be. Without a mirror that is the image itself. With one, it is the
/// image on the mirror, with the mirror's credentials; a mirror that is
/// missing, or that does not hold the image, leaves the plugin nowhere to be
/// pulled from.
pub open spec fn target_is(upstream: OciImageRef, lookup: MirrorLookup, r: PullTarget) -> bool {
    match upstream.mirror_ref {
        None => r matches PullTarget::Pull(o, opt) && {
            &&& o.image@ == upstream.image@
            &&& ref_name(o.pull_secret_ref) == ref_name(upstream.pull_secret_ref)
            &&& o.mirror_ref is None
            &&& opt.insecure_registries@.len() == 0
            &&& opt.timeout_secs == DEFAULT_PULL_TIMEOUT_SECS
        },
        Some(m) => match lookup {
            MirrorLookup::Missing => r matches PullTarget::Unresolved(d) && d@
                == missing_mirror(m.name@),
            MirrorLookup::Failed => r is RetryLater,
            MirrorLookup::Found(mirror, MirrorRewrite::NotApplicable) => {
                r matches PullTarget::Unresolved(d) && d@ == wrong_mirror(
                    m.name@,
                    mirror,
                    upstream.image@,
                )
            },
            MirrorLookup::Found(mirror, MirrorRewrite::Rewritten(image)) => {
                r matches PullTarget::Pull(o, opt) && {
                    &&& o.image@ == image@
                    &&& ref_name(o.pull_secret_ref) == mirror_secret(mirror)
                    &&& o.mirror_ref is None
                    &&& texts(opt.insecure_registries@) == insecure_hosts(mirror)
                    &&& opt.timeout_secs == DEFAULT_PULL_TIMEOUT_SECS
                }
            },
        },
    }
}

/// Resolves where a plugin is pulled from.
pub fn resolve_pull_target(upstream: &OciImageRef, lookup: MirrorLookup) -> (r: PullTarget)
    ensures
        target_is(*upstream, lookup, r),
{
    let name = match &upstream.mirror_ref {
        None => return PullTarget::Pull(clone_image(upstream), PullOptions::default()),
        Some(m) => m.name.as_str(),
    };
    match lookup {
        MirrorLookup::Missing => PullTarget::Unresolved(
            "oci.mirrorRef points at MCPGPluginMirror/".to_owned().concat(name).concat(
                " which does not exist; refusing to fall back to the public registry",
            ),
        ),
        MirrorLookup::Failed => PullTarget::RetryLater,
        MirrorLookup::Found(mirror, MirrorRewrite::NotApplicable) => PullTarget::Unresolved(
            "MCPGPluginMirror/".to_owned().concat(name).concat(" mirrors '").concat(
                mirror.spec.upstream.registry.as_str(),
            ).concat("/").concat(mirror.spec.upstream.namespace.as_str()).concat(
                "' but the plugin image '",
            ).concat(upstream.image.as_str()).concat(
                "' is under a different registry/namespace; the mirror cannot serve it",
            ),
        ),
        MirrorLookup::Found(mirror, MirrorRewrite::Rewritten(image)) => {
            let mut insecure: Vec<String> = Vec::new();
            if mirror.spec.endpoint.insecure {
                insecure.push(mirror.spec.endpoint.service.host.clone());
            }
            assert(texts(insecure@) =~= insecure_hosts(mirror));
            let pull_secret_ref = match &mirror.spec.auth {
                Some(a) => Some(LocalObjectReference { name: a.secret_name.clone() }),
                None => None,
            };
            PullTarget::Pull(
                OciImageRef { image, pull_secret_ref, mirror_ref: None },
                PullOptions {
                    insecure_registries: insecure,
                    timeout_secs: DEFAULT_PULL_TIMEOUT_SECS,
                },
            )
        },
    }
}

} // verus!
