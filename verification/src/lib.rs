//! The decisions of the MCPG Kubernetes operator.
//!
//! The operator watches custom resources and reconciles them into running
//! gateways. This library holds what it decides: which objects it wants,
//! what it reports, what may be written, who leads, and when to try again.
//! Requests to the cluster are left to the caller, which hands in what it
//! found and carries out what comes back.
pub mod admission;
pub mod api;
pub mod backoff;
pub mod clock;
pub mod config;
pub mod controllers;
pub mod duration;
pub mod fleet_agent;
pub mod hashing;
pub mod json;
pub mod labels;
pub mod leader;
pub mod oci_pull;
pub mod ordered;
pub mod rbac;
pub mod readiness;
pub mod reconcile;
pub mod strmap;
pub mod telemetry;
pub mod text;
pub mod text_laws;

use crate::text::{opt_str, opt_text, trim, trim_end_char, trimmed, trimmed_end_char};
use vstd::prelude::*;

verus! {

/// The beginning of every field manager's name; each controller adds its
/// own.
pub const FIELD_MANAGER_PREFIX: &'static str = "mcpg-operator";

/// The repository of a gateway's image, unless it or the installation names
/// another.
pub const DEFAULT_GATEWAY_IMAGE_REPOSITORY: &'static str = "ghcr.io/mcpg-dev/source-code/gateway";

/// The environment variable in which an installation names another
/// repository.
pub const ENV_DEFAULT_GATEWAY_IMAGE_REPOSITORY: &'static str =
    "MCPG_DEFAULT_GATEWAY_IMAGE_REPOSITORY";

/// The tag of a gateway's image, unless the build, the installation or the
/// gateway names another.
pub const DEFAULT_GATEWAY_IMAGE_TAG: &'static str = "v1.0.0-dev";

/// The environment variable in which an installation names another tag.
pub const ENV_DEFAULT_GATEWAY_IMAGE_TAG: &'static str = "MCPG_DEFAULT_GATEWAY_IMAGE_TAG";

/// What an installation may override: its value without white space around
/// it and without slashes at the end, unless that leaves nothing.
pub open spec fn image_default(value: Option<Seq<char>>, compiled: Seq<char>) -> Seq<char> {
    match value {
        Some(raw) => if trim_end_char(trim(raw), '/').len() == 0 {
            compiled
        } else {
            trim_end_char(trim(raw), '/')
        },
        None => compiled,
    }
}

/// What an installation may override, given the value of its environment
/// variable.
pub fn resolve_image_default(value: Option<&str>, compiled: &str) -> (r: String)
    ensures
        r@ == image_default(opt_str(value), compiled@),
{
    match value {
        Some(raw) => {
            let t = trimmed_end_char(trimmed(raw).as_str(), '/');
            if t.as_str().is_empty() {
                compiled.to_owned()
            } else {
                t
            }
        },
        None => compiled.to_owned(),
    }
}

/// What counts of a default that is resolved once: the value that is kept,
/// or, where none is kept yet, what the installation says now.
pub open spec fn kept_or_resolved(
    kept: Option<Seq<char>>,
    value: Option<Seq<char>>,
    compiled: Seq<char>,
) -> Seq<char> {
    match kept {
        Some(t) => t,
        None => image_default(value, compiled),
    }
}

/// What an installation may override, resolved once: the first answer is
/// kept, and later values of the environment variable change nothing.
pub fn resolve_once(cache: &mut Option<String>, value: Option<&str>, compiled: &str) -> (r: String)
    ensures
        r@ == kept_or_resolved(opt_text(*old(cache)), opt_str(value), compiled@),
        opt_text(*final(cache)) == Some(r@),
        *old(cache) is Some ==> *final(cache) == *old(cache),
{
    if let Some(kept) = &*cache {
        return kept.clone();
    }
    let r = resolve_image_default(value, compiled);
    *cache = Some(r.clone());
    r
}

/// The repository of a gateway's image, given the one that this process has
/// kept and the value of the environment variable. It is resolved once for
/// each process, so that all gateways get the same.
pub fn default_gateway_image_repository(cache: &mut Option<String>, value: Option<&str>) -> (r:
    String)
    ensures
        r@ == kept_or_resolved(
            opt_text(*old(cache)),
            opt_str(value),
            "ghcr.io/mcpg-dev/source-code/gateway"@,
        ),
        opt_text(*final(cache)) == Some(r@),
        *old(cache) is Some ==> *final(cache) == *old(cache),
{
    resolve_once(cache, value, DEFAULT_GATEWAY_IMAGE_REPOSITORY)
}

/// The tag that is built in: the one the build was pinned to, if any.
pub open spec fn compiled_tag(build_pin: Option<Seq<char>>) -> Seq<char> {
    match build_pin {
        Some(t) => t,
        None => "v1.0.0-dev"@,
    }
}

/// The tag of a gateway's image, given the one that this process has kept,
/// the value of the environment variable and the tag that the build was
/// pinned to. It is resolved once for each process.
pub fn default_gateway_image_tag(
    cache: &mut Option<String>,
    value: Option<&str>,
    build_pin: Option<&str>,
) -> (r: String)
    ensures
        r@ == kept_or_resolved(
            opt_text(*old(cache)),
            opt_str(value),
            compiled_tag(opt_str(build_pin)),
        ),
        opt_text(*final(cache)) == Some(r@),
        *old(cache) is Some ==> *final(cache) == *old(cache),
{
    let compiled = match build_pin {
        Some(t) => t,
        None => DEFAULT_GATEWAY_IMAGE_TAG,
    };
    resolve_once(cache, value, compiled)
}

/// What is kept after a default was asked for several times, with these
/// values of the environment variable one after the other.
pub open spec fn kept_after(values: Seq<Option<Seq<char>>>, compiled: Seq<char>) -> Option<
    Seq<char>,
>
    decreases values.len(),
{
    if values.len() == 0 {
        None
    } else {
        Some(
            kept_or_resolved(kept_after(values.drop_last(), compiled), values.last(), compiled),
        )
    }
}

/// The first answer stays for the process: however often a default is asked
/// for, and whatever the environment says by then, the answer is the one
/// that the first value gave.
pub proof fn law_default_is_resolved_once(values: Seq<Option<Seq<char>>>, compiled: Seq<char>)
    requires
        values.len() > 0,
    ensures
        kept_after(values, compiled) == Some(image_default(values[0], compiled)),
    decreases values.len(),
{
    if values.len() > 1 {
        law_default_is_resolved_once(values.drop_last(), compiled);
    } else {
        assert(kept_after(values.drop_last(), compiled) is None);
    }
}

proof fn lemma_trim_end_char(s: Seq<char>, c: char)
    ensures
        trim_end_char(s, c).len() > 0 ==> trim_end_char(s, c).last() != c,
    decreases s.len(),
{
    if s.len() > 0 && s.last() == c {
        lemma_trim_end_char(s.drop_last(), c);
    }
}

/// A default is never empty and never ends in a slash, whatever the
/// installation says: with its tag it always makes a reference that a
/// registry can serve.
pub proof fn law_image_default_is_usable(value: Option<Seq<char>>, compiled: Seq<char>)
    requires
        compiled.len() > 0,
        compiled.last() != '/',
    ensures
        image_default(value, compiled).len() > 0,
        image_default(value, compiled).last() != '/',
{
    match value {
        Some(raw) => {
            lemma_trim_end_char(trim(raw), '/');
        },
        None => {},
    }
}

/// An installation that says something usable gets it: what it says, without the
/// white space and the slashes around it. One that says nothing gets what is built
/// in, and so does one that says only white space and slashes.
pub proof fn law_image_default_is_what_was_said(said: Seq<char>, raw: Seq<char>, compiled: Seq<char>)
    ensures
        image_default(None, compiled) == compiled,
        trim(raw) == said && said.len() > 0 && said.last() != '/' ==> image_default(
            Some(raw),
            compiled,
        ) == said,
        (forall|i: int| 0 <= i < trim(raw).len() ==> #[trigger] trim(raw)[i] == '/')
            ==> image_default(Some(raw), compiled) == compiled,
        text::starts_with(trim(raw), image_default(Some(raw), compiled)) || image_default(
            Some(raw),
            compiled,
        ) == compiled,
{
    let t = trim(raw);
    text_laws::law_trim_end_char(t, '/');
    let u = trim_end_char(t, '/');
    if u.len() > 0 {
        assert(u.last() == t[u.len() - 1]);
    }
    if t == said && said.len() > 0 && said.last() != '/' {
        assert(u == said);
    }
    assert(text::starts_with(t, u));
}

/// The tag that is built in is the one that the build was pinned to, and only
/// without a pin the default one.
pub proof fn law_build_pin_counts(pin: Seq<char>)
    ensures
        compiled_tag(Some(pin)) == pin,
        compiled_tag(None) == DEFAULT_GATEWAY_IMAGE_TAG@,
{
}

} // verus!
