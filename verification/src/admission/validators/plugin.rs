//! Which plugins may be written.
use vstd::prelude::*;

use crate::admission::decision::{
    admitted, finds, first_of, flagged, judge, judged, Decision,
};
use crate::api::resources::{
    CosignIdentity, MCPGPlugin, MCPGPluginSpec, PluginTrust, SlsaProvenance,
};
use crate::text::{
    begins, blank, contains_text, ends, ends_with, has_char, has_text, is_blank, join, joined,
    occurs, starts_with, texts, trim, trimmed,
};

verus! {

/// `regex::Regex`, carried without looking inside.
#[verifier::external_type_specification]
#[verifier::external_body]
pub struct ExRegex(regex::Regex);

/// `regex::Error`, carried without looking inside.
#[verifier::external_type_specification]
#[verifier::external_body]
pub struct ExRegexError(regex::Error);

/// The message with which `regex` rejects a pattern; none when it accepts
/// the pattern.
pub uninterp spec fn regex_rejection(pattern: Seq<char>) -> Option<Seq<char>>;

/// The message of a `regex::Error`.
pub uninterp spec fn regex_error_message(e: regex::Error) -> Seq<char>;

/// `regex::Regex::new`: whether it accepts a pattern, and the error with
/// which it rejects one, depend on the pattern alone.
#[verifier::external_body]
fn compile(pattern: &str) -> (r: Result<regex::Regex, regex::Error>)
    ensures
        match r {
            Ok(_) => regex_rejection(pattern@) is None,
            Err(e) => regex_rejection(pattern@) == Some(regex_error_message(e)),
        },
{
    regex::Regex::new(pattern)
}

/// The `Display` text of a `regex::Error`.
#[verifier::external_body]
fn display_regex_error(e: &regex::Error) -> (r: String)
    ensures
        r@ == regex_error_message(*e),
{
    e.to_string()
}

/// The message with which a pattern is rejected; none when it is accepted.
pub fn regex_defect(pattern: &str) -> (r: Option<String>)
    ensures
        crate::text::opt_text(r) == regex_rejection(pattern@),
{
    match compile(pattern) {
        Ok(_) => None,
        Err(e) => Some(display_regex_error(&e)),
    }
}

/// What is wrong with the id, version or class of a plugin.
pub open spec fn identity_defect(s: MCPGPluginSpec, known: Seq<Seq<char>>) -> Option<Seq<char>> {
    first_of(
        flagged(blank(s.plugin_id@), "spec.pluginId must not be empty"@),
        first_of(
            flagged(
                !s.plugin_id@.contains('.'),
                "spec.pluginId `"@ + s.plugin_id@
                    + "` is not a valid plugin id (expected reverse-DNS form, e.g. `dev.mcpg.identity.workload`)"@,
            ),
            first_of(
                flagged(blank(s.version@), "spec.version must not be empty"@),
                flagged(
                    !known.contains(s.plugin_class@),
                    "spec.pluginClass `"@ + s.plugin_class@
                        + "` is not a known PluginClass (known: "@ + join(known, ", "@) + ")"@,
                ),
            ),
        ),
    )
}

/// What is wrong with the image of a plugin: it names a registry, and a tag
/// or a digest; a tag alone needs a keyless signature.
pub open spec fn image_defect(s: MCPGPluginSpec) -> Option<Seq<char>> {
    let img = trim(s.oci.image@);
    first_of(
        flagged(img.len() == 0, "spec.oci.image must not be empty"@),
        first_of(
            flagged(
                !img.contains('/'),
                "spec.oci.image `"@ + img
                    + "` lacks a registry component (expected `<registry>/<path>:<tag>`)"@,
            ),
            first_of(
                flagged(
                    !img.contains(':') && !img.contains('@'),
                    "spec.oci.image `"@ + img
                        + "` lacks a tag or digest pin (expected `:tag` or `@sha256:...`)"@,
                ),
                flagged(
                    !occurs(img, "@sha256:"@) && s.trust.cosign_identity is None,
                    "spec.oci.image `"@ + img
                        + "` is tag-only AND no cosignIdentity is configured. Either pin the image by digest (`@sha256:...`) or set spec.trust.cosignIdentity for keyless verification."@,
                ),
            ),
        ),
    )
}

/// What is wrong with the identity of a keyless signature. `rejection` is
/// the message with which its pattern is rejected, if it is. A pattern that
/// is not anchored at both ends would match more than it says.
pub open spec fn cosign_defect(c: CosignIdentity, rejection: Option<Seq<char>>) -> Option<
    Seq<char>,
> {
    let re = trim(c.certificate_identity_regexp@);
    first_of(
        flagged(
            re.len() == 0,
            "spec.trust.cosignIdentity.certificateIdentityRegexp must not be empty"@,
        ),
        first_of(
            match rejection {
                Some(e) => Some(
                    "spec.trust.cosignIdentity.certificateIdentityRegexp is not a valid regex: "@
                        + e,
                ),
                None => None,
            },
            first_of(
                flagged(
                    !starts_with(re, "^"@),
                    "spec.trust.cosignIdentity.certificateIdentityRegexp must start with `^` (anchored). Unanchored patterns accept substring matches and let attacker-controlled subjects pass."@,
                ),
                first_of(
                    flagged(
                        !ends_with(re, "$"@),
                        "spec.trust.cosignIdentity.certificateIdentityRegexp must end with `$` (anchored). Unanchored tails accept substring matches."@,
                    ),
                    flagged(
                        blank(c.oidc_issuer@),
                        "spec.trust.cosignIdentity.oidcIssuer must not be empty"@,
                    ),
                ),
            ),
        ),
    )
}

/// What is wrong with a provenance.
pub open spec fn slsa_defect(s: SlsaProvenance) -> Option<Seq<char>> {
    first_of(
        flagged(
            blank(s.config_map_name@),
            "spec.trust.slsaProvenance.configMapName must not be empty"@,
        ),
        first_of(
            flagged(
                blank(s.source_uri@),
                "spec.trust.slsaProvenance.sourceUri must not be empty"@,
            ),
            flagged(
                blank(s.source_tag@),
                "spec.trust.slsaProvenance.sourceTag must not be empty"@,
            ),
        ),
    )
}

/// What is wrong with what makes a plugin trusted.
pub open spec fn trust_defect(t: PluginTrust, rejection: Option<Seq<char>>) -> Option<Seq<char>> {
    first_of(
        flagged(
            blank(t.signing_key_ref.secret_name@),
            "spec.trust.signingKeyRef.secretName must not be empty"@,
        ),
        first_of(
            flagged(
                blank(t.signing_key_ref.key@),
                "spec.trust.signingKeyRef.key must not be empty"@,
            ),
            first_of(
                match t.cosign_identity {
                    Some(c) => cosign_defect(c, rejection),
                    None => None,
                },
                match t.slsa_provenance {
                    Some(s) => slsa_defect(s),
                    None => None,
                },
            ),
        ),
    )
}

/// The pattern of a plugin's keyless signature.
pub open spec fn pattern_of(s: MCPGPluginSpec) -> Seq<char> {
    match s.trust.cosign_identity {
        Some(c) => trim(c.certificate_identity_regexp@),
        None => Seq::empty(),
    }
}

/// What is wrong with a plugin, given the known plugin classes and the
/// message with which the pattern of its keyless signature is rejected.
pub open spec fn plugin_defect(
    s: MCPGPluginSpec,
    known: Seq<Seq<char>>,
    rejection: Option<Seq<char>>,
) -> Option<Seq<char>> {
    first_of(
        identity_defect(s, known),
        first_of(image_defect(s), trust_defect(s.trust, rejection)),
    )
}

fn check_identity(s: &MCPGPluginSpec, known: &Vec<String>) -> (r: Result<(), String>)
    ensures
        finds(r, identity_defect(*s, texts(known@))),
{
    if is_blank(s.plugin_id.as_str()) {
        return Err("spec.pluginId must not be empty".to_owned());
    }
    if !has_char(s.plugin_id.as_str(), '.') {
        return Err(
            "spec.pluginId `".to_owned().concat(s.plugin_id.as_str()).concat(
                "` is not a valid plugin id (expected reverse-DNS form, e.g. `dev.mcpg.identity.workload`)",
            ),
        );
    }
    if is_blank(s.version.as_str()) {
        return Err("spec.version must not be empty".to_owned());
    }
    if !has_text(known, s.plugin_class.as_str()) {
        return Err(
            "spec.pluginClass `".to_owned().concat(s.plugin_class.as_str()).concat(
                "` is not a known PluginClass (known: ",
            ).concat(joined(known, ", ").as_str()).concat(")"),
        );
    }
    Ok(())
}

fn check_image(s: &MCPGPluginSpec) -> (r: Result<(), String>)
    ensures
        finds(r, image_defect(*s)),
{
    let img = trimmed(s.oci.image.as_str());
    let i = img.as_str();
    if i.is_empty() {
        return Err("spec.oci.image must not be empty".to_owned());
    }
    let label = "spec.oci.image `".to_owned().concat(i);
    if !has_char(i, '/') {
        return Err(
            label.concat(
                "` lacks a registry component (expected `<registry>/<path>:<tag>`)",
            ),
        );
    }
    if !has_char(i, ':') && !has_char(i, '@') {
        return Err(
            label.concat("` lacks a tag or digest pin (expected `:tag` or `@sha256:...`)"),
        );
    }
    if !contains_text(i, "@sha256:") && s.trust.cosign_identity.is_none() {
        return Err(
            label.concat(
                "` is tag-only AND no cosignIdentity is configured. Either pin the image by digest (`@sha256:...`) or set spec.trust.cosignIdentity for keyless verification.",
            ),
        );
    }
    Ok(())
}

/// Checks the identity of a keyless signature, given the message with which
/// its pattern is rejected, if it is.
pub fn check_cosign(c: &CosignIdentity, rejection: &Option<String>) -> (r: Result<(), String>)
    ensures
        finds(r, cosign_defect(*c, crate::text::opt_text(*rejection))),
{
    let re = trimmed(c.certificate_identity_regexp.as_str());
    if re.as_str().is_empty() {
        return Err(
            "spec.trust.cosignIdentity.certificateIdentityRegexp must not be empty".to_owned(),
        );
    }
    match rejection {
        Some(e) => {
            return Err(
                "spec.trust.cosignIdentity.certificateIdentityRegexp is not a valid regex: ".to_owned().concat(
                    e.as_str(),
                ),
            );
        },
        None => {},
    }
    if !begins(re.as_str(), "^") {
        return Err(
            "spec.trust.cosignIdentity.certificateIdentityRegexp must start with `^` (anchored). Unanchored patterns accept substring matches and let attacker-controlled subjects pass.".to_owned(),
        );
    }
    if !ends(re.as_str(), "$") {
        return Err(
            "spec.trust.cosignIdentity.certificateIdentityRegexp must end with `$` (anchored). Unanchored tails accept substring matches.".to_owned(),
        );
    }
    if is_blank(c.oidc_issuer.as_str()) {
        return Err("spec.trust.cosignIdentity.oidcIssuer must not be empty".to_owned());
    }
    Ok(())
}

fn check_slsa(s: &SlsaProvenance) -> (r: Result<(), String>)
    ensures
        finds(r, slsa_defect(*s)),
{
    if is_blank(s.config_map_name.as_str()) {
        return Err("spec.trust.slsaProvenance.configMapName must not be empty".to_owned());
    }
    if is_blank(s.source_uri.as_str()) {
        return Err("spec.trust.slsaProvenance.sourceUri must not be empty".to_owned());
    }
    if is_blank(s.source_tag.as_str()) {
        return Err("spec.trust.slsaProvenance.sourceTag must not be empty".to_owned());
    }
    Ok(())
}

/// Checks a plugin, given the known plugin classes and the message with which
/// the pattern of its keyless signature is rejected, if it is.
pub fn validate_with(spec: &MCPGPluginSpec, known: &Vec<String>, rejection: &Option<String>) -> (r:
    Result<(), String>)
    ensures
        finds(r, plugin_defect(*spec, texts(known@), crate::text::opt_text(*rejection))),
{
    match check_identity(spec, known) {
        Ok(_) => {},
        Err(m) => return Err(m),
    }
    match check_image(spec) {
        Ok(_) => {},
        Err(m) => return Err(m),
    }
    let t = &spec.trust;
    if is_blank(t.signing_key_ref.secret_name.as_str()) {
        return Err("spec.trust.signingKeyRef.secretName must not be empty".to_owned());
    }
    if is_blank(t.signing_key_ref.key.as_str()) {
        return Err("spec.trust.signingKeyRef.key must not be empty".to_owned());
    }
    match &t.cosign_identity {
        Some(c) => match check_cosign(c, rejection) {
            Ok(_) => {},
            Err(m) => return Err(m),
        },
        None => {},
    }
    match &t.slsa_provenance {
        Some(s) => check_slsa(s),
        None => Ok(()),
    }
}

/// Checks a plugin, given the known plugin classes.
pub fn validate_spec(obj: &MCPGPlugin, known: &Vec<String>) -> (r: Result<(), String>)
    ensures
        finds(
            r,
            plugin_defect(obj.spec, texts(known@), regex_rejection(pattern_of(obj.spec))),
        ),
{
    let pattern = match &obj.spec.trust.cosign_identity {
        Some(c) => trimmed(c.certificate_identity_regexp.as_str()),
        None => String::new(),
    };
    let rejection = regex_defect(pattern.as_str());
    validate_with(&obj.spec, known, &rejection)
}

/// Reviews a plugin that is about to be written; a deletion has none.
pub fn validate(obj: Option<&MCPGPlugin>, known: &Vec<String>) -> (r: Decision)
    ensures
        match obj {
            Some(p) => r@ == judged(
                plugin_defect(p.spec, texts(known@), regex_rejection(pattern_of(p.spec))),
            ),
            None => r@ == judged(None),
        },
{
    match obj {
        Some(p) => judge(validate_spec(p, known)),
        None => admitted(),
    }
}

/// An admitted plugin is pinned to a digest or carries a keyless signature,
/// and the pattern of such a signature is anchored at both ends.
pub proof fn law_admitted_plugin_is_bound(
    s: MCPGPluginSpec,
    known: Seq<Seq<char>>,
    rejection: Option<Seq<char>>,
)
    requires
        plugin_defect(s, known, rejection) is None,
    ensures
        occurs(trim(s.oci.image@), "@sha256:"@) || s.trust.cosign_identity is Some,
        s.trust.cosign_identity is Some ==> starts_with(pattern_of(s), "^"@) && ends_with(
            pattern_of(s),
            "$"@,
        ) && rejection is None,
{
}

} // verus!
