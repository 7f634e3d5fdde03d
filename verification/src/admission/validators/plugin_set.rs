//! Which plugin sets may be written.
use vstd::prelude::*;

use crate::admission::decision::{
    admitted, finds, first_defect, first_of, flagged, judge, judged, lemma_first_defect,
    lemma_no_defect, Decision,
};
use crate::admission::tenant_guard::{
    allowlist_defect, enforce_pluginset_allowlist, listed, set_tenant,
};
use crate::api::resources::{MCPGPluginSet, MCPGPluginSetEntry, MCPGPluginSetSpec, MCPGTenant};
use crate::text::{
    blank, decimal, decimal_text, has_char, is_blank, join, joined, same, texts,
};

verus! {

/// What is known about capabilities: the names of those there are, and what
/// is wrong with those that were looked at and are none.
#[derive(Debug)]
pub struct Capabilities {
    pub known_names: Vec<String>,
    pub errors: Vec<(String, String)>,
}

/// What is wrong with a capability, if anything.
pub open spec fn capability_error(errors: Seq<(String, String)>, cap: Seq<char>) -> Option<
    Seq<char>,
>
    decreases errors.len(),
{
    if errors.len() == 0 {
        None
    } else if errors.last().0@ == cap {
        Some(errors.last().1@)
    } else {
        capability_error(errors.drop_last(), cap)
    }
}

fn find_error(errors: &Vec<(String, String)>, cap: &str) -> (r: Option<String>)
    ensures
        crate::text::opt_text(r) == capability_error(errors@, cap@),
{
    let mut i: usize = errors.len();
    assert(errors@.take(i as int) =~= errors@);
    while i > 0
        invariant
            i <= errors.len(),
            capability_error(errors@, cap@) == capability_error(errors@.take(i as int), cap@),
        decreases i,
    {
        proof {
            let s = errors@.take(i as int);
            assert(s.drop_last() =~= errors@.take(i - 1));
            assert(s.last() == errors@[i - 1]);
        }
        if same(errors[i - 1].0.as_str(), cap) {
            return Some(errors[i - 1].1.clone());
        }
        i = i - 1;
    }
    None
}

/// Whether an earlier entry has the same id.
pub open spec fn id_repeats(v: Seq<MCPGPluginSetEntry>, i: int) -> bool {
    exists|j: int| 0 <= j < i && (#[trigger] v[j]).id@ == v[i].id@
}

/// What is wrong with the entry at position `i`.
pub open spec fn entry_defect(v: Seq<MCPGPluginSetEntry>, i: int) -> Option<Seq<char>> {
    let at = "spec.entries["@ + decimal(i as nat);
    first_of(
        flagged(blank(v[i].id@), at + "].id must not be empty"@),
        first_of(
            flagged(
                !v[i].id@.contains('.'),
                at + "].id `"@ + v[i].id@
                    + "` is not a valid plugin id (expected reverse-DNS form, e.g. `dev.mcpg.identity.workload`)"@,
            ),
            first_of(
                flagged(
                    id_repeats(v, i),
                    "duplicate plugin id `"@ + v[i].id@ + "` at spec.entries["@ + decimal(i as nat)
                        + "] — each id may appear at most once per set"@,
                ),
                flagged(
                    blank(v[i].plugin_ref.name@),
                    at + "].pluginRef.name must not be empty"@,
                ),
            ),
        ),
    )
}

/// Whether some entry has the given id.
pub open spec fn has_id(v: Seq<MCPGPluginSetEntry>, id: Seq<char>) -> bool {
    exists|j: int| 0 <= j < v.len() && (#[trigger] v[j]).id@ == id
}

/// What is wrong with one capability of a grant.
pub open spec fn capability_defect(id: Seq<char>, cap: Seq<char>, caps: Capabilities) -> Option<
    Seq<char>,
> {
    match capability_error(caps.errors@, cap) {
        Some(e) => Some(
            "spec.capabilityGrants[`"@ + id + "`] capability `"@ + cap
                + "` is not a valid gateway capability ("@ + e + "); valid kinds: "@ + join(
                texts(caps.known_names@),
                ", "@,
            ),
        ),
        None => None,
    }
}

/// What is wrong with a grant: it is for an id that no entry has, it grants
/// nothing, or it grants something that is no capability.
pub open spec fn grant_defect(
    s: MCPGPluginSetSpec,
    caps: Capabilities,
    i: int,
) -> Option<Seq<char>> {
    let id = s.capability_grants@[i].0@;
    let granted = s.capability_grants@[i].1@;
    let at = "spec.capabilityGrants[`"@ + id;
    first_of(
        flagged(
            !has_id(s.entries@, id),
            at + "`] names a plugin id not in spec.entries[]"@,
        ),
        first_of(
            flagged(
                granted.len() == 0,
                at
                    + "`] is empty — either remove the entry or list the capabilities the plugin needs"@,
            ),
            first_defect(granted.len(), |k: int| capability_defect(id, granted[k]@, caps)),
        ),
    )
}

/// What is wrong with a plugin set by itself.
pub open spec fn spec_defect(s: MCPGPluginSetSpec, caps: Capabilities) -> Option<Seq<char>> {
    first_of(
        flagged(s.entries@.len() == 0, "spec.entries must not be empty"@),
        first_of(
            first_defect(s.entries@.len(), |i: int| entry_defect(s.entries@, i)),
            first_defect(s.capability_grants@.len(), |i: int| grant_defect(s, caps, i)),
        ),
    )
}

fn repeats_id(v: &Vec<MCPGPluginSetEntry>, i: usize) -> (r: bool)
    requires
        i < v@.len(),
    ensures
        r == id_repeats(v@, i as int),
{
    let mut j: usize = 0;
    while j < i
        invariant
            j <= i,
            i < v@.len(),
            forall|k: int| 0 <= k < j ==> (#[trigger] v@[k]).id@ != v@[i as int].id@,
        decreases i - j,
    {
        if same(v[j].id.as_str(), v[i].id.as_str()) {
            return true;
        }
        j = j + 1;
    }
    false
}

fn known_id(v: &Vec<MCPGPluginSetEntry>, id: &str) -> (r: bool)
    ensures
        r == has_id(v@, id@),
{
    let mut j: usize = 0;
    while j < v.len()
        invariant
            j <= v.len(),
            forall|k: int| 0 <= k < j ==> (#[trigger] v@[k]).id@ != id@,
        decreases v.len() - j,
    {
        if same(v[j].id.as_str(), id) {
            return true;
        }
        j = j + 1;
    }
    false
}

fn check_entry(v: &Vec<MCPGPluginSetEntry>, i: usize) -> (r: Result<(), String>)
    requires
        i < v@.len(),
    ensures
        finds(r, entry_defect(v@, i as int)),
{
    let e = &v[i];
    let n = decimal_text(i as u64);
    let at = "spec.entries[".to_owned().concat(n.as_str());
    if is_blank(e.id.as_str()) {
        return Err(at.concat("].id must not be empty"));
    }
    if !has_char(e.id.as_str(), '.') {
        return Err(
            at.concat("].id `").concat(e.id.as_str()).concat(
                "` is not a valid plugin id (expected reverse-DNS form, e.g. `dev.mcpg.identity.workload`)",
            ),
        );
    }
    if repeats_id(v, i) {
        return Err(
            "duplicate plugin id `".to_owned().concat(e.id.as_str()).concat(
                "` at spec.entries[",
            ).concat(n.as_str()).concat("] — each id may appear at most once per set"),
        );
    }
    if is_blank(e.plugin_ref.name.as_str()) {
        return Err(at.concat("].pluginRef.name must not be empty"));
    }
    Ok(())
}

fn check_capabilities(id: &str, granted: &Vec<String>, caps: &Capabilities) -> (r: Result<
    (),
    String,
>)
    ensures
        finds(
            r,
            first_defect(granted@.len(), |k: int| capability_defect(id@, granted@[k]@, *caps)),
        ),
{
    let ghost at = |k: int| capability_defect(id@, granted@[k]@, *caps);
    let mut k: usize = 0;
    while k < granted.len()
        invariant
            k <= granted.len(),
            at == |k: int| capability_defect(id@, granted@[k]@, *caps),
            first_defect(k as nat, at) is None,
        decreases granted.len() - k,
    {
        match find_error(&caps.errors, granted[k].as_str()) {
            Some(e) => {
                let m = "spec.capabilityGrants[`".to_owned().concat(id).concat(
                    "`] capability `",
                ).concat(granted[k].as_str()).concat("` is not a valid gateway capability (").concat(
                    e.as_str(),
                ).concat("); valid kinds: ").concat(joined(&caps.known_names, ", ").as_str());
                proof {
                    lemma_first_defect(granted@.len(), at, k as nat);
                }
                return Err(m);
            },
            None => {},
        }
        k = k + 1;
    }
    Ok(())
}

fn check_grant(s: &MCPGPluginSetSpec, caps: &Capabilities, i: usize) -> (r: Result<(), String>)
    requires
        i < s.capability_grants@.len(),
    ensures
        finds(r, grant_defect(*s, *caps, i as int)),
{
    let id = s.capability_grants[i].0.as_str();
    let granted = &s.capability_grants[i].1;
    let at = "spec.capabilityGrants[`".to_owned().concat(id);
    if !known_id(&s.entries, id) {
        return Err(at.concat("`] names a plugin id not in spec.entries[]"));
    }
    if granted.len() == 0 {
        return Err(
            at.concat(
                "`] is empty — either remove the entry or list the capabilities the plugin needs",
            ),
        );
    }
    check_capabilities(id, granted, caps)
}

/// Checks a plugin set by itself.
pub fn validate_spec(obj: &MCPGPluginSet, caps: &Capabilities) -> (r: Result<(), String>)
    ensures
        finds(r, spec_defect(obj.spec, *caps)),
{
    let s = &obj.spec;
    if s.entries.len() == 0 {
        return Err("spec.entries must not be empty".to_owned());
    }
    let ghost at = |i: int| entry_defect(s.entries@, i);
    let mut i: usize = 0;
    while i < s.entries.len()
        invariant
            i <= s.entries.len(),
            s == obj.spec,
            s.entries@.len() > 0,
            at == |i: int| entry_defect(s.entries@, i),
            first_defect(i as nat, at) is None,
        decreases s.entries.len() - i,
    {
        match check_entry(&s.entries, i) {
            Ok(_) => {},
            Err(m) => {
                proof {
                    lemma_first_defect(s.entries@.len(), at, i as nat);
                }
                return Err(m);
            },
        }
        i = i + 1;
    }
    let ghost grant_at = |i: int| grant_defect(*s, *caps, i);
    let mut k: usize = 0;
    while k < s.capability_grants.len()
        invariant
            k <= s.capability_grants.len(),
            s == obj.spec,
            s.entries@.len() > 0,
            at == |i: int| entry_defect(s.entries@, i),
            first_defect(s.entries@.len(), at) is None,
            grant_at == |i: int| grant_defect(*s, *caps, i),
            first_defect(k as nat, grant_at) is None,
        decreases s.capability_grants.len() - k,
    {
        match check_grant(s, caps, k) {
            Ok(_) => {},
            Err(m) => {
                proof {
                    lemma_first_defect(s.capability_grants@.len(), grant_at, k as nat);
                }
                return Err(m);
            },
        }
        k = k + 1;
    }
    Ok(())
}

/// Reviews a plugin set that is about to be written; a deletion has none.
/// `allowed` says for each entry whether the tenant of the namespace allows
/// its plugin.
pub fn validate(
    obj: Option<&MCPGPluginSet>,
    caps: &Capabilities,
    tenants: Option<&Vec<MCPGTenant>>,
    allowed: &Vec<bool>,
) -> (r: Decision)
    requires
        obj matches Some(set) ==> (set_tenant(*set, listed(tenants)) is Some ==> allowed@.len()
            == set.spec.entries@.len()),
    ensures
        match obj {
            Some(set) => r@ == judged(
                first_of(
                    spec_defect(set.spec, *caps),
                    allowlist_defect(*set, set_tenant(*set, listed(tenants)), allowed@),
                ),
            ),
            None => r@ == judged(None),
        },
{
    let set = match obj {
        Some(s) => s,
        None => return admitted(),
    };
    match validate_spec(set, caps) {
        Ok(_) => {},
        Err(m) => return Decision::Deny(m),
    }
    judge(enforce_pluginset_allowlist(set, tenants, allowed))
}

/// When the tenants cannot be listed, a plugin set is denied only for what
/// it says itself.
pub proof fn law_failed_lookup_admits(set: MCPGPluginSet, caps: Capabilities, allowed: Seq<bool>)
    ensures
        first_of(
            spec_defect(set.spec, caps),
            allowlist_defect(set, set_tenant(set, None), allowed),
        ) == spec_defect(set.spec, caps),
{
}

/// The entries of an admitted plugin set have different ids.
pub proof fn law_ids_are_unique(s: MCPGPluginSetSpec, caps: Capabilities, i: int, j: int)
    requires
        spec_defect(s, caps) is None,
        0 <= j < i < s.entries@.len(),
    ensures
        s.entries@[i].id@ != s.entries@[j].id@,
{
    lemma_no_defect(s.entries@.len(), |i: int| entry_defect(s.entries@, i), i);
    assert(!id_repeats(s.entries@, i));
}

/// An admitted plugin set grants capabilities to its own plugins alone.
pub proof fn law_grants_are_for_own_plugins(s: MCPGPluginSetSpec, caps: Capabilities, i: int)
    requires
        spec_defect(s, caps) is None,
        0 <= i < s.capability_grants@.len(),
    ensures
        has_id(s.entries@, s.capability_grants@[i].0@),
        s.capability_grants@[i].1@.len() > 0,
{
    lemma_no_defect(s.capability_grants@.len(), |i: int| grant_defect(s, caps, i), i);
}

} // verus!
