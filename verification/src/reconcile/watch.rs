//! Which changes of a resource are worth a reconcile.
use vstd::prelude::*;

use crate::api::objects::ObjectMeta;

verus! {

/// What a reconcile responds to: the generation of the spec, and whether
/// the object is being deleted. Events that leave it alone are dropped; an
/// object without a generation has none, and every event about it counts.
pub fn spec_or_deletion(meta: &ObjectMeta) -> (r: Option<(i64, bool)>)
    ensures
        r == predicate_of(*meta),
{
    match meta.generation {
        Some(g) => Some((g, meta.deletion_timestamp.is_some())),
        None => None,
    }
}

/// What a reconcile responds to.
pub open spec fn predicate_of(meta: ObjectMeta) -> Option<(i64, bool)> {
    match meta.generation {
        Some(g) => Some((g, meta.deletion_timestamp is Some)),
        None => None,
    }
}

/// A change that touches neither the generation nor the deletion stamp
/// keeps the value; a new generation, or the start of a deletion, changes
/// it.
pub proof fn law_spec_changes_count(a: ObjectMeta, b: ObjectMeta)
    requires
        a.generation is Some,
        b.generation is Some,
    ensures
        predicate_of(a) == predicate_of(b) <==> a.generation == b.generation && (
        a.deletion_timestamp is Some <==> b.deletion_timestamp is Some),
{
}

} // verus!
