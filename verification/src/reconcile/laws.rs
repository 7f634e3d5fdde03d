//! What holds of the patches and outcomes of every reconcile.
use vstd::prelude::*;

use crate::api::objects::ObjectMeta;
use crate::backoff::count_of;
use crate::json::{get, get_str, JsonView};
use crate::reconcile::finalizers::{
    add_patch, conflict, finalizers_patch, holds, without,
};
use crate::reconcile::flow::{
    after_reconcile, generation_of, is_permanent, ReconcileError,
};
use crate::reconcile::status::status_body_view;
use crate::reconcile::watch::predicate_of;
use crate::telemetry::ReconcileOutcome;

verus! {

proof fn lemma_patch_fields()
    ensures
        "op"@ != "path"@,
        "op"@ != "value"@,
        "path"@ != "value"@,
{
    reveal_strlit("op");
    reveal_strlit("path");
    reveal_strlit("value");
    assert("op"@.len() == 2);
    assert("path"@.len() == 4);
    assert("value"@.len() == 5);
}

proof fn lemma_status_fields()
    ensures
        "apiVersion"@ != "kind"@,
        "apiVersion"@ != "status"@,
        "kind"@ != "status"@,
{
    reveal_strlit("apiVersion");
    reveal_strlit("kind");
    reveal_strlit("status");
    assert("apiVersion"@.len() == 10);
    assert("kind"@.len() == 4);
    assert("status"@.len() == 6);
}


/// The patch that adds a finalizer first tests the resource version that was
/// read, and then adds the finalizer: to the end of the list where there is one,
/// else as the only entry of a new list.
pub proof fn law_add_is_guarded(listed: bool, version: Seq<char>, finalizer: Seq<char>)
    ensures
        add_patch(listed, version, finalizer) matches JsonView::Array(ops) && {
            &&& ops.len() == 2
            &&& get_str(ops[0], "op"@) == Some("test"@)
            &&& get_str(ops[0], "path"@) == Some("/metadata/resourceVersion"@)
            &&& get_str(ops[0], "value"@) == Some(version)
            &&& get_str(ops[1], "op"@) == Some("add"@)
            &&& listed ==> get_str(ops[1], "path"@) == Some("/metadata/finalizers/-"@) && get_str(
                ops[1],
                "value"@,
            ) == Some(finalizer)
            &&& !listed ==> get_str(ops[1], "path"@) == Some("/metadata/finalizers"@) && (get(
                ops[1],
                "value"@,
            ) matches Some(JsonView::Array(only)) && only == seq![JsonView::Str(finalizer)])
        },
{
    lemma_patch_fields();
}

/// The patch that removes a finalizer writes the whole list that is left.
pub proof fn law_removal_writes_the_rest(f: Seq<Seq<char>>)
    ensures
        get(finalizers_patch(f), "metadata"@) matches Some(m) && (get(m, "finalizers"@) matches Some(
            JsonView::Array(items),
        ) && items.len() == f.len() && forall|i: int|
            0 <= i < f.len() ==> #[trigger] items[i] == JsonView::Str(f[i])),
{
}

/// What is left when a finalizer is removed stands in the order in which it
/// stood.
pub proof fn law_removal_keeps_the_order(
    a: Seq<Seq<char>>,
    b: Seq<Seq<char>>,
    finalizer: Seq<char>,
)
    ensures
        without(a + b, finalizer) == without(a, finalizer) + without(b, finalizer),
        without(seq![finalizer], finalizer).len() == 0,
    decreases b.len(),
{
    if b.len() == 0 {
        assert(a + b =~= a);
        assert(without(a, finalizer) + without(b, finalizer) =~= without(a, finalizer));
    } else {
        assert((a + b).drop_last() =~= a + b.drop_last());
        law_removal_keeps_the_order(a, b.drop_last(), finalizer);
        if b.last() != finalizer {
            assert(without(a + b, finalizer) =~= without(a, finalizer) + without(b, finalizer));
        }
    }
    reveal_with_fuel(without, 2);
    assert(seq![finalizer].drop_last() =~= Seq::<Seq<char>>::empty());
}

/// A conflict is the code 409 and no other answer.
pub proof fn law_conflict(code: u16)
    ensures
        conflict(Some(code)) <==> code == 409,
        !conflict(None),
{
}

/// The body of a status patch names the kind of the object and holds the status
/// as it is, and nothing else.
pub proof fn law_status_body(api_version: Seq<char>, kind: Seq<char>, status: JsonView)
    ensures
        get_str(status_body_view(api_version, kind, status), "apiVersion"@) == Some(api_version),
        get_str(status_body_view(api_version, kind, status), "kind"@) == Some(kind),
        get(status_body_view(api_version, kind, status), "status"@) == Some(status),
        forall|k: Seq<char>|
            (#[trigger] get(status_body_view(api_version, kind, status), k)) is Some ==> k
                == "apiVersion"@ || k == "kind"@ || k == "status"@,
{
    lemma_status_fields();
}

/// An error is permanent exactly when the resource has no name or no namespace.
pub proof fn law_permanent_errors(e: ReconcileError)
    ensures
        is_permanent(e) <==> (e matches ReconcileError::MissingName) || (
        e matches ReconcileError::MissingNamespace { .. }),
{
}

/// Failures are forgotten after a success, and a gateway's also after a reconcile
/// that waits for something; never for a resource that is being deleted, and never
/// after an error. Nobody else's are.
pub proof fn law_failures_are_forgotten(
    m: Map<Seq<char>, u32>,
    controller: Seq<char>,
    key: Seq<char>,
    other: Seq<char>,
    outcome: ReconcileOutcome,
)
    requires
        other != key,
    ensures
        after_reconcile(m, controller, key, true, outcome) == m,
        outcome is Success || (outcome is DependencyPending && controller == "gateway"@)
            ==> count_of(after_reconcile(m, controller, key, false, outcome), key) == 0,
        outcome is TransientError || outcome is PermanentError || (outcome is DependencyPending
            && controller != "gateway"@) ==> after_reconcile(m, controller, key, false, outcome)
            == m,
        count_of(after_reconcile(m, controller, key, false, outcome), other) == count_of(m, other),
{
}

/// The generation of an object is the one it has, or zero; what a reconcile
/// responds to is missing exactly when the object has none.
pub proof fn law_generation(m: ObjectMeta)
    ensures
        m.generation matches Some(g) ==> generation_of(m) == g && (predicate_of(m) matches Some(p)
            && p.0 == g && (p.1 <==> m.deletion_timestamp is Some)),
        m.generation is None ==> generation_of(m) == 0 && predicate_of(m) is None,
{
}

/// A finalizer is there exactly when the object has a list that holds it.
pub proof fn law_finalizer_is_listed(f: Seq<Seq<char>>, finalizer: Seq<char>)
    ensures
        holds(Some(f), finalizer) <==> exists|i: int| 0 <= i < f.len() && #[trigger] f[i] == finalizer,
        !holds(None, finalizer),
{
}

} // verus!
