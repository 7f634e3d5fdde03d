//! Finalizers: adding the operator's, and taking it off again.
use vstd::prelude::*;

use crate::api::objects::ObjectMeta;
use crate::json::{items_view, Json, JsonView};
use crate::text::{has_text, same, texts};

verus! {

/// The finalizer of every resource the operator manages.
pub const OPERATOR_FINALIZER: &'static str = "mcpg.dev/operator";

/// Why a finalizer could not be added or removed.
#[derive(Debug, Clone)]
pub enum FinalizerError {
    /// The object carries no resource version to guard the patch with.
    MissingResourceVersion { name: String },
    /// Someone else changed the object in between.
    Conflict { name: String },
    /// The patch failed.
    Patch { name: String, detail: String },
}

/// Whether a list of finalizers holds one.
pub open spec fn holds(f: Option<Seq<Seq<char>>>, finalizer: Seq<char>) -> bool {
    match f {
        Some(s) => s.contains(finalizer),
        None => false,
    }
}

/// Whether an object carries a finalizer.
pub fn has_finalizer(meta: &ObjectMeta, finalizer: &str) -> (r: bool)
    ensures
        r == holds(meta@.finalizers, finalizer@),
{
    match &meta.finalizers {
        Some(f) => has_text(f, finalizer),
        None => false,
    }
}

/// A JSON patch operation.
pub open spec fn patch_op(op: Seq<char>, path: Seq<char>, value: JsonView) -> JsonView {
    JsonView::Object(
        Map::<Seq<char>, JsonView>::empty().insert("op"@, JsonView::Str(op)).insert(
            "path"@,
            JsonView::Str(path),
        ).insert("value"@, value),
    )
}

/// The patch that adds a finalizer: guarded by the resource version, it
/// appends to the list, or creates it with one entry.
pub open spec fn add_patch(
    listed: bool,
    resource_version: Seq<char>,
    finalizer: Seq<char>,
) -> JsonView {
    JsonView::Array(
        seq![
            patch_op("test"@, "/metadata/resourceVersion"@, JsonView::Str(resource_version)),
            if listed {
                patch_op("add"@, "/metadata/finalizers/-"@, JsonView::Str(finalizer))
            } else {
                patch_op(
                    "add"@,
                    "/metadata/finalizers"@,
                    JsonView::Array(seq![JsonView::Str(finalizer)]),
                )
            },
        ],
    )
}

/// The finalizers after that patch.
pub open spec fn after_add(f: Option<Seq<Seq<char>>>, finalizer: Seq<char>) -> Seq<Seq<char>> {
    match f {
        Some(s) => s.push(finalizer),
        None => seq![finalizer],
    }
}

fn op_value(op: &str, path: &str, value: Json) -> (r: Json)
    ensures
        r.view() == patch_op(op@, path@, value.view()),
{
    let mut o = Json::Object(Vec::new());
    o.set("op", Json::str(op));
    o.set("path", Json::str(path));
    o.set("value", value);
    o
}

/// What to do so that an object carries a finalizer: nothing when it does,
/// else the patch to send. Without a resource version there is nothing to
/// guard the patch with.
pub fn ensure_finalizer(meta: &ObjectMeta, name: &str, finalizer: &str) -> (r: Result<
    Option<Json>,
    FinalizerError,
>)
    ensures
        match r {
            Ok(None) => holds(meta@.finalizers, finalizer@),
            Ok(Some(patch)) => {
                &&& !holds(meta@.finalizers, finalizer@)
                &&& meta@.resource_version is Some
                &&& patch.view() == add_patch(
                    meta@.finalizers is Some,
                    meta@.resource_version->0,
                    finalizer@,
                )
            },
            Err(FinalizerError::MissingResourceVersion { name: n }) => {
                &&& !holds(meta@.finalizers, finalizer@)
                &&& meta@.resource_version is None
                &&& n@ == name@
            },
            Err(_) => false,
        },
{
    if has_finalizer(meta, finalizer) {
        return Ok(None);
    }
    let rv = match &meta.resource_version {
        Some(v) => v.as_str(),
        None => return Err(FinalizerError::MissingResourceVersion { name: name.to_owned() }),
    };
    let test = op_value("test", "/metadata/resourceVersion", Json::str(rv));
    let add = match &meta.finalizers {
        Some(_) => op_value("add", "/metadata/finalizers/-", Json::str(finalizer)),
        None => {
            let mut one: Vec<Json> = Vec::new();
            one.push(Json::str(finalizer));
            proof {
                reveal_with_fuel(items_view, 2);
                assert(items_view(one@) =~= seq![JsonView::Str(finalizer@)]);
            }
            op_value("add", "/metadata/finalizers", Json::Array(one))
        },
    };
    let mut ops: Vec<Json> = Vec::new();
    ops.push(test);
    ops.push(add);
    proof {
        reveal_with_fuel(items_view, 3);
        assert(ops@.drop_last() =~= seq![test]);
        assert(items_view(ops@) =~= seq![test.view(), add.view()]);
    }
    Ok(Some(Json::Array(ops)))
}

/// Whether an API error code means that someone else changed the object.
pub open spec fn conflict(code: Option<u16>) -> bool {
    code == Some(409u16)
}

/// Whether an API error code means that someone else changed the object.
pub fn is_conflict(code: Option<u16>) -> (r: bool)
    ensures
        r == conflict(code),
{
    match code {
        Some(c) => c == 409,
        None => false,
    }
}

/// The error of a finalizer patch that failed with the given API code and
/// message.
pub fn patch_error(name: &str, code: Option<u16>, detail: &str) -> (r: FinalizerError)
    ensures
        match r {
            FinalizerError::Conflict { name: n } => conflict(code) && n@ == name@,
            FinalizerError::Patch { name: n, detail: d } => !conflict(code) && n@ == name@ && d@
                == detail@,
            FinalizerError::MissingResourceVersion { .. } => false,
        },
{
    if is_conflict(code) {
        FinalizerError::Conflict { name: name.to_owned() }
    } else {
        FinalizerError::Patch { name: name.to_owned(), detail: detail.to_owned() }
    }
}

/// A list of finalizers without one of them.
pub open spec fn without(f: Seq<Seq<char>>, finalizer: Seq<char>) -> Seq<Seq<char>>
    decreases f.len(),
{
    if f.len() == 0 {
        Seq::empty()
    } else if f.last() == finalizer {
        without(f.drop_last(), finalizer)
    } else {
        without(f.drop_last(), finalizer).push(f.last())
    }
}

/// The list to write so that an object no longer carries a finalizer;
/// nothing when it does not carry it.
pub open spec fn after_remove(
    f: Option<Seq<Seq<char>>>,
    finalizer: Seq<char>,
) -> Option<Seq<Seq<char>>> {
    match f {
        Some(s) => if s.contains(finalizer) {
            Some(without(s, finalizer))
        } else {
            None
        },
        None => None,
    }
}

/// The merge patch that writes a list of finalizers.
pub open spec fn finalizers_patch(f: Seq<Seq<char>>) -> JsonView {
    JsonView::Object(
        Map::<Seq<char>, JsonView>::empty().insert(
            "metadata"@,
            JsonView::Object(
                Map::<Seq<char>, JsonView>::empty().insert(
                    "finalizers"@,
                    JsonView::Array(f.map_values(|s: Seq<char>| JsonView::Str(s))),
                ),
            ),
        ),
    )
}

/// What to do so that an object no longer carries a finalizer: the merge
/// patch to send, or nothing.
pub fn remove_finalizer(meta: &ObjectMeta, finalizer: &str) -> (r: Option<Json>)
    ensures
        match r {
            Some(p) => after_remove(meta@.finalizers, finalizer@) is Some && p.view()
                == finalizers_patch(after_remove(meta@.finalizers, finalizer@)->0),
            None => after_remove(meta@.finalizers, finalizer@) is None,
        },
{
    let list = match &meta.finalizers {
        Some(list) => list,
        None => return None,
    };
    if !has_text(list, finalizer) {
        return None;
    }
    let mut kept: Vec<Json> = Vec::new();
    let ghost mut out = Seq::<Seq<char>>::empty();
    let ghost f = |s: Seq<char>| JsonView::Str(s);
    let mut i: usize = 0;
    proof {
        assert(items_view(kept@) =~= out.map_values(f));
        assert(texts(list@).take(0) =~= Seq::empty());
    }
    while i < list.len()
        invariant
            i <= list.len(),
            f == |s: Seq<char>| JsonView::Str(s),
            out == without(texts(list@).take(i as int), finalizer@),
            items_view(kept@) == out.map_values(f),
        decreases list.len() - i,
    {
        proof {
            assert(texts(list@).take(i + 1).drop_last() =~= texts(list@).take(i as int));
            assert(texts(list@)[i as int] == list@[i as int]@);
        }
        if !same(list[i].as_str(), finalizer) {
            let x = Json::str(list[i].as_str());
            proof {
                assert(kept@.push(x).drop_last() =~= kept@);
                out = out.push(list@[i as int]@);
                assert(out.map_values(f) =~= out.drop_last().map_values(f).push(
                    f(out.last()),
                ));
                assert(out.drop_last() =~= without(
                    texts(list@).take(i as int),
                    finalizer@,
                ));
            }
            kept.push(x);
        }
        i = i + 1;
    }
    assert(texts(list@).take(i as int) =~= texts(list@));
    let mut inner = Json::Object(Vec::new());
    inner.set("finalizers", Json::Array(kept));
    let mut patch = Json::Object(Vec::new());
    patch.set("metadata", inner);
    Some(patch)
}

/// After adding, the finalizer is there, and so are all the others.
pub proof fn law_add(f: Option<Seq<Seq<char>>>, finalizer: Seq<char>, other: Seq<char>)
    ensures
        after_add(f, finalizer).contains(finalizer),
        holds(f, other) ==> after_add(f, finalizer).contains(other),
{
    match f {
        Some(s) => {
            assert(s.push(finalizer)[s.len() as int] == finalizer);
            if s.contains(other) {
                let i = choose|i: int| 0 <= i < s.len() && s[i] == other;
                assert(s.push(finalizer)[i] == other);
            }
        },
        None => {
            assert(seq![finalizer][0] == finalizer);
        },
    }
}

/// Without a finalizer a list holds exactly the others.
pub proof fn lemma_without(f: Seq<Seq<char>>, finalizer: Seq<char>, x: Seq<char>)
    ensures
        without(f, finalizer).contains(x) <==> f.contains(x) && x != finalizer,
    decreases f.len(),
{
    if f.len() > 0 {
        let init = f.drop_last();
        lemma_without(init, finalizer, x);
        let w = without(init, finalizer);
        if f.contains(x) {
            let i = choose|i: int| 0 <= i < f.len() && f[i] == x;
            if i < f.len() - 1 {
                assert(init[i] == x);
            }
        }
        if init.contains(x) {
            let i = choose|i: int| 0 <= i < init.len() && init[i] == x;
            assert(f[i] == x);
        }
        if f.last() != finalizer {
            let r = w.push(f.last());
            if w.contains(x) {
                let i = choose|i: int| 0 <= i < w.len() && w[i] == x;
                assert(r[i] == x);
            }
            assert(r[w.len() as int] == f.last());
            assert(f[f.len() - 1] == f.last());
            if r.contains(x) {
                let i = choose|i: int| 0 <= i < r.len() && r[i] == x;
                if i < w.len() {
                    assert(w[i] == x);
                }
            }
        }
    }
}

/// After removing, the finalizer is gone, and the others are there as
/// before; nothing is written exactly when it was not there.
pub proof fn law_remove(f: Option<Seq<Seq<char>>>, finalizer: Seq<char>, other: Seq<char>)
    requires
        other != finalizer,
    ensures
        after_remove(f, finalizer) matches Some(s) ==> {
            &&& !s.contains(finalizer)
            &&& s.contains(other) <==> holds(f, other)
        },
        after_remove(f, finalizer) is None <==> !holds(f, finalizer),
{
    match f {
        Some(s) => {
            lemma_without(s, finalizer, finalizer);
            lemma_without(s, finalizer, other);
        },
        None => {},
    }
}

/// Adding a finalizer that was not there and removing it again gives back
/// the list.
pub proof fn law_add_then_remove(f: Seq<Seq<char>>, finalizer: Seq<char>)
    requires
        !f.contains(finalizer),
    ensures
        after_remove(Some(after_add(Some(f), finalizer)), finalizer) == Some(f),
{
    let s = f.push(finalizer);
    assert(s[f.len() as int] == finalizer);
    assert(s.contains(finalizer));
    assert(s.drop_last() =~= f);
    lemma_without_absent(f, finalizer);
}

proof fn lemma_without_absent(f: Seq<Seq<char>>, finalizer: Seq<char>)
    requires
        !f.contains(finalizer),
    ensures
        without(f, finalizer) == f,
    decreases f.len(),
{
    if f.len() > 0 {
        assert(f[f.len() - 1] != finalizer);
        assert forall|i: int| 0 <= i < f.len() - 1 implies f.drop_last()[i] != finalizer by {
            assert(f[i] != finalizer);
        }
        lemma_without_absent(f.drop_last(), finalizer);
        assert(f.drop_last().push(f.last()) =~= f);
    }
}

} // verus!
