//! JSON documents: the operator's own document type, its mathematical
//! view, edits along object paths, and the boundary to `serde_json`.
use vstd::prelude::*;

use crate::text;

verus! {

/// `serde_json::Value`, carried without looking inside.
#[verifier::external_type_specification]
#[verifier::external_body]
pub struct ExValue(serde_json::Value);

/// `serde_json::Number`, carried without looking inside.
#[verifier::external_type_specification]
#[verifier::external_body]
pub struct ExNumber(serde_json::Number);

/// `serde_json::Error`, carried without looking inside.
#[verifier::external_type_specification]
#[verifier::external_body]
pub struct ExError(serde_json::Error);

/// `serde_json::Map`, carried without looking inside.
#[verifier::external_type_specification]
#[verifier::external_body]
#[verifier::reject_recursive_types(K)]
#[verifier::reject_recursive_types(V)]
pub struct ExMap<K, V>(serde_json::Map<K, V>);

/// Cloning a `serde_json::Number` gives the same number.
pub assume_specification[ <serde_json::Number as Clone>::clone ](
    n: &serde_json::Number,
) -> (r: serde_json::Number)
    ensures
        r == *n,
;

/// A JSON document. In an object the last of several fields with the same
/// key is the one that counts.
#[derive(Debug)]
pub enum Json {
    Null,
    Bool(bool),
    Number(serde_json::Number),
    Str(String),
    Array(Vec<Json>),
    Object(Vec<(String, Json)>),
}

/// What a JSON document says: objects are maps, so the order in which
/// fields are written does not matter.
#[verifier::ext_equal]
pub enum JsonView {
    Null,
    Bool(bool),
    Number(serde_json::Number),
    Str(Seq<char>),
    Array(Seq<JsonView>),
    Object(Map<Seq<char>, JsonView>),
}

/// The views of a sequence of documents.
pub open spec fn items_view(v: Seq<Json>) -> Seq<JsonView>
    decreases v,
{
    if v.len() == 0 {
        Seq::empty()
    } else {
        items_view(v.drop_last()).push(v.last().view())
    }
}

/// The map a sequence of fields stands for: later fields replace earlier
/// ones with the same key.
pub open spec fn fields_view(v: Seq<(String, Json)>) -> Map<Seq<char>, JsonView>
    decreases v,
{
    if v.len() == 0 {
        Map::empty()
    } else {
        fields_view(v.drop_last()).insert(v.last().0@, v.last().1.view())
    }
}

impl Json {
    /// What the document says.
    pub open spec fn view(self) -> JsonView
        decreases self,
    {
        match self {
            Json::Null => JsonView::Null,
            Json::Bool(b) => JsonView::Bool(b),
            Json::Number(n) => JsonView::Number(n),
            Json::Str(s) => JsonView::Str(s@),
            Json::Array(v) => JsonView::Array(items_view(v@)),
            Json::Object(v) => JsonView::Object(fields_view(v@)),
        }
    }
}

/// The field `key` of an object.
pub open spec fn get(j: JsonView, key: Seq<char>) -> Option<JsonView> {
    match j {
        JsonView::Object(m) => if m.dom().contains(key) {
            Some(m[key])
        } else {
            None
        },
        _ => None,
    }
}

/// The text of the string field `key` of an object.
pub open spec fn get_str(j: JsonView, key: Seq<char>) -> Option<Seq<char>> {
    match get(j, key) {
        Some(JsonView::Str(s)) => Some(s),
        _ => None,
    }
}

/// The fields of an object; anything else has none.
pub open spec fn fields_of(j: JsonView) -> Map<Seq<char>, JsonView> {
    match j {
        JsonView::Object(m) => m,
        _ => Map::empty(),
    }
}

/// The empty object.
pub open spec fn empty_object() -> JsonView {
    JsonView::Object(Map::empty())
}

/// The field `key` of `j`, or the empty object when there is none.
pub open spec fn child(j: JsonView, key: Seq<char>) -> JsonView {
    if fields_of(j).dom().contains(key) {
        fields_of(j)[key]
    } else {
        empty_object()
    }
}

/// What is found at the end of `path`, walking through objects and taking
/// whatever is missing, or in the way, to be an empty object.
pub open spec fn leaf_at(j: JsonView, path: Seq<Seq<char>>) -> JsonView
    decreases path.len(),
{
    if path.len() == 0 {
        j
    } else {
        leaf_at(child(j, path[0]), path.skip(1))
    }
}

/// `j` with `leaf` at the end of `path`: objects along the way keep their
/// other fields, anything else along the way is replaced by an object.
pub open spec fn put_at(j: JsonView, path: Seq<Seq<char>>, leaf: JsonView) -> JsonView
    decreases path.len(),
{
    if path.len() == 0 {
        leaf
    } else {
        JsonView::Object(
            fields_of(j).insert(path[0], put_at(child(j, path[0]), path.skip(1), leaf)),
        )
    }
}

proof fn lemma_field(v: Seq<(String, Json)>, i: int, key: Seq<char>)
    requires
        0 <= i < v.len(),
        v[i].0@ == key,
        forall|j: int| i < j < v.len() ==> (#[trigger] v[j]).0@ != key,
    ensures
        fields_view(v).dom().contains(key),
        fields_view(v)[key] == v[i].1.view(),
    decreases v.len(),
{
    if i < v.len() - 1 {
        assert(v[v.len() - 1].0@ != key);
        assert forall|j: int| i < j < v.len() - 1 implies (#[trigger] v.drop_last()[j]).0@
            != key by {
            assert(v[j].0@ != key);
        }
        lemma_field(v.drop_last(), i, key);
    }
}

proof fn lemma_no_field(v: Seq<(String, Json)>, key: Seq<char>)
    requires
        forall|j: int| 0 <= j < v.len() ==> (#[trigger] v[j]).0@ != key,
    ensures
        !fields_view(v).dom().contains(key),
    decreases v.len(),
{
    if v.len() > 0 {
        assert(v[v.len() - 1].0@ != key);
        assert forall|j: int| 0 <= j < v.len() - 1 implies (#[trigger] v.drop_last()[j]).0@
            != key by {
            assert(v[j].0@ != key);
        }
        lemma_no_field(v.drop_last(), key);
    }
}

proof fn lemma_set_field(v: Seq<(String, Json)>, i: int, f: (String, Json))
    requires
        0 <= i < v.len(),
        v[i].0@ == f.0@,
        forall|j: int| i < j < v.len() ==> (#[trigger] v[j]).0@ != f.0@,
    ensures
        fields_view(v.update(i, f)) == fields_view(v).insert(f.0@, f.1.view()),
    decreases v.len(),
{
    let w = v.update(i, f);
    if i < v.len() - 1 {
        assert(v[v.len() - 1].0@ != f.0@);
        assert(w.drop_last() =~= v.drop_last().update(i, f));
        assert forall|j: int| i < j < v.len() - 1 implies (#[trigger] v.drop_last()[j]).0@
            != f.0@ by {
            assert(v[j].0@ != f.0@);
        }
        lemma_set_field(v.drop_last(), i, f);
        assert(w.last() == v.last());
        assert(fields_view(w) =~= fields_view(v).insert(f.0@, f.1.view()));
    } else {
        assert(w.drop_last() =~= v.drop_last());
        assert(fields_view(w) =~= fields_view(v).insert(f.0@, f.1.view()));
    }
}

/// The views of a sequence of documents, element by element.
pub proof fn lemma_items(v: Seq<Json>)
    ensures
        items_view(v).len() == v.len(),
        forall|i: int| 0 <= i < v.len() ==> items_view(v)[i] == (#[trigger] v[i]).view(),
    decreases v.len(),
{
    if v.len() > 0 {
        lemma_items(v.drop_last());
        assert forall|i: int| 0 <= i < v.len() implies items_view(v)[i] == (
        #[trigger] v[i]).view() by {
            if i < v.len() - 1 {
                assert(v.drop_last()[i] == v[i]);
            }
        }
    }
}

pub proof fn lemma_items_set(v: Seq<Json>, i: int, x: Json)
    requires
        0 <= i < v.len(),
    ensures
        items_view(v.update(i, x)) == items_view(v).update(i, x.view()),
{
    lemma_items(v);
    lemma_items(v.update(i, x));
    assert forall|k: int| 0 <= k < v.len() implies items_view(v.update(i, x))[k] == items_view(
        v,
    ).update(i, x.view())[k] by {
        let w = v.update(i, x);
        assert(w[k] == if k == i { x } else { v[k] });
        assert(items_view(w)[k] == w[k].view());
    }
    assert(items_view(v.update(i, x)) =~= items_view(v).update(i, x.view()));
}

/// The position of the field that counts for `key`.
fn find_field(fields: &Vec<(String, Json)>, key: &str) -> (r: Option<usize>)
    ensures
        match r {
            Some(i) => i < fields.len() && fields@[i as int].0@ == key@ && forall|j: int|
                i < j < fields.len() ==> (#[trigger] fields@[j]).0@ != key@,
            None => forall|j: int| 0 <= j < fields.len() ==> (#[trigger] fields@[j]).0@ != key@,
        },
{
    let mut i: usize = fields.len();
    while i > 0
        invariant
            i <= fields.len(),
            forall|j: int| i <= j < fields.len() ==> (#[trigger] fields@[j]).0@ != key@,
        decreases i,
    {
        if text::same(fields[i - 1].0.as_str(), key) {
            return Some(i - 1);
        }
        i = i - 1;
    }
    None
}

impl Default for Json {
    fn default() -> (r: Json)
        ensures
            r.view() == JsonView::Null,
    {
        Json::Null
    }
}

impl Clone for Json {
    fn clone(&self) -> (r: Json)
        ensures
            r.view() == self.view(),
        decreases self,
    {
        match self {
            Json::Null => Json::Null,
            Json::Bool(b) => Json::Bool(*b),
            Json::Number(n) => Json::Number(n.clone()),
            Json::Str(s) => Json::Str(s.clone()),
            Json::Array(v) => {
                let mut out: Vec<Json> = Vec::new();
                let mut i: usize = 0;
                assert(v@.take(0) =~= Seq::empty());
                while i < v.len()
                    invariant
                        i <= v.len(),
                        items_view(out@) == items_view(v@.take(i as int)),
                        decreases_to!(self => v@),
                    decreases v.len() - i,
                {
                    assert(decreases_to!(v@ => v@[i as int]));
                    let x = v[i].clone();
                    proof {
                        assert(v@.take(i + 1).drop_last() =~= v@.take(i as int));
                        assert(out@.push(x).drop_last() =~= out@);
                    }
                    out.push(x);
                    i = i + 1;
                }
                assert(v@.take(i as int) =~= v@);
                Json::Array(out)
            },
            Json::Object(v) => {
                let mut out: Vec<(String, Json)> = Vec::new();
                let mut i: usize = 0;
                assert(v@.take(0) =~= Seq::empty());
                while i < v.len()
                    invariant
                        i <= v.len(),
                        fields_view(out@) == fields_view(v@.take(i as int)),
                        decreases_to!(self => v@),
                    decreases v.len() - i,
                {
                    assert(decreases_to!(v@ => v@[i as int]));
                    let x = v[i].1.clone();
                    let k = v[i].0.clone();
                    proof {
                        assert(v@.take(i + 1).drop_last() =~= v@.take(i as int));
                        assert(out@.push((k, x)).drop_last() =~= out@);
                    }
                    out.push((k, x));
                    i = i + 1;
                }
                assert(v@.take(i as int) =~= v@);
                Json::Object(out)
            },
        }
    }
}

impl Json {
    /// A string document.
    pub fn str(s: &str) -> (r: Json)
        ensures
            r.view() == JsonView::Str(s@),
    {
        Json::Str(s.to_owned())
    }

    pub fn is_null(&self) -> (r: bool)
        ensures
            r == (self.view() is Null),
    {
        match self {
            Json::Null => true,
            _ => false,
        }
    }

    pub fn is_object(&self) -> (r: bool)
        ensures
            r == (self.view() is Object),
    {
        match self {
            Json::Object(_) => true,
            _ => false,
        }
    }

    /// The field `key` of an object.
    pub fn get(&self, key: &str) -> (r: Option<&Json>)
        ensures
            match r {
                Some(j) => get(self.view(), key@) == Some(j.view()),
                None => get(self.view(), key@) is None,
            },
    {
        match self {
            Json::Object(fields) => match find_field(fields, key) {
                Some(i) => {
                    proof {
                        lemma_field(fields@, i as int, key@);
                    }
                    Some(&fields[i].1)
                },
                None => {
                    proof {
                        lemma_no_field(fields@, key@);
                    }
                    None
                },
            },
            _ => None,
        }
    }

    /// The text of a string document.
    pub fn as_str(&self) -> (r: Option<&str>)
        ensures
            match r {
                Some(s) => self.view() == JsonView::Str(s@),
                None => !(self.view() is Str),
            },
    {
        match self {
            Json::Str(s) => Some(s.as_str()),
            _ => None,
        }
    }

    /// The elements of an array document.
    pub fn as_array(&self) -> (r: Option<&Vec<Json>>)
        ensures
            match r {
                Some(v) => self.view() == JsonView::Array(items_view(v@)),
                None => !(self.view() is Array),
            },
    {
        match self {
            Json::Array(v) => Some(v),
            _ => None,
        }
    }

    /// The text of the string field `key` of an object.
    pub fn get_str(&self, key: &str) -> (r: Option<&str>)
        ensures
            match r {
                Some(s) => get_str(self.view(), key@) == Some(s@),
                None => get_str(self.view(), key@) is None,
            },
    {
        match self.get(key) {
            Some(v) => v.as_str(),
            None => None,
        }
    }

    /// Sets the field `key` to `value`; a document that is not an object
    /// becomes one first.
    pub fn set(&mut self, key: &str, value: Json)
        ensures
            final(self).view() == JsonView::Object(fields_of(old(self).view()).insert(key@, value.view())),
    {
        let slot = slot(self, key);
        *slot = value;
    }
}

/// A list of texts as a document.
pub open spec fn strings(s: Seq<Seq<char>>) -> JsonView {
    JsonView::Array(s.map_values(|t: Seq<char>| JsonView::Str(t)))
}

impl Json {
    /// A list of texts as a document.
    pub fn strings(v: &Vec<String>) -> (r: Json)
        ensures
            r.view() == strings(text::texts(v@)),
    {
        let ghost all = text::texts(v@).map_values(|t: Seq<char>| JsonView::Str(t));
        let mut out: Vec<Json> = Vec::new();
        let mut i: usize = 0;
        assert(items_view(out@) =~= all.take(0));
        while i < v.len()
            invariant
                i <= v.len(),
                all == text::texts(v@).map_values(|t: Seq<char>| JsonView::Str(t)),
                items_view(out@) == all.take(i as int),
            decreases v.len() - i,
        {
            let x = Json::str(v[i].as_str());
            proof {
                assert(out@.push(x).drop_last() =~= out@);
                assert(all.take(i + 1) =~= all.take(i as int).push(all[i as int]));
            }
            out.push(x);
            i = i + 1;
        }
        assert(all.take(i as int) =~= all);
        Json::Array(out)
    }
}

/// The field `key` of `root`, which becomes an object first when it is not
/// one; a missing field is created as an empty object.
pub fn slot<'a>(root: &'a mut Json, key: &str) -> (r: &'a mut Json)
    ensures
        r.view() == child(old(root).view(), key@),
        final(root).view() == JsonView::Object(
            fields_of(old(root).view()).insert(key@, final(r).view()),
        ),
{
    if !root.is_object() {
        *root = Json::Object(Vec::new());
    }
    match root {
        Json::Object(fields) => {
            let i: usize = match find_field(fields, key) {
                Some(i) => {
                    proof {
                        lemma_field(fields@, i as int, key@);
                    }
                    i
                },
                None => {
                    proof {
                        lemma_no_field(fields@, key@);
                    }
                    let ghost was = fields@;
                    fields.push((key.to_owned(), Json::Object(Vec::new())));
                    proof {
                        assert(fields@.drop_last() =~= was);
                    }
                    fields.len() - 1
                },
            };
            let ghost before = fields@;
            proof {
                assert forall|f: (String, Json)| f.0 == before[i as int].0 implies fields_view(
                    #[trigger] before.update(i as int, f),
                ) == fields_of(old(root).view()).insert(key@, f.1.view()) by {
                    lemma_set_field(before, i as int, f);
                    assert(fields_view(before).insert(key@, f.1.view()) =~= fields_of(
                        old(root).view(),
                    ).insert(key@, f.1.view()));
                }
            }
            &mut fields[i].1
        },
        other => other,
    }
}

/// Walks `path` from `root`, making objects on the way wherever a value is
/// missing or is something else, and hands out what stands at its end.
pub fn ensure_path<'a>(root: &'a mut Json, path: &[&str]) -> (leaf: &'a mut Json)
    ensures
        leaf.view() == leaf_at(old(root).view(), path@.map_values(|s: &str| s@)),
        final(root).view() == put_at(
            old(root).view(),
            path@.map_values(|s: &str| s@),
            final(leaf).view(),
        ),
{
    proof {
        let p = path@.map_values(|s: &str| s@);
        assert(p.skip(0) =~= p);
    }
    ensure_path_from(root, path, 0)
}

fn ensure_path_from<'a>(root: &'a mut Json, path: &[&str], from: usize) -> (leaf: &'a mut Json)
    requires
        from <= path.len(),
    ensures
        leaf.view() == leaf_at(
            old(root).view(),
            path@.map_values(|s: &str| s@).skip(from as int),
        ),
        final(root).view() == put_at(
            old(root).view(),
            path@.map_values(|s: &str| s@).skip(from as int),
            final(leaf).view(),
        ),
    decreases path.len() - from,
{
    if from == path.len() {
        return root;
    }
    proof {
        let p = path@.map_values(|s: &str| s@);
        assert(p.skip(from as int).skip(1) =~= p.skip(from + 1));
        assert(p.skip(from as int)[0] == path@[from as int]@);
    }
    let next = slot(root, path[from]);
    ensure_path_from(next, path, from + 1)
}

/// What a `serde_json::Value` holds.
pub uninterp spec fn value_content(v: serde_json::Value) -> JsonView;

/// The fields a `serde_json::Map` holds.
pub uninterp spec fn map_content(m: serde_json::Map<String, serde_json::Value>) -> Map<
    Seq<char>,
    JsonView,
>;

/// The indented text that `serde_json` writes for a document.
pub uninterp spec fn pretty_text(j: JsonView) -> Seq<char>;

/// The text without white space that `serde_json` writes for a document.
pub uninterp spec fn compact_text(j: JsonView) -> Seq<char>;

/// What `serde_json` reads from a text: a document, or the message of the
/// error it reports.
pub uninterp spec fn parsed(s: Seq<char>) -> Result<JsonView, Seq<char>>;

/// The message of a `serde_json::Error`.
pub uninterp spec fn error_message(e: serde_json::Error) -> Seq<char>;

/// The `serde_json::Number` made from an unsigned integer.
pub uninterp spec fn integer(n: u64) -> serde_json::Number;

/// The `serde_json::Number` made from a signed integer.
pub uninterp spec fn signed_integer(n: i64) -> serde_json::Number;

/// One level of a `serde_json::Value`, variant by variant.
enum ValueShape {
    Null,
    Bool(bool),
    Number(serde_json::Number),
    Str(String),
    Array(Vec<serde_json::Value>),
    Object(serde_json::Map<String, serde_json::Value>),
}

spec fn shape_content(s: ValueShape) -> JsonView {
    match s {
        ValueShape::Null => JsonView::Null,
        ValueShape::Bool(b) => JsonView::Bool(b),
        ValueShape::Number(n) => JsonView::Number(n),
        ValueShape::Str(t) => JsonView::Str(t@),
        ValueShape::Array(v) => JsonView::Array(
            v@.map_values(|x: serde_json::Value| value_content(x)),
        ),
        ValueShape::Object(m) => JsonView::Object(map_content(m)),
    }
}

spec fn entries_content(v: Seq<(String, serde_json::Value)>) -> Map<Seq<char>, JsonView>
    decreases v.len(),
{
    if v.len() == 0 {
        Map::empty()
    } else {
        entries_content(v.drop_last()).insert(v.last().0@, value_content(v.last().1))
    }
}

/// Takes a `serde_json::Value` apart by its variant.
#[verifier::external_body]
fn shape_of(v: serde_json::Value) -> (s: ValueShape)
    ensures
        shape_content(s) == value_content(v),
{
    match v {
        serde_json::Value::Null => ValueShape::Null,
        serde_json::Value::Bool(b) => ValueShape::Bool(b),
        serde_json::Value::Number(n) => ValueShape::Number(n),
        serde_json::Value::String(t) => ValueShape::Str(t),
        serde_json::Value::Array(a) => ValueShape::Array(a),
        serde_json::Value::Object(m) => ValueShape::Object(m),
    }
}

/// Puts a `serde_json::Value` together, one variant for each shape.
#[verifier::external_body]
fn value_of(s: ValueShape) -> (v: serde_json::Value)
    ensures
        value_content(v) == shape_content(s),
{
    match s {
        ValueShape::Null => serde_json::Value::Null,
        ValueShape::Bool(b) => serde_json::Value::Bool(b),
        ValueShape::Number(n) => serde_json::Value::Number(n),
        ValueShape::Str(t) => serde_json::Value::String(t),
        ValueShape::Array(a) => serde_json::Value::Array(a),
        ValueShape::Object(m) => serde_json::Value::Object(m),
    }
}

/// `serde_json::Map::new` makes a map without fields.
#[verifier::external_body]
fn map_new() -> (m: serde_json::Map<String, serde_json::Value>)
    ensures
        map_content(m).dom() == Set::<Seq<char>>::empty(),
{
    serde_json::Map::new()
}

/// `serde_json::Map::insert` sets one field and keeps the others.
#[verifier::external_body]
fn map_insert(m: &mut serde_json::Map<String, serde_json::Value>, k: String, v: serde_json::Value)
    ensures
        map_content(*final(m)) == map_content(*old(m)).insert(k@, value_content(v)),
{
    m.insert(k, v);
}

/// Iterating over a `serde_json::Map` by value hands out each of its fields
/// once.
#[verifier::external_body]
fn map_entries(m: serde_json::Map<String, serde_json::Value>) -> (r: Vec<
    (String, serde_json::Value),
>)
    ensures
        entries_content(r@) == map_content(m),
        forall|i: int, j: int| 0 <= i < j < r@.len() ==> r@[i].0@ != r@[j].0@,
{
    m.into_iter().collect()
}

/// Whether a number is an integer of 64 bits, with a sign or without.
pub open spec fn whole(n: serde_json::Number) -> bool {
    (exists|u: u64| n == #[trigger] integer(u)) || (exists|i: i64|
        n == #[trigger] signed_integer(i))
}

/// What a number is after it was written and read again: an integer of 64
/// bits is the same, any other is what the reader makes of its text. There is
/// none where the reader refuses it, as it does some fractions next to the
/// largest.
pub open spec fn reread_number(n: serde_json::Number) -> Option<serde_json::Number> {
    if whole(n) {
        Some(n)
    } else {
        match parsed(compact_text(JsonView::Number(n))) {
            Ok(JsonView::Number(m)) => Some(m),
            _ => None,
        }
    }
}

/// Whether `serde_json` keeps a key for itself.
pub open spec fn is_reserved(key: Seq<char>) -> bool {
    key == "$serde_json::private::RawValue"@ || key == "$serde_json::private::Number"@
}

/// Whether `serde_json` reads a document again that it wrote: it reads each
/// of its numbers, the document nests at most `depth` containers, and no key
/// is one that `serde_json` keeps for itself.
pub open spec fn readable(j: JsonView, depth: nat) -> bool
    decreases depth,
{
    match j {
        JsonView::Null => true,
        JsonView::Bool(_) => true,
        JsonView::Str(_) => true,
        JsonView::Number(n) => reread_number(n) is Some,
        JsonView::Array(items) => depth > 0 && forall|i: int|
            0 <= i < items.len() ==> readable(#[trigger] items[i], (depth - 1) as nat),
        JsonView::Object(fields) => depth > 0 && forall|k: Seq<char>|
            fields.dom().contains(k) ==> !is_reserved(k) && readable(
                #[trigger] fields[k],
                (depth - 1) as nat,
            ),
    }
}

/// A document that nests at most `depth` containers, after it was written and
/// read again: the same but for its numbers.
pub open spec fn reread(j: JsonView, depth: nat) -> JsonView
    decreases depth,
{
    match j {
        JsonView::Number(n) => match reread_number(n) {
            Some(m) => JsonView::Number(m),
            None => j,
        },
        JsonView::Array(items) => if depth == 0 {
            j
        } else {
            JsonView::Array(items.map_values(|x: JsonView| reread(x, (depth - 1) as nat)))
        },
        JsonView::Object(fields) => if depth == 0 {
            j
        } else {
            JsonView::Object(fields.map_values(|x: JsonView| reread(x, (depth - 1) as nat)))
        },
        _ => j,
    }
}

/// Whether the numbers of a document that nests at most `depth` containers
/// are integers of 64 bits.
pub open spec fn whole_numbers(j: JsonView, depth: nat) -> bool
    decreases depth,
{
    match j {
        JsonView::Number(n) => whole(n),
        JsonView::Array(items) => depth > 0 ==> forall|i: int|
            0 <= i < items.len() ==> whole_numbers(#[trigger] items[i], (depth - 1) as nat),
        JsonView::Object(fields) => depth > 0 ==> forall|k: Seq<char>|
            fields.dom().contains(k) ==> whole_numbers(#[trigger] fields[k], (depth - 1) as nat),
        _ => true,
    }
}

/// A document whose numbers are integers of 64 bits is the same after it was
/// written and read again.
pub proof fn law_integers_read_back(j: JsonView, depth: nat)
    requires
        whole_numbers(j, depth),
    ensures
        reread(j, depth) == j,
    decreases depth,
{
    match j {
        JsonView::Array(items) => if depth > 0 {
            assert forall|i: int| 0 <= i < items.len() implies reread(
                #[trigger] items[i],
                (depth - 1) as nat,
            ) == items[i] by {
                law_integers_read_back(items[i], (depth - 1) as nat);
            }
            assert(reread(j, depth)->Array_0 =~= items);
        },
        JsonView::Object(fields) => if depth > 0 {
            assert forall|k: Seq<char>| fields.dom().contains(k) implies reread(
                #[trigger] fields[k],
                (depth - 1) as nat,
            ) == fields[k] by {
                law_integers_read_back(fields[k], (depth - 1) as nat);
            }
            assert(reread(j, depth)->Object_0 =~= fields);
        },
        _ => {},
    }
}

/// `serde_json::to_string_pretty` on a `Value`: the text depends on what
/// the value holds alone, and a value with string keys always serialises.
/// What it writes for a readable document, `serde_json::from_str` reads as
/// that document with each number read from its own text, and an integer as
/// itself; the reader stops at documents that nest more than 127 containers.
/// What becomes of a fraction is left to the reader.
#[verifier::external_body]
fn to_string_pretty(v: &serde_json::Value) -> (r: Result<String, serde_json::Error>)
    ensures
        r is Ok,
        r->Ok_0@ == pretty_text(value_content(*v)),
        readable(value_content(*v), 127) ==> parsed(r->Ok_0@) is Ok && parsed(r->Ok_0@)->Ok_0
            == reread(value_content(*v), 127),
{
    serde_json::to_string_pretty(v)
}

/// `serde_json::to_string` on a `Value`: the text depends on what the
/// value holds alone, and a value with string keys always serialises.
#[verifier::external_body]
fn to_string(v: &serde_json::Value) -> (r: Result<String, serde_json::Error>)
    ensures
        r is Ok,
        r->Ok_0@ == compact_text(value_content(*v)),
{
    serde_json::to_string(v)
}

/// `serde_json::from_str` into a `Value`: the document, or the error,
/// depends on the text alone.
#[verifier::external_body]
fn from_str(s: &str) -> (r: Result<serde_json::Value, serde_json::Error>)
    ensures
        match r {
            Ok(v) => parsed(s@) is Ok && parsed(s@)->Ok_0 == value_content(v),
            Err(e) => parsed(s@) is Err && parsed(s@)->Err_0 == error_message(e),
        },
{
    serde_json::from_str(s)
}

/// The `Display` text of a `serde_json::Error`.
#[verifier::external_body]
fn display_error(e: &serde_json::Error) -> (r: String)
    ensures
        r@ == error_message(*e),
{
    e.to_string()
}

/// `serde_json::Number::from` a signed integer; one that is not negative
/// gives the same number as the unsigned integer does.
#[verifier::external_body]
fn number_from_signed(n: i64) -> (r: serde_json::Number)
    ensures
        r == signed_integer(n),
        n >= 0 ==> r == integer(n as u64),
{
    serde_json::Number::from(n)
}

/// `serde_json::Number::from` an unsigned integer.
#[verifier::external_body]
fn number_from(n: u64) -> (r: serde_json::Number)
    ensures
        r == integer(n),
{
    serde_json::Number::from(n)
}

impl Json {
    /// An integer document.
    pub fn integer(n: u64) -> (r: Json)
        ensures
            r.view() == JsonView::Number(integer(n)),
    {
        Json::Number(number_from(n))
    }

    /// A document that is an integer with a sign.
    pub fn signed(n: i64) -> (r: Json)
        ensures
            r.view() == JsonView::Number(signed_integer(n)),
            n >= 0 ==> r.view() == JsonView::Number(integer(n as u64)),
    {
        Json::Number(number_from_signed(n))
    }

    /// The same document as a `serde_json::Value`.
    pub fn to_value(&self) -> (v: serde_json::Value)
        ensures
            value_content(v) == self.view(),
        decreases self,
    {
        match self {
            Json::Null => value_of(ValueShape::Null),
            Json::Bool(b) => value_of(ValueShape::Bool(*b)),
            Json::Number(n) => value_of(ValueShape::Number(n.clone())),
            Json::Str(s) => value_of(ValueShape::Str(s.clone())),
            Json::Array(v) => {
                let mut out: Vec<serde_json::Value> = Vec::new();
                let mut i: usize = 0;
                assert(v@.take(0) =~= Seq::empty());
                assert(out@.map_values(|x: serde_json::Value| value_content(x)) =~= items_view(
                    v@.take(0),
                ));
                while i < v.len()
                    invariant
                        i <= v.len(),
                        out@.map_values(|x: serde_json::Value| value_content(x)) == items_view(
                            v@.take(i as int),
                        ),
                        decreases_to!(self => v@),
                    decreases v.len() - i,
                {
                    assert(decreases_to!(v@ => v@[i as int]));
                    let x = v[i].to_value();
                    proof {
                        assert(v@.take(i + 1).drop_last() =~= v@.take(i as int));
                        assert(out@.push(x).map_values(|x: serde_json::Value| value_content(x))
                            =~= out@.map_values(|x: serde_json::Value| value_content(x)).push(
                            value_content(x),
                        ));
                    }
                    out.push(x);
                    i = i + 1;
                }
                assert(v@.take(i as int) =~= v@);
                value_of(ValueShape::Array(out))
            },
            Json::Object(v) => {
                let mut out = map_new();
                let mut i: usize = 0;
                assert(v@.take(0) =~= Seq::empty());
                assert(map_content(out) =~= fields_view(v@.take(0)));
                while i < v.len()
                    invariant
                        i <= v.len(),
                        map_content(out) == fields_view(v@.take(i as int)),
                        decreases_to!(self => v@),
                    decreases v.len() - i,
                {
                    assert(decreases_to!(v@ => v@[i as int]));
                    let x = v[i].1.to_value();
                    proof {
                        assert(v@.take(i + 1).drop_last() =~= v@.take(i as int));
                    }
                    map_insert(&mut out, v[i].0.clone(), x);
                    i = i + 1;
                }
                assert(v@.take(i as int) =~= v@);
                value_of(ValueShape::Object(out))
            },
        }
    }

    /// The indented text of the document.
    pub fn pretty(&self) -> (r: String)
        ensures
            r@ == pretty_text(self.view()),
            readable(self.view(), 127) ==> parsed(r@) is Ok && parsed(r@)->Ok_0 == reread(
                self.view(),
                127,
            ),
    {
        let v = self.to_value();
        match to_string_pretty(&v) {
            Ok(s) => s,
            Err(_) => String::new(),
        }
    }

    /// The text of the document without white space.
    pub fn compact(&self) -> (r: String)
        ensures
            r@ == compact_text(self.view()),
    {
        let v = self.to_value();
        match to_string(&v) {
            Ok(s) => s,
            Err(_) => String::new(),
        }
    }
}

proof fn lemma_entries_finite(v: Seq<(String, serde_json::Value)>)
    ensures
        entries_content(v).dom().finite(),
    decreases v.len(),
{
    if v.len() > 0 {
        lemma_entries_finite(v.drop_last());
    }
}

proof fn lemma_entry(v: Seq<(String, serde_json::Value)>, i: int)
    requires
        0 <= i < v.len(),
        forall|a: int, b: int| 0 <= a < b < v.len() ==> v[a].0@ != v[b].0@,
    ensures
        entries_content(v).dom().contains(v[i].0@),
        entries_content(v)[v[i].0@] == value_content(v[i].1),
    decreases v.len(),
{
    if i < v.len() - 1 {
        lemma_entry(v.drop_last(), i);
        assert(v.drop_last()[i] == v[i]);
        assert(v[i].0@ != v[v.len() - 1].0@);
    }
}

impl Json {
    /// The document that a `serde_json::Value` holds.
    pub fn from_value(v: serde_json::Value) -> (r: Json)
        ensures
            r.view() == value_content(v),
        decreases value_content(v),
    {
        match shape_of(v) {
            ValueShape::Null => Json::Null,
            ValueShape::Bool(b) => Json::Bool(b),
            ValueShape::Number(n) => Json::Number(n),
            ValueShape::Str(s) => Json::Str(s),
            ValueShape::Array(a) => {
                let ghost items = a@.map_values(|x: serde_json::Value| value_content(x));
                assert(value_content(v) == JsonView::Array(items));
                let mut rest = a;
                let mut out: Vec<Json> = Vec::new();
                proof {
                    assert(rest@ =~= a@.skip(0));
                }
                let ghost mut n: int = 0;
                while rest.len() > 0
                    invariant
                        0 <= n <= a@.len(),
                        rest@ == a@.skip(n),
                        items == a@.map_values(|x: serde_json::Value| value_content(x)),
                        items_view(out@) == items.take(n),
                        value_content(v) == JsonView::Array(items),
                    decreases rest.len(),
                {
                    let x = rest.remove(0);
                    assert(x == a@[n]);
                    assert(value_content(x) == items[n]);
                    assert(decreases_to!(value_content(v) => value_content(v)->Array_0));
                    assert(decreases_to!(items => items[n]));
                    let j = Json::from_value(x);
                    proof {
                        assert(out@.push(j).drop_last() =~= out@);
                        assert(items.take(n + 1) =~= items.take(n).push(items[n]));
                        n = n + 1;
                        assert(rest@ =~= a@.skip(n));
                    }
                    out.push(j);
                }
                assert(items.take(n) =~= items);
                Json::Array(out)
            },
            ValueShape::Object(m) => {
                let a = map_entries(m);
                let ghost fields = map_content(m);
                let mut rest = a;
                let mut out: Vec<(String, Json)> = Vec::new();
                let ghost mut n: int = 0;
                proof {
                    assert(rest@ =~= a@.skip(0));
                    assert(a@.take(0) =~= Seq::empty());
                }
                while rest.len() > 0
                    invariant
                        0 <= n <= a@.len(),
                        rest@ == a@.skip(n),
                        forall|i: int, j: int| 0 <= i < j < a@.len() ==> a@[i].0@ != a@[j].0@,
                        entries_content(a@) == fields,
                        fields_view(out@) == entries_content(a@.take(n)),
                        value_content(v) == JsonView::Object(fields),
                    decreases rest.len(),
                {
                    let (k, x) = rest.remove(0);
                    proof {
                        lemma_entry(a@, n);
                        lemma_entries_finite(a@);
                        assert(a@[n] == (k, x));
                        assert(value_content(x) == fields[k@]);
                        assert(decreases_to!(value_content(v) => value_content(v)->Object_0));
                        assert(decreases_to!(fields => fields[k@]));
                    }
                    let j = Json::from_value(x);
                    proof {
                        assert(out@.push((k, j)).drop_last() =~= out@);
                        assert(a@.take(n + 1).drop_last() =~= a@.take(n));
                        n = n + 1;
                        assert(rest@ =~= a@.skip(n));
                    }
                    out.push((k, j));
                }
                assert(a@.take(n) =~= a@);
                Json::Object(out)
            },
        }
    }

    /// Reads a document from its text; the error is the parser's message.
    pub fn parse(s: &str) -> (r: Result<Json, String>)
        ensures
            match r {
                Ok(j) => parsed(s@) is Ok && parsed(s@)->Ok_0 == j.view(),
                Err(m) => parsed(s@) is Err && parsed(s@)->Err_0 == m@,
            },
    {
        match from_str(s) {
            Ok(v) => Ok(Json::from_value(v)),
            Err(e) => Err(display_error(&e)),
        }
    }
}

/// What is put at a path is found there.
pub proof fn law_put_then_leaf(j: JsonView, path: Seq<Seq<char>>, leaf: JsonView)
    ensures
        leaf_at(put_at(j, path, leaf), path) == leaf,
    decreases path.len(),
{
    if path.len() > 0 {
        law_put_then_leaf(child(j, path[0]), path.skip(1), leaf);
    }
}

/// Putting something at a path twice leaves what was put last.
pub proof fn law_put_overwrites(j: JsonView, path: Seq<Seq<char>>, a: JsonView, b: JsonView)
    ensures
        put_at(put_at(j, path, a), path, b) == put_at(j, path, b),
    decreases path.len(),
{
    if path.len() > 0 {
        law_put_overwrites(child(j, path[0]), path.skip(1), a, b);
        assert(fields_of(put_at(put_at(j, path, a), path, b)) =~= fields_of(put_at(j, path, b)));
    }
}

/// Putting something at a path leaves every other path alone: one that
/// parts from it at some object reads the same afterwards.
pub proof fn law_put_keeps_others(
    j: JsonView,
    path: Seq<Seq<char>>,
    leaf: JsonView,
    other: Seq<Seq<char>>,
    at: int,
)
    requires
        0 <= at < path.len(),
        at < other.len(),
        path.take(at) == other.take(at),
        path[at] != other[at],
    ensures
        leaf_at(put_at(j, path, leaf), other) == leaf_at(j, other),
    decreases at,
{
    let r = put_at(j, path, leaf);
    if at == 0 {
        assert(child(r, other[0]) == child(j, other[0]));
    } else {
        assert(path.take(at)[0] == other.take(at)[0]);
        assert(path.skip(1).take(at - 1) =~= path.take(at).skip(1));
        assert(other.skip(1).take(at - 1) =~= other.take(at).skip(1));
        law_put_keeps_others(child(j, path[0]), path.skip(1), leaf, other.skip(1), at - 1);
    }
}

/// Walking one step further from the end of a path.
pub proof fn lemma_leaf_push(j: JsonView, path: Seq<Seq<char>>, key: Seq<char>)
    ensures
        leaf_at(j, path.push(key)) == child(leaf_at(j, path), key),
    decreases path.len(),
{
    let p = path.push(key);
    if path.len() == 0 {
        reveal_with_fuel(leaf_at, 2);
    } else {
        assert(p.skip(1) =~= path.skip(1).push(key));
        lemma_leaf_push(child(j, path[0]), path.skip(1), key);
    }
}

} // verus!
