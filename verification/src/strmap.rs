//! String maps: labels, annotations and data of Kubernetes objects.
use vstd::prelude::*;

use crate::text;

verus! {

/// A map from strings to strings. Kubernetes objects are indifferent to the
/// order of such maps, so only the mapping counts; of several entries with
/// the same key the last one does.
#[derive(Debug, Default)]
pub struct StringMap {
    pub entries: Vec<(String, String)>,
}

/// The mapping that a sequence of entries stands for.
pub open spec fn entries_map(v: Seq<(String, String)>) -> Map<Seq<char>, Seq<char>>
    decreases v.len(),
{
    if v.len() == 0 {
        Map::empty()
    } else {
        entries_map(v.drop_last()).insert(v.last().0@, v.last().1@)
    }
}

impl View for StringMap {
    type V = Map<Seq<char>, Seq<char>>;

    open spec fn view(&self) -> Map<Seq<char>, Seq<char>> {
        entries_map(self.entries@)
    }
}

proof fn lemma_entry(v: Seq<(String, String)>, i: int, key: Seq<char>)
    requires
        0 <= i < v.len(),
        v[i].0@ == key,
        forall|j: int| i < j < v.len() ==> (#[trigger] v[j]).0@ != key,
    ensures
        entries_map(v).dom().contains(key),
        entries_map(v)[key] == v[i].1@,
    decreases v.len(),
{
    if i < v.len() - 1 {
        assert(v[v.len() - 1].0@ != key);
        assert forall|j: int| i < j < v.len() - 1 implies (#[trigger] v.drop_last()[j]).0@
            != key by {
            assert(v[j].0@ != key);
        }
        lemma_entry(v.drop_last(), i, key);
    }
}

proof fn lemma_no_entry(v: Seq<(String, String)>, key: Seq<char>)
    requires
        forall|j: int| 0 <= j < v.len() ==> (#[trigger] v[j]).0@ != key,
    ensures
        !entries_map(v).dom().contains(key),
    decreases v.len(),
{
    if v.len() > 0 {
        assert(v[v.len() - 1].0@ != key);
        assert forall|j: int| 0 <= j < v.len() - 1 implies (#[trigger] v.drop_last()[j]).0@
            != key by {
            assert(v[j].0@ != key);
        }
        lemma_no_entry(v.drop_last(), key);
    }
}

impl StringMap {
    /// The map without entries.
    pub fn new() -> (r: StringMap)
        ensures
            r@ == Map::<Seq<char>, Seq<char>>::empty(),
    {
        StringMap { entries: Vec::new() }
    }

    /// Sets `key` to `value`.
    pub fn insert(&mut self, key: &str, value: &str)
        ensures
            final(self)@ == old(self)@.insert(key@, value@),
    {
        self.entries.push((key.to_owned(), value.to_owned()));
        proof {
            assert(self.entries@.drop_last() =~= old(self).entries@);
        }
    }

    /// The value of `key`.
    pub fn get(&self, key: &str) -> (r: Option<&String>)
        ensures
            match r {
                Some(v) => self@.dom().contains(key@) && self@[key@] == v@,
                None => !self@.dom().contains(key@),
            },
    {
        let mut i: usize = self.entries.len();
        while i > 0
            invariant
                i <= self.entries.len(),
                forall|j: int|
                    i <= j < self.entries.len() ==> (#[trigger] self.entries@[j]).0@ != key@,
            decreases i,
        {
            if text::same(self.entries[i - 1].0.as_str(), key) {
                proof {
                    lemma_entry(self.entries@, i - 1, key@);
                }
                return Some(&self.entries[i - 1].1);
            }
            i = i - 1;
        }
        proof {
            lemma_no_entry(self.entries@, key@);
        }
        None
    }

    /// Whether the map has no entries.
    pub fn is_empty(&self) -> (r: bool)
        ensures
            r == (self@ =~= Map::empty()),
    {
        let n = self.entries.len();
        proof {
            if n > 0 {
                assert(self@.dom().contains(self.entries@.last().0@));
            }
        }
        n == 0
    }
}

impl Clone for StringMap {
    fn clone(&self) -> (r: StringMap)
        ensures
            r@ == self@,
    {
        let mut out: Vec<(String, String)> = Vec::new();
        let mut i: usize = 0;
        assert(self.entries@.take(0) =~= Seq::empty());
        while i < self.entries.len()
            invariant
                i <= self.entries.len(),
                entries_map(out@) == entries_map(self.entries@.take(i as int)),
            decreases self.entries.len() - i,
        {
            let e = (self.entries[i].0.clone(), self.entries[i].1.clone());
            proof {
                assert(self.entries@.take(i + 1).drop_last() =~= self.entries@.take(i as int));
                assert(out@.push(e).drop_last() =~= out@);
            }
            out.push(e);
            i = i + 1;
        }
        assert(self.entries@.take(i as int) =~= self.entries@);
        StringMap { entries: out }
    }
}

} // verus!
