//! A dictionary from texts to values, which remembers the order in which its keys
//! came.

use vstd::prelude::*;
use crate::text::same;

verus! {

/// An entry of a dictionary.
pub struct Entry<V> {
    pub key: String,
    pub value: V,
}

/// A dictionary: no two entries have the same key.
pub struct Dict<V> {
    pub entries: Vec<Entry<V>>,
}

/// Whether no two entries have the same key.
pub open spec fn distinct_keys<V>(s: Seq<Entry<V>>) -> bool {
    forall|i: int, j: int|
        0 <= i < j < s.len() ==> (#[trigger] s[i]).key@ != (#[trigger] s[j]).key@
}

/// What entries map keys to.
pub open spec fn contents<V>(s: Seq<Entry<V>>) -> Map<Seq<char>, V>
    decreases s.len(),
{
    if s.len() == 0 {
        Map::empty()
    } else {
        contents(s.drop_last()).insert(s.last().key@, s.last().value)
    }
}

/// An entry is found under its key.
pub proof fn lemma_contents_at<V>(s: Seq<Entry<V>>, i: int)
    requires
        distinct_keys(s),
        0 <= i < s.len(),
    ensures
        contents(s).dom().contains(s[i].key@),
        contents(s)[s[i].key@] == s[i].value,
    decreases s.len(),
{
    if i < s.len() - 1 {
        lemma_contents_at(s.drop_last(), i);
        assert(s[i].key@ != s[s.len() - 1].key@);
    }
}

proof fn lemma_contents_none<V>(s: Seq<Entry<V>>, key: Seq<char>)
    requires
        forall|i: int| 0 <= i < s.len() ==> (#[trigger] s[i]).key@ != key,
    ensures
        !contents(s).dom().contains(key),
    decreases s.len(),
{
    if s.len() > 0 {
        lemma_contents_none(s.drop_last(), key);
    }
}

proof fn lemma_contents_update<V>(s: Seq<Entry<V>>, i: int, e: Entry<V>)
    requires
        distinct_keys(s),
        0 <= i < s.len(),
        e.key@ == s[i].key@,
    ensures
        contents(s.update(i, e)) == contents(s).insert(e.key@, e.value),
    decreases s.len(),
{
    if i == s.len() - 1 {
        assert(s.update(i, e).drop_last() =~= s.drop_last());
        assert(contents(s.update(i, e)) =~= contents(s).insert(e.key@, e.value));
    } else {
        lemma_contents_update(s.drop_last(), i, e);
        assert(s.update(i, e).drop_last() =~= s.drop_last().update(i, e));
        assert(s[i].key@ != s[s.len() - 1].key@);
        assert(contents(s.update(i, e)) =~= contents(s).insert(e.key@, e.value));
    }
}

proof fn lemma_contents_remove<V>(s: Seq<Entry<V>>, i: int)
    requires
        distinct_keys(s),
        0 <= i < s.len(),
    ensures
        contents(s.remove(i)) == contents(s).remove(s[i].key@),
    decreases s.len(),
{
    if i == s.len() - 1 {
        assert(s.remove(i) =~= s.drop_last());
        lemma_contents_none(s.drop_last(), s[i].key@);
        assert(contents(s.remove(i)) =~= contents(s).remove(s[i].key@));
    } else {
        lemma_contents_remove(s.drop_last(), i);
        assert(s.remove(i).drop_last() =~= s.drop_last().remove(i));
        assert(s[i].key@ != s[s.len() - 1].key@);
        assert(contents(s.remove(i)) =~= contents(s).remove(s[i].key@));
    }
}

impl<V> Dict<V> {
    /// Whether no two entries have the same key.
    pub open spec fn wf(self) -> bool {
        distinct_keys(self.entries@)
    }

    /// What the dictionary maps keys to.
    pub open spec fn map(self) -> Map<Seq<char>, V> {
        contents(self.entries@)
    }

    /// An empty dictionary.
    pub fn new() -> (d: Dict<V>)
        ensures
            d.wf(),
            d.entries@.len() == 0,
            d.map() == Map::<Seq<char>, V>::empty(),
    {
        Dict { entries: Vec::new() }
    }

    /// Where a key stands.
    pub fn position(&self, key: &str) -> (r: Option<usize>)
        requires
            self.wf(),
        ensures
            r matches Some(i) ==> i < self.entries@.len() && self.entries@[i as int].key@ == key@
                && self.map().dom().contains(key@) && self.map()[key@] == self.entries@[i as int].value,
            r is None ==> !self.map().dom().contains(key@) && forall|j: int|
                0 <= j < self.entries@.len() ==> (#[trigger] self.entries@[j]).key@ != key@,
    {
        let mut i: usize = 0;
        while i < self.entries.len()
            invariant
                i <= self.entries.len(),
                self.wf(),
                forall|j: int| 0 <= j < i ==> (#[trigger] self.entries@[j]).key@ != key@,
            decreases self.entries.len() - i,
        {
            if same(self.entries[i].key.as_str(), key) {
                proof {
                    lemma_contents_at(self.entries@, i as int);
                }
                return Some(i);
            }
            i += 1;
        }
        proof {
            lemma_contents_none(self.entries@, key@);
        }
        None
    }

    /// Whether a key stands in the dictionary.
    pub fn has(&self, key: &str) -> (r: bool)
        requires
            self.wf(),
        ensures
            r == self.map().dom().contains(key@),
    {
        self.position(key).is_some()
    }

    /// What a key is mapped to.
    pub fn get(&self, key: &str) -> (r: Option<&V>)
        requires
            self.wf(),
        ensures
            r matches Some(v) ==> self.map().dom().contains(key@) && self.map()[key@] == *v,
            r is None ==> !self.map().dom().contains(key@),
    {
        match self.position(key) {
            Some(i) => Some(&self.entries[i].value),
            None => None,
        }
    }

    /// Maps a key to a value. A key that is there already keeps its place.
    pub fn insert(&mut self, key: String, value: V)
        requires
            old(self).wf(),
        ensures
            final(self).wf(),
            final(self).map() == old(self).map().insert(key@, value),
    {
        match self.position(key.as_str()) {
            Some(i) => {
                let e = Entry { key, value };
                proof {
                    lemma_contents_update(self.entries@, i as int, e);
                }
                self.entries.set(i, e);
            },
            None => {
                let e = Entry { key, value };
                let ghost before = self.entries@;
                self.entries.push(e);
                assert(self.entries@.drop_last() =~= before);
            },
        }
    }

    /// Takes a key out, and gives the value back that it was mapped to.
    pub fn remove(&mut self, key: &str) -> (r: Option<V>)
        requires
            old(self).wf(),
        ensures
            final(self).wf(),
            final(self).map() == old(self).map().remove(key@),
            r matches Some(v) ==> old(self).map().dom().contains(key@) && old(self).map()[key@] == v,
            r is None ==> !old(self).map().dom().contains(key@),
    {
        match self.position(key) {
            Some(i) => {
                proof {
                    lemma_contents_remove(self.entries@, i as int);
                }
                let e = self.entries.remove(i);
                Some(e.value)
            },
            None => {
                assert(self.map() =~= self.map().remove(key@));
                None
            },
        }
    }
}

} // verus!
