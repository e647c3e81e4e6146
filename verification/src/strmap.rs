//! A small map keyed by strings, viewed as a `Map` from character sequences.
use vstd::prelude::*;

use crate::text::str_eq;

verus! {

/// The map that a list of key/value pairs denotes, later pairs overriding
/// earlier ones.
pub open spec fn pairs_map<V: View>(s: Seq<(String, V)>) -> Map<Seq<char>, V::V>
    decreases s.len(),
{
    if s.len() == 0 {
        Map::empty()
    } else {
        pairs_map(s.drop_last()).insert(s.last().0@, s.last().1@)
    }
}

/// No key occurs twice.
pub open spec fn keys_unique<V>(s: Seq<(String, V)>) -> bool {
    forall|i: int, j: int| 0 <= i < j < s.len() ==> s[i].0@ != s[j].0@
}

/// A key is in the map exactly when some pair carries it.
pub proof fn lemma_pairs_map_dom<V: View>(s: Seq<(String, V)>, k: Seq<char>)
    ensures
        pairs_map(s).dom().contains(k) <==> exists|i: int| 0 <= i < s.len() && s[i].0@ == k,
    decreases s.len(),
{
    if s.len() > 0 {
        lemma_pairs_map_dom(s.drop_last(), k);
        if pairs_map(s.drop_last()).dom().contains(k) {
            let i = choose|i: int| 0 <= i < s.drop_last().len() && s.drop_last()[i].0@ == k;
            assert(s[i].0@ == k);
        }
        if exists|i: int| 0 <= i < s.len() && s[i].0@ == k {
            let i = choose|i: int| 0 <= i < s.len() && s[i].0@ == k;
            if i < s.len() - 1 {
                assert(s.drop_last()[i].0@ == k);
            }
        }
    }
}

/// With distinct keys, each pair's value is the map's value at its key.
pub proof fn lemma_pairs_map_at<V: View>(s: Seq<(String, V)>, i: int)
    requires
        keys_unique(s),
        0 <= i < s.len(),
    ensures
        pairs_map(s).dom().contains(s[i].0@),
        pairs_map(s)[s[i].0@] == s[i].1@,
    decreases s.len(),
{
    if i < s.len() - 1 {
        assert(keys_unique(s.drop_last()));
        assert(s.drop_last()[i] == s[i]);
        lemma_pairs_map_at(s.drop_last(), i);
    }
}

/// Replacing the pair that carries a key replaces the value at that key.
pub proof fn lemma_pairs_map_update<V: View>(s: Seq<(String, V)>, j: int, p: (String, V))
    requires
        keys_unique(s),
        0 <= j < s.len(),
        s[j].0@ == p.0@,
    ensures
        keys_unique(s.update(j, p)),
        pairs_map(s.update(j, p)) == pairs_map(s).insert(p.0@, p.1@),
{
    let t = s.update(j, p);
    assert(keys_unique(t));
    assert forall|k: Seq<char>| #[trigger]
        pairs_map(t).dom().contains(k) <==> pairs_map(s).insert(p.0@, p.1@).dom().contains(k) by {
        lemma_pairs_map_dom(t, k);
        lemma_pairs_map_dom(s, k);
        if exists|i: int| 0 <= i < s.len() && s[i].0@ == k {
            let i = choose|i: int| 0 <= i < s.len() && s[i].0@ == k;
            assert(t[i].0@ == k);
        }
    }
    assert forall|k: Seq<char>| #[trigger] pairs_map(t).dom().contains(k) implies pairs_map(t)[k]
        == pairs_map(s).insert(p.0@, p.1@)[k] by {
        lemma_pairs_map_dom(t, k);
        let i = choose|i: int| 0 <= i < t.len() && t[i].0@ == k;
        lemma_pairs_map_at(t, i);
        if i != j {
            lemma_pairs_map_at(s, i);
        }
    }
    assert(pairs_map(t) =~= pairs_map(s).insert(p.0@, p.1@));
}

/// With distinct keys, the map has one key per pair.
pub proof fn lemma_pairs_map_dom_len<V: View>(s: Seq<(String, V)>)
    requires
        keys_unique(s),
    ensures
        pairs_map(s).dom().finite(),
        pairs_map(s).dom().len() == s.len(),
    decreases s.len(),
{
    if s.len() > 0 {
        assert(keys_unique(s.drop_last()));
        lemma_pairs_map_dom_len(s.drop_last());
        lemma_pairs_map_dom(s.drop_last(), s.last().0@);
        if pairs_map(s.drop_last()).dom().contains(s.last().0@) {
            let i = choose|i: int| 0 <= i < s.drop_last().len() && s.drop_last()[i].0@ == s.last().0@;
            assert(s[i].0@ == s[s.len() - 1].0@);
        }
    }
}

/// A map keyed by strings. Each key occurs once among its entries.
#[derive(Debug)]
pub struct StrMap<V: View> {
    entries: Vec<(String, V)>,
}

impl<V: View> StrMap<V> {
    #[verifier::type_invariant]
    spec fn distinct_keys(&self) -> bool {
        keys_unique(self.entries@)
    }

    /// The map's contents.
    pub closed spec fn view(&self) -> Map<Seq<char>, V::V> {
        pairs_map(self.entries@)
    }

    /// The number of entries.
    pub closed spec fn spec_len(&self) -> nat {
        self.entries@.len()
    }

    /// The key of the `i`-th entry.
    pub closed spec fn key_at_spec(&self, i: int) -> Seq<char> {
        self.entries@[i].0@
    }

    /// The value of the `i`-th entry.
    pub closed spec fn value_at_spec(&self, i: int) -> V::V {
        self.entries@[i].1@
    }

    /// An empty map.
    pub fn new() -> (r: Self)
        ensures
            r.view() == Map::<Seq<char>, V::V>::empty(),
    {
        StrMap { entries: Vec::new() }
    }

    /// The number of entries. The entries enumerate the map: each is in it
    /// with its value, each key of the map has an entry, and no key has two.
    pub fn len(&self) -> (r: usize)
        ensures
            r == self.spec_len(),
            forall|i: int|
                0 <= i < self.spec_len() ==> #[trigger] self.view().dom().contains(
                    self.key_at_spec(i),
                ) && self.view()[self.key_at_spec(i)] == self.value_at_spec(i),
            forall|k: Seq<char>| #[trigger]
                self.view().dom().contains(k) ==> exists|i: int|
                    0 <= i < self.spec_len() && self.key_at_spec(i) == k,
            forall|i: int, j: int|
                0 <= i < j < self.spec_len() ==> self.key_at_spec(i) != self.key_at_spec(j),
            self.spec_len() == 0 <==> self.view().dom() == Set::<Seq<char>>::empty(),
            self.view().dom().finite(),
            self.view().dom().len() == self.spec_len(),
    {
        proof {
            use_type_invariant(self);
            lemma_pairs_map_dom_len(self.entries@);
            assert forall|i: int| 0 <= i < self.spec_len() implies #[trigger] self.view().dom().contains(
                self.key_at_spec(i),
            ) && self.view()[self.key_at_spec(i)] == self.value_at_spec(i) by {
                lemma_pairs_map_at(self.entries@, i);
            }
            assert forall|k: Seq<char>| #[trigger] self.view().dom().contains(k) implies exists|i: int|
                0 <= i < self.spec_len() && self.key_at_spec(i) == k by {
                lemma_pairs_map_dom(self.entries@, k);
                let i = choose|i: int| 0 <= i < self.entries@.len() && self.entries@[i].0@ == k;
                assert(self.key_at_spec(i) == k);
            }
            if self.spec_len() > 0 {
                lemma_pairs_map_at(self.entries@, 0);
            } else {
                assert(self.view().dom() =~= Set::<Seq<char>>::empty());
            }
        }
        self.entries.len()
    }

    /// Whether the map has no entries.
    pub fn is_empty(&self) -> (r: bool)
        ensures
            r == (self.view().dom() == Set::<Seq<char>>::empty()),
    {
        self.len() == 0
    }

    /// The key of the `i`-th entry.
    pub fn key_at(&self, i: usize) -> (r: &String)
        requires
            i < self.spec_len(),
        ensures
            r@ == self.key_at_spec(i as int),
    {
        &self.entries[i].0
    }

    /// The value of the `i`-th entry.
    pub fn value_at(&self, i: usize) -> (r: &V)
        requires
            i < self.spec_len(),
        ensures
            r@ == self.value_at_spec(i as int),
    {
        &self.entries[i].1
    }

    /// The index of the entry with key `k`.
    fn index_of(&self, k: &str) -> (r: Option<usize>)
        ensures
            match r {
                Some(i) => i < self.spec_len() && self.key_at_spec(i as int) == k@,
                None => !self.view().dom().contains(k@),
            },
    {
        let mut i: usize = 0;
        while i < self.entries.len()
            invariant
                0 <= i <= self.entries.len(),
                forall|j: int| 0 <= j < i ==> self.entries@[j].0@ != k@,
            decreases self.entries.len() - i,
        {
            if str_eq(self.entries[i].0.as_str(), k) {
                return Some(i);
            }
            i = i + 1;
        }
        proof {
            lemma_pairs_map_dom(self.entries@, k@);
        }
        None
    }

    /// Whether the map has the key `k`.
    pub fn contains_key(&self, k: &str) -> (r: bool)
        ensures
            r == self.view().dom().contains(k@),
    {
        match self.index_of(k) {
            Some(i) => {
                proof {
                    use_type_invariant(self);
                    lemma_pairs_map_at(self.entries@, i as int);
                }
                true
            },
            None => false,
        }
    }

    /// The value at key `k`.
    pub fn get(&self, k: &str) -> (r: Option<&V>)
        ensures
            match r {
                Some(v) => self.view().dom().contains(k@) && v@ == self.view()[k@],
                None => !self.view().dom().contains(k@),
            },
    {
        match self.index_of(k) {
            Some(i) => {
                proof {
                    use_type_invariant(self);
                    lemma_pairs_map_at(self.entries@, i as int);
                }
                Some(&self.entries[i].1)
            },
            None => None,
        }
    }

    /// Set the value at key `k`, replacing any earlier one.
    pub fn insert(&mut self, k: String, v: V)
        ensures
            final(self).view() == old(self).view().insert(k@, v@),
    {
        proof {
            use_type_invariant(&*self);
        }
        let found = self.index_of(k.as_str());
        let mut e: Vec<(String, V)> = Vec::new();
        std::mem::swap(&mut e, &mut self.entries);
        let ghost s = e@;
        match found {
            Some(i) => {
                let ghost p = (k, v);
                proof {
                    lemma_pairs_map_update(s, i as int, p);
                }
                e.set(i, (k, v));
                assert(e@ == s.update(i as int, p));
            },
            None => {
                proof {
                    lemma_pairs_map_dom(s, k@);
                }
                e.push((k, v));
                assert(e@.drop_last() =~= s);
            },
        }
        self.entries = e;
    }
}

impl<T> StrMap<Vec<T>> {
    /// Append `items` to the list at key `k`, starting an empty list when the
    /// key is new.
    pub fn append_at(&mut self, k: String, items: Vec<T>)
        ensures
            final(self).view() == old(self).view().insert(
                k@,
                (if old(self).view().dom().contains(k@) {
                    old(self).view()[k@]
                } else {
                    Seq::<T>::empty()
                }) + items@,
            ),
    {
        proof {
            use_type_invariant(&*self);
        }
        let found = self.index_of(k.as_str());
        let mut e: Vec<(String, Vec<T>)> = Vec::new();
        std::mem::swap(&mut e, &mut self.entries);
        let ghost s = e@;
        let mut items = items;
        match found {
            Some(i) => {
                proof {
                    lemma_pairs_map_at(s, i as int);
                }
                let (key, mut vals) = e.remove(i);
                let ghost old_vals = vals@;
                vals.append(&mut items);
                let ghost p = (k, vals);
                proof {
                    lemma_pairs_map_update(s, i as int, p);
                }
                e.insert(i, (k, vals));
                assert(e@ =~= s.update(i as int, p));
            },
            None => {
                proof {
                    lemma_pairs_map_dom(s, k@);
                }
                e.push((k, items));
                assert(e@.drop_last() =~= s);
            },
        }
        self.entries = e;
    }
}

} // verus!
