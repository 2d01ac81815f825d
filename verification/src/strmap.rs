use vstd::prelude::*;
use crate::text::str_eq;

verus! {

/// The keys of a list of entries.
pub open spec fn entry_keys(s: Seq<(String, String)>) -> Seq<Seq<char>> {
    s.map_values(|e: (String, String)| e.0@)
}

/// The map that a list of entries with distinct keys stands for.
pub open spec fn entries_map(s: Seq<(String, String)>) -> Map<Seq<char>, Seq<char>>
    decreases s.len(),
{
    if s.len() == 0 {
        Map::empty()
    } else {
        entries_map(s.drop_last()).insert(s.last().0@, s.last().1@)
    }
}

/// The entries as pairs of character sequences, in order.
pub open spec fn entries_view(s: Seq<(String, String)>) -> Seq<(Seq<char>, Seq<char>)> {
    s.map_values(|e: (String, String)| (e.0@, e.1@))
}

pub proof fn lemma_entries_map_dom(s: Seq<(String, String)>, k: Seq<char>)
    ensures
        entries_map(s).dom().contains(k) <==> entry_keys(s).contains(k),
    decreases s.len(),
{
    if s.len() > 0 {
        lemma_entries_map_dom(s.drop_last(), k);
        assert(entry_keys(s.drop_last()) == entry_keys(s).drop_last());
        if entry_keys(s).contains(k) {
            let i = choose|i: int| 0 <= i < entry_keys(s).len() && entry_keys(s)[i] == k;
            if i < s.len() - 1 {
                assert(entry_keys(s.drop_last())[i] == k);
            }
        }
        if entry_keys(s.drop_last()).contains(k) {
            let i = choose|i: int| 0 <= i < entry_keys(s.drop_last()).len() && entry_keys(s.drop_last())[i] == k;
            assert(entry_keys(s)[i] == k);
        }
        if k == s.last().0@ {
            assert(entry_keys(s)[s.len() - 1] == k);
        }
    }
}

pub proof fn lemma_entries_map_index(s: Seq<(String, String)>, i: int)
    requires
        0 <= i < s.len(),
        entry_keys(s).no_duplicates(),
    ensures
        entries_map(s).dom().contains(s[i].0@),
        entries_map(s)[s[i].0@] == s[i].1@,
    decreases s.len(),
{
    lemma_entries_map_dom(s, s[i].0@);
    assert(entry_keys(s)[i] == s[i].0@);
    if i < s.len() - 1 {
        assert(entry_keys(s.drop_last()) == entry_keys(s).drop_last());
        lemma_entries_map_index(s.drop_last(), i);
        assert(entry_keys(s)[s.len() - 1] != entry_keys(s)[i]);
    }
}

/// Replacing the entry at `i` by one with the same key changes only that
/// key's value.
pub proof fn lemma_update_same_key(s: Seq<(String, String)>, i: int, e: (String, String))
    requires
        0 <= i < s.len(),
        entry_keys(s).no_duplicates(),
        s[i].0@ == e.0@,
    ensures
        entry_keys(s.update(i, e)) == entry_keys(s),
        entries_map(s.update(i, e)) == entries_map(s).insert(e.0@, e.1@),
{
    let t = s.update(i, e);
    assert(entry_keys(t) =~= entry_keys(s));
    assert forall|k: Seq<char>| #[trigger] entries_map(t).dom().contains(k) == entries_map(s).insert(e.0@, e.1@).dom().contains(k) by {
        lemma_entries_map_dom(t, k);
        lemma_entries_map_dom(s, k);
        lemma_entries_map_dom(s, e.0@);
        assert(entry_keys(s)[i] == e.0@);
    }
    assert forall|k: Seq<char>| #[trigger] entries_map(t).dom().contains(k) implies entries_map(t)[k] == entries_map(s).insert(e.0@, e.1@)[k] by {
        lemma_entries_map_dom(t, k);
        let j = choose|j: int| 0 <= j < entry_keys(t).len() && entry_keys(t)[j] == k;
        lemma_entries_map_index(t, j);
        if j != i {
            lemma_entries_map_index(s, j);
            assert(entry_keys(s)[j] != entry_keys(s)[i]);
        }
    }
    assert(entries_map(t) =~= entries_map(s).insert(e.0@, e.1@));
}

/// Appending an entry under a new key adds that key.
pub proof fn lemma_push_new_key(s: Seq<(String, String)>, e: (String, String))
    requires
        !entry_keys(s).contains(e.0@),
    ensures
        entry_keys(s.push(e)) == entry_keys(s).push(e.0@),
        entries_map(s.push(e)) == entries_map(s).insert(e.0@, e.1@),
{
    assert(s.push(e).drop_last() == s);
    assert(entry_keys(s.push(e)) =~= entry_keys(s).push(e.0@));
}

/// Removing the entry at `i` removes its key.
pub proof fn lemma_remove_at(s: Seq<(String, String)>, i: int)
    requires
        0 <= i < s.len(),
        entry_keys(s).no_duplicates(),
    ensures
        entry_keys(s.remove(i)) == entry_keys(s).remove(i),
        entries_map(s.remove(i)) == entries_map(s).remove(s[i].0@),
{
    let t = s.remove(i);
    let key = s[i].0@;
    assert(entry_keys(t) =~= entry_keys(s).remove(i));
    assert(entry_keys(s)[i] == key);
    assert forall|k: Seq<char>| #[trigger] entries_map(t).dom().contains(k) == entries_map(s).remove(key).dom().contains(k) by {
        lemma_entries_map_dom(t, k);
        lemma_entries_map_dom(s, k);
        if entry_keys(s).contains(k) && k != key {
            let j = choose|j: int| 0 <= j < entry_keys(s).len() && entry_keys(s)[j] == k;
            if j < i {
                assert(entry_keys(t)[j] == k);
            } else {
                assert(j != i);
                assert(entry_keys(t)[j - 1] == k);
            }
        }
        if entry_keys(t).contains(k) {
            let j = choose|j: int| 0 <= j < entry_keys(t).len() && entry_keys(t)[j] == k;
            if j < i {
                assert(entry_keys(s)[j] == k);
                assert(entry_keys(s)[j] != entry_keys(s)[i]);
            } else {
                assert(entry_keys(s)[j + 1] == k);
                assert(entry_keys(s)[j + 1] != entry_keys(s)[i]);
            }
        }
    }
    assert forall|k: Seq<char>| #[trigger] entries_map(t).dom().contains(k) implies entries_map(t)[k] == entries_map(s).remove(key)[k] by {
        lemma_entries_map_dom(t, k);
        let j = choose|j: int| 0 <= j < entry_keys(t).len() && entry_keys(t)[j] == k;
        assert(entry_keys(t).no_duplicates()) by {
            assert forall|a: int, b: int| 0 <= a < b < entry_keys(t).len() implies entry_keys(t)[a] != entry_keys(t)[b] by {
                let a2 = if a < i { a } else { a + 1 };
                let b2 = if b < i { b } else { b + 1 };
                assert(entry_keys(t)[a] == entry_keys(s)[a2]);
                assert(entry_keys(t)[b] == entry_keys(s)[b2]);
            }
        }
        lemma_entries_map_index(t, j);
        if j < i {
            lemma_entries_map_index(s, j);
        } else {
            lemma_entries_map_index(s, j + 1);
        }
    }
    assert(entries_map(t) =~= entries_map(s).remove(key));
}

/// The entry stands in the map with its value.
pub open spec fn entry_stands_in(m: Map<Seq<char>, Seq<char>>, e: (String, String)) -> bool {
    m.dom().contains(e.0@) && m[e.0@] == e.1@
}

/// A map from strings to strings that keeps its entries in insertion order.
#[derive(Debug)]
pub struct StrMap {
    entries: Vec<(String, String)>,
}

impl View for StrMap {
    type V = Map<Seq<char>, Seq<char>>;

    open spec fn view(&self) -> Map<Seq<char>, Seq<char>> {
        entries_map(self.spec_entries())
    }
}

impl StrMap {
    pub closed spec fn spec_entries(&self) -> Seq<(String, String)> {
        self.entries@
    }

    /// The entries of the map, in order.
    pub open spec fn spec_pairs(&self) -> Seq<(Seq<char>, Seq<char>)> {
        entries_view(self.spec_entries())
    }

    #[verifier::type_invariant]
    closed spec fn inv(&self) -> bool {
        entry_keys(self.entries@).no_duplicates()
    }

    /// An empty map.
    pub fn new() -> (m: StrMap)
        ensures
            m@ == Map::<Seq<char>, Seq<char>>::empty(),
            m.spec_entries().len() == 0,
    {
        let m = StrMap { entries: Vec::new() };
        assert(entry_keys(m.entries@) =~= Seq::empty());
        m
    }

    /// The number of entries.
    pub fn len(&self) -> (n: usize)
        ensures
            n == self.spec_entries().len(),
    {
        self.entries.len()
    }

    /// The position of `key` among the entries.
    fn find(&self, key: &str) -> (r: Option<usize>)
        ensures
            r matches Some(i) ==> i < self.spec_entries().len() && self.spec_entries()[i as int].0@
                == key@,
            r is None ==> !self@.dom().contains(key@),
    {
        proof {
            use_type_invariant(self);
        }
        let mut i: usize = 0;
        while i < self.entries.len()
            invariant
                i <= self.entries@.len(),
                forall|j: int| 0 <= j < i ==> self.entries@[j].0@ != key@,
            decreases self.entries@.len() - i,
        {
            if str_eq(self.entries[i].0.as_str(), key) {
                return Some(i);
            }
            i = i + 1;
        }
        proof {
            lemma_entries_map_dom(self.entries@, key@);
            if entry_keys(self.entries@).contains(key@) {
                let j = choose|j: int| 0 <= j < entry_keys(self.entries@).len() && entry_keys(self.entries@)[j] == key@;
                assert(self.entries@[j].0@ == key@);
            }
        }
        None
    }

    /// The value under `key`.
    pub fn get(&self, key: &str) -> (r: Option<&String>)
        ensures
            r is Some <==> self@.dom().contains(key@),
            r matches Some(v) ==> self@[key@] == v@,
    {
        proof {
            use_type_invariant(self);
        }
        match self.find(key) {
            Some(i) => {
                proof {
                    lemma_entries_map_index(self.entries@, i as int);
                }
                Some(&self.entries[i].1)
            },
            None => None,
        }
    }

    /// Is there an entry under `key`?
    pub fn contains_key(&self, key: &str) -> (r: bool)
        ensures
            r == self@.dom().contains(key@),
    {
        self.get(key).is_some()
    }

    /// Sets the value under `key`, replacing any earlier one.
    pub fn insert(&mut self, key: String, value: String)
        ensures
            final(self)@ == old(self)@.insert(key@, value@),
    {
        proof {
            use_type_invariant(&*self);
        }
        let ghost old_entries = self.entries@;
        let found = self.find(key.as_str());
        let mut entries: Vec<(String, String)> = Vec::new();
        std::mem::swap(&mut entries, &mut self.entries);
        match found {
            Some(i) => {
                proof {
                    lemma_update_same_key(old_entries, i as int, (key, value));
                }
                entries.set(i, (key, value));
            },
            None => {
                proof {
                    lemma_entries_map_dom(old_entries, key@);
                    lemma_push_new_key(old_entries, (key, value));
                }
                entries.push((key, value));
            },
        }
        self.entries = entries;
    }

    /// Removes the entry under `key`, if there is one.
    pub fn remove(&mut self, key: &str) -> (r: Option<String>)
        ensures
            final(self)@ == old(self)@.remove(key@),
            r is Some <==> old(self)@.dom().contains(key@),
            r matches Some(v) ==> old(self)@[key@] == v@,
    {
        proof {
            use_type_invariant(&*self);
        }
        let ghost old_entries = self.entries@;
        match self.find(key) {
            Some(i) => {
                proof {
                    lemma_entries_map_index(old_entries, i as int);
                    lemma_remove_at(old_entries, i as int);
                }
                let mut entries: Vec<(String, String)> = Vec::new();
                std::mem::swap(&mut entries, &mut self.entries);
                let (_, v) = entries.remove(i);
                self.entries = entries;
                Some(v)
            },
            None => {
                proof {
                    assert(entries_map(old_entries) =~= entries_map(old_entries).remove(key@));
                }
                None
            },
        }
    }

    /// Does every entry of `self` stand in `other` with the same value?
    fn included_in(&self, other: &StrMap) -> (r: bool)
        ensures
            r == (forall|k: Seq<char>| #[trigger] self@.dom().contains(k) ==> other@.dom().contains(k)
                && other@[k] == self@[k]),
    {
        proof {
            use_type_invariant(self);
        }
        let mut i: usize = 0;
        while i < self.entries.len()
            invariant
                i <= self.entries@.len(),
                entry_keys(self.entries@).no_duplicates(),
                forall|j: int| 0 <= j < i ==> entry_stands_in(other@, #[trigger] self.entries@[j]),
            decreases self.entries@.len() - i,
        {
            let (k, v) = &self.entries[i];
            match other.get(k.as_str()) {
                Some(w) => {
                    if !str_eq(w.as_str(), v.as_str()) {
                        proof {
                            lemma_entries_map_index(self.entries@, i as int);
                            assert(self@.dom().contains(self.entries@[i as int].0@));
                        }
                        return false;
                    }
                    proof {
                        assert(entry_stands_in(other@, self.entries@[i as int]));
                    }
                },
                None => {
                    proof {
                        lemma_entries_map_index(self.entries@, i as int);
                        assert(self@.dom().contains(self.entries@[i as int].0@));
                    }
                    return false;
                },
            }
            i = i + 1;
        }
        proof {
            assert forall|k: Seq<char>| #[trigger] self@.dom().contains(k) implies other@.dom().contains(k)
                && other@[k] == self@[k] by {
                lemma_entries_map_dom(self.entries@, k);
                let j = choose|j: int| 0 <= j < entry_keys(self.entries@).len() && entry_keys(self.entries@)[j] == k;
                lemma_entries_map_index(self.entries@, j);
                assert(entry_stands_in(other@, self.entries@[j]));
            }
        }
        true
    }

    /// Do the two maps hold the same entries, whatever their order?
    pub fn same_entries(&self, other: &StrMap) -> (r: bool)
        ensures
            r == (self@ == other@),
    {
        let a = self.included_in(other);
        let b = other.included_in(self);
        proof {
            if a && b {
                assert(self@ =~= other@);
            }
        }
        a && b
    }

    /// The entries, in order.
    pub fn entries(&self) -> (r: &Vec<(String, String)>)
        ensures
            r@ == self.spec_entries(),
    {
        &self.entries
    }

    /// A copy of the map.
    pub fn duplicate(&self) -> (m: StrMap)
        ensures
            m.spec_pairs() == self.spec_pairs(),
            m@ == self@,
    {
        proof {
            use_type_invariant(self);
        }
        let mut entries: Vec<(String, String)> = Vec::new();
        let mut i: usize = 0;
        while i < self.entries.len()
            invariant
                i <= self.entries@.len(),
                entries@ == self.entries@.take(i as int),
            decreases self.entries@.len() - i,
        {
            let (k, v) = &self.entries[i];
            entries.push((k.clone(), v.clone()));
            proof {
                assert(self.entries@.take(i + 1) == self.entries@.take(i as int).push(self.entries@[i as int]));
            }
            i = i + 1;
        }
        proof {
            assert(self.entries@.take(self.entries@.len() as int) == self.entries@);
        }
        StrMap { entries }
    }
}

} // verus!
