//! A small association map from `char` keys to values; access records use it
//! to reference-count their rights.

use vstd::prelude::*;

verus! {

/// The map an entry list denotes, later entries winning.
pub open spec fn char_entries_map<V>(s: Seq<(char, V)>) -> Map<char, V>
    decreases s.len(),
{
    if s.len() == 0 {
        Map::empty()
    } else {
        char_entries_map(s.drop_last()).insert(s.last().0, s.last().1)
    }
}

/// No two entries share a key.
pub open spec fn char_keys_unique<V>(s: Seq<(char, V)>) -> bool {
    forall|i: int, j: int| #![trigger s[i], s[j]] 0 <= i < j < s.len() ==> s[i].0 != s[j].0
}

proof fn lemma_char_entries_map_props<V>(s: Seq<(char, V)>)
    requires
        char_keys_unique(s),
    ensures
        forall|k: char| #[trigger] char_entries_map(s).contains_key(k) ==> exists|i: int|
            0 <= i < s.len() && #[trigger] s[i].0 == k,
        forall|i: int| #![trigger s[i]] 0 <= i < s.len() ==> char_entries_map(s).contains_key(
            s[i].0,
        ) && char_entries_map(s)[s[i].0] == s[i].1,
        char_entries_map(s).dom().finite(),
        char_entries_map(s).dom().len() == s.len(),
    decreases s.len(),
{
    if s.len() > 0 {
        let pre = s.drop_last();
        lemma_char_entries_map_props(pre);
        let lk = s.last().0;
        assert(!char_entries_map(pre).contains_key(lk)) by {
            if char_entries_map(pre).contains_key(lk) {
                let i = choose|i: int| 0 <= i < pre.len() && #[trigger] pre[i].0 == lk;
                assert(s[i].0 == s[s.len() - 1].0);
            }
        }
        assert(char_entries_map(s).dom() =~= char_entries_map(pre).dom().insert(lk));
        assert forall|i: int| 0 <= i < s.len() implies char_entries_map(s).contains_key(
            (#[trigger] s[i]).0,
        ) && char_entries_map(s)[s[i].0] == s[i].1 by {
            if i < s.len() - 1 {
                assert(pre[i] == s[i]);
                assert(s[i].0 != lk);
            }
        }
    }
}

proof fn lemma_char_entries_map_update<V>(s: Seq<(char, V)>, i: int, e: (char, V))
    requires
        char_keys_unique(s),
        0 <= i < s.len(),
        s[i].0 == e.0,
    ensures
        char_entries_map(s.update(i, e)) == char_entries_map(s).insert(e.0, e.1),
        char_keys_unique(s.update(i, e)),
    decreases s.len(),
{
    let u = s.update(i, e);
    if i == s.len() - 1 {
        assert(u.drop_last() =~= s.drop_last());
        assert(char_entries_map(u) =~= char_entries_map(s).insert(e.0, e.1));
    } else {
        let pre = s.drop_last();
        lemma_char_entries_map_update(pre, i, e);
        assert(u.drop_last() =~= pre.update(i, e));
        assert(u.last() == s.last());
        assert(s.last().0 != e.0);
        assert(char_entries_map(u) =~= char_entries_map(s).insert(e.0, e.1));
    }
}

proof fn lemma_char_entries_map_remove<V>(s: Seq<(char, V)>, i: int)
    requires
        char_keys_unique(s),
        0 <= i < s.len(),
    ensures
        char_entries_map(s.remove(i)) == char_entries_map(s).remove(s[i].0),
        char_keys_unique(s.remove(i)),
    decreases s.len(),
{
    let r = s.remove(i);
    lemma_char_entries_map_props(s);
    if i == s.len() - 1 {
        assert(r =~= s.drop_last());
        lemma_char_entries_map_props(r);
        assert(!char_entries_map(r).contains_key(s[i].0));
        assert(char_entries_map(r) =~= char_entries_map(s).remove(s[i].0));
    } else {
        let pre = s.drop_last();
        lemma_char_entries_map_remove(pre, i);
        assert(r.drop_last() =~= pre.remove(i));
        assert(r.last() == s.last());
        assert(s.last().0 != s[i].0);
        assert(char_entries_map(r) =~= char_entries_map(s).remove(s[i].0));
    }
}

/// A map from character keys to values.
pub struct CharMap<V> {
    entries: Vec<(char, V)>,
}

impl<V> View for CharMap<V> {
    type V = Map<char, V>;

    closed spec fn view(&self) -> Map<char, V> {
        char_entries_map(self.entries@)
    }
}

impl<V> CharMap<V> {
    #[verifier::type_invariant]
    spec fn wf(self) -> bool {
        char_keys_unique(self.entries@)
    }

    /// An empty map.
    pub fn new() -> (r: Self)
        ensures
            r@ == Map::<char, V>::empty(),
    {
        CharMap { entries: Vec::new() }
    }

    /// The number of keys.
    pub fn len(&self) -> (r: usize)
        ensures
            r == self@.dom().len(),
    {
        proof {
            use_type_invariant(&*self);
            lemma_char_entries_map_props(self.entries@);
        }
        self.entries.len()
    }

    fn find_index(&self, key: char) -> (r: Option<usize>)
        ensures
            match r {
                Some(i) => i < self.entries@.len() && self.entries@[i as int].0 == key,
                None => forall|j: int| #![trigger self.entries@[j]] 0 <= j < self.entries@.len()
                    ==> self.entries@[j].0 != key,
            },
    {
        let n = self.entries.len();
        let mut i: usize = 0;
        while i < n
            invariant
                n == self.entries@.len(),
                i <= n,
                forall|j: int| #![trigger self.entries@[j]] 0 <= j < i ==> self.entries@[j].0
                    != key,
            decreases n - i,
        {
            if self.entries[i].0 == key {
                return Some(i);
            }
            i = i + 1;
        }
        None
    }

    /// The value under `key`, if present.
    pub fn get<'a>(&'a self, key: char) -> (r: Option<&'a V>)
        ensures
            match r {
                Some(v) => self@.contains_key(key) && *v == self@[key],
                None => !self@.contains_key(key),
            },
    {
        proof {
            use_type_invariant(&*self);
            lemma_char_entries_map_props(self.entries@);
        }
        match self.find_index(key) {
            Some(i) => Some(&self.entries[i].1),
            None => {
                proof {
                    if self@.contains_key(key) {
                        let i = choose|i: int| 0 <= i < self.entries@.len()
                            && #[trigger] self.entries@[i].0 == key;
                    }
                }
                None
            },
        }
    }

    /// Binds `key` to `value`, replacing any earlier binding.
    pub fn insert(&mut self, key: char, value: V)
        ensures
            final(self)@ == old(self)@.insert(key, value),
    {
        proof {
            use_type_invariant(&*self);
        }
        match self.find_index(key) {
            Some(i) => {
                let mut entries: Vec<(char, V)> = Vec::new();
                core::mem::swap(&mut entries, &mut self.entries);
                proof {
                    lemma_char_entries_map_update(entries@, i as int, (key, value));
                }
                entries[i] = (key, value);
                self.entries = entries;
            },
            None => {
                let mut entries: Vec<(char, V)> = Vec::new();
                core::mem::swap(&mut entries, &mut self.entries);
                let ghost s0 = entries@;
                entries.push((key, value));
                proof {
                    assert(entries@.drop_last() =~= s0);
                }
                self.entries = entries;
            },
        }
    }

    /// Removes `key` if present.
    pub fn remove(&mut self, key: char)
        ensures
            final(self)@ == old(self)@.remove(key),
    {
        proof {
            use_type_invariant(&*self);
            lemma_char_entries_map_props(self.entries@);
        }
        match self.find_index(key) {
            Some(i) => {
                let mut entries: Vec<(char, V)> = Vec::new();
                core::mem::swap(&mut entries, &mut self.entries);
                proof {
                    lemma_char_entries_map_remove(entries@, i as int);
                }
                let _ = entries.remove(i);
                self.entries = entries;
            },
            None => {
                proof {
                    if self@.contains_key(key) {
                        let i = choose|i: int| 0 <= i < self.entries@.len()
                            && #[trigger] self.entries@[i].0 == key;
                    }
                    assert(self@ =~= self@.remove(key));
                }
            },
        }
    }
}

} // verus!
