//! String-keyed maps and sets backed by association lists, with views over
//! `Map<Seq<char>, V>` and `Set<Seq<char>>`.  The traversal context stores
//! its memoization tables in these.

use vstd::prelude::*;
use crate::strutil::str_eq;

verus! {

/// The map an entry list denotes, later entries winning.
pub open spec fn entries_map<V>(s: Seq<(String, V)>) -> Map<Seq<char>, V>
    decreases s.len(),
{
    if s.len() == 0 {
        Map::empty()
    } else {
        entries_map(s.drop_last()).insert(s.last().0@, s.last().1)
    }
}

/// No two entries share a key.
pub open spec fn keys_unique<V>(s: Seq<(String, V)>) -> bool {
    forall|i: int, j: int| #![trigger s[i], s[j]] 0 <= i < j < s.len() ==> s[i].0@ != s[j].0@
}

proof fn lemma_entries_map_props<V>(s: Seq<(String, V)>)
    requires
        keys_unique(s),
    ensures
        forall|k: Seq<char>| #[trigger] entries_map(s).contains_key(k) ==> exists|i: int|
            0 <= i < s.len() && #[trigger] s[i].0@ == k,
        forall|i: int| #![trigger s[i]] 0 <= i < s.len() ==> entries_map(s).contains_key(s[i].0@)
            && entries_map(s)[s[i].0@] == s[i].1,
        entries_map(s).dom().finite(),
        entries_map(s).dom().len() == s.len(),
    decreases s.len(),
{
    if s.len() > 0 {
        let pre = s.drop_last();
        lemma_entries_map_props(pre);
        let lk = s.last().0@;
        assert(!entries_map(pre).contains_key(lk)) by {
            if entries_map(pre).contains_key(lk) {
                let i = choose|i: int| 0 <= i < pre.len() && #[trigger] pre[i].0@ == lk;
                assert(s[i].0@ == s[s.len() - 1].0@);
            }
        }
        assert(entries_map(s).dom() =~= entries_map(pre).dom().insert(lk));
        assert forall|i: int| 0 <= i < s.len() implies entries_map(s).contains_key(#[trigger] s[i].0@)
            && entries_map(s)[s[i].0@] == s[i].1 by {
            if i < s.len() - 1 {
                assert(pre[i] == s[i]);
                assert(s[i].0@ != lk);
            }
        }
    }
}

proof fn lemma_entries_map_update<V>(s: Seq<(String, V)>, i: int, e: (String, V))
    requires
        keys_unique(s),
        0 <= i < s.len(),
        s[i].0@ == e.0@,
    ensures
        entries_map(s.update(i, e)) == entries_map(s).insert(e.0@, e.1),
        keys_unique(s.update(i, e)),
    decreases s.len(),
{
    let u = s.update(i, e);
    if i == s.len() - 1 {
        assert(u.drop_last() =~= s.drop_last());
        assert(entries_map(u) =~= entries_map(s).insert(e.0@, e.1));
    } else {
        let pre = s.drop_last();
        lemma_entries_map_update(pre, i, e);
        assert(u.drop_last() =~= pre.update(i, e));
        assert(u.last() == s.last());
        assert(s.last().0@ != e.0@);
        assert(entries_map(u) =~= entries_map(s).insert(e.0@, e.1));
    }
}

proof fn lemma_entries_map_remove<V>(s: Seq<(String, V)>, i: int)
    requires
        keys_unique(s),
        0 <= i < s.len(),
    ensures
        entries_map(s.remove(i)) == entries_map(s).remove(s[i].0@),
        keys_unique(s.remove(i)),
    decreases s.len(),
{
    let r = s.remove(i);
    lemma_entries_map_props(s);
    if i == s.len() - 1 {
        assert(r =~= s.drop_last());
        lemma_entries_map_props(r);
        assert(!entries_map(r).contains_key(s[i].0@));
        assert(entries_map(r) =~= entries_map(s).remove(s[i].0@));
    } else {
        let pre = s.drop_last();
        lemma_entries_map_remove(pre, i);
        assert(r.drop_last() =~= pre.remove(i));
        assert(r.last() == s.last());
        assert(s.last().0@ != s[i].0@);
        assert(entries_map(r) =~= entries_map(s).remove(s[i].0@));
    }
}

/// A map from string keys to values.
pub struct StrMap<V> {
    entries: Vec<(String, V)>,
}

impl<V> View for StrMap<V> {
    type V = Map<Seq<char>, V>;

    closed spec fn view(&self) -> Map<Seq<char>, V> {
        entries_map(self.entries@)
    }
}

impl<V> StrMap<V> {
    #[verifier::type_invariant]
    spec fn wf(self) -> bool {
        keys_unique(self.entries@)
    }

    /// The number of entries; a recursion measure for destructive walks.
    pub closed spec fn spec_len(&self) -> nat {
        self.entries@.len()
    }

    /// An empty map.
    pub fn new() -> (r: Self)
        ensures
            r@ == Map::<Seq<char>, V>::empty(),
    {
        StrMap { entries: Vec::new() }
    }

    /// The number of keys.
    pub fn len(&self) -> (r: usize)
        ensures
            r == self@.dom().len(),
    {
        proof {
            use_type_invariant(&*self);
            lemma_entries_map_props(self.entries@);
        }
        self.entries.len()
    }

    fn find_index(&self, key: &str) -> (r: Option<usize>)
        ensures
            match r {
                Some(i) => i < self.entries@.len() && self.entries@[i as int].0@ == key@,
                None => forall|j: int| #![trigger self.entries@[j]] 0 <= j < self.entries@.len()
                    ==> self.entries@[j].0@ != key@,
            },
    {
        let n = self.entries.len();
        let mut i: usize = 0;
        while i < n
            invariant
                n == self.entries@.len(),
                i <= n,
                forall|j: int| #![trigger self.entries@[j]] 0 <= j < i ==> self.entries@[j].0@
                    != key@,
            decreases n - i,
        {
            let e = &self.entries[i];
            if str_eq(e.0.as_str(), key) {
                return Some(i);
            }
            i = i + 1;
        }
        None
    }

    /// Whether `key` is present.
    pub fn contains_key(&self, key: &str) -> (r: bool)
        ensures
            r == self@.contains_key(key@),
    {
        proof {
            use_type_invariant(&*self);
            lemma_entries_map_props(self.entries@);
        }
        match self.find_index(key) {
            Some(_) => true,
            None => {
                proof {
                    if self@.contains_key(key@) {
                        let i = choose|i: int| 0 <= i < self.entries@.len()
                            && #[trigger] self.entries@[i].0@ == key@;
                    }
                }
                false
            },
        }
    }

    /// The value under `key`, if present.
    pub fn get<'a>(&'a self, key: &str) -> (r: Option<&'a V>)
        ensures
            match r {
                Some(v) => self@.contains_key(key@) && *v == self@[key@],
                None => !self@.contains_key(key@),
            },
            self@.dom().finite(),
    {
        proof {
            use_type_invariant(&*self);
            lemma_entries_map_props(self.entries@);
        }
        match self.find_index(key) {
            Some(i) => Some(&self.entries[i].1),
            None => {
                proof {
                    if self@.contains_key(key@) {
                        let i = choose|i: int| 0 <= i < self.entries@.len()
                            && #[trigger] self.entries@[i].0@ == key@;
                    }
                }
                None
            },
        }
    }

    /// Binds `key` to `value`, replacing any earlier binding.
    pub fn insert(&mut self, key: String, value: V)
        ensures
            final(self)@ == old(self)@.insert(key@, value),
    {
        proof {
            use_type_invariant(&*self);
        }
        match self.find_index(key.as_str()) {
            Some(i) => {
                let mut entries: Vec<(String, V)> = Vec::new();
                core::mem::swap(&mut entries, &mut self.entries);
                proof {
                    lemma_entries_map_update(entries@, i as int, (key, value));
                }
                entries[i] = (key, value);
                self.entries = entries;
            },
            None => {
                let mut entries: Vec<(String, V)> = Vec::new();
                core::mem::swap(&mut entries, &mut self.entries);
                let ghost s0 = entries@;
                entries.push((key, value));
                proof {
                    assert(entries@.drop_last() =~= s0);
                }
                self.entries = entries;
            },
        }
    }

    /// Removes `key` if present.
    pub fn remove(&mut self, key: &str)
        ensures
            final(self)@ == old(self)@.remove(key@),
            old(self)@.contains_key(key@) ==> final(self).spec_len() < old(self).spec_len(),
            !old(self)@.contains_key(key@) ==> final(self).spec_len() == old(self).spec_len(),
    {
        proof {
            use_type_invariant(&*self);
            lemma_entries_map_props(self.entries@);
        }
        match self.find_index(key) {
            Some(i) => {
                let mut entries: Vec<(String, V)> = Vec::new();
                core::mem::swap(&mut entries, &mut self.entries);
                proof {
                    lemma_entries_map_remove(entries@, i as int);
                }
                let _ = entries.remove(i);
                self.entries = entries;
            },
            None => {
                proof {
                    if self@.contains_key(key@) {
                        let i = choose|i: int| 0 <= i < self.entries@.len()
                            && #[trigger] self.entries@[i].0@ == key@;
                    }
                    assert(self@ =~= self@.remove(key@));
                }
            },
        }
    }

    /// Drops every binding.
    pub fn clear(&mut self)
        ensures
            final(self)@ == Map::<Seq<char>, V>::empty(),
    {
        self.entries = Vec::new();
    }

    /// The entry at a position, for iteration; order is unspecified.
    pub fn entry_at(&self, i: usize) -> (r: &(String, V))
        requires
            i < self@.dom().len(),
        ensures
            self@.contains_key(r.0@) && self@[r.0@] == r.1,
    {
        proof {
            use_type_invariant(&*self);
            lemma_entries_map_props(self.entries@);
        }
        &self.entries[i]
    }
}

/// The set an item list denotes.
pub open spec fn items_set(s: Seq<String>) -> Set<Seq<char>>
    decreases s.len(),
{
    if s.len() == 0 {
        Set::empty()
    } else {
        items_set(s.drop_last()).insert(s.last()@)
    }
}

/// No two items are equal.
pub open spec fn items_unique(s: Seq<String>) -> bool {
    forall|i: int, j: int| #![trigger s[i], s[j]] 0 <= i < j < s.len() ==> s[i]@ != s[j]@
}

proof fn lemma_items_set_props(s: Seq<String>)
    requires
        items_unique(s),
    ensures
        forall|k: Seq<char>| #[trigger] items_set(s).contains(k) ==> exists|i: int|
            0 <= i < s.len() && #[trigger] s[i]@ == k,
        forall|i: int| #![trigger s[i]] 0 <= i < s.len() ==> items_set(s).contains(s[i]@),
        items_set(s).finite(),
        items_set(s).len() == s.len(),
    decreases s.len(),
{
    if s.len() > 0 {
        let pre = s.drop_last();
        lemma_items_set_props(pre);
        let lk = s.last()@;
        assert(!items_set(pre).contains(lk)) by {
            if items_set(pre).contains(lk) {
                let i = choose|i: int| 0 <= i < pre.len() && #[trigger] pre[i]@ == lk;
                assert(s[i]@ == s[s.len() - 1]@);
            }
        }
        assert forall|i: int| 0 <= i < s.len() implies items_set(s).contains(#[trigger] s[i]@) by {
            if i < s.len() - 1 {
                assert(pre[i] == s[i]);
            }
        }
    }
}

/// A set of strings.
pub struct StrSet {
    items: Vec<String>,
}

impl View for StrSet {
    type V = Set<Seq<char>>;

    closed spec fn view(&self) -> Set<Seq<char>> {
        items_set(self.items@)
    }
}

impl StrSet {
    #[verifier::type_invariant]
    spec fn wf(self) -> bool {
        items_unique(self.items@)
    }

    /// An empty set.
    pub fn new() -> (r: Self)
        ensures
            r@ == Set::<Seq<char>>::empty(),
    {
        StrSet { items: Vec::new() }
    }

    /// The number of members.
    pub fn len(&self) -> (r: usize)
        ensures
            r == self@.len(),
    {
        proof {
            use_type_invariant(&*self);
            lemma_items_set_props(self.items@);
        }
        self.items.len()
    }

    fn find_item(&self, key: &str) -> (r: bool)
        ensures
            r == exists|i: int| 0 <= i < self.items@.len() && #[trigger] self.items@[i]@ == key@,
    {
        let n = self.items.len();
        let mut i: usize = 0;
        while i < n
            invariant
                n == self.items@.len(),
                i <= n,
                forall|j: int| #![trigger self.items@[j]] 0 <= j < i ==> self.items@[j]@ != key@,
            decreases n - i,
        {
            if str_eq(self.items[i].as_str(), key) {
                return true;
            }
            i = i + 1;
        }
        false
    }

    /// Whether `key` is a member.
    pub fn contains(&self, key: &str) -> (r: bool)
        ensures
            r == self@.contains(key@),
    {
        proof {
            use_type_invariant(&*self);
            lemma_items_set_props(self.items@);
        }
        self.find_item(key)
    }

    /// Adds `key`.
    pub fn insert(&mut self, key: String)
        ensures
            final(self)@ == old(self)@.insert(key@),
    {
        proof {
            use_type_invariant(&*self);
            lemma_items_set_props(self.items@);
        }
        if self.find_item(key.as_str()) {
            proof {
                assert(self@ =~= self@.insert(key@));
            }
        } else {
            let mut items: Vec<String> = Vec::new();
            core::mem::swap(&mut items, &mut self.items);
            let ghost s0 = items@;
            items.push(key);
            proof {
                assert(items@.drop_last() =~= s0);
            }
            self.items = items;
        }
    }

    /// Adds every member of `other`.
    pub fn union_from(&mut self, other: &StrSet)
        ensures
            final(self)@ == old(self)@ + other@,
    {
        proof {
            use_type_invariant(other);
            lemma_items_set_props(other.items@);
        }
        let n = other.items.len();
        let mut i: usize = 0;
        while i < n
            invariant
                n == other.items@.len(),
                i <= n,
                items_unique(other.items@),
                self@ == old(self)@ + items_set(other.items@.take(i as int)),
            decreases n - i,
        {
            let it = other.items[i].clone();
            self.insert(it);
            proof {
                assert(other.items@.take(i + 1).drop_last() =~= other.items@.take(i as int));
                assert(self@ =~= old(self)@ + items_set(other.items@.take(i + 1)));
            }
            i = i + 1;
        }
        proof {
            assert(other.items@.take(n as int) =~= other.items@);
        }
    }

    /// A copy of the set.
    pub fn duplicate(&self) -> (r: StrSet)
        ensures
            r@ == self@,
    {
        proof {
            use_type_invariant(&*self);
        }
        let n = self.items.len();
        let mut items: Vec<String> = Vec::new();
        let mut i: usize = 0;
        while i < n
            invariant
                n == self.items@.len(),
                i <= n,
                items@.len() == i,
                forall|j: int| #![trigger items@[j]] 0 <= j < i ==> items@[j]@ == self.items@[j]@,
                items_unique(self.items@),
            decreases n - i,
        {
            items.push(self.items[i].clone());
            i = i + 1;
        }
        proof {
            lemma_items_views_equal(items@, self.items@);
        }
        StrSet { items }
    }

    /// The member at a position, for iteration; order is unspecified.
    pub fn item_at(&self, i: usize) -> (r: &String)
        requires
            i < self@.len(),
        ensures
            self@.contains(r@),
    {
        proof {
            use_type_invariant(&*self);
            lemma_items_set_props(self.items@);
        }
        &self.items[i]
    }
}

proof fn lemma_items_views_equal(a: Seq<String>, b: Seq<String>)
    requires
        a.len() == b.len(),
        forall|j: int| #![trigger a[j], b[j]] 0 <= j < a.len() ==> a[j]@ == b[j]@,
    ensures
        items_set(a) == items_set(b),
        items_unique(b) ==> items_unique(a),
    decreases a.len(),
{
    if a.len() > 0 {
        lemma_items_views_equal(a.drop_last(), b.drop_last());
        assert(items_set(a) =~= items_set(b));
    }
    if items_unique(b) {
        assert forall|i: int, j: int| 0 <= i < j < a.len() implies (#[trigger] a[i])@
            != (#[trigger] a[j])@ by {
            assert(b[i]@ != b[j]@);
        }
    }
}

} // verus!
