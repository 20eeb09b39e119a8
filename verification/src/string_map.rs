//! A map from strings to strings, kept as a list of pairs with distinct
//! keys, viewed as a `Map<Seq<char>, Seq<char>>`.  It holds container
//! environments, container labels and the daemon's server-to-container
//! registry.
use vstd::prelude::*;

use crate::text::eq_str;

verus! {

/// The map that a list of pairs stands for: later pairs win.
pub open spec fn pairs_view(s: Seq<(String, String)>) -> Map<Seq<char>, Seq<char>>
    decreases s.len(),
{
    if s.len() == 0 {
        Map::empty()
    } else {
        pairs_view(s.drop_last()).insert(s.last().0@, s.last().1@)
    }
}

/// No key occurs twice.
pub open spec fn distinct_keys(s: Seq<(String, String)>) -> bool {
    forall|i: int, j: int| 0 <= i < s.len() && 0 <= j < s.len() && i != j ==> #[trigger] s[i].0@
        != #[trigger] s[j].0@
}

pub proof fn lemma_pairs_view_dom(s: Seq<(String, String)>, k: Seq<char>)
    ensures
        pairs_view(s).contains_key(k) <==> exists|i: int| 0 <= i < s.len() && #[trigger] s[i].0@
            == k,
    decreases s.len(),
{
    if s.len() > 0 {
        lemma_pairs_view_dom(s.drop_last(), k);
        if exists|i: int| 0 <= i < s.len() && #[trigger] s[i].0@ == k {
            let i = choose|i: int| 0 <= i < s.len() && #[trigger] s[i].0@ == k;
            if i < s.len() - 1 {
                assert(s.drop_last()[i].0@ == k);
            }
        }
        if exists|i: int| 0 <= i < s.drop_last().len() && #[trigger] s.drop_last()[i].0@ == k {
            let i = choose|i: int|
                0 <= i < s.drop_last().len() && #[trigger] s.drop_last()[i].0@ == k;
            assert(s[i].0@ == k);
        }
    }
}

pub proof fn lemma_pairs_view_value(s: Seq<(String, String)>, i: int)
    requires
        distinct_keys(s),
        0 <= i < s.len(),
    ensures
        pairs_view(s).contains_key(s[i].0@),
        pairs_view(s)[s[i].0@] == s[i].1@,
    decreases s.len(),
{
    if i < s.len() - 1 {
        let d = s.drop_last();
        assert(d[i] == s[i]);
        assert(distinct_keys(d)) by {
            assert forall|a: int, b: int|
                0 <= a < d.len() && 0 <= b < d.len() && a != b implies #[trigger] d[a].0@
                != #[trigger] d[b].0@ by {
                assert(d[a] == s[a] && d[b] == s[b]);
            }
        }
        lemma_pairs_view_value(d, i);
        assert(s[s.len() - 1].0@ != s[i].0@);
    }
}

/// A map from strings to strings with distinct keys.
pub struct StringMap {
    entries: Vec<(String, String)>,
}

impl View for StringMap {
    type V = Map<Seq<char>, Seq<char>>;

    closed spec fn view(&self) -> Map<Seq<char>, Seq<char>> {
        pairs_view(self.entries@)
    }
}

impl StringMap {
    #[verifier::type_invariant]
    closed spec fn wf(&self) -> bool {
        distinct_keys(self.entries@)
    }

    /// The pairs, in the order they were first inserted.
    pub closed spec fn pairs(&self) -> Seq<(String, String)> {
        self.entries@
    }

    /// The empty map.
    pub fn new() -> (m: StringMap)
        ensures
            m@ == Map::<Seq<char>, Seq<char>>::empty(),
            m.pairs().len() == 0,
    {
        StringMap { entries: Vec::new() }
    }

    fn find(&self, key: &str) -> (r: Option<usize>)
        ensures
            match r {
                Some(i) => i < self.entries@.len() && self.entries@[i as int].0@ == key@,
                None => forall|i: int|
                    0 <= i < self.entries@.len() ==> #[trigger] self.entries@[i].0@ != key@,
            },
    {
        let mut i: usize = 0;
        while i < self.entries.len()
            invariant
                i <= self.entries@.len(),
                forall|j: int| 0 <= j < i ==> #[trigger] self.entries@[j].0@ != key@,
            decreases self.entries@.len() - i,
        {
            if eq_str(self.entries[i].0.as_str(), key) {
                return Some(i);
            }
            i = i + 1;
        }
        None
    }

    /// The value of `key`, if it has one.
    pub fn get(&self, key: &str) -> (r: Option<String>)
        ensures
            match r {
                Some(v) => self@.contains_key(key@) && self@[key@] == v@,
                None => !self@.contains_key(key@),
            },
    {
        proof {
            use_type_invariant(self);
            lemma_pairs_view_dom(self.entries@, key@);
        }
        match self.find(key) {
            Some(i) => {
                proof {
                    lemma_pairs_view_value(self.entries@, i as int);
                }
                Some(self.entries[i].1.clone())
            },
            None => None,
        }
    }

    /// Whether `key` has a value.
    pub fn contains_key(&self, key: &str) -> (r: bool)
        ensures
            r == self@.contains_key(key@),
    {
        proof {
            use_type_invariant(self);
            lemma_pairs_view_dom(self.entries@, key@);
        }
        self.find(key).is_some()
    }

    /// Sets `key` to `value`, keeping the place of a key that was there.
    pub fn insert(&mut self, key: String, value: String)
        ensures
            final(self)@ == old(self)@.insert(key@, value@),
            old(self)@.contains_key(key@) ==> final(self).pairs().len() == old(self).pairs().len(),
            !old(self)@.contains_key(key@) ==> final(self).pairs() == old(self).pairs().push(
                (key, value),
            ),
    {
        proof {
            use_type_invariant(&*self);
            lemma_pairs_view_dom(self.entries@, key@);
        }
        let ghost old_entries = self.entries@;
        match self.find(key.as_str()) {
            Some(i) => {
                let ghost k = key@;
                let ghost v = value@;
                let mut entries: Vec<(String, String)> = Vec::new();
                std::mem::swap(&mut entries, &mut self.entries);
                entries.set(i, (key, value));
                proof {
                    let s = entries@;
                    assert(s == old_entries.update(i as int, s[i as int]));
                    assert(distinct_keys(s)) by {
                        assert forall|a: int, b: int|
                            0 <= a < s.len() && 0 <= b < s.len() && a != b implies #[trigger] s[a].0@
                            != #[trigger] s[b].0@ by {
                            if a != i && b != i {
                                assert(s[a] == old_entries[a] && s[b] == old_entries[b]);
                            } else if a == i {
                                assert(s[b] == old_entries[b]);
                                assert(old_entries[i as int].0@ != old_entries[b].0@);
                            } else {
                                assert(s[a] == old_entries[a]);
                                assert(old_entries[i as int].0@ != old_entries[a].0@);
                            }
                        }
                    }
                }
                self.entries = entries;
                proof {
                    let s = self.entries@;
                    lemma_same_keys_view(old_entries, s, i as int);
                }
            },
            None => {
                let mut entries: Vec<(String, String)> = Vec::new();
                std::mem::swap(&mut entries, &mut self.entries);
                entries.push((key, value));
                proof {
                    let s = entries@;
                    assert(s.drop_last() =~= old_entries);
                    assert(distinct_keys(s)) by {
                        assert forall|a: int, b: int|
                            0 <= a < s.len() && 0 <= b < s.len() && a != b implies #[trigger] s[a].0@
                            != #[trigger] s[b].0@ by {
                            if a < old_entries.len() && b < old_entries.len() {
                                assert(s[a] == old_entries[a] && s[b] == old_entries[b]);
                            } else if a < old_entries.len() {
                                assert(s[a] == old_entries[a]);
                            } else {
                                assert(s[b] == old_entries[b]);
                            }
                        }
                    }
                }
                self.entries = entries;
            },
        }
    }

    /// Removes `key`, giving back its value if it had one.
    pub fn remove(&mut self, key: &str) -> (r: Option<String>)
        ensures
            final(self)@ == old(self)@.remove(key@),
            match r {
                Some(v) => old(self)@.contains_key(key@) && old(self)@[key@] == v@,
                None => !old(self)@.contains_key(key@),
            },
    {
        proof {
            use_type_invariant(&*self);
            lemma_pairs_view_dom(self.entries@, key@);
        }
        let ghost old_entries = self.entries@;
        match self.find(key) {
            Some(i) => {
                proof {
                    lemma_pairs_view_value(old_entries, i as int);
                }
                let mut entries: Vec<(String, String)> = Vec::new();
                std::mem::swap(&mut entries, &mut self.entries);
                let removed = entries.remove(i);
                proof {
                    let s = entries@;
                    assert(s =~= old_entries.remove(i as int));
                    assert(distinct_keys(s)) by {
                        assert forall|a: int, b: int|
                            0 <= a < s.len() && 0 <= b < s.len() && a != b implies #[trigger] s[a].0@
                            != #[trigger] s[b].0@ by {
                            let a2 = if a < i { a } else { a + 1 };
                            let b2 = if b < i { b } else { b + 1 };
                            assert(s[a] == old_entries[a2] && s[b] == old_entries[b2]);
                        }
                    }
                    assert forall|x: Seq<char>| #[trigger] pairs_view(s).contains_key(x) <==> pairs_view(
                        old_entries,
                    ).remove(key@).contains_key(x) by {
                        lemma_pairs_view_dom(s, x);
                        lemma_pairs_view_dom(old_entries, x);
                        if exists|j: int| 0 <= j < old_entries.len() && #[trigger] old_entries[j].0@ == x {
                            let j = choose|j: int|
                                0 <= j < old_entries.len() && #[trigger] old_entries[j].0@ == x;
                            if x != key@ {
                                assert(j != i);
                                let j2 = if j < i { j } else { j - 1 };
                                assert(s[j2] == old_entries[j]);
                            }
                        }
                        if exists|j: int| 0 <= j < s.len() && #[trigger] s[j].0@ == x {
                            let j = choose|j: int| 0 <= j < s.len() && #[trigger] s[j].0@ == x;
                            let j2 = if j < i { j } else { j + 1 };
                            assert(s[j] == old_entries[j2]);
                            assert(j2 != i);
                        }
                    }
                    assert forall|x: Seq<char>| #[trigger] pairs_view(s).contains_key(x) implies pairs_view(
                        s,
                    )[x] == pairs_view(old_entries)[x] by {
                        lemma_pairs_view_dom(s, x);
                        let j = choose|j: int| 0 <= j < s.len() && #[trigger] s[j].0@ == x;
                        let j2 = if j < i { j } else { j + 1 };
                        assert(s[j] == old_entries[j2]);
                        lemma_pairs_view_value(s, j);
                        lemma_pairs_view_value(old_entries, j2);
                    }
                    assert(pairs_view(s) =~= pairs_view(old_entries).remove(key@));
                }
                self.entries = entries;
                Some(removed.1)
            },
            None => {
                assert(old_entries == self.entries@);
                assert(pairs_view(old_entries).remove(key@) =~= pairs_view(old_entries));
                None
            },
        }
    }

    /// The number of keys.
    pub fn len(&self) -> (n: usize)
        ensures
            n == self@.len(),
            n == self.pairs().len(),
            distinct_keys(self.pairs()),
            pairs_view(self.pairs()) == self@,
            self@.dom().finite(),
    {
        proof {
            use_type_invariant(self);
            lemma_pairs_view_len(self.entries@);
        }
        self.entries.len()
    }

    /// A copy of the map, with its pairs in the same order.
    pub fn copy(&self) -> (r: StringMap)
        ensures
            r@ == self@,
            r.pairs().len() == self.pairs().len(),
            forall|i: int| 0 <= i < r.pairs().len() ==> (#[trigger] r.pairs()[i]).0@ == self.pairs()[i].0@
                && r.pairs()[i].1@ == self.pairs()[i].1@,
    {
        proof {
            use_type_invariant(self);
        }
        let mut entries: Vec<(String, String)> = Vec::new();
        let mut i: usize = 0;
        while i < self.entries.len()
            invariant
                i <= self.entries@.len(),
                distinct_keys(self.entries@),
                entries@.len() == i,
                forall|k: int| 0 <= k < i ==> (#[trigger] entries@[k]).0@ == self.entries@[k].0@
                    && entries@[k].1@ == self.entries@[k].1@,
            decreases self.entries@.len() - i,
        {
            entries.push((self.entries[i].0.clone(), self.entries[i].1.clone()));
            i = i + 1;
        }
        proof {
            let a = self.entries@;
            let b = entries@;
            assert(distinct_keys(b)) by {
                assert forall|x: int, y: int| 0 <= x < b.len() && 0 <= y < b.len() && x != y implies #[trigger] b[x].0@
                    != #[trigger] b[y].0@ by {
                    assert(a[x].0@ != a[y].0@);
                }
            }
            lemma_pairs_view_same(a, b);
        }
        StringMap { entries }
    }

    /// The key and value of the `i`-th pair.
    pub fn pair_at(&self, i: usize) -> (r: (String, String))
        requires
            i < self.pairs().len(),
        ensures
            r.0@ == self.pairs()[i as int].0@,
            r.1@ == self.pairs()[i as int].1@,
            self@.contains_key(r.0@),
            self@[r.0@] == r.1@,
    {
        proof {
            use_type_invariant(self);
            lemma_pairs_view_value(self.entries@, i as int);
        }
        (self.entries[i].0.clone(), self.entries[i].1.clone())
    }
}

proof fn lemma_same_keys_view(a: Seq<(String, String)>, b: Seq<(String, String)>, i: int)
    requires
        distinct_keys(a),
        distinct_keys(b),
        a.len() == b.len(),
        0 <= i < a.len(),
        a[i].0@ == b[i].0@,
        forall|j: int| 0 <= j < a.len() && j != i ==> a[j] == b[j],
    ensures
        pairs_view(b) == pairs_view(a).insert(b[i].0@, b[i].1@),
{
    assert forall|x: Seq<char>| #[trigger] pairs_view(b).contains_key(x) <==> pairs_view(a).insert(
        b[i].0@,
        b[i].1@,
    ).contains_key(x) by {
        lemma_pairs_view_dom(a, x);
        lemma_pairs_view_dom(b, x);
        if exists|j: int| 0 <= j < a.len() && #[trigger] a[j].0@ == x {
            let j = choose|j: int| 0 <= j < a.len() && #[trigger] a[j].0@ == x;
            if j != i {
                assert(b[j] == a[j]);
            }
        }
        if exists|j: int| 0 <= j < b.len() && #[trigger] b[j].0@ == x {
            let j = choose|j: int| 0 <= j < b.len() && #[trigger] b[j].0@ == x;
            if j != i {
                assert(b[j] == a[j]);
            }
        }
    }
    assert forall|x: Seq<char>| #[trigger] pairs_view(b).contains_key(x) implies pairs_view(b)[x]
        == pairs_view(a).insert(b[i].0@, b[i].1@)[x] by {
        lemma_pairs_view_dom(b, x);
        let j = choose|j: int| 0 <= j < b.len() && #[trigger] b[j].0@ == x;
        lemma_pairs_view_value(b, j);
        if j != i {
            assert(b[j] == a[j]);
            lemma_pairs_view_value(a, j);
        }
    }
    assert(pairs_view(b) =~= pairs_view(a).insert(b[i].0@, b[i].1@));
}

proof fn lemma_pairs_view_same(a: Seq<(String, String)>, b: Seq<(String, String)>)
    requires
        a.len() == b.len(),
        forall|k: int| 0 <= k < a.len() ==> (#[trigger] b[k]).0@ == a[k].0@ && b[k].1@ == a[k].1@,
    ensures
        pairs_view(a) == pairs_view(b),
    decreases a.len(),
{
    if a.len() > 0 {
        lemma_pairs_view_same(a.drop_last(), b.drop_last());
        assert(b[a.len() - 1].0@ == a[a.len() - 1].0@);
    }
}

proof fn lemma_pairs_view_len(s: Seq<(String, String)>)
    requires
        distinct_keys(s),
    ensures
        pairs_view(s).dom().finite(),
        pairs_view(s).len() == s.len(),
    decreases s.len(),
{
    if s.len() > 0 {
        let d = s.drop_last();
        assert(distinct_keys(d)) by {
            assert forall|a: int, b: int|
                0 <= a < d.len() && 0 <= b < d.len() && a != b implies #[trigger] d[a].0@
                != #[trigger] d[b].0@ by {
                assert(d[a] == s[a] && d[b] == s[b]);
            }
        }
        lemma_pairs_view_len(d);
        lemma_pairs_view_dom(d, s.last().0@);
        if pairs_view(d).contains_key(s.last().0@) {
            let j = choose|j: int| 0 <= j < d.len() && #[trigger] d[j].0@ == s.last().0@;
            assert(d[j] == s[j]);
            assert(false);
        }
    }
}

} // verus!
