//! Association maps keyed by strings.
//!
//! Every table of the supervisor (slot table, perspective table, binding
//! table, security store, ...) is a map from string keys to values.  The
//! representation is an association list with pairwise-distinct keys; the
//! abstraction is a `Map<Seq<char>, T>`.

use vstd::prelude::*;

verus! {

/// The map described by an association list, later entries winning.
pub open spec fn assoc_map<T>(s: Seq<(String, T)>) -> Map<Seq<char>, T>
    decreases s.len(),
{
    if s.len() == 0 {
        Map::empty()
    } else {
        assoc_map(s.drop_last()).insert(s.last().0@, s.last().1)
    }
}

/// No two entries share a key.
pub open spec fn distinct_keys<T>(s: Seq<(String, T)>) -> bool {
    forall|i: int, j: int| 0 <= i < j < s.len() ==> s[i].0@ != s[j].0@
}

proof fn lemma_contains<T>(s: Seq<(String, T)>, k: Seq<char>)
    ensures
        assoc_map(s).contains_key(k) <==> exists|i: int| 0 <= i < s.len() && s[i].0@ == k,
    decreases s.len(),
{
    if s.len() > 0 {
        lemma_contains(s.drop_last(), k);
        if s.last().0@ == k {
            assert(s[s.len() - 1].0@ == k);
        } else if assoc_map(s).contains_key(k) {
            let i = choose|i: int| 0 <= i < s.drop_last().len() && s.drop_last()[i].0@ == k;
            assert(s[i].0@ == k);
        } else {
            assert forall|i: int| 0 <= i < s.len() implies s[i].0@ != k by {
                if i < s.len() - 1 {
                    assert(s.drop_last()[i].0@ == s[i].0@);
                }
            }
        }
    }
}

proof fn lemma_get_at<T>(s: Seq<(String, T)>, i: int)
    requires
        distinct_keys(s),
        0 <= i < s.len(),
    ensures
        assoc_map(s).contains_key(s[i].0@),
        assoc_map(s)[s[i].0@] == s[i].1,
    decreases s.len(),
{
    if i < s.len() - 1 {
        assert(distinct_keys(s.drop_last())) by {
            assert forall|p: int, q: int|
                0 <= p < q < s.drop_last().len() implies s.drop_last()[p].0@
                != s.drop_last()[q].0@ by {
                assert(s[p].0@ != s[q].0@);
            }
        }
        assert(s.drop_last()[i] == s[i]);
        lemma_get_at(s.drop_last(), i);
        assert(s.last().0@ != s[i].0@);
    }
}

proof fn lemma_distinct_drop_last<T>(s: Seq<(String, T)>)
    requires
        distinct_keys(s),
        s.len() > 0,
    ensures
        distinct_keys(s.drop_last()),
{
    assert forall|p: int, q: int|
        0 <= p < q < s.drop_last().len() implies s.drop_last()[p].0@ != s.drop_last()[q].0@ by {
        assert(s[p].0@ != s[q].0@);
    }
}

proof fn lemma_remove_idx<T>(s: Seq<(String, T)>, i: int)
    requires
        distinct_keys(s),
        0 <= i < s.len(),
    ensures
        distinct_keys(s.remove(i)),
        assoc_map(s.remove(i)) == assoc_map(s).remove(s[i].0@),
        forall|j: int| 0 <= j < s.remove(i).len() ==> s.remove(i)[j].0@ != s[i].0@,
    decreases s.len(),
{
    let k = s[i].0@;
    assert forall|j: int| 0 <= j < s.remove(i).len() implies s.remove(i)[j].0@ != k by {
        if j < i {
            assert(s.remove(i)[j] == s[j]);
        } else {
            assert(s.remove(i)[j] == s[j + 1]);
        }
    }
    assert(distinct_keys(s.remove(i))) by {
        assert forall|p: int, q: int|
            0 <= p < q < s.remove(i).len() implies s.remove(i)[p].0@ != s.remove(i)[q].0@ by {
            let p0 = if p < i { p } else { p + 1 };
            let q0 = if q < i { q } else { q + 1 };
            assert(s.remove(i)[p] == s[p0]);
            assert(s.remove(i)[q] == s[q0]);
        }
    }
    lemma_distinct_drop_last(s);
    if i == s.len() - 1 {
        assert(s.remove(i) =~= s.drop_last());
        assert forall|j: int| 0 <= j < s.drop_last().len() implies s.drop_last()[j].0@ != k by {
            assert(s[j].0@ != k);
        }
        lemma_contains(s.drop_last(), k);
        assert(assoc_map(s.remove(i)) =~= assoc_map(s).remove(k));
    } else {
        assert(s.remove(i).drop_last() =~= s.drop_last().remove(i));
        assert(s.remove(i).last() == s.last());
        assert(s.drop_last()[i] == s[i]);
        lemma_remove_idx(s.drop_last(), i);
        assert(assoc_map(s.remove(i)) =~= assoc_map(s).remove(k));
    }
}

proof fn lemma_dom_len<T>(s: Seq<(String, T)>)
    requires
        distinct_keys(s),
    ensures
        assoc_map(s).dom().finite(),
        assoc_map(s).dom().len() == s.len(),
    decreases s.len(),
{
    if s.len() == 0 {
        assert(assoc_map(s).dom() =~= Set::<Seq<char>>::empty());
    } else {
        lemma_distinct_drop_last(s);
        lemma_dom_len(s.drop_last());
        let k = s.last().0@;
        assert forall|j: int| 0 <= j < s.drop_last().len() implies s.drop_last()[j].0@ != k by {
            assert(s[j].0@ != k);
        }
        lemma_contains(s.drop_last(), k);
        assert(assoc_map(s).dom() =~= assoc_map(s.drop_last()).dom().insert(k));
        vstd::set::axiom_set_insert_len(assoc_map(s.drop_last()).dom(), k);
    }
}

/// A map from `String` keys to values of type `T`.
pub struct StrMap<T> {
    entries: Vec<(String, T)>,
}

impl<T> View for StrMap<T> {
    type V = Map<Seq<char>, T>;

    closed spec fn view(&self) -> Map<Seq<char>, T> {
        assoc_map(self.entries@)
    }
}

impl<T> StrMap<T> {
    #[verifier::type_invariant]
    spec fn wf(self) -> bool {
        distinct_keys(self.entries@)
    }

    /// The empty map.
    pub fn new() -> (r: Self)
        ensures
            r@ == Map::<Seq<char>, T>::empty(),
    {
        StrMap { entries: Vec::new() }
    }

    fn find_idx(es: &Vec<(String, T)>, key: &String) -> (r: Option<usize>)
        ensures
            match r {
                Some(i) => i < es@.len() && es@[i as int].0@ == key@,
                None => forall|i: int| 0 <= i < es@.len() ==> es@[i].0@ != key@,
            },
    {
        let mut i: usize = 0;
        while i < es.len()
            invariant
                i <= es@.len(),
                forall|j: int| 0 <= j < i ==> es@[j].0@ != key@,
            decreases es@.len() - i,
        {
            if es[i].0 == *key {
                return Some(i);
            }
            i += 1;
        }
        None
    }

    /// Number of keys.
    pub fn len(&self) -> (r: usize)
        ensures
            r as nat == self@.dom().len(),
    {
        proof {
            use_type_invariant(&*self);
            lemma_dom_len(self.entries@);
        }
        self.entries.len()
    }

    /// Whether the map holds no key at all.
    pub fn is_empty(&self) -> (r: bool)
        ensures
            r <==> self@ == Map::<Seq<char>, T>::empty(),
    {
        proof {
            use_type_invariant(&*self);
            if self.entries@.len() > 0 {
                lemma_get_at(self.entries@, 0);
                assert(self@.contains_key(self.entries@[0].0@));
            }
        }
        self.entries.len() == 0
    }

    /// Look a key up.
    pub fn get<'a>(&'a self, key: &str) -> (r: Option<&'a T>)
        ensures
            r == (if self@.contains_key(key@) {
                Some(&self@[key@])
            } else {
                None::<&'a T>
            }),
    {
        proof {
            use_type_invariant(&*self);
        }
        let k = key.to_owned();
        match Self::find_idx(&self.entries, &k) {
            Some(i) => {
                proof {
                    lemma_get_at(self.entries@, i as int);
                }
                Some(&self.entries[i].1)
            },
            None => {
                proof {
                    lemma_contains(self.entries@, k@);
                }
                None
            },
        }
    }

    /// Whether the key is present.
    pub fn contains_key(&self, key: &str) -> (r: bool)
        ensures
            r == self@.contains_key(key@),
    {
        self.get(key).is_some()
    }

    /// Insert a key, replacing any previous value for it.
    pub fn insert(&mut self, key: String, value: T)
        ensures
            final(self)@ == old(self)@.insert(key@, value),
    {
        proof {
            use_type_invariant(&*self);
        }
        let mut es: Vec<(String, T)> = Vec::new();
        std::mem::swap(&mut es, &mut self.entries);
        let ghost orig = es@;
        match Self::find_idx(&es, &key) {
            Some(i) => {
                proof {
                    lemma_remove_idx(es@, i as int);
                }
                let _ = es.remove(i);
                proof {
                    assert(assoc_map(es@) == assoc_map(orig).remove(key@));
                }
            },
            None => {
                proof {
                    lemma_contains(orig, key@);
                    assert(assoc_map(orig).remove(key@) =~= assoc_map(orig));
                }
            },
        }
        proof {
            assert(forall|j: int| 0 <= j < es@.len() ==> es@[j].0@ != key@);
        }
        let ghost before_push = es@;
        es.push((key, value));
        proof {
            assert(es@.drop_last() =~= before_push);
            assert(distinct_keys(es@)) by {
                assert forall|p: int, q: int|
                    0 <= p < q < es@.len() implies es@[p].0@ != es@[q].0@ by {
                    if q < es@.len() - 1 {
                        assert(before_push[p].0@ != before_push[q].0@);
                    }
                }
            }
            assert(assoc_map(es@) =~= assoc_map(orig).insert(es@.last().0@, es@.last().1));
        }
        self.entries = es;
    }

    /// Remove a key, handing back the value it had.
    pub fn remove(&mut self, key: &str) -> (r: Option<T>)
        ensures
            final(self)@ == old(self)@.remove(key@),
            r == (if old(self)@.contains_key(key@) {
                Some(old(self)@[key@])
            } else {
                None::<T>
            }),
            !old(self)@.contains_key(key@) ==> *final(self) == *old(self),
    {
        proof {
            use_type_invariant(&*self);
        }
        let mut es: Vec<(String, T)> = Vec::new();
        std::mem::swap(&mut es, &mut self.entries);
        let ghost orig = es@;
        let k = key.to_owned();
        let r = match Self::find_idx(&es, &k) {
            Some(i) => {
                proof {
                    lemma_get_at(es@, i as int);
                    lemma_remove_idx(es@, i as int);
                }
                let (_k, v) = es.remove(i);
                Some(v)
            },
            None => {
                proof {
                    lemma_contains(orig, k@);
                    assert(assoc_map(orig).remove(k@) =~= assoc_map(orig));
                }
                None
            },
        };
        self.entries = es;
        r
    }

    /// All keys, each once.
    pub fn keys(&self) -> (r: Vec<String>)
        ensures
            r@.len() == self@.dom().len(),
            forall|i: int| 0 <= i < r@.len() ==> self@.contains_key(#[trigger] r@[i]@),
            forall|i: int, j: int| 0 <= i < j < r@.len() ==> r@[i]@ != r@[j]@,
            forall|k: Seq<char>|
                self@.contains_key(k) ==> exists|i: int|
                    0 <= i < r@.len() && #[trigger] r@[i]@ == k,
    {
        proof {
            use_type_invariant(&*self);
            lemma_dom_len(self.entries@);
        }
        let mut r: Vec<String> = Vec::new();
        let mut i: usize = 0;
        let n = self.entries.len();
        while i < n
            invariant
                n == self.entries@.len(),
                i <= n,
                r@.len() == i,
                distinct_keys(self.entries@),
                forall|j: int| 0 <= j < i ==> r@[j]@ == self.entries@[j].0@,
            decreases n - i,
        {
            r.push(self.entries[i].0.clone());
            i += 1;
        }
        proof {
            assert forall|j: int| 0 <= j < r@.len() implies self@.contains_key(r@[j]@) by {
                lemma_get_at(self.entries@, j);
            }
            assert forall|k: Seq<char>| self@.contains_key(k) implies exists|j: int|
                0 <= j < r@.len() && #[trigger] r@[j]@ == k by {
                lemma_contains(self.entries@, k);
                let j = choose|j: int|
                    0 <= j < self.entries@.len() && self.entries@[j].0@ == k;
                assert(r@[j]@ == k);
            }
        }
        r
    }

    /// The entries as key-value pairs, keys pairwise distinct.
    pub fn pairs<'a>(&'a self) -> (r: &'a Vec<(String, T)>)
        ensures
            r@.len() == self@.dom().len(),
            forall|i: int|
                0 <= i < r@.len() ==> self@.contains_key(#[trigger] r@[i].0@)
                    && self@[r@[i].0@] == r@[i].1,
            forall|i: int, j: int| 0 <= i < j < r@.len() ==> r@[i].0@ != r@[j].0@,
            forall|k: Seq<char>|
                self@.contains_key(k) ==> exists|i: int|
                    0 <= i < r@.len() && #[trigger] r@[i].0@ == k,
    {
        proof {
            use_type_invariant(&*self);
            lemma_dom_len(self.entries@);
            assert forall|i: int|
                0 <= i < self.entries@.len() implies self@.contains_key(
                #[trigger] self.entries@[i].0@,
            ) && self@[self.entries@[i].0@] == self.entries@[i].1 by {
                lemma_get_at(self.entries@, i);
            }
            assert forall|k: Seq<char>| self@.contains_key(k) implies exists|i: int|
                0 <= i < self.entries@.len() && #[trigger] self.entries@[i].0@ == k by {
                lemma_contains(self.entries@, k);
            }
        }
        &self.entries
    }
}

} // verus!
