//! A string-keyed association list with a mathematical `Map` view. This is
//! the one ordered container the library builds everything on: an attribute
//! map is an association list of tagged scalars, the record store is an
//! association list of attribute maps, and the table catalog is an
//! association list of table descriptions.

use vstd::prelude::*;

verus! {

/// A value that carries its own well-formedness condition, so that a
/// container can promise that everything it hands out is well formed.
pub trait ValWf {
    spec fn val_wf(&self) -> bool;
}

impl<V: View + ValWf> ValWf for AList<V> {
    open spec fn val_wf(&self) -> bool {
        self.wf()
    }
}

/// No two entries share a key.
pub open spec fn unique_keys<V>(s: Seq<(String, V)>) -> bool {
    forall|i: int, j: int| 0 <= i < j < s.len() ==> s[i].0@ != s[j].0@
}

/// Every entry's value is well formed.
pub open spec fn values_wf<V: ValWf>(s: Seq<(String, V)>) -> bool {
    forall|i: int| 0 <= i < s.len() ==> (#[trigger] s[i].1).val_wf()
}

/// The map an entry sequence denotes; with unique keys, the order of the
/// entries does not matter.
pub open spec fn map_of<V: View>(s: Seq<(String, V)>) -> Map<Seq<char>, V::V>
    decreases s.len(),
{
    if s.len() == 0 {
        Map::empty()
    } else {
        map_of(s.drop_last()).insert(s.last().0@, s.last().1@)
    }
}

/// A finite mapping from string keys to values, stored as a vector of
/// entries with pairwise-distinct keys.
#[derive(Debug, Clone, PartialEq, Eq)]
pub struct AList<V> {
    entries: Vec<(String, V)>,
}

impl<V: View + ValWf> View for AList<V> {
    type V = Map<Seq<char>, V::V>;

    closed spec fn view(&self) -> Map<Seq<char>, V::V> {
        map_of(self.entries@)
    }
}

proof fn lemma_map_of_facts<V: View>(s: Seq<(String, V)>)
    requires
        unique_keys(s),
    ensures
        forall|k: Seq<char>|
            #[trigger] map_of(s).contains_key(k) ==> exists|i: int|
                0 <= i < s.len() && s[i].0@ == k,
        forall|i: int|
            0 <= i < s.len() ==> map_of(s).contains_key(#[trigger] s[i].0@) && map_of(s)[s[i].0@]
                == s[i].1@,
        map_of(s).dom().finite(),
        map_of(s).dom().len() == s.len(),
    decreases s.len(),
{
    if s.len() > 0 {
        let dl = s.drop_last();
        let n = s.len() - 1;
        assert(forall|i: int| 0 <= i < n ==> #[trigger] dl[i] == s[i]);
        lemma_map_of_facts(dl);
        assert(!map_of(dl).contains_key(s[n].0@)) by {
            if map_of(dl).contains_key(s[n].0@) {
                let i = choose|i: int| 0 <= i < dl.len() && dl[i].0@ == s[n].0@;
                assert(s[i].0@ != s[n].0@);
            }
        }
        assert forall|i: int| 0 <= i < s.len() implies map_of(s).contains_key(
            #[trigger] s[i].0@,
        ) && map_of(s)[s[i].0@] == s[i].1@ by {
            if i < n {
                assert(dl[i] == s[i]);
                assert(map_of(dl).contains_key(dl[i].0@) && map_of(dl)[dl[i].0@] == dl[i].1@);
                assert(s[i].0@ != s[n].0@);
            }
        }
        assert forall|k: Seq<char>| #[trigger] map_of(s).contains_key(k) implies exists|i: int|
            0 <= i < s.len() && s[i].0@ == k by {
            if k != s[n].0@ {
                let i = choose|i: int| 0 <= i < dl.len() && dl[i].0@ == k;
                assert(s[i].0@ == k);
            } else {
                assert(s[n as int].0@ == k);
            }
        }
    }
}

proof fn lemma_map_of_remove<V: View>(s: Seq<(String, V)>, i: int)
    requires
        unique_keys(s),
        0 <= i < s.len(),
    ensures
        unique_keys(s.remove(i)),
        map_of(s.remove(i)) == map_of(s).remove(s[i].0@),
        forall|j: int|
            0 <= j < s.len() - 1 ==> #[trigger] s.remove(i)[j] == if j < i {
                s[j]
            } else {
                s[j + 1]
            },
    decreases s.len(),
{
    let t = s.remove(i);
    assert(forall|j: int|
        0 <= j < t.len() ==> #[trigger] t[j] == if j < i {
            s[j]
        } else {
            s[j + 1]
        });
    lemma_map_of_facts(s);
    let n = s.len() - 1;
    if i == n {
        assert(t =~= s.drop_last());
        lemma_map_of_facts(t);
        assert(!map_of(t).contains_key(s[n].0@)) by {
            if map_of(t).contains_key(s[n].0@) {
                let j = choose|j: int| 0 <= j < t.len() && t[j].0@ == s[n].0@;
                assert(s[j].0@ != s[n].0@);
            }
        }
        assert(map_of(t) =~= map_of(s).remove(s[i].0@));
    } else {
        let dl = s.drop_last();
        assert(forall|j: int| 0 <= j < n ==> #[trigger] dl[j] == s[j]);
        lemma_map_of_remove(dl, i);
        assert(t.drop_last() =~= dl.remove(i));
        assert(t.last() == s.last());
        assert(map_of(t) == map_of(dl).remove(s[i].0@).insert(s[n].0@, s[n].1@));
        assert(s[i].0@ != s[n].0@);
        assert(map_of(dl).remove(s[i].0@).insert(s[n].0@, s[n].1@) =~= map_of(dl).insert(
            s[n].0@,
            s[n].1@,
        ).remove(s[i].0@));
    }
}

impl<V: View + ValWf> AList<V> {
    /// Keys are pairwise distinct and every value is well formed.
    pub closed spec fn wf(&self) -> bool {
        unique_keys(self.entries@) && values_wf(self.entries@)
    }

    /// The number of entries; equals the cardinality of the view's domain.
    pub closed spec fn count(&self) -> nat {
        self.entries@.len()
    }

    /// An empty mapping.
    pub fn new() -> (r: Self)
        ensures
            r.wf(),
            r@ == Map::<Seq<char>, V::V>::empty(),
            r.count() == 0,
    {
        AList { entries: Vec::new() }
    }

    /// The value stored under `key`, if any.
    pub fn get(&self, key: &str) -> (r: Option<&V>)
        requires
            self.wf(),
        ensures
            match r {
                Some(v) => self@.contains_key(key@) && v@ == self@[key@] && v.val_wf(),
                None => !self@.contains_key(key@),
            },
    {
        proof {
            lemma_map_of_facts(self.entries@);
        }
        let n = self.entries.len();
        let mut idx: usize = 0;
        while idx < n
            invariant
                n == self.entries@.len(),
                idx <= n,
                self.wf(),
                forall|j: int| 0 <= j < idx ==> self.entries@[j].0@ != key@,
            decreases n - idx,
        {
            let e = &self.entries[idx];
            if crate::str_eq(e.0.as_str(), key) {
                proof {
                    lemma_map_of_facts(self.entries@);
                }
                return Some(&e.1);
            }
            idx = idx + 1;
        }
        proof {
            lemma_map_of_facts(self.entries@);
            if self@.contains_key(key@) {
                let i = choose|i: int|
                    0 <= i < self.entries@.len() && self.entries@[i].0@ == key@;
                assert(self.entries@[i].0@ != key@);
            }
        }
        None
    }

    /// Binds `key` to `value`, replacing any previous binding.
    pub fn set(&mut self, key: String, value: V)
        requires
            old(self).wf(),
            value.val_wf(),
        ensures
            final(self).wf(),
            final(self)@ == old(self)@.insert(key@, value@),
            final(self).count() <= old(self).count() + 1,
    {
        proof {
            lemma_map_of_facts(self.entries@);
        }
        let n = self.entries.len();
        let mut idx: usize = 0;
        while idx < n
            invariant
                n == self.entries@.len(),
                idx <= n,
                self.wf(),
                self.entries@ == old(self).entries@,
                value.val_wf(),
                forall|j: int| 0 <= j < idx ==> self.entries@[j].0@ != key@,
            decreases n - idx,
        {
            let e = &self.entries[idx];
            if crate::str_eq(e.0.as_str(), key.as_str()) {
                let ghost pre = self.entries@;
                proof {
                    lemma_map_of_remove(pre, idx as int);
                }
                self.entries.remove(idx);
                let ghost t = self.entries@;
                proof {
                    assert(t == pre.remove(idx as int));
                    assert(map_of(t) == map_of(pre).remove(key@));
                    assert forall|j: int| 0 <= j < t.len() implies (#[trigger] t[j]).1.val_wf()
                        && t[j].0@ != key@ by {
                        if j < idx as int {
                            assert(t[j] == pre[j]);
                            assert(pre[j].1.val_wf());
                            assert(pre[j].0@ != pre[idx as int].0@);
                        } else {
                            assert(t[j] == pre[j + 1]);
                            assert(pre[j + 1].1.val_wf());
                            assert(pre[idx as int].0@ != pre[j + 1].0@);
                        }
                    }
                }
                let ghost pushed = (key, value);
                self.entries.push((key, value));
                proof {
                    assert(self.entries@ == t.push(pushed));
                    assert(self.entries@.drop_last() =~= t);
                    assert forall|a: int, b: int|
                        0 <= a < b < self.entries@.len() implies self.entries@[a].0@
                        != self.entries@[b].0@ by {
                        assert(self.entries@[a] == t[a]);
                        if b < t.len() {
                            assert(self.entries@[b] == t[b]);
                        } else {
                            assert(self.entries@[b].0@ == key@);
                        }
                    }
                    assert forall|j: int|
                        0 <= j < self.entries@.len() implies (#[trigger] self.entries@[j]).1.val_wf() by {
                        if j < t.len() {
                            assert(self.entries@[j] == t[j]);
                        } else {
                            assert(self.entries@[j] == pushed);
                            assert(pushed.1 == value);
                            assert(value.val_wf());
                        }
                    }
                    assert(map_of(self.entries@) == map_of(t).insert(key@, value@));
                    assert(self@ =~= old(self)@.insert(key@, value@));
                }
                return ;
            }
            idx = idx + 1;
        }
        let ghost pushed = (key, value);
        self.entries.push((key, value));
        proof {
            let pre = old(self).entries@;
            assert(self.entries@ == pre.push(pushed));
            assert(self.entries@.drop_last() =~= pre);
            assert forall|a: int, b: int|
                0 <= a < b < self.entries@.len() implies self.entries@[a].0@
                != self.entries@[b].0@ by {
                assert(self.entries@[a] == pre[a]);
                if b < pre.len() {
                    assert(self.entries@[b] == pre[b]);
                } else {
                    assert(self.entries@[b].0@ == key@);
                }
            }
            assert forall|j: int|
                0 <= j < self.entries@.len() implies (#[trigger] self.entries@[j]).1.val_wf() by {
                if j < pre.len() {
                    assert(self.entries@[j] == pre[j]);
                    assert(pre[j].1.val_wf());
                } else {
                    assert(self.entries@[j] == pushed);
                    assert(pushed.1 == value);
                    assert(value.val_wf());
                }
            }
            assert(self@ =~= old(self)@.insert(key@, value@));
        }
    }

    /// Removes and returns the value bound to `key`, if any.
    pub fn take(&mut self, key: &str) -> (r: Option<V>)
        requires
            old(self).wf(),
        ensures
            final(self).wf(),
            match r {
                Some(v) => old(self)@.contains_key(key@) && v@ == old(self)@[key@] && v.val_wf()
                    && final(self)@ == old(self)@.remove(key@),
                None => !old(self)@.contains_key(key@) && final(self)@ == old(self)@
                    && final(self).count() == old(self).count(),
            },
    {
        proof {
            lemma_map_of_facts(self.entries@);
        }
        let n = self.entries.len();
        let mut idx: usize = 0;
        while idx < n
            invariant
                n == self.entries@.len(),
                idx <= n,
                self.wf(),
                self.entries@ == old(self).entries@,
                forall|j: int| 0 <= j < idx ==> self.entries@[j].0@ != key@,
            decreases n - idx,
        {
            let e = &self.entries[idx];
            if crate::str_eq(e.0.as_str(), key) {
                let ghost pre = self.entries@;
                proof {
                    lemma_map_of_facts(pre);
                    lemma_map_of_remove(pre, idx as int);
                    assert(pre[idx as int].1.val_wf());
                }
                let kv = self.entries.remove(idx);
                proof {
                    let t = self.entries@;
                    assert(t == pre.remove(idx as int));
                    assert forall|j: int|
                        0 <= j < t.len() implies (#[trigger] t[j]).1.val_wf() by {
                        if j < idx as int {
                            assert(t[j] == pre[j]);
                            assert(pre[j].1.val_wf());
                        } else {
                            assert(t[j] == pre[j + 1]);
                            assert(pre[j + 1].1.val_wf());
                        }
                    }
                }
                return Some(kv.1);
            }
            idx = idx + 1;
        }
        proof {
            lemma_map_of_facts(self.entries@);
            if self@.contains_key(key@) {
                let i = choose|i: int|
                    0 <= i < self.entries@.len() && self.entries@[i].0@ == key@;
                assert(self.entries@[i].0@ != key@);
            }
        }
        None
    }

    /// Removes and returns some entry, or reports the mapping empty. Draining
    /// a mapping entry by entry terminates because `count` falls each time.
    pub fn pop_entry(&mut self) -> (r: Option<(String, V)>)
        requires
            old(self).wf(),
        ensures
            final(self).wf(),
            match r {
                Some(kv) => old(self)@.contains_key(kv.0@) && kv.1@ == old(self)@[kv.0@]
                    && kv.1.val_wf() && final(self)@ == old(self)@.remove(kv.0@)
                    && final(self).count() == old(self).count() - 1,
                None => final(self)@ == old(self)@ && old(self)@ == Map::<Seq<char>,
                    V::V>::empty() && final(self).count() == old(self).count() && old(
                    self,
                ).count() == 0,
            },
    {
        proof {
            lemma_map_of_facts(self.entries@);
        }
        let r = self.entries.pop();
        match r {
            Some(kv) => {
                proof {
                    let pre = old(self).entries@;
                    let n = pre.len() - 1;
                    assert(self.entries@ =~= pre.drop_last());
                    lemma_map_of_remove(pre, n);
                    assert(pre.remove(n) =~= pre.drop_last());
                    assert(pre[n].1.val_wf());
                    let t = self.entries@;
                    assert forall|j: int|
                        0 <= j < t.len() implies (#[trigger] t[j]).1.val_wf() by {
                        assert(t[j] == pre[j]);
                        assert(pre[j].1.val_wf());
                    }
                }
                Some(kv)
            },
            None => None,
        }
    }

    /// The number of stored entries.
    pub fn len(&self) -> (r: usize)
        requires
            self.wf(),
        ensures
            r == self@.dom().len(),
            r == self.count(),
    {
        proof {
            lemma_map_of_facts(self.entries@);
        }
        self.entries.len()
    }
}

} // verus!
