use vstd::prelude::*;

verus! {

/// A mapping from text keys to values, kept as a list of entries.
///
/// The list may name a key more than once; the entry that stands last is the
/// one the mapping holds for that key.
#[derive(Debug)]
pub struct Hash<V> {
    pub values: Vec<(String, V)>,
}

/// The mapping that a list of entries stands for: later entries override
/// earlier ones with the same key.
pub open spec fn entries_map<V>(s: Seq<(String, V)>) -> Map<Seq<char>, V>
    decreases s.len(),
{
    if s.len() == 0 {
        Map::empty()
    } else {
        entries_map(s.drop_last()).insert(s.last().0@, s.last().1)
    }
}

/// No key is named by two entries of the list.
pub open spec fn keys_distinct<V>(s: Seq<(String, V)>) -> bool {
    forall|i: int, j: int| 0 <= i < j < s.len() ==> (#[trigger] s[i]).0@ != (#[trigger] s[j]).0@
}

/// Whether some entry of the list has the given key.
pub open spec fn names_key<V>(s: Seq<(String, V)>, key: Seq<char>) -> bool {
    exists|j: int| 0 <= j < s.len() && (#[trigger] s[j]).0@ == key
}

/// A key is in the mapping exactly when an entry names it.
pub proof fn lemma_entries_domain<V>(s: Seq<(String, V)>, key: Seq<char>)
    ensures
        entries_map(s).contains_key(key) <==> names_key(s, key),
    decreases s.len(),
{
    if s.len() > 0 {
        let t = s.drop_last();
        lemma_entries_domain(t, key);
        if names_key(t, key) {
            let j = choose|j: int| 0 <= j < t.len() && (#[trigger] t[j]).0@ == key;
            assert(s[j].0@ == key);
        }
        if names_key(s, key) {
            let j = choose|j: int| 0 <= j < s.len() && (#[trigger] s[j]).0@ == key;
            if j < t.len() {
                assert(t[j].0@ == key);
            }
        }
    }
}

/// The mapping holds, for a key, the value of the last entry that names it.
pub proof fn lemma_entries_last_wins<V>(s: Seq<(String, V)>, i: int)
    requires
        0 <= i < s.len(),
        forall|j: int| i < j < s.len() ==> (#[trigger] s[j]).0@ != s[i].0@,
    ensures
        entries_map(s).contains_key(s[i].0@),
        entries_map(s)[s[i].0@] == s[i].1,
    decreases s.len(),
{
    if i < s.len() - 1 {
        let t = s.drop_last();
        assert(t[i] == s[i]);
        assert forall|j: int| i < j < t.len() implies (#[trigger] t[j]).0@ != t[i].0@ by {
            assert(t[j] == s[j]);
        }
        lemma_entries_last_wins(t, i);
        assert(s[s.len() - 1].0@ != s[i].0@);
    }
}

/// Taking out one entry with key `key` changes nothing for the other keys.
pub proof fn lemma_entries_without<V>(s: Seq<(String, V)>, i: int, key: Seq<char>)
    requires
        0 <= i < s.len(),
        s[i].0@ == key,
    ensures
        entries_map(s.remove(i)).remove(key) == entries_map(s).remove(key),
    decreases s.len(),
{
    if i == s.len() - 1 {
        assert(s.remove(i) =~= s.drop_last());
        assert(entries_map(s.remove(i)).remove(key) =~= entries_map(s).remove(key));
    } else {
        let t = s.drop_last();
        let r = s.remove(i);
        assert(t[i] == s[i]);
        lemma_entries_without(t, i, key);
        assert(r.drop_last() =~= t.remove(i));
        assert(r.last() == s.last());
        let a = entries_map(t.remove(i));
        let b = entries_map(t);
        assert(entries_map(r) == a.insert(s.last().0@, s.last().1));
        assert(entries_map(s) == b.insert(s.last().0@, s.last().1));
        let lk = s.last().0@;
        let lv = s.last().1;
        let m1 = entries_map(r).remove(key);
        let m2 = entries_map(s).remove(key);
        assert(a.remove(key) == b.remove(key));
        assert forall|x: Seq<char>|
            (#[trigger] m1.contains_key(x)) == m2.contains_key(x) && (m1.contains_key(x) ==> m1[x]
                == m2[x]) by {
            if x != key {
                assert(a.remove(key).contains_key(x) == a.contains_key(x));
                assert(b.remove(key).contains_key(x) == b.contains_key(x));
                assert(a.remove(key)[x] == a[x]);
                assert(b.remove(key)[x] == b[x]);
                if x == lk {
                    assert(m1[x] == lv);
                    assert(m2[x] == lv);
                } else {
                    assert(m1.contains_key(x) == a.contains_key(x));
                    assert(m2.contains_key(x) == b.contains_key(x));
                }
            }
        }
        assert(m1 =~= m2);
    }
}

impl<V> View for Hash<V> {
    type V = Map<Seq<char>, V>;

    open spec fn view(&self) -> Map<Seq<char>, V> {
        entries_map(self.values@)
    }
}

impl<V> Hash<V> {
    /// Each key is named by one entry only.
    pub open spec fn has_distinct_keys(&self) -> bool {
        keys_distinct(self.values@)
    }

    pub fn new(values: Vec<(String, V)>) -> (r: Self)
        ensures
            r.values == values,
    {
        Self { values }
    }

    /// The mapping without entries.
    pub fn empty() -> (r: Self)
        ensures
            r.values@ == Seq::<(String, V)>::empty(),
            r@ == Map::<Seq<char>, V>::empty(),
            r.has_distinct_keys(),
    {
        Self { values: Vec::new() }
    }

    pub fn get(&self, key: &String) -> (r: Option<&V>)
        ensures
            match r {
                Some(v) => self@.contains_key(key@) && self@[key@] == *v,
                None => !self@.contains_key(key@),
            },
    {
        let mut i: usize = self.values.len();
        while i > 0
            invariant
                i <= self.values.len(),
                forall|j: int| i <= j < self.values.len() ==> (#[trigger] self.values@[j]).0@ != key@,
            decreases i,
        {
            i = i - 1;
            if self.values[i].0 == *key {
                proof {
                    lemma_entries_last_wins(self.values@, i as int);
                }
                return Some(&self.values[i].1);
            }
        }
        proof {
            lemma_entries_domain(self.values@, key@);
        }
        None
    }

    pub fn get_or_default(&self, key: &String) -> (r: V) where V: Clone + Default
        ensures
            self@.contains_key(key@) ==> cloned(self@[key@], r),
            !self@.contains_key(key@) ==> call_ensures(V::default, (), r),
    {
        match self.get(key) {
            Some(v) => v.clone(),
            None => V::default(),
        }
    }

    /// Sets the value of `key`, replacing every entry that named it.
    pub fn insert(&mut self, key: String, value: V)
        ensures
            final(self)@ == old(self)@.insert(key@, value),
            old(self).has_distinct_keys() ==> final(self).has_distinct_keys(),
    {
        let mut i: usize = 0;
        while i < self.values.len()
            invariant
                i <= self.values.len(),
                forall|j: int| 0 <= j < i ==> (#[trigger] self.values@[j]).0@ != key@,
                entries_map(self.values@).remove(key@) == old(self)@.remove(key@),
                old(self).has_distinct_keys() ==> keys_distinct(self.values@),
            decreases self.values.len() - i,
        {
            if self.values[i].0 == key {
                proof {
                    lemma_entries_without(self.values@, i as int, key@);
                }
                let ghost before = self.values@;
                let _ = self.values.remove(i);
                assert forall|j: int| 0 <= j < i implies (#[trigger] self.values@[j]).0@ != key@ by {
                    assert(self.values@[j] == before[j]);
                }
                assert(keys_distinct(before) ==> keys_distinct(self.values@)) by {
                    if keys_distinct(before) {
                        assert forall|a: int, b: int| 0 <= a < b < self.values@.len() implies (
                        #[trigger] self.values@[a]).0@ != (#[trigger] self.values@[b]).0@ by {
                            let a0 = if a < i { a } else { a + 1 };
                            let b0 = if b < i { b } else { b + 1 };
                            assert(self.values@[a] == before[a0]);
                            assert(self.values@[b] == before[b0]);
                        }
                    }
                }
            } else {
                i = i + 1;
            }
        }
        let ghost kept = self.values@;
        self.values.push((key, value));
        proof {
            assert(self.values@.drop_last() =~= kept);
            assert(entries_map(self.values@) =~= old(self)@.insert(key@, value)) by {
                assert(entries_map(kept).remove(key@) == old(self)@.remove(key@));
                lemma_entries_domain(kept, key@);
                assert(!names_key(kept, key@)) by {
                    if names_key(kept, key@) {
                        let j = choose|j: int| 0 <= j < kept.len() && (#[trigger] kept[j]).0@ == key@;
                        assert(kept[j].0@ != key@);
                    }
                }
                assert(entries_map(kept).remove(key@) =~= entries_map(kept));
            }
            if keys_distinct(kept) {
                assert forall|a: int, b: int| 0 <= a < b < self.values@.len() implies (
                #[trigger] self.values@[a]).0@ != (#[trigger] self.values@[b]).0@ by {
                    assert(self.values@[a] == kept[a]);
                    if b < kept.len() {
                        assert(self.values@[b] == kept[b]);
                    }
                }
            }
        }
    }
}

} // verus!
