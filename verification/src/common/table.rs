use vstd::prelude::*;
use crate::common::ids::KeyEq;

verus! {

/// The map that a sequence of entries describes; a later entry for a key wins.
pub open spec fn entries_map<K: View, V>(s: Seq<(K, V)>) -> Map<K::V, V>
    decreases s.len(),
{
    if s.len() == 0 {
        Map::empty()
    } else {
        entries_map(s.drop_last()).insert(s.last().0@, s.last().1)
    }
}

/// No two entries share a key.
pub open spec fn unique_keys<K: View, V>(s: Seq<(K, V)>) -> bool {
    forall|i: int, j: int| 0 <= i < s.len() && 0 <= j < s.len() && i != j ==> s[i].0@ != s[j].0@
}

proof fn lemma_absent<K: View, V>(s: Seq<(K, V)>, k: K::V)
    requires
        forall|i: int| 0 <= i < s.len() ==> s[i].0@ != k,
    ensures
        !entries_map(s).contains_key(k),
    decreases s.len(),
{
    if s.len() > 0 {
        lemma_absent(s.drop_last(), k);
    }
}

proof fn lemma_present<K: View, V>(s: Seq<(K, V)>, i: int)
    requires
        unique_keys(s),
        0 <= i < s.len(),
    ensures
        entries_map(s).contains_key(s[i].0@),
        entries_map(s)[s[i].0@] == s[i].1,
    decreases s.len(),
{
    if i < s.len() - 1 {
        lemma_present(s.drop_last(), i);
    }
}

proof fn lemma_update<K: View, V>(s: Seq<(K, V)>, i: int, kv: (K, V))
    requires
        unique_keys(s),
        0 <= i < s.len(),
        kv.0@ == s[i].0@,
    ensures
        unique_keys(s.update(i, kv)),
        entries_map(s.update(i, kv)) =~= entries_map(s).insert(kv.0@, kv.1),
    decreases s.len(),
{
    let t = s.update(i, kv);
    if i == s.len() - 1 {
        assert(t.drop_last() =~= s.drop_last());
        lemma_absent(s.drop_last(), kv.0@);
    } else {
        lemma_update(s.drop_last(), i, kv);
        assert(t.drop_last() =~= s.drop_last().update(i, kv));
    }
}

proof fn lemma_remove<K: View, V>(s: Seq<(K, V)>, i: int)
    requires
        unique_keys(s),
        0 <= i < s.len(),
    ensures
        unique_keys(s.remove(i)),
        entries_map(s.remove(i)) =~= entries_map(s).remove(s[i].0@),
    decreases s.len(),
{
    let t = s.remove(i);
    if i == s.len() - 1 {
        assert(t =~= s.drop_last());
        lemma_absent(s.drop_last(), s[i].0@);
    } else {
        lemma_remove(s.drop_last(), i);
        assert(t.drop_last() =~= s.drop_last().remove(i));
        assert(t.last() == s.last());
    }
}

/// A finite map kept as a vector of entries with distinct keys.
pub struct Table<K: KeyEq, V> {
    entries: Vec<(K, V)>,
}

impl<K: KeyEq, V> View for Table<K, V> {
    type V = Map<K::V, V>;

    closed spec fn view(&self) -> Map<K::V, V> {
        entries_map(self.entries@)
    }
}

impl<K: KeyEq, V> Table<K, V> {
    #[verifier::type_invariant]
    closed spec fn inv(self) -> bool {
        unique_keys(self.entries@)
    }

    /// A table holds finitely many keys.
    pub proof fn lemma_dom_finite(&self)
        ensures
            self@.dom().finite(),
    {
        lemma_entries_finite(self.entries@);
    }

    /// An empty table.
    pub fn new() -> (r: Self)
        ensures
            r@ == Map::<K::V, V>::empty(),
    {
        Table { entries: Vec::new() }
    }

    /// Number of keys.
    pub fn len(&self) -> (r: usize)
        ensures
            r == self@.len(),
    {
        proof {
            use_type_invariant(self);
            self.lemma_len();
        }
        self.entries.len()
    }

    proof fn lemma_len(&self)
        requires
            unique_keys(self.entries@),
        ensures
            self@.dom().finite(),
            self@.len() == self.entries@.len(),
    {
        lemma_len_seq(self.entries@);
    }

    fn find(&self, k: &K) -> (r: Option<usize>)
        ensures
            match r {
                Some(i) => i < self.entries@.len() && self.entries@[i as int].0@ == k@,
                None => forall|j: int| 0 <= j < self.entries@.len() ==> self.entries@[j].0@ != k@,
            },
    {
        let mut i: usize = 0;
        while i < self.entries.len()
            invariant
                0 <= i <= self.entries@.len(),
                forall|j: int| 0 <= j < i ==> self.entries@[j].0@ != k@,
            decreases self.entries@.len() - i,
        {
            if self.entries[i].0.key_eq(k) {
                return Some(i);
            }
            i = i + 1;
        }
        None
    }

    /// The keys, each once, in the order they are kept.
    pub fn keys(&self) -> (r: Vec<K>)
        where K: Copy,
        ensures
            r@.len() == self@.len(),
            forall|i: int| 0 <= i < r@.len() ==> self@.contains_key(#[trigger] r@[i]@),
            forall|k: K::V| self@.contains_key(k) ==> exists|i: int| 0 <= i < r@.len() && #[trigger] r@[i]@ == k,
            forall|i: int, j: int| 0 <= i < j < r@.len() ==> r@[i]@ != r@[j]@,
    {
        proof {
            use_type_invariant(self);
            lemma_len_seq(self.entries@);
        }
        let mut out: Vec<K> = Vec::new();
        let mut i: usize = 0;
        while i < self.entries.len()
            invariant
                0 <= i <= self.entries@.len(),
                unique_keys(self.entries@),
                out@.len() == i,
                forall|t: int| 0 <= t < i ==> #[trigger] out@[t] == self.entries@[t].0,
            decreases self.entries@.len() - i,
        {
            out.push(self.entries[i].0);
            i = i + 1;
        }
        proof {
            assert forall|t: int| 0 <= t < out@.len() implies self@.contains_key(#[trigger] out@[t]@) by {
                lemma_present(self.entries@, t);
            }
            assert forall|k: K::V| self@.contains_key(k) implies exists|t: int| 0 <= t < out@.len() && #[trigger] out@[t]@ == k by {
                if forall|t: int| 0 <= t < self.entries@.len() ==> self.entries@[t].0@ != k {
                    lemma_absent(self.entries@, k);
                }
                let t = choose|t: int| 0 <= t < self.entries@.len() && self.entries@[t].0@ == k;
                assert(out@[t] == self.entries@[t].0);
            }
        }
        out
    }

    /// Whether the key is present.
    pub fn contains_key(&self, k: &K) -> (r: bool)
        ensures
            r == self@.contains_key(k@),
    {
        proof {
            use_type_invariant(self);
        }
        match self.find(k) {
            Some(i) => {
                proof {
                    lemma_present(self.entries@, i as int);
                }
                true
            },
            None => {
                proof {
                    lemma_absent(self.entries@, k@);
                }
                false
            },
        }
    }

    /// The value stored under a key.
    pub fn get(&self, k: &K) -> (r: Option<&V>)
        ensures
            match r {
                Some(v) => self@.contains_key(k@) && *v == self@[k@],
                None => !self@.contains_key(k@),
            },
    {
        proof {
            use_type_invariant(self);
        }
        match self.find(k) {
            Some(i) => {
                proof {
                    lemma_present(self.entries@, i as int);
                }
                Some(&self.entries[i].1)
            },
            None => {
                proof {
                    lemma_absent(self.entries@, k@);
                }
                None
            },
        }
    }

    /// Stores a value under a key, replacing any previous value.
    pub fn set(&mut self, k: K, v: V)
        ensures
            final(self)@ == old(self)@.insert(k@, v),
    {
        proof {
            use_type_invariant(&*self);
        }
        let mut entries = Vec::new();
        std::mem::swap(&mut entries, &mut self.entries);
        let ghost s = entries@;
        match self_find(&entries, &k) {
            Some(i) => {
                proof {
                    lemma_update(s, i as int, (k, v));
                }
                entries.set(i, (k, v));
            },
            None => {
                proof {
                    assert(entries@.push((k, v)).drop_last() =~= s);
                    assert(unique_keys(s.push((k, v))));
                }
                entries.push((k, v));
            },
        }
        self.entries = entries;
    }

    /// Removes a key and hands back its value.
    pub fn remove(&mut self, k: &K) -> (r: Option<V>)
        ensures
            final(self)@ == old(self)@.remove(k@),
            match r {
                Some(v) => old(self)@.contains_key(k@) && v == old(self)@[k@],
                None => !old(self)@.contains_key(k@) && *final(self) == *old(self),
            },
    {
        proof {
            use_type_invariant(&*self);
        }
        let mut entries = Vec::new();
        std::mem::swap(&mut entries, &mut self.entries);
        let ghost s = entries@;
        match self_find(&entries, k) {
            Some(i) => {
                proof {
                    lemma_present(s, i as int);
                    lemma_remove(s, i as int);
                }
                let (_, v) = entries.remove(i);
                self.entries = entries;
                Some(v)
            },
            None => {
                proof {
                    lemma_absent(s, k@);
                    assert(entries_map(s).remove(k@) =~= entries_map(s));
                }
                self.entries = entries;
                None
            },
        }
    }
}

fn self_find<K: KeyEq, V>(entries: &Vec<(K, V)>, k: &K) -> (r: Option<usize>)
    ensures
        match r {
            Some(i) => i < entries@.len() && entries@[i as int].0@ == k@,
            None => forall|j: int| 0 <= j < entries@.len() ==> entries@[j].0@ != k@,
        },
{
    let mut i: usize = 0;
    while i < entries.len()
        invariant
            0 <= i <= entries@.len(),
            forall|j: int| 0 <= j < i ==> entries@[j].0@ != k@,
        decreases entries@.len() - i,
    {
        if entries[i].0.key_eq(k) {
            return Some(i);
        }
        i = i + 1;
    }
    None
}

proof fn lemma_entries_finite<K: View, V>(s: Seq<(K, V)>)
    ensures
        entries_map(s).dom().finite(),
    decreases s.len(),
{
    if s.len() > 0 {
        lemma_entries_finite(s.drop_last());
    }
}

proof fn lemma_len_seq<K: View, V>(s: Seq<(K, V)>)
    requires
        unique_keys(s),
    ensures
        entries_map(s).dom().finite(),
        entries_map(s).len() == s.len(),
    decreases s.len(),
{
    if s.len() > 0 {
        let p = s.drop_last();
        assert(unique_keys(p));
        lemma_len_seq(p);
        lemma_absent(p, s.last().0@);
    }
}

} // verus!
