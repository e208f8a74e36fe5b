use vstd::prelude::*;
use crate::common::ids::{vec_contains, KeyEq};
use crate::common::table::Table;

verus! {

/// The list stored under a key, or the empty list when the key is absent.
pub open spec fn list_at<K, T>(m: Map<K, Vec<T>>, k: K) -> Seq<T> {
    if m.contains_key(k) {
        m[k]@
    } else {
        Seq::empty()
    }
}

/// `new` is `old` with `x` appended to the list under `k`, every other key untouched.
pub open spec fn list_pushed<K, T>(old: Map<K, Vec<T>>, new: Map<K, Vec<T>>, k: K, x: T) -> bool {
    &&& new.dom() == old.dom().insert(k)
    &&& new[k]@ == list_at(old, k).push(x)
    &&& forall|k2: K| k2 != k && old.contains_key(k2) ==> new[k2] == old[k2]
}

/// `new` is `old` with the list under `k` replaced by `s`, every other key untouched.
pub open spec fn list_replaced<K, T>(old: Map<K, Vec<T>>, new: Map<K, Vec<T>>, k: K, s: Seq<T>) -> bool {
    &&& new.dom() == old.dom().insert(k)
    &&& new[k]@ == s
    &&& forall|k2: K| k2 != k && old.contains_key(k2) ==> new[k2] == old[k2]
}

/// Appends `x` to the list kept under `k`, creating the list when absent.
pub fn push_to_list<K: KeyEq, T>(t: &mut Table<K, Vec<T>>, k: K, x: T)
    ensures
        list_pushed(old(t)@, final(t)@, k@, x),
{
    let ghost kv = k@;
    let mut list = match t.remove(&k) {
        Some(v) => v,
        None => Vec::new(),
    };
    list.push(x);
    t.set(k, list);
    proof {
        assert(final(t)@.dom() =~= old(t)@.dom().insert(kv));
    }
}

/// Whether `x` occurs in `s`, by view.
pub open spec fn seq_has<T: View>(s: Seq<T>, x: T::V) -> bool {
    exists|i: int| 0 <= i < s.len() && #[trigger] s[i]@ == x
}

/// The lists of a table, by their contents.
pub open spec fn lists_view<K, T>(m: Map<K, Vec<T>>) -> Map<K, Seq<T>> {
    m.map_values(|v: Vec<T>| v@)
}

/// `m` with `x` appended to the list under `k` unless an equal item is there already.
pub open spec fn with_once<K, T: View>(m: Map<K, Seq<T>>, k: K, x: T) -> Map<K, Seq<T>> {
    let l = if m.contains_key(k) { m[k] } else { Seq::empty() };
    if seq_has(l, x@) { m } else { m.insert(k, l.push(x)) }
}

/// What `push_unique` does, read on the lists' contents.
pub proof fn lemma_with_once<K, T: View>(old: Map<K, Vec<T>>, new: Map<K, Vec<T>>, k: K, x: T)
    requires
        seq_has(list_at(old, k), x@) ==> new == old,
        !seq_has(list_at(old, k), x@) ==> list_pushed(old, new, k, x),
    ensures
        lists_view(new) == with_once(lists_view(old), k, x),
{
    let lo = if lists_view(old).contains_key(k) { lists_view(old)[k] } else { Seq::<T>::empty() };
    assert(lo == list_at(old, k));
    if !seq_has(list_at(old, k), x@) {
        assert(lists_view(new) =~= lists_view(old).insert(k, lo.push(x)));
    }
}

/// `m` with `x` appended to the list under each key of `ks` in turn, once per occurrence.
pub open spec fn pushed_under_each<K: View, T>(m: Map<K::V, Seq<T>>, ks: Seq<K>, x: T) -> Map<K::V, Seq<T>>
    decreases ks.len(),
{
    if ks.len() == 0 {
        m
    } else {
        let r = pushed_under_each(m, ks.drop_last(), x);
        let k = ks.last()@;
        let l = if r.contains_key(k) { r[k] } else { Seq::empty() };
        r.insert(k, l.push(x))
    }
}

/// What `push_to_list` does, read on the lists' contents.
pub proof fn lemma_pushed_view<K, T>(old: Map<K, Vec<T>>, new: Map<K, Vec<T>>, k: K, x: T)
    requires
        list_pushed(old, new, k, x),
    ensures
        lists_view(new) == ({
            let lo = lists_view(old);
            let l = if lo.contains_key(k) { lo[k] } else { Seq::empty() };
            lo.insert(k, l.push(x))
        }),
{
    let lo = lists_view(old);
    let l = if lo.contains_key(k) { lo[k] } else { Seq::<T>::empty() };
    assert(l == list_at(old, k));
    assert(lists_view(new) =~= lo.insert(k, l.push(x)));
}

/// Appends `x` to the list kept under `k` unless an equal item is already there;
/// the table is left untouched in that case.
pub fn push_unique<K: KeyEq, T: KeyEq>(t: &mut Table<K, Vec<T>>, k: K, x: T)
    ensures
        seq_has(list_at(old(t)@, k@), x@) ==> final(t)@ == old(t)@,
        !seq_has(list_at(old(t)@, k@), x@) ==> list_pushed(old(t)@, final(t)@, k@, x),
        lists_view(final(t)@) == with_once(lists_view(old(t)@), k@, x),
{
    let present = match t.get(&k) {
        Some(v) => vec_contains(v, &x),
        None => false,
    };
    let ghost kv = k@;
    if present {
        proof {
            lemma_with_once(old(t)@, t@, kv, x);
        }
        return;
    }
    push_to_list(t, k, x);
    proof {
        lemma_with_once(old(t)@, t@, kv, x);
    }
}

/// `s` without its first item whose view is `x`; `s` itself when there is none.
pub open spec fn drop_first<T: View>(s: Seq<T>, x: T::V) -> Seq<T>
    decreases s.len(),
{
    if s.len() == 0 {
        s
    } else if s[0]@ == x {
        s.subrange(1, s.len() as int)
    } else {
        seq![s[0]] + drop_first(s.subrange(1, s.len() as int), x)
    }
}

/// `m` with the first item whose view is `x` removed from the list under `k`, if any.
pub open spec fn without_once<K, T: View>(m: Map<K, Seq<T>>, k: K, x: T::V) -> Map<K, Seq<T>> {
    let l = if m.contains_key(k) { m[k] } else { Seq::empty() };
    if seq_has(l, x) { m.insert(k, drop_first(l, x)) } else { m }
}

proof fn lemma_drop_first_at<T: View>(s: Seq<T>, x: T::V, i: int)
    requires
        0 <= i < s.len(),
        s[i]@ == x,
        forall|j: int| 0 <= j < i ==> s[j]@ != x,
    ensures
        drop_first(s, x) == s.remove(i),
    decreases i,
{
    if i == 0 {
        assert(s.subrange(1, s.len() as int) =~= s.remove(0));
    } else {
        let t = s.subrange(1, s.len() as int);
        assert forall|j: int| 0 <= j < i - 1 implies t[j]@ != x by {
            assert(t[j] == s[j + 1]);
        }
        lemma_drop_first_at(t, x, i - 1);
        assert(seq![s[0]] + t.remove(i - 1) =~= s.remove(i));
    }
}

/// Removes the first item equal to `x` from the list kept under `k`; when there is
/// none the table is left untouched.
pub fn remove_first<K: KeyEq, T: KeyEq>(t: &mut Table<K, Vec<T>>, k: K, x: &T)
    ensures
        !seq_has(list_at(old(t)@, k@), x@) ==> final(t)@ == old(t)@,
        seq_has(list_at(old(t)@, k@), x@) ==> exists|i: int|
            0 <= i < list_at(old(t)@, k@).len()
            && list_at(old(t)@, k@)[i]@ == x@
            && (forall|j: int| 0 <= j < i ==> list_at(old(t)@, k@)[j]@ != x@)
            && list_replaced(old(t)@, final(t)@, k@, list_at(old(t)@, k@).remove(i)),
        lists_view(final(t)@) == without_once(lists_view(old(t)@), k@, x@),
{
    let ghost kv = k@;
    let ghost l = list_at(old(t)@, k@);
    let ghost lo = if lists_view(old(t)@).contains_key(kv) { lists_view(old(t)@)[kv] } else { Seq::<T>::empty() };
    assert(lo == l);
    let idx: Option<usize> = match t.get(&k) {
        Some(v) => first_index(v, x),
        None => None,
    };
    match idx {
        None => {
            proof {
                if seq_has(l, x@) {
                    let w = choose|w: int| 0 <= w < l.len() && #[trigger] l[w]@ == x@;
                    assert(old(t)@.contains_key(kv));
                }
            }
        },
        Some(i) => {
            let mut list = match t.remove(&k) {
                Some(v) => v,
                None => Vec::new(),
            };
            list.remove(i);
            t.set(k, list);
            proof {
                assert(final(t)@.dom() =~= old(t)@.dom().insert(kv));
                lemma_drop_first_at(l, x@, i as int);
                assert(seq_has(l, x@)) by {
                    assert(l[i as int]@ == x@);
                }
                assert(lists_view(final(t)@) =~= lists_view(old(t)@).insert(kv, drop_first(l, x@)));
            }
        },
    }
}

/// The index of the first item equal to `x`.
pub fn first_index<T: KeyEq>(v: &Vec<T>, x: &T) -> (r: Option<usize>)
    ensures
        match r {
            Some(i) => i < v@.len() && v@[i as int]@ == x@
                && forall|j: int| 0 <= j < i ==> v@[j]@ != x@,
            None => !seq_has(v@, x@),
        },
{
    let mut i: usize = 0;
    while i < v.len()
        invariant
            0 <= i <= v@.len(),
            forall|j: int| 0 <= j < i ==> #[trigger] v@[j]@ != x@,
        decreases v@.len() - i,
    {
        if v[i].key_eq(x) {
            return Some(i);
        }
        i = i + 1;
    }
    None
}

/// References to the items of the list kept under `k`, empty when there is none.
pub fn refs_at<'a, K: KeyEq, T>(t: &'a Table<K, Vec<T>>, k: &K) -> (r: Vec<&'a T>)
    ensures
        r@.map_values(|x: &T| *x) == list_at(t@, k@),
{
    let mut out: Vec<&'a T> = Vec::new();
    match t.get(k) {
        None => {
            assert(out@.map_values(|x: &T| *x) =~= Seq::<T>::empty());
        },
        Some(v) => {
            let mut i: usize = 0;
            while i < v.len()
                invariant
                    0 <= i <= v@.len(),
                    out@.map_values(|x: &T| *x) == v@.take(i as int),
                decreases v@.len() - i,
            {
                let ghost before = out@;
                out.push(&v[i]);
                proof {
                    assert(out@.map_values(|x: &T| *x) =~= before.map_values(|x: &T| *x).push(v@[i as int]));
                    assert(v@.take(i + 1) =~= v@.take(i as int).push(v@[i as int]));
                }
                i = i + 1;
            }
            assert(v@.take(v@.len() as int) =~= v@);
        },
    }
    out
}

/// Removes every occurrence of `x` from a list of ids, keeping the order of the rest.
pub fn without_id(v: &Vec<u64>, x: u64) -> (r: Vec<u64>)
    ensures
        r@ == v@.filter(|y: u64| y != x),
{
    let mut out: Vec<u64> = Vec::new();
    let mut i: usize = 0;
    while i < v.len()
        invariant
            0 <= i <= v@.len(),
            out@ == v@.take(i as int).filter(|y: u64| y != x),
        decreases v@.len() - i,
    {
        proof {
            reveal_with_fuel(Seq::filter, 1);
            assert(v@.take(i + 1).drop_last() =~= v@.take(i as int));
        }
        if v[i] != x {
            out.push(v[i]);
        }
        i = i + 1;
    }
    assert(v@.take(v@.len() as int) =~= v@);
    out
}

} // verus!

verus! {

/// The records that the ids name, in the order of the ids, skipping ids with no record.
pub open spec fn existing_records<K, R>(ids: Seq<K>, m: Map<K, R>) -> Seq<R>
    decreases ids.len(),
{
    if ids.len() == 0 {
        Seq::empty()
    } else {
        let rest = existing_records(ids.drop_last(), m);
        if m.contains_key(ids.last()) {
            rest.push(m[ids.last()])
        } else {
            rest
        }
    }
}

/// References to the records named by the first `limit` ids (all of them when fewer).
pub fn collect_existing<'a, R>(ids: &Vec<u64>, t: &'a Table<u64, R>, limit: usize) -> (r: Vec<&'a R>)
    ensures
        r@.map_values(|x: &R| *x) == existing_records(
            ids@.take(if limit < ids@.len() { limit as int } else { ids@.len() as int }),
            t@,
        ),
{
    let n = if limit < ids.len() { limit } else { ids.len() };
    let mut out: Vec<&'a R> = Vec::new();
    let mut i: usize = 0;
    while i < n
        invariant
            0 <= i <= n <= ids@.len(),
            out@.map_values(|x: &R| *x) == existing_records(ids@.take(i as int), t@),
        decreases n - i,
    {
        let ghost before = ids@.take(i as int);
        let ghost after = ids@.take(i + 1);
        proof {
            assert(after.drop_last() =~= before);
            assert(after.last() == ids@[i as int]);
        }
        match t.get(&ids[i]) {
            Some(rec) => {
                let ghost old_out = out@;
                out.push(rec);
                proof {
                    assert(out@.map_values(|x: &R| *x) =~= old_out.map_values(|x: &R| *x).push(*rec));
                }
            },
            None => {},
        }
        i = i + 1;
    }
    out
}

} // verus!
