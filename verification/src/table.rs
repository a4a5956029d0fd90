use vstd::prelude::*;
use crate::account::Address;

verus! {

/// Whether some entry of `t` is keyed by `k`.
pub open spec fn has_key<K>(t: Seq<(K, u128)>, k: K) -> bool {
    exists|i: int| 0 <= i < t.len() && (#[trigger] t[i]).0 == k
}

/// No key occurs in two entries of `t`.
pub open spec fn distinct_keys<K>(t: Seq<(K, u128)>) -> bool {
    forall|i: int, j: int| 0 <= i < j < t.len() ==> (#[trigger] t[i]).0 != (#[trigger] t[j]).0
}

/// The position of an entry keyed by `k`, where there is one.
pub open spec fn index_of<K>(t: Seq<(K, u128)>, k: K) -> int {
    choose|i: int| 0 <= i < t.len() && (#[trigger] t[i]).0 == k
}

/// The quantity stored under `k`; an absent key reads as zero.
pub open spec fn lookup<K>(t: Seq<(K, u128)>, k: K) -> u128 {
    if has_key(t, k) {
        t[index_of(t, k)].1
    } else {
        0
    }
}

/// The table with `v` stored under `k`: the entry is replaced in place, or
/// appended where the key is new.
pub open spec fn store<K>(t: Seq<(K, u128)>, k: K, v: u128) -> Seq<(K, u128)> {
    if has_key(t, k) {
        t.update(index_of(t, k), (k, v))
    } else {
        t.push((k, v))
    }
}

/// The sum of all stored quantities.
pub open spec fn total<K>(t: Seq<(K, u128)>) -> int
    decreases t.len(),
{
    if t.len() == 0 {
        0
    } else {
        total(t.drop_last()) + t.last().1
    }
}

/// The keys of `t`, in the order of its entries.
pub open spec fn keys<K>(t: Seq<(K, u128)>) -> Seq<K> {
    Seq::new(t.len(), |i: int| t[i].0)
}

/// The sum, over the positions of `ks`, of what `t` reads under the key at
/// that position.
pub open spec fn lookup_sum<K>(t: Seq<(K, u128)>, ks: Seq<K>) -> int
    decreases ks.len(),
{
    if ks.len() == 0 {
        0
    } else {
        lookup_sum(t, ks.drop_last()) + lookup(t, ks.last())
    }
}

/// With distinct keys, the entry at position `i` is the one found for its key.
pub proof fn lemma_index_unique<K>(t: Seq<(K, u128)>, i: int)
    requires
        distinct_keys(t),
        0 <= i < t.len(),
    ensures
        has_key(t, t[i].0),
        index_of(t, t[i].0) == i,
        lookup(t, t[i].0) == t[i].1,
{
    let k = t[i].0;
    assert(has_key(t, k));
    let j = index_of(t, k);
    assert(0 <= j < t.len() && t[j].0 == k);
    if j < i {
        assert(t[j].0 != t[i].0);
    } else if i < j {
        assert(t[i].0 != t[j].0);
    }
}

/// Storing keeps keys distinct, sets the stored key and leaves every other
/// key as it was.
pub proof fn lemma_store_lookup<K>(t: Seq<(K, u128)>, k: K, v: u128, a: K)
    requires
        distinct_keys(t),
    ensures
        distinct_keys(store(t, k, v)),
        has_key(store(t, k, v), a) <==> (a == k || has_key(t, a)),
        lookup(store(t, k, v), a) == if a == k { v } else { lookup(t, a) },
{
    let s = store(t, k, v);
    if has_key(t, k) {
        let p = index_of(t, k);
        assert(s.len() == t.len());
        assert forall|i: int, j: int| 0 <= i < j < s.len() implies (#[trigger] s[i]).0 != (
        #[trigger] s[j]).0 by {
            assert(s[i].0 == t[i].0);
            assert(s[j].0 == t[j].0);
        }
        assert(s[p].0 == k);
        lemma_index_unique(s, p);
        if a != k {
            if has_key(t, a) {
                let q = index_of(t, a);
                assert(s[q] == t[q]);
                lemma_index_unique(s, q);
            }
            if has_key(s, a) {
                let q = index_of(s, a);
                assert(t[q].0 == a);
            }
        }
    } else {
        let n = t.len() as int;
        assert(s.len() == n + 1);
        assert forall|i: int, j: int| 0 <= i < j < s.len() implies (#[trigger] s[i]).0 != (
        #[trigger] s[j]).0 by {
            assert(s[i] == t[i]);
            if j < n {
                assert(s[j] == t[j]);
            } else {
                assert(s[j].0 == k);
            }
        }
        assert(s[n].0 == k);
        lemma_index_unique(s, n);
        if a != k {
            if has_key(t, a) {
                let q = index_of(t, a);
                assert(s[q] == t[q]);
                lemma_index_unique(s, q);
            }
            if has_key(s, a) {
                let q = index_of(s, a);
                assert(q < n);
                assert(t[q].0 == a);
            }
        }
    }
}

/// Replacing one entry changes the sum by the difference of the quantities.
pub proof fn lemma_total_update<K>(t: Seq<(K, u128)>, i: int, e: (K, u128))
    requires
        0 <= i < t.len(),
    ensures
        total(t.update(i, e)) == total(t) - t[i].1 + e.1,
    decreases t.len(),
{
    let s = t.update(i, e);
    if i == t.len() - 1 {
        assert(s.drop_last() =~= t.drop_last());
    } else {
        assert(s.drop_last() =~= t.drop_last().update(i, e));
        lemma_total_update(t.drop_last(), i, e);
    }
}

/// Storing changes the sum by the difference between the new quantity and
/// the one read before.
pub proof fn lemma_store_total<K>(t: Seq<(K, u128)>, k: K, v: u128)
    requires
        distinct_keys(t),
    ensures
        total(store(t, k, v)) == total(t) - lookup(t, k) + v,
{
    if has_key(t, k) {
        lemma_total_update(t, index_of(t, k), (k, v));
    } else {
        assert(t.push((k, v)).drop_last() =~= t);
    }
}

/// With distinct keys, the sum of the first `n` stored quantities is the sum
/// of what is read under the first `n` keys.
pub proof fn lemma_total_is_lookup_sum<K>(t: Seq<(K, u128)>, n: int)
    requires
        distinct_keys(t),
        0 <= n <= t.len(),
    ensures
        total(t.take(n)) == lookup_sum(t, keys(t).take(n)),
    decreases n,
{
    if n > 0 {
        lemma_total_is_lookup_sum(t, n - 1);
        lemma_index_unique(t, n - 1);
        assert(t.take(n).drop_last() =~= t.take(n - 1));
        assert(keys(t).take(n).drop_last() =~= keys(t).take(n - 1));
    }
}

/// Every stored quantity is at most the sum.
pub proof fn lemma_entry_bounded<K>(t: Seq<(K, u128)>, i: int)
    requires
        0 <= i < t.len(),
    ensures
        0 <= t[i].1 <= total(t),
        0 <= total(t),
    decreases t.len(),
{
    lemma_total_nonnegative(t.drop_last());
    if i < t.len() - 1 {
        lemma_entry_bounded(t.drop_last(), i);
    }
}

/// The sum is never negative.
pub proof fn lemma_total_nonnegative<K>(t: Seq<(K, u128)>)
    ensures
        0 <= total(t),
    decreases t.len(),
{
    if t.len() > 0 {
        lemma_total_nonnegative(t.drop_last());
    }
}

/// Two entries at different positions are together at most the sum.
pub proof fn lemma_two_entries_bounded<K>(t: Seq<(K, u128)>, i: int, j: int)
    requires
        0 <= i < j < t.len(),
    ensures
        t[i].1 + t[j].1 <= total(t),
    decreases t.len(),
{
    if j == t.len() - 1 {
        lemma_entry_bounded(t.drop_last(), i);
    } else {
        lemma_total_nonnegative(t.drop_last());
        lemma_two_entries_bounded(t.drop_last(), i, j);
    }
}

/// With distinct keys, what is read under two different keys is together at
/// most the sum.
pub proof fn lemma_two_keys_bounded<K>(t: Seq<(K, u128)>, a: K, b: K)
    requires
        distinct_keys(t),
        a != b,
    ensures
        lookup(t, a) + lookup(t, b) <= total(t),
        lookup(t, a) <= total(t),
{
    lemma_total_nonnegative(t);
    if has_key(t, a) {
        let i = index_of(t, a);
        lemma_entry_bounded(t, i);
        if has_key(t, b) {
            let j = index_of(t, b);
            if i < j {
                lemma_two_entries_bounded(t, i, j);
            } else {
                lemma_two_entries_bounded(t, j, i);
            }
        }
    } else if has_key(t, b) {
        lemma_entry_bounded(t, index_of(t, b));
    }
}

/// Reads the balance stored for `k`.
pub fn read_balance(t: &Vec<(Address, u128)>, k: Address) -> (r: u128)
    requires
        distinct_keys(t@),
    ensures
        r == lookup(t@, k),
{
    let mut i: usize = 0;
    while i < t.len()
        invariant
            i <= t.len(),
            distinct_keys(t@),
            forall|j: int| 0 <= j < i ==> (#[trigger] t@[j]).0 != k,
        decreases t.len() - i,
    {
        if t[i].0 == k {
            proof {
                lemma_index_unique(t@, i as int);
            }
            return t[i].1;
        }
        i += 1;
    }
    0
}

/// Stores `v` as the balance of `k`.
pub fn write_balance(t: &mut Vec<(Address, u128)>, k: Address, v: u128)
    requires
        distinct_keys(old(t)@),
    ensures
        final(t)@ == store(old(t)@, k, v),
{
    let mut i: usize = 0;
    while i < t.len()
        invariant
            i <= t.len(),
            t@ == old(t)@,
            distinct_keys(t@),
            forall|j: int| 0 <= j < i ==> (#[trigger] t@[j]).0 != k,
        decreases t.len() - i,
    {
        if t[i].0 == k {
            proof {
                lemma_index_unique(t@, i as int);
            }
            t.set(i, (k, v));
            return ;
        }
        i += 1;
    }
    t.push((k, v));
}

/// Reads the allowance stored for the pair `k` of owner and spender.
pub fn read_allowance(t: &Vec<((Address, Address), u128)>, k: (Address, Address)) -> (r: u128)
    requires
        distinct_keys(t@),
    ensures
        r == lookup(t@, k),
{
    let mut i: usize = 0;
    while i < t.len()
        invariant
            i <= t.len(),
            distinct_keys(t@),
            forall|j: int| 0 <= j < i ==> (#[trigger] t@[j]).0 != k,
        decreases t.len() - i,
    {
        let entry = t[i];
        let key = entry.0;
        if key.0 == k.0 && key.1 == k.1 {
            proof {
                lemma_index_unique(t@, i as int);
            }
            return entry.1;
        }
        i += 1;
    }
    0
}

/// Stores `v` as the allowance of the pair `k` of owner and spender.
pub fn write_allowance(t: &mut Vec<((Address, Address), u128)>, k: (Address, Address), v: u128)
    requires
        distinct_keys(old(t)@),
    ensures
        final(t)@ == store(old(t)@, k, v),
{
    let mut i: usize = 0;
    while i < t.len()
        invariant
            i <= t.len(),
            t@ == old(t)@,
            distinct_keys(t@),
            forall|j: int| 0 <= j < i ==> (#[trigger] t@[j]).0 != k,
        decreases t.len() - i,
    {
        let key = t[i].0;
        if key.0 == k.0 && key.1 == k.1 {
            proof {
                lemma_index_unique(t@, i as int);
            }
            t.set(i, (k, v));
            return ;
        }
        i += 1;
    }
    t.push((k, v));
}

} // verus!
