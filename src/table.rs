//! Keyed tables held as sequences of `(key, value)` entries.
//!
//! A key's value is the one in its last entry; writes update that entry in
//! place or append a new one, so a table never holds a key twice unless it
//! was built that way.

use crate::address::{Address, Bytes32};
use crate::uint::Uint256;
use vstd::prelude::*;

verus! {

/// The value of the last entry with key `k`, if any.
pub open spec fn lookup<K, V>(s: Seq<(K, V)>, k: K) -> Option<V>
    decreases s.len(),
{
    if s.len() == 0 {
        None
    } else if s.last().0 == k {
        Some(s.last().1)
    } else {
        lookup(s.drop_last(), k)
    }
}

/// No entry after index `i` has key `k`.
pub open spec fn last_with_key<K, V>(s: Seq<(K, V)>, i: int, k: K) -> bool {
    forall|j: int| i < j < s.len() ==> s[j].0 != k
}

/// Appending an entry sets its key and leaves the others.
pub proof fn lemma_lookup_push<K, V>(s: Seq<(K, V)>, k: K, v: V, q: K)
    ensures
        lookup(s.push((k, v)), q) == if q == k {
            Some(v)
        } else {
            lookup(s, q)
        },
{
    assert(s.push((k, v)).drop_last() =~= s);
}

/// Lookup in a concatenation prefers the later part.
pub proof fn lemma_lookup_append<K, V>(s: Seq<(K, V)>, t: Seq<(K, V)>, q: K)
    ensures
        lookup(s + t, q) == match lookup(t, q) {
            Some(v) => Some(v),
            None => lookup(s, q),
        },
    decreases t.len(),
{
    if t.len() == 0 {
        assert(s + t =~= s);
    } else {
        assert((s + t).drop_last() =~= s + t.drop_last());
        lemma_lookup_append(s, t.drop_last(), q);
    }
}

/// Rewriting the last entry of key `k` sets its value and leaves the others.
pub proof fn lemma_lookup_update<K, V>(s: Seq<(K, V)>, i: int, k: K, v: V, q: K)
    requires
        0 <= i < s.len(),
        s[i].0 == k,
        last_with_key(s, i, k),
    ensures
        lookup(s.update(i, (k, v)), q) == if q == k {
            Some(v)
        } else {
            lookup(s, q)
        },
    decreases s.len(),
{
    if i == s.len() - 1 {
        assert(s.update(i, (k, v)).drop_last() =~= s.drop_last());
    } else {
        assert(s.update(i, (k, v)).drop_last() =~= s.drop_last().update(i, (k, v)));
        lemma_lookup_update(s.drop_last(), i, k, v, q);
    }
}

/// The index of the last entry with key `k`.
pub fn find_name<V>(s: &Vec<(Bytes32, V)>, k: &Bytes32) -> (r: Option<usize>)
    ensures
        match r {
            Some(i) => i < s@.len() && s@[i as int].0 == *k && last_with_key(s@, i as int, *k)
                && lookup(s@, *k) == Some(s@[i as int].1),
            None => lookup(s@, *k) is None,
        },
{
    let mut i: usize = s.len();
    assert(s@.take(i as int) =~= s@);
    while i > 0
        invariant
            i <= s@.len(),
            lookup(s@, *k) == lookup(s@.take(i as int), *k),
            last_with_key(s@, i as int - 1, *k),
        decreases i,
    {
        assert(s@.take(i as int).drop_last() =~= s@.take(i - 1));
        if s[i - 1].0 == *k {
            return Some(i - 1);
        }
        i = i - 1;
    }
    None
}

/// The index of the last entry with key `k`.
pub fn find_address<V>(s: &Vec<(Address, V)>, k: &Address) -> (r: Option<usize>)
    ensures
        match r {
            Some(i) => i < s@.len() && s@[i as int].0 == *k && last_with_key(s@, i as int, *k)
                && lookup(s@, *k) == Some(s@[i as int].1),
            None => lookup(s@, *k) is None,
        },
{
    let mut i: usize = s.len();
    assert(s@.take(i as int) =~= s@);
    while i > 0
        invariant
            i <= s@.len(),
            lookup(s@, *k) == lookup(s@.take(i as int), *k),
            last_with_key(s@, i as int - 1, *k),
        decreases i,
    {
        assert(s@.take(i as int).drop_last() =~= s@.take(i - 1));
        if s[i - 1].0 == *k {
            return Some(i - 1);
        }
        i = i - 1;
    }
    None
}

/// The amount recorded for `k`, zero where there is none.
pub open spec fn balance(s: Seq<(Address, Uint256)>, k: Address) -> nat {
    match lookup(s, k) {
        Some(v) => v@,
        None => 0,
    }
}

} // verus!
