//! Reading and writing the tables of the vault, which are keyed by account, project or sequence
//! number.

use std::collections::BTreeMap;
use vstd::prelude::*;

verus! {

broadcast use vstd::std_specs::btree::group_btree_axioms;

/// The entry of `k`, or `default` where there is none.
pub open spec fn entry<K, V>(m: Map<K, V>, k: K, default: V) -> V {
    if m.contains_key(k) {
        m[k]
    } else {
        default
    }
}

/// The entry of `k`, if there is one.
pub open spec fn optional<K, V>(m: Map<K, V>, k: K) -> Option<V> {
    if m.contains_key(k) {
        Some(m[k])
    } else {
        None
    }
}

/// The sum of the amounts of a table.
pub open spec fn table_sum<K>(m: Map<K, i128>) -> int
    decreases m.dom().len(),
{
    if m.dom().finite() && m.dom().len() > 0 {
        let k = m.dom().choose();
        m[k] + table_sum(m.remove(k))
    } else {
        0
    }
}

/// Taking an entry out takes its amount off the sum.
pub proof fn lemma_sum_remove<K>(m: Map<K, i128>, k: K)
    requires
        m.dom().finite(),
        m.contains_key(k),
    ensures
        table_sum(m) == m[k] + table_sum(m.remove(k)),
        m.remove(k).dom().finite(),
        m.remove(k).dom().len() == m.dom().len() - 1,
    decreases m.dom().len(),
{
    let c = m.dom().choose();
    assert(m.dom().contains(c));
    if c != k {
        lemma_sum_remove(m.remove(c), k);
        lemma_sum_remove(m.remove(k), c);
        assert(m.remove(c).remove(k) =~= m.remove(k).remove(c));
    }
}

/// Writing an entry changes the sum by what the entry changes.
pub proof fn lemma_sum_insert<K>(m: Map<K, i128>, k: K, v: i128)
    requires
        m.dom().finite(),
    ensures
        table_sum(m.insert(k, v)) == table_sum(m) - entry(m, k, 0) + v,
        m.insert(k, v).dom().finite(),
{
    let n = m.insert(k, v);
    lemma_sum_remove(n, k);
    assert(n.remove(k) =~= m.remove(k));
    if m.contains_key(k) {
        lemma_sum_remove(m, k);
    } else {
        assert(m.remove(k) =~= m);
    }
}

/// In a table without negative amounts, an entry is within the sum.
pub proof fn lemma_sum_within<K>(m: Map<K, i128>, k: K)
    requires
        m.dom().finite(),
        forall|j: K| #[trigger] m.contains_key(j) ==> m[j] >= 0,
    ensures
        0 <= entry(m, k, 0) <= table_sum(m),
    decreases m.dom().len(),
{
    if m.contains_key(k) {
        lemma_sum_remove(m, k);
        lemma_sum_within(m.remove(k), k);
    } else if m.dom().len() > 0 {
        let c = m.dom().choose();
        assert(m.dom().contains(c));
        lemma_sum_remove(m, c);
        lemma_sum_within(m.remove(c), k);
    }
}

pub fn entry_u64<V: Copy>(m: &BTreeMap<u64, V>, k: u64, default: V) -> (r: V)
    ensures
        r == entry(m@, k, default),
{
    match m.get(&k) {
        Some(v) => *v,
        None => default,
    }
}

pub fn entry_u32<V: Copy>(m: &BTreeMap<u32, V>, k: u32, default: V) -> (r: V)
    ensures
        r == entry(m@, k, default),
{
    match m.get(&k) {
        Some(v) => *v,
        None => default,
    }
}

pub fn optional_u64<V: Copy>(m: &BTreeMap<u64, V>, k: u64) -> (r: Option<V>)
    ensures
        r == optional(m@, k),
{
    match m.get(&k) {
        Some(v) => Some(*v),
        None => None,
    }
}

pub fn optional_u32<V: Copy>(m: &BTreeMap<u32, V>, k: u32) -> (r: Option<V>)
    ensures
        r == optional(m@, k),
{
    match m.get(&k) {
        Some(v) => Some(*v),
        None => None,
    }
}

} // verus!
