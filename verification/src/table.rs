//! Small association tables (ordered lists of key/value pairs) with
//! first-match lookup, used for the provider's definition tables.

use vstd::prelude::*;

use crate::types::{AffixId, AffixTierLevel, BaseGroupId, BaseItemId, EssenceId};

verus! {

/// Keys of the association tables: copyable values with an executable
/// equality that agrees with spec equality.
pub trait TableKey: Copy + Sized {
    fn same(&self, other: &Self) -> (b: bool)
        ensures
            b == (*self == *other),
    ;
}

impl TableKey for AffixId {
    fn same(&self, other: &Self) -> (b: bool) {
        self.0 == other.0
    }
}

impl TableKey for BaseItemId {
    fn same(&self, other: &Self) -> (b: bool) {
        self.0 == other.0
    }
}

impl TableKey for BaseGroupId {
    fn same(&self, other: &Self) -> (b: bool) {
        self.0 == other.0
    }
}

impl TableKey for EssenceId {
    fn same(&self, other: &Self) -> (b: bool) {
        self.0 == other.0
    }
}

impl TableKey for AffixTierLevel {
    fn same(&self, other: &Self) -> (b: bool) {
        self.0 == other.0
    }
}

impl TableKey for u8 {
    fn same(&self, other: &Self) -> (b: bool) {
        *self == *other
    }
}

/// `k` occurs as a key of `s`.
pub open spec fn has_key<K, V>(s: Seq<(K, V)>, k: K) -> bool {
    exists|i: int| 0 <= i < s.len() && #[trigger] s[i].0 == k
}

/// `i` is the first position of key `k` in `s`.
pub open spec fn is_first_key<K, V>(s: Seq<(K, V)>, k: K, i: int) -> bool {
    &&& 0 <= i < s.len()
    &&& s[i].0 == k
    &&& forall|j: int| 0 <= j < i ==> #[trigger] s[j].0 != k
}

/// The value stored under the first occurrence of `k`, if any.
pub open spec fn table_get<K, V>(s: Seq<(K, V)>, k: K) -> Option<V> {
    if exists|i: int| is_first_key(s, k, i) {
        Some(s[choose|i: int| is_first_key(s, k, i)].1)
    } else {
        None
    }
}

/// The first position of a key is unique.
pub proof fn lemma_first_key_unique<K, V>(s: Seq<(K, V)>, k: K, i: int, j: int)
    requires
        is_first_key(s, k, i),
        is_first_key(s, k, j),
    ensures
        i == j,
{
    if i < j {
        assert(s[i].0 != k);
    } else if j < i {
        assert(s[j].0 != k);
    }
}

/// A present key has a first position.
pub proof fn lemma_first_key_exists<K, V>(s: Seq<(K, V)>, k: K)
    requires
        has_key(s, k),
    ensures
        exists|i: int| is_first_key(s, k, i),
    decreases s.len(),
{
    let w = choose|i: int| 0 <= i < s.len() && #[trigger] s[i].0 == k;
    if s[0].0 == k {
        assert(is_first_key(s, k, 0));
    } else {
        let t = s.drop_first();
        assert(t[w - 1].0 == k);
        lemma_first_key_exists(t, k);
        let i = choose|i: int| is_first_key(t, k, i);
        assert forall|j: int| 0 <= j < i + 1 implies #[trigger] s[j].0 != k by {
            if j > 0 {
                assert(s[j] == t[j - 1]);
            }
        }
        assert(is_first_key(s, k, i + 1));
    }
}

/// Looking up at a known first position gives the stored value.
pub proof fn lemma_table_get_at<K, V>(s: Seq<(K, V)>, k: K, i: int)
    requires
        is_first_key(s, k, i),
    ensures
        table_get(s, k) == Some(s[i].1),
{
    let c = choose|c: int| is_first_key(s, k, c);
    lemma_first_key_unique(s, k, i, c);
}

/// Position of the first occurrence of `k` in `s`.
pub fn table_find<K: TableKey, V>(s: &Vec<(K, V)>, k: &K) -> (r: Option<usize>)
    ensures
        match r {
            Some(i) => is_first_key(s@, *k, i as int) && table_get(s@, *k) == Some(s@[i as int].1),
            None => !has_key(s@, *k) && table_get(s@, *k) is None,
        },
{
    let mut i: usize = 0;
    while i < s.len()
        invariant
            i <= s.len(),
            forall|j: int| 0 <= j < i ==> #[trigger] s@[j].0 != *k,
        decreases s.len() - i,
    {
        if s[i].0.same(k) {
            proof {
                lemma_table_get_at(s@, *k, i as int);
            }
            return Some(i);
        }
        i += 1;
    }
    proof {
        assert(!has_key(s@, *k));
        assert(!exists|i: int| is_first_key(s@, *k, i));
    }
    None
}

} // verus!
