//! Stable insertion sorts by an integer key, specified by the insertion
//! they perform: the result of sorting is exactly what repeatedly inserting
//! each element after all kept elements of the same key yields.

use vstd::prelude::*;

verus! {

/// Values (executable or mathematical) with an integer sort key.
pub trait SpecSortKey: Sized {
    spec fn sort_key(&self) -> int;
}

/// Executable values with an integer sort key.
pub trait SortKey: SpecSortKey {
    fn key(&self) -> (k: u64)
        ensures
            k == self.sort_key(),
    ;
}

/// Stable insertion of `x` into a sequence sorted by descending key: `x` goes
/// after every element whose key is at least its own.
pub open spec fn ins_desc<T: SpecSortKey>(s: Seq<T>, x: T) -> Seq<T>
    decreases s.len(),
{
    if s.len() == 0 {
        seq![x]
    } else if s.last().sort_key() >= x.sort_key() {
        s.push(x)
    } else {
        ins_desc(s.drop_last(), x).push(s.last())
    }
}

/// Stable sort by descending key.
pub open spec fn sort_desc<T: SpecSortKey>(s: Seq<T>) -> Seq<T>
    decreases s.len(),
{
    if s.len() == 0 {
        Seq::empty()
    } else {
        ins_desc(sort_desc(s.drop_last()), s.last())
    }
}

/// Stable insertion of `x` into a sequence sorted by ascending key: `x` goes
/// after every element whose key is at most its own.
pub open spec fn ins_asc<T: SpecSortKey>(s: Seq<T>, x: T) -> Seq<T>
    decreases s.len(),
{
    if s.len() == 0 {
        seq![x]
    } else if s.last().sort_key() <= x.sort_key() {
        s.push(x)
    } else {
        ins_asc(s.drop_last(), x).push(s.last())
    }
}

/// Stable sort by ascending key.
pub open spec fn sort_asc<T: SpecSortKey>(s: Seq<T>) -> Seq<T>
    decreases s.len(),
{
    if s.len() == 0 {
        Seq::empty()
    } else {
        ins_asc(sort_asc(s.drop_last()), s.last())
    }
}

pub open spec fn sorted_desc<T: SpecSortKey>(s: Seq<T>) -> bool {
    forall|i: int, j: int| 0 <= i < j < s.len() ==> s[i].sort_key() >= s[j].sort_key()
}

pub open spec fn sorted_asc<T: SpecSortKey>(s: Seq<T>) -> bool {
    forall|i: int, j: int| 0 <= i < j < s.len() ==> s[i].sort_key() <= s[j].sort_key()
}

/// Insertion at the first position whose key is smaller than `x`'s.
proof fn lemma_ins_desc_at<T: SpecSortKey>(s: Seq<T>, x: T, p: int)
    requires
        sorted_desc(s),
        0 <= p <= s.len(),
        forall|i: int| 0 <= i < p ==> #[trigger] s[i].sort_key() >= x.sort_key(),
        forall|i: int| p <= i < s.len() ==> #[trigger] s[i].sort_key() < x.sort_key(),
    ensures
        ins_desc(s, x) == s.insert(p, x),
        sorted_desc(s.insert(p, x)),
        s.insert(p, x).to_multiset() == s.to_multiset().insert(x),
    decreases s.len(),
{
    s.insert_ensures(p, x);
    vstd::seq_lib::to_multiset_insert(s, p, x);
    if s.len() == 0 {
        assert(s.insert(p, x) =~= seq![x]);
    } else if p == s.len() {
        assert(s.insert(p, x) =~= s.push(x));
    } else {
        let t = s.drop_last();
        assert(sorted_desc(t));
        lemma_ins_desc_at(t, x, p);
        assert(s.insert(p, x) =~= t.insert(p, x).push(s.last()));
    }
}

proof fn lemma_ins_asc_at<T: SpecSortKey>(s: Seq<T>, x: T, p: int)
    requires
        sorted_asc(s),
        0 <= p <= s.len(),
        forall|i: int| 0 <= i < p ==> #[trigger] s[i].sort_key() <= x.sort_key(),
        forall|i: int| p <= i < s.len() ==> #[trigger] s[i].sort_key() > x.sort_key(),
    ensures
        ins_asc(s, x) == s.insert(p, x),
        sorted_asc(s.insert(p, x)),
        s.insert(p, x).to_multiset() == s.to_multiset().insert(x),
    decreases s.len(),
{
    s.insert_ensures(p, x);
    vstd::seq_lib::to_multiset_insert(s, p, x);
    if s.len() == 0 {
        assert(s.insert(p, x) =~= seq![x]);
    } else if p == s.len() {
        assert(s.insert(p, x) =~= s.push(x));
    } else {
        let t = s.drop_last();
        assert(sorted_asc(t));
        lemma_ins_asc_at(t, x, p);
        assert(s.insert(p, x) =~= t.insert(p, x).push(s.last()));
    }
}

/// Sorting by descending key yields a sorted permutation.
pub proof fn lemma_sort_desc_props<T: SpecSortKey>(s: Seq<T>)
    ensures
        sorted_desc(sort_desc(s)),
        sort_desc(s).to_multiset() == s.to_multiset(),
        sort_desc(s).len() == s.len(),
    decreases s.len(),
{
    if s.len() == 0 {
        assert(s =~= Seq::<T>::empty());
    } else {
        let t = s.drop_last();
        lemma_sort_desc_props(t);
        let u = sort_desc(t);
        let x = s.last();
        let p = choose_split_desc(u, x);
        lemma_ins_desc_at(u, x, p);
        assert(s =~= t.push(x));
        vstd::seq_lib::to_multiset_build(t, x);
    }
}

/// Sorting by ascending key yields a sorted permutation.
pub proof fn lemma_sort_asc_props<T: SpecSortKey>(s: Seq<T>)
    ensures
        sorted_asc(sort_asc(s)),
        sort_asc(s).to_multiset() == s.to_multiset(),
        sort_asc(s).len() == s.len(),
    decreases s.len(),
{
    if s.len() == 0 {
        assert(s =~= Seq::<T>::empty());
    } else {
        let t = s.drop_last();
        lemma_sort_asc_props(t);
        let u = sort_asc(t);
        let x = s.last();
        let p = choose_split_asc(u, x);
        lemma_ins_asc_at(u, x, p);
        assert(s =~= t.push(x));
        vstd::seq_lib::to_multiset_build(t, x);
    }
}

/// In a descending sequence there is a split point for `x`.
proof fn choose_split_desc<T: SpecSortKey>(s: Seq<T>, x: T) -> (p: int)
    requires
        sorted_desc(s),
    ensures
        0 <= p <= s.len(),
        forall|i: int| 0 <= i < p ==> #[trigger] s[i].sort_key() >= x.sort_key(),
        forall|i: int| p <= i < s.len() ==> #[trigger] s[i].sort_key() < x.sort_key(),
    decreases s.len(),
{
    if s.len() == 0 {
        0
    } else if s.last().sort_key() >= x.sort_key() {
        s.len() as int
    } else {
        let p = choose_split_desc(s.drop_last(), x);
        assert(forall|i: int| 0 <= i < s.len() - 1 ==> s.drop_last()[i] == s[i]);
        p
    }
}

proof fn choose_split_asc<T: SpecSortKey>(s: Seq<T>, x: T) -> (p: int)
    requires
        sorted_asc(s),
    ensures
        0 <= p <= s.len(),
        forall|i: int| 0 <= i < p ==> #[trigger] s[i].sort_key() <= x.sort_key(),
        forall|i: int| p <= i < s.len() ==> #[trigger] s[i].sort_key() > x.sort_key(),
    decreases s.len(),
{
    if s.len() == 0 {
        0
    } else if s.last().sort_key() <= x.sort_key() {
        s.len() as int
    } else {
        let p = choose_split_asc(s.drop_last(), x);
        assert(forall|i: int| 0 <= i < s.len() - 1 ==> s.drop_last()[i] == s[i]);
        p
    }
}

/// Stable sort by descending key.
pub fn sort_by_key_desc<T: SortKey>(v: Vec<T>) -> (r: Vec<T>)
    ensures
        r@ == sort_desc(v@),
{
    let mut out: Vec<T> = Vec::new();
    let mut rest = v;
    let ghost orig = rest@;
    // consume elements from the front by reversing once
    let mut rev: Vec<T> = Vec::new();
    while rest.len() > 0
        invariant
            rev@.len() + rest@.len() == orig.len(),
            rest@ == orig.subrange(0, rest@.len() as int),
            forall|i: int| 0 <= i < rev@.len() ==> #[trigger] rev@[i] == orig[orig.len() - 1 - i],
        decreases rest.len(),
    {
        let x = rest.pop().unwrap();
        rev.push(x);
    }
    let ghost n = orig.len();
    while rev.len() > 0
        invariant
            n == orig.len(),
            rev@.len() <= n,
            forall|i: int| 0 <= i < rev@.len() ==> #[trigger] rev@[i] == orig[n - 1 - i],
            out@ == sort_desc(orig.subrange(0, n - rev@.len())),
            sorted_desc(out@),
        decreases rev.len(),
    {
        let ghost k = n - rev@.len();
        let x = rev.pop().unwrap();
        assert(x == orig[k]);
        let kx = x.key();
        let mut p: usize = 0;
        loop
            invariant
                p <= out@.len(),
                kx == x.sort_key(),
                forall|i: int| 0 <= i < p ==> #[trigger] out@[i].sort_key() >= x.sort_key(),
            ensures
                p <= out@.len(),
                p < out@.len() ==> out@[p as int].sort_key() < x.sort_key(),
                forall|i: int| 0 <= i < p ==> #[trigger] out@[i].sort_key() >= x.sort_key(),
            decreases out.len() - p,
        {
            if p >= out.len() {
                break;
            }
            let kp = out[p].key();
            if kp < kx {
                break;
            }
            p += 1;
        }
        proof {
            assert forall|i: int| p <= i < out@.len() implies #[trigger] out@[i].sort_key() < x.sort_key() by {
                if i > p {
                    assert(out@[p as int].sort_key() >= out@[i].sort_key());
                }
            }
            lemma_ins_desc_at(out@, x, p as int);
            assert(orig.subrange(0, k + 1).drop_last() =~= orig.subrange(0, k));
        }
        out.insert(p, x);
    }
    assert(orig.subrange(0, n as int) =~= orig);
    out
}

/// Stable sort by ascending key.
pub fn sort_by_key_asc<T: SortKey>(v: Vec<T>) -> (r: Vec<T>)
    ensures
        r@ == sort_asc(v@),
{
    let mut out: Vec<T> = Vec::new();
    let mut rest = v;
    let ghost orig = rest@;
    let mut rev: Vec<T> = Vec::new();
    while rest.len() > 0
        invariant
            rev@.len() + rest@.len() == orig.len(),
            rest@ == orig.subrange(0, rest@.len() as int),
            forall|i: int| 0 <= i < rev@.len() ==> #[trigger] rev@[i] == orig[orig.len() - 1 - i],
        decreases rest.len(),
    {
        let x = rest.pop().unwrap();
        rev.push(x);
    }
    let ghost n = orig.len();
    while rev.len() > 0
        invariant
            n == orig.len(),
            rev@.len() <= n,
            forall|i: int| 0 <= i < rev@.len() ==> #[trigger] rev@[i] == orig[n - 1 - i],
            out@ == sort_asc(orig.subrange(0, n - rev@.len())),
            sorted_asc(out@),
        decreases rev.len(),
    {
        let ghost k = n - rev@.len();
        let x = rev.pop().unwrap();
        assert(x == orig[k]);
        let kx = x.key();
        let mut p: usize = 0;
        loop
            invariant
                p <= out@.len(),
                kx == x.sort_key(),
                forall|i: int| 0 <= i < p ==> #[trigger] out@[i].sort_key() <= x.sort_key(),
            ensures
                p <= out@.len(),
                p < out@.len() ==> out@[p as int].sort_key() > x.sort_key(),
                forall|i: int| 0 <= i < p ==> #[trigger] out@[i].sort_key() <= x.sort_key(),
            decreases out.len() - p,
        {
            if p >= out.len() {
                break;
            }
            let kp = out[p].key();
            if kp > kx {
                break;
            }
            p += 1;
        }
        proof {
            assert forall|i: int| p <= i < out@.len() implies #[trigger] out@[i].sort_key() > x.sort_key() by {
                if i > p {
                    assert(out@[p as int].sort_key() <= out@[i].sort_key());
                }
            }
            lemma_ins_asc_at(out@, x, p as int);
            assert(orig.subrange(0, k + 1).drop_last() =~= orig.subrange(0, k));
        }
        out.insert(p, x);
    }
    assert(orig.subrange(0, n as int) =~= orig);
    out
}

/// Sorting commutes with a key-preserving map.
pub proof fn lemma_sort_desc_map<T: SpecSortKey, U: SpecSortKey>(s: Seq<T>, f: spec_fn(T) -> U)
    requires
        forall|x: T| #[trigger] f(x).sort_key() == x.sort_key(),
    ensures
        sort_desc(s).map_values(f) == sort_desc(s.map_values(f)),
    decreases s.len(),
{
    if s.len() > 0 {
        lemma_sort_desc_map(s.drop_last(), f);
        assert(s.map_values(f).drop_last() =~= s.drop_last().map_values(f));
        lemma_ins_desc_map(sort_desc(s.drop_last()), s.last(), f);
    } else {
        assert(s.map_values(f) =~= Seq::<U>::empty());
        assert(sort_desc(s).map_values(f) =~= Seq::<U>::empty());
    }
}

proof fn lemma_ins_desc_map<T: SpecSortKey, U: SpecSortKey>(s: Seq<T>, x: T, f: spec_fn(T) -> U)
    requires
        forall|x: T| #[trigger] f(x).sort_key() == x.sort_key(),
    ensures
        ins_desc(s, x).map_values(f) == ins_desc(s.map_values(f), f(x)),
    decreases s.len(),
{
    if s.len() == 0 {
        assert(ins_desc(s, x).map_values(f) =~= seq![f(x)]);
        assert(s.map_values(f) =~= Seq::<U>::empty());
    } else {
        assert(s.map_values(f).last() == f(s.last()));
        assert(s.map_values(f).drop_last() =~= s.drop_last().map_values(f));
        if s.last().sort_key() >= x.sort_key() {
            assert(s.push(x).map_values(f) =~= s.map_values(f).push(f(x)));
        } else {
            lemma_ins_desc_map(s.drop_last(), x, f);
            assert(ins_desc(s.drop_last(), x).push(s.last()).map_values(f)
                =~= ins_desc(s.drop_last(), x).map_values(f).push(f(s.last())));
        }
    }
}

} // verus!
