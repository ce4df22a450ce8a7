use vstd::prelude::*;

verus! {

/// The keys of `s` never decrease.
pub open spec fn keys_sorted<T>(s: Seq<(T, usize)>) -> bool {
    forall|i: int, j: int| 0 <= i < j < s.len() ==> s[i].1 <= s[j].1
}

/// The items of `s` with key `k`, in order.
pub open spec fn with_key<T>(s: Seq<(T, usize)>, k: usize) -> Seq<(T, usize)>
    decreases s.len(),
{
    if s.len() == 0 {
        seq![]
    } else {
        let earlier = with_key(s.drop_last(), k);
        if s.last().1 == k {
            earlier.push(s.last())
        } else {
            earlier
        }
    }
}

/// `r` is `v` sorted by key, items with equal keys keeping their order.
pub open spec fn stably_sorted<T>(r: Seq<(T, usize)>, v: Seq<(T, usize)>) -> bool {
    &&& r.len() == v.len()
    &&& keys_sorted(r)
    &&& forall|k: usize| #[trigger] with_key(r, k) == with_key(v, k)
}

proof fn lemma_with_key_insert<T>(s: Seq<(T, usize)>, p: int, x: (T, usize), k: usize)
    requires
        0 <= p <= s.len(),
        forall|j: int| p <= j < s.len() ==> s[j].1 > x.1,
    ensures
        with_key(s.insert(p, x), k) == if k == x.1 {
            with_key(s, k).push(x)
        } else {
            with_key(s, k)
        },
    decreases s.len(),
{
    if p == s.len() {
        assert(s.insert(p, x) =~= s.push(x));
        assert(s.push(x).drop_last() =~= s);
    } else {
        let d = s.drop_last();
        lemma_with_key_insert(d, p, x, k);
        assert(s.insert(p, x) =~= d.insert(p, x).push(s.last()));
        assert(d.insert(p, x).push(s.last()).drop_last() =~= d.insert(p, x));
    }
}

/// `items` sorted by their keys (the second components); items with equal keys keep
/// their relative order, as `sort_by_key` does.
pub fn stable_sort_by_key<T: Copy>(items: &Vec<(T, usize)>) -> (r: Vec<(T, usize)>)
    ensures
        stably_sorted(r@, items@),
{
    let mut out: Vec<(T, usize)> = Vec::new();
    let mut i: usize = 0;
    while i < items.len()
        invariant
            i <= items@.len(),
            out@.len() == i,
            keys_sorted(out@),
            forall|k: usize| #[trigger] with_key(out@, k) == with_key(items@.take(i as int), k),
        decreases items.len() - i,
    {
        let x = items[i];
        let mut p: usize = 0;
        while p < out.len() && out[p].1 <= x.1
            invariant
                p <= out@.len(),
                forall|j: int| 0 <= j < p ==> out@[j].1 <= x.1,
            decreases out.len() - p,
        {
            p += 1;
        }
        assert forall|j: int| p <= j < out@.len() implies out@[j].1 > x.1 by {
            if p < out@.len() {
                assert(out@[p as int].1 > x.1);
                assert(out@[p as int].1 <= out@[j].1);
            }
        }
        let ghost before = out@;
        out.insert(p, x);
        assert(items@.take(i + 1).drop_last() =~= items@.take(i as int));
        assert(items@.take(i + 1).last() == x);
        assert forall|k: usize| #[trigger] with_key(out@, k) == with_key(items@.take(i + 1), k) by {
            lemma_with_key_insert(before, p as int, x, k);
        }
        assert forall|a: int, b: int| 0 <= a < b < out@.len() implies out@[a].1 <= out@[b].1 by {
            if a < p && b == p {
            } else if a == p && b > p {
                assert(out@[b] == before[b - 1]);
            } else if a < p && b > p {
                assert(out@[b] == before[b - 1]);
            } else if b < p {
            } else {
                assert(out@[a] == before[a - 1]);
                assert(out@[b] == before[b - 1]);
            }
        }
        i += 1;
    }
    assert(items@.take(items@.len() as int) =~= items@);
    out
}

} // verus!
