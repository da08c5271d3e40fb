//! Items put in order by an integer rank, items of equal rank keeping the
//! order they came in. An item is its rank and the position it stands for.

use vstd::prelude::*;

verus! {

/// `sorted` with `x` placed after every item whose rank is at most its
/// own, counted from the end.
pub open spec fn insert_by_rank(sorted: Seq<(u64, usize)>, x: (u64, usize)) -> Seq<(u64, usize)>
    decreases sorted.len(),
{
    if sorted.len() == 0 {
        seq![x]
    } else if sorted.last().0 <= x.0 {
        sorted.push(x)
    } else {
        insert_by_rank(sorted.drop_last(), x).push(sorted.last())
    }
}

/// The items ordered by rank, lower first; items of equal rank stay in the
/// order they came in.
pub open spec fn sort_by_rank(s: Seq<(u64, usize)>) -> Seq<(u64, usize)>
    decreases s.len(),
{
    if s.len() == 0 {
        Seq::empty()
    } else {
        insert_by_rank(sort_by_rank(s.drop_last()), s.last())
    }
}

/// Whether the items' ranks never fall.
pub open spec fn rank_ordered(s: Seq<(u64, usize)>) -> bool {
    forall|i: int, j: int| 0 <= i <= j < s.len() ==> s[i].0 <= s[j].0
}

/// Inserting at a place where everything after has a higher rank, and the
/// item before (if any) does not, is what [`insert_by_rank`] does.
proof fn lemma_insert_at(sorted: Seq<(u64, usize)>, x: (u64, usize), j: int)
    requires
        0 <= j <= sorted.len(),
        j == 0 || sorted[j - 1].0 <= x.0,
        forall|k: int| j <= k < sorted.len() ==> sorted[k].0 > x.0,
    ensures
        insert_by_rank(sorted, x) == sorted.subrange(0, j) + seq![x] + sorted.subrange(j, sorted.len() as int),
    decreases sorted.len(),
{
    if sorted.len() == 0 {
        assert(sorted.subrange(0, j) + seq![x] + sorted.subrange(j, sorted.len() as int) =~= seq![x]);
    } else if j == sorted.len() {
        assert(sorted.last().0 <= x.0);
        assert(sorted.subrange(0, j) + seq![x] + sorted.subrange(j, sorted.len() as int) =~= sorted.push(x));
    } else {
        let d = sorted.drop_last();
        assert(sorted.last().0 > x.0);
        assert forall|k: int| j <= k < d.len() implies d[k].0 > x.0 by {
            assert(d[k] == sorted[k]);
        }
        if j > 0 {
            assert(d[j - 1] == sorted[j - 1]);
        }
        lemma_insert_at(d, x, j);
        assert(d.subrange(0, j) =~= sorted.subrange(0, j));
        assert((d.subrange(0, j) + seq![x] + d.subrange(j, d.len() as int)).push(sorted.last())
            =~= sorted.subrange(0, j) + seq![x] + sorted.subrange(j, sorted.len() as int));
    }
}

/// Sorting keeps the number of items.
pub proof fn lemma_sort_len(s: Seq<(u64, usize)>)
    ensures
        sort_by_rank(s).len() == s.len(),
    decreases s.len(),
{
    if s.len() > 0 {
        lemma_sort_len(s.drop_last());
        lemma_insert_len(sort_by_rank(s.drop_last()), s.last());
    }
}

proof fn lemma_insert_len(sorted: Seq<(u64, usize)>, x: (u64, usize))
    ensures
        insert_by_rank(sorted, x).len() == sorted.len() + 1,
    decreases sorted.len(),
{
    if sorted.len() > 0 && sorted.last().0 > x.0 {
        lemma_insert_len(sorted.drop_last(), x);
    }
}

/// The items, ordered by rank, equal ranks in the order they came in.
pub fn sorted_by_rank(v: &Vec<(u64, usize)>) -> (r: Vec<(u64, usize)>)
    ensures
        r@ == sort_by_rank(v@),
{
    let mut r: Vec<(u64, usize)> = Vec::new();
    let mut i: usize = 0;
    while i < v.len()
        invariant
            i <= v@.len(),
            r@ == sort_by_rank(v@.subrange(0, i as int)),
        decreases v@.len() - i,
    {
        let x = v[i];
        let mut j: usize = r.len();
        while j > 0 && r[j - 1].0 > x.0
            invariant
                j <= r@.len(),
                forall|k: int| j <= k < r@.len() ==> r@[k].0 > x.0,
            decreases j,
        {
            j = j - 1;
        }
        proof {
            lemma_insert_at(r@, x, j as int);
            assert(v@.subrange(0, i + 1).drop_last() =~= v@.subrange(0, i as int));
            assert(v@.subrange(0, i + 1).last() == x);
        }
        let ghost before = r@;
        r.insert(j, x);
        assert(r@ =~= before.subrange(0, j as int) + seq![x] + before.subrange(j as int, before.len() as int));
        i = i + 1;
    }
    assert(v@.subrange(0, v@.len() as int) =~= v@);
    r
}

/// The items, ordered by rank, come out with ranks that never fall.
pub proof fn lemma_sorted_by_rank_ordered(s: Seq<(u64, usize)>)
    ensures
        rank_ordered(sort_by_rank(s)),
    decreases s.len(),
{
    if s.len() > 0 {
        lemma_sorted_by_rank_ordered(s.drop_last());
        lemma_insert_ordered(sort_by_rank(s.drop_last()), s.last());
    }
}

proof fn lemma_insert_ordered(sorted: Seq<(u64, usize)>, x: (u64, usize))
    requires
        rank_ordered(sorted),
    ensures
        rank_ordered(insert_by_rank(sorted, x)),
        insert_by_rank(sorted, x).len() == sorted.len() + 1,
        insert_by_rank(sorted, x).last().0 == (if sorted.len() > 0 && sorted.last().0 > x.0 {
            sorted.last().0
        } else {
            x.0
        }),
    decreases sorted.len(),
{
    if sorted.len() == 0 {
    } else if sorted.last().0 <= x.0 {
        let r = sorted.push(x);
        assert forall|i: int, j: int| 0 <= i <= j < r.len() implies r[i].0 <= r[j].0 by {
            if j == r.len() - 1 {
                if i < j {
                    assert(sorted[i].0 <= sorted.last().0);
                }
            }
        }
    } else {
        let d = sorted.drop_last();
        assert(rank_ordered(d)) by {
            assert forall|i: int, j: int| 0 <= i <= j < d.len() implies d[i].0 <= d[j].0 by {
                assert(d[i] == sorted[i] && d[j] == sorted[j]);
            }
        }
        lemma_insert_ordered(d, x);
        let m = insert_by_rank(d, x);
        let r = m.push(sorted.last());
        assert forall|i: int, j: int| 0 <= i <= j < r.len() implies r[i].0 <= r[j].0 by {
            if j == r.len() - 1 && i < j {
                // every item of `m` is an item of `d` or `x`, each at most the last
                lemma_insert_bounded(d, x, sorted.last().0);
                assert(m[i].0 <= sorted.last().0);
            }
        }
    }
}

proof fn lemma_insert_bounded(d: Seq<(u64, usize)>, x: (u64, usize), b: u64)
    requires
        x.0 <= b,
        forall|i: int| 0 <= i < d.len() ==> d[i].0 <= b,
    ensures
        forall|i: int| 0 <= i < insert_by_rank(d, x).len() ==> insert_by_rank(d, x)[i].0 <= b,
    decreases d.len(),
{
    if d.len() == 0 {
        assert(insert_by_rank(d, x) == seq![x]);
    } else if d.last().0 <= x.0 {
        let r = d.push(x);
        assert(insert_by_rank(d, x) == r);
        assert forall|i: int| 0 <= i < r.len() implies r[i].0 <= b by {
            if i < d.len() {
                assert(r[i] == d[i]);
            }
        }
    } else {
        let e = d.drop_last();
        assert forall|i: int| 0 <= i < e.len() implies e[i].0 <= b by {
            assert(e[i] == d[i]);
        }
        lemma_insert_bounded(e, x, b);
        let m = insert_by_rank(e, x);
        let r = m.push(d.last());
        assert(insert_by_rank(d, x) == r);
        assert forall|i: int| 0 <= i < r.len() implies r[i].0 <= b by {
            if i < m.len() {
                assert(r[i] == m[i]);
            }
        }
    }
}

} // verus!
