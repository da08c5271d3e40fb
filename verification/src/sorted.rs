//! Ordered sets of strings, kept as strictly increasing vectors: the order is
//! that of `String`'s `Ord` (character by character, by code point), so
//! iterating one gives what iterating a `BTreeSet<String>` gives.

use vstd::prelude::*;
use crate::text::chars_of;

verus! {

/// Whether `a` sorts before `b`, character by character.
pub open spec fn seq_lt(a: Seq<char>, b: Seq<char>) -> bool
    decreases a.len(),
{
    if a.len() == 0 {
        b.len() > 0
    } else if b.len() == 0 {
        false
    } else if a[0] != b[0] {
        a[0] < b[0]
    } else {
        seq_lt(a.drop_first(), b.drop_first())
    }
}

/// `s` with `x` inserted in order, unless it is there already.
pub open spec fn spec_insert(s: Seq<Seq<char>>, x: Seq<char>) -> Seq<Seq<char>>
    decreases s.len(),
{
    if s.len() == 0 {
        seq![x]
    } else if x == s[0] {
        s
    } else if seq_lt(x, s[0]) {
        seq![x] + s
    } else {
        seq![s[0]] + spec_insert(s.drop_first(), x)
    }
}

/// The ordered set of the strings of `items`.
pub open spec fn spec_ordered_set(items: Seq<Seq<char>>) -> Seq<Seq<char>>
    decreases items.len(),
{
    if items.len() == 0 {
        seq![]
    } else {
        spec_insert(spec_ordered_set(items.drop_last()), items.last())
    }
}

/// Whether `s` is strictly increasing.
pub open spec fn strictly_sorted(s: Seq<Seq<char>>) -> bool {
    forall|i: int, j: int| 0 <= i < j < s.len() ==> seq_lt(s[i], s[j])
}

pub(crate) proof fn lemma_lt_trans(a: Seq<char>, b: Seq<char>, c: Seq<char>)
    requires
        seq_lt(a, b),
        seq_lt(b, c),
    ensures
        seq_lt(a, c),
    decreases a.len(),
{
    if a.len() > 0 && b.len() > 0 && c.len() > 0 && a[0] == b[0] && b[0] == c[0] {
        lemma_lt_trans(a.drop_first(), b.drop_first(), c.drop_first());
    }
}

proof fn lemma_lt_total(a: Seq<char>, b: Seq<char>)
    ensures
        a == b || seq_lt(a, b) || seq_lt(b, a),
    decreases a.len(),
{
    if a.len() > 0 && b.len() > 0 && a[0] == b[0] {
        lemma_lt_total(a.drop_first(), b.drop_first());
        if a.drop_first() == b.drop_first() {
            assert(a =~= seq![a[0]] + a.drop_first());
            assert(b =~= seq![b[0]] + b.drop_first());
        }
    } else if a.len() == 0 && b.len() == 0 {
        assert(a =~= b);
    } else if a.len() > 0 && b.len() > 0 {
    }
}

pub(crate) proof fn lemma_lt_irreflexive(a: Seq<char>)
    ensures
        !seq_lt(a, a),
    decreases a.len(),
{
    if a.len() > 0 {
        lemma_lt_irreflexive(a.drop_first());
    }
}

/// Inserting keeps a vector strictly sorted, and adds exactly `x`.
pub proof fn lemma_insert(s: Seq<Seq<char>>, x: Seq<char>)
    requires
        strictly_sorted(s),
    ensures
        strictly_sorted(spec_insert(s, x)),
        spec_insert(s, x).to_set() == s.to_set().insert(x),
    decreases s.len(),
{
    let r = spec_insert(s, x);
    if s.len() == 0 {
        assert(r.to_set() =~= s.to_set().insert(x)) by {
            assert(r == seq![x]);
            assert(r[0] == x);
            assert(r.contains(x));
        }
    } else if x == s[0] {
        assert(s.contains(x));
        assert(r.to_set() =~= s.to_set().insert(x));
    } else if seq_lt(x, s[0]) {
        assert forall|i: int, j: int| 0 <= i < j < r.len() implies seq_lt(r[i], r[j]) by {
            if i == 0 {
                if j > 1 {
                    lemma_lt_trans(x, s[0], s[j - 1]);
                }
            } else {
                assert(r[i] == s[i - 1] && r[j] == s[j - 1]);
            }
        }
        assert forall|y: Seq<char>| r.contains(y) <==> s.to_set().insert(x).contains(y) by {
            if r.contains(y) {
                let k = choose|k: int| 0 <= k < r.len() && r[k] == y;
                if k > 0 {
                    assert(s[k - 1] == y);
                }
            }
            if s.contains(y) {
                let k = choose|k: int| 0 <= k < s.len() && s[k] == y;
                assert(r[k + 1] == y);
            }
            if y == x {
                assert(r[0] == y);
            }
        }
        assert(r.to_set() =~= s.to_set().insert(x));
    } else {
        let t = s.drop_first();
        assert(strictly_sorted(t)) by {
            assert forall|i: int, j: int| 0 <= i < j < t.len() implies seq_lt(t[i], t[j]) by {
                assert(t[i] == s[i + 1] && t[j] == s[j + 1]);
            }
        }
        lemma_insert(t, x);
        let u = spec_insert(t, x);
        lemma_lt_total(x, s[0]);
        assert(seq_lt(s[0], x));
        assert forall|k: int| 0 <= k < u.len() implies seq_lt(s[0], #[trigger] u[k]) by {
            assert(u.to_set().contains(u[k]));
            assert(u.contains(u[k]));
            if u[k] != x {
                assert(t.to_set().contains(u[k]));
                let m = choose|m: int| 0 <= m < t.len() && t[m] == u[k];
                assert(s[m + 1] == u[k]);
            }
        }
        assert forall|i: int, j: int| 0 <= i < j < r.len() implies seq_lt(r[i], r[j]) by {
            if i == 0 {
                assert(r[j] == u[j - 1]);
            } else {
                assert(r[i] == u[i - 1] && r[j] == u[j - 1]);
            }
        }
        assert forall|y: Seq<char>| r.contains(y) <==> s.to_set().insert(x).contains(y) by {
            if r.contains(y) {
                let k = choose|k: int| 0 <= k < r.len() && r[k] == y;
                if k > 0 {
                    assert(u[k - 1] == y);
                    assert(u.contains(y));
                    assert(u.to_set().contains(y));
                    if y != x {
                        assert(t.to_set().contains(y));
                        let m = choose|m: int| 0 <= m < t.len() && t[m] == y;
                        assert(s[m + 1] == y);
                    }
                } else {
                    assert(s[0] == y);
                }
            }
            if s.contains(y) {
                let k = choose|k: int| 0 <= k < s.len() && s[k] == y;
                if k == 0 {
                    assert(r[0] == y);
                } else {
                    assert(t[k - 1] == y);
                    assert(t.to_set().contains(y));
                    assert(u.to_set().contains(y));
                    let m = choose|m: int| 0 <= m < u.len() && u[m] == y;
                    assert(r[m + 1] == y);
                }
            }
            if y == x {
                assert(u.to_set().contains(x));
                let m = choose|m: int| 0 <= m < u.len() && u[m] == x;
                assert(r[m + 1] == x);
            }
        }
        assert(r.to_set() =~= s.to_set().insert(x));
    }
}

/// The ordered set of a list is strictly increasing and holds exactly the
/// list's strings.
pub proof fn lemma_ordered_set(items: Seq<Seq<char>>)
    ensures
        strictly_sorted(spec_ordered_set(items)),
        spec_ordered_set(items).to_set() == items.to_set(),
    decreases items.len(),
{
    if items.len() == 0 {
        assert(items.to_set() =~= Set::<Seq<char>>::empty());
        assert(spec_ordered_set(items).to_set() =~= Set::<Seq<char>>::empty());
    } else {
        let p = items.drop_last();
        lemma_ordered_set(p);
        lemma_insert(spec_ordered_set(p), items.last());
        assert(items =~= p.push(items.last()));
        assert(items.to_set() =~= p.to_set().insert(items.last())) by {
            assert forall|y: Seq<char>| items.contains(y) <==> p.to_set().insert(items.last()).contains(y) by {
                if items.contains(y) {
                    let k = choose|k: int| 0 <= k < items.len() && items[k] == y;
                    if k < items.len() - 1 {
                        assert(p[k] == y);
                    }
                }
                if p.contains(y) {
                    let k = choose|k: int| 0 <= k < p.len() && p[k] == y;
                    assert(items[k] == y);
                }
                if y == items.last() {
                    assert(items[items.len() - 1] == y);
                }
            }
        }
    }
}

/// Whether `a` sorts before `b`.
pub fn str_lt(a: &str, b: &str) -> (r: bool)
    ensures
        r == seq_lt(a@, b@),
{
    let x = chars_of(a);
    let y = chars_of(b);
    let mut i: usize = 0;
    assert(a@.subrange(0, a@.len() as int) =~= a@);
    assert(b@.subrange(0, b@.len() as int) =~= b@);
    while i < x.len() && i < y.len() && x[i] == y[i]
        invariant
            x@ == a@,
            y@ == b@,
            i <= x@.len(),
            i <= y@.len(),
            seq_lt(a@, b@) == seq_lt(a@.subrange(i as int, a@.len() as int), b@.subrange(i as int, b@.len() as int)),
        decreases x@.len() - i,
    {
        proof {
            let s = a@.subrange(i as int, a@.len() as int);
            let t = b@.subrange(i as int, b@.len() as int);
            assert(s.drop_first() =~= a@.subrange(i + 1, a@.len() as int));
            assert(t.drop_first() =~= b@.subrange(i + 1, b@.len() as int));
        }
        i = i + 1;
    }
    let ghost s = a@.subrange(i as int, a@.len() as int);
    let ghost t = b@.subrange(i as int, b@.len() as int);
    if i == x.len() {
        assert(s.len() == 0);
        i < y.len()
    } else if i == y.len() {
        assert(t.len() == 0 && s.len() > 0);
        false
    } else {
        assert(s[0] == x@[i as int] && t[0] == y@[i as int]);
        x[i] < y[i]
    }
}

pub open spec fn strings_view(v: Seq<String>) -> Seq<Seq<char>> {
    v.map_values(|s: String| s@)
}

/// Inserts `x` into the ordered set `v`.
pub fn insert(v: &mut Vec<String>, x: String)
    ensures
        strings_view(final(v)@) == spec_insert(strings_view(old(v)@), x@),
{
    let ghost xs = x@;
    let ghost s0 = strings_view(v@);
    let mut k: usize = 0;
    while k < v.len()
        invariant
            s0 == strings_view(old(v)@),
            v@ == old(v)@,
            xs == x@,
            k <= v@.len(),
            forall|j: int| 0 <= j < k ==> (#[trigger] v@[j])@ != xs && !seq_lt(xs, v@[j]@),
        decreases v@.len() - k,
    {
        if v[k] == x {
            proof { lemma_insert_found(s0, xs, k as int); }
            return;
        }
        if str_lt(x.as_str(), v[k].as_str()) {
            proof { lemma_insert_before(s0, xs, k as int); }
            v.insert(k, x);
            assert(strings_view(v@) =~= s0.subrange(0, k as int) + seq![xs] + s0.subrange(k as int, s0.len() as int));
            return;
        }
        k = k + 1;
    }
    proof { lemma_insert_before(s0, xs, s0.len() as int); }
    v.push(x);
    assert(strings_view(v@) =~= s0.subrange(0, s0.len() as int) + seq![xs] + s0.subrange(s0.len() as int, s0.len() as int));
}

proof fn lemma_insert_found(s: Seq<Seq<char>>, x: Seq<char>, k: int)
    requires
        0 <= k < s.len(),
        s[k] == x,
        forall|j: int| 0 <= j < k ==> s[j] != x && !seq_lt(x, #[trigger] s[j]),
    ensures
        spec_insert(s, x) == s,
    decreases k,
{
    if k > 0 {
        lemma_insert_found(s.drop_first(), x, k - 1);
        assert(seq![s[0]] + s.drop_first() =~= s);
    }
}

proof fn lemma_insert_before(s: Seq<Seq<char>>, x: Seq<char>, k: int)
    requires
        0 <= k <= s.len(),
        k < s.len() ==> s[k] != x && seq_lt(x, s[k]),
        forall|j: int| 0 <= j < k ==> s[j] != x && !seq_lt(x, #[trigger] s[j]),
    ensures
        spec_insert(s, x) == s.subrange(0, k) + seq![x] + s.subrange(k, s.len() as int),
    decreases k,
{
    if k == 0 {
        assert(s.subrange(0, 0) + seq![x] + s.subrange(0, s.len() as int) =~= seq![x] + s);
    } else {
        let t = s.drop_first();
        assert forall|j: int| 0 <= j < k - 1 implies t[j] != x && !seq_lt(x, #[trigger] t[j]) by {
            assert(t[j] == s[j + 1]);
        }
        lemma_insert_before(t, x, k - 1);
        assert(seq![s[0]] + (t.subrange(0, k - 1) + seq![x] + t.subrange(k - 1, t.len() as int)) =~= s.subrange(0, k) + seq![x] + s.subrange(k, s.len() as int));
    }
}

/// The ordered set of the strings of `items`.
pub fn ordered_set(items: &Vec<String>) -> (v: Vec<String>)
    ensures
        strings_view(v@) == spec_ordered_set(strings_view(items@)),
{
    let ghost iv = strings_view(items@);
    let mut v: Vec<String> = Vec::new();
    let mut k: usize = 0;
    while k < items.len()
        invariant
            iv == strings_view(items@),
            k <= items@.len(),
            strings_view(v@) == spec_ordered_set(iv.subrange(0, k as int)),
        decreases items@.len() - k,
    {
        proof {
            let p = iv.subrange(0, k + 1);
            assert(p.drop_last() =~= iv.subrange(0, k as int));
            assert(p.last() == items@[k as int]@);
        }
        insert(&mut v, items[k].clone());
        k = k + 1;
    }
    assert(iv.subrange(0, items@.len() as int) =~= iv);
    v
}

} // verus!
