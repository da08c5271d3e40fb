//! hfst-head: forward the first transducers of a stream, or all but its
//! last. Which transducers are forwarded, under which numbers, and what
//! the tool says about it stand here; reading and writing them is the
//! caller's.

use vstd::prelude::*;
use crate::text::{concat2, concat3, int_text, spec_int_text};

verus! {

/// The count `-n` gives: the number parsed from its argument; 1 without it.
pub open spec fn spec_head_count(n_first: Option<i64>) -> i64 {
    match n_first {
        Some(k) => k,
        None => 1,
    }
}

/// The count `-n` gives.
pub fn head_count(n_first: Option<i64>) -> (k: i64)
    ensures
        k == spec_head_count(n_first),
{
    match n_first {
        Some(k) => k,
        None => 1,
    }
}

/// The warning for a count of 0.
pub open spec fn zero_count() -> Seq<char> {
    "Argument 0 for count is not sensible"@
}

/// The warning the tool gives before reading, for a count of 0.
pub fn count_warning(k: i64) -> (w: Option<String>)
    ensures
        w is Some <==> k == 0,
        w matches Some(t) ==> t@ == zero_count(),
{
    if k == 0 {
        Some("Argument 0 for count is not sensible".to_owned())
    } else {
        None
    }
}

/// The transducers forwarded from a stream of `n` for the count `k`, in
/// order: each one's position (from 0) and the number its verbose line
/// shows. A positive count forwards the first `k`, numbered from 1; a
/// negative one all but the last `-k`, each numbered with the stream's
/// length; 0 forwards none.
pub open spec fn spec_head_forward(k: int, n: int) -> Seq<(int, int)> {
    if k > 0 {
        Seq::new((if k < n { k } else { n }) as nat, |i: int| (i, i + 1))
    } else if k < 0 {
        Seq::new((if n + k > 0 { n + k } else { 0 }) as nat, |i: int| (i, n))
    } else {
        Seq::empty()
    }
}

/// The view of a list of (position, number) pairs.
pub open spec fn pairs_view(v: Seq<(usize, usize)>) -> Seq<(int, int)> {
    v.map_values(|p: (usize, usize)| (p.0 as int, p.1 as int))
}

/// The transducers forwarded from a stream of `n` for the count `k`.
pub fn head_forward(k: i64, n: usize) -> (r: Vec<(usize, usize)>)
    requires
        k != i64::MIN,
    ensures
        pairs_view(r@) == spec_head_forward(k as int, n as int),
{
    let mut r: Vec<(usize, usize)> = Vec::new();
    let count: usize = if k > 0 {
        if (k as i128) < (n as i128) { k as usize } else { n }
    } else if k < 0 {
        if (n as i128) + (k as i128) > 0 { ((n as i128) + (k as i128)) as usize } else { 0 }
    } else {
        0
    };
    let ghost target = spec_head_forward(k as int, n as int);
    assert(target.len() == count);
    let mut i: usize = 0;
    while i < count
        invariant
            i <= count,
            target == spec_head_forward(k as int, n as int),
            target.len() == count,
            count <= n,
            k < 0 ==> count < n || count == 0,
            pairs_view(r@) == target.subrange(0, i as int),
        decreases count - i,
    {
        let label = if k > 0 { i + 1 } else { n };
        let ghost before = pairs_view(r@);
        r.push((i, label));
        assert(pairs_view(r@) =~= before.push((i as int, label as int)));
        assert(target.subrange(0, i + 1) =~= target.subrange(0, i as int).push(target[i as int]));
        i = i + 1;
    }
    assert(target.subrange(0, count as int) =~= target);
    r
}

/// The verbose line before a negative count reads the stream.
pub open spec fn spec_counting(k: int) -> Seq<char> {
    "Counting all but last "@ + spec_int_text(k) + "\n"@
}

/// The verbose line before a negative count reads the stream.
pub fn counting(k: i64) -> (s: String)
    ensures
        s@ == spec_counting(k as int),
{
    concat3("Counting all but last ", int_text(k).as_str(), "\n")
}

/// The warning when a negative count leaves nothing: the stream in `input`
/// is shorter than `-k`.
pub open spec fn spec_short_stream(input: Seq<char>, k: int) -> Seq<char> {
    "Stream in "@ + input + " has less than "@ + spec_int_text(-k) + " automata; Nothing will be written to output"@
}

/// The warning after reading `n` transducers for the count `k`, if any.
pub fn short_stream(input: &str, k: i64, n: usize) -> (w: Option<String>)
    requires
        k != i64::MIN,
    ensures
        w is Some <==> k < 0 && -k > n,
        w matches Some(t) ==> t@ == spec_short_stream(input@, k as int),
{
    if k < 0 && (-(k as i128)) > (n as i128) {
        let mut t = concat3("Stream in ", input, " has less than ");
        t.append(int_text(-k).as_str());
        t.append(" automata; Nothing will be written to output");
        Some(t)
    } else {
        None
    }
}

/// The verbose line before a transducer is forwarded.
pub open spec fn spec_forwarding(name: Seq<char>, number: int) -> Seq<char> {
    "Forwarding "@ + name + "..."@ + spec_int_text(number) + "\n"@
}

/// The verbose line before a transducer is forwarded: its name, or the
/// input's when it has none.
pub fn forwarding(name: &str, number: usize) -> (s: String)
    requires
        number <= i64::MAX,
    ensures
        s@ == spec_forwarding(name@, number as int),
{
    let mut s = concat2("Forwarding ", name);
    s.append("...");
    s.append(int_text(number as i64).as_str());
    s.append("\n");
    s
}

// ---------------------------------------------------------------------------
// Laws
// ---------------------------------------------------------------------------

/// A positive count `k` forwards the first `k` transducers, or all when the
/// stream is shorter; a negative one all but the last `-k`, and none when
/// the stream is no longer than `-k`. Either way the stream's order is kept.
pub proof fn lemma_head_keeps_a_prefix(k: int, n: int)
    requires
        n >= 0,
    ensures
        k > 0 ==> spec_head_forward(k, n).len() == (if k < n { k } else { n }),
        k < 0 ==> spec_head_forward(k, n).len() == (if n + k > 0 { n + k } else { 0 }),
        forall|i: int| 0 <= i < spec_head_forward(k, n).len() ==> #[trigger] spec_head_forward(k, n)[i].0 == i,
{
}

} // verus!
