//! hfst-tail: forward the last transducers of a stream, or those from a
//! given one on. Which transducers are forwarded, under which numbers, and
//! what the tool says about it stand here; reading and writing them is the
//! caller's.

use vstd::prelude::*;
use crate::common::{
    Channel, CommonCase, CommonOptions, CommonStep, Report, SpecCommon, SpecReport, argv0, common_case, end_with,
    error_case, initial_common, spec_argv0, spec_common_case, spec_error_case, spec_initial_common,
    spec_unary_case, spec_version_text, to_stdout, unary_case, version_text,
};
use crate::getopt::{HasArg, LongOpt, OptEvent, SpecEvent, SpecLongOpt, args_view, events_view, scan, spec_scan, table_view};
use crate::head::pairs_view;
use crate::text::{concat3, int_text, spec_has_prefix, spec_int_text, starts_with};
use crate::unary::{spec_help_report, spec_unary_table, spec_unary_usage, unary_table, unary_usage};

verus! {

/// The count `-n` gives: the parsed number, negated when the argument
/// starts with `+` (count from the front); -1 without `-n`, which forwards
/// from the first on.
pub open spec fn spec_tail_count(n_last: Option<(bool, i64)>) -> int {
    match n_last {
        Some((plus, k)) => if plus { -k } else { k as int },
        None => -1,
    }
}

/// The count `-n` gives; `n_last` holds whether the argument starts with
/// `+`, and the number it parses to.
pub fn tail_count(n_last: Option<(bool, i64)>) -> (k: i64)
    requires
        n_last matches Some((plus, k)) ==> k != i64::MIN,
    ensures
        k == spec_tail_count(n_last),
{
    match n_last {
        Some((plus, k)) => if plus { -k } else { k },
        None => -1,
    }
}

/// The transducers forwarded from a stream of `n` for the count `k`, in
/// order: each one's position (from 0) and the number its verbose line
/// shows. A positive count forwards the last `k` (all when the stream is
/// shorter), numbered on from `n - k - 1` when the stream is longer than
/// `k` and from 0 otherwise; a negative one forwards the transducers from
/// the `-k`th (counted from 1) on, each numbered with its place; 0
/// forwards none.
pub open spec fn spec_tail_forward(k: int, n: int) -> Seq<(int, int)> {
    if k > 0 {
        let m = if k < n { k } else { n };
        let start = if k < n { n - k - 1 } else { 0 };
        Seq::new(m as nat, |i: int| (n - m + i, start + 1 + i))
    } else if k < 0 {
        let s = -k;
        Seq::new((if n - s + 1 > 0 { n - s + 1 } else { 0 }) as nat, |i: int| (s - 1 + i, s + i))
    } else {
        Seq::empty()
    }
}

/// The transducers forwarded from a stream of `n` for the count `k`.
pub fn tail_forward(k: i64, n: usize) -> (r: Vec<(usize, usize)>)
    requires
        k != i64::MIN,
    ensures
        pairs_view(r@) == spec_tail_forward(k as int, n as int),
{
    let mut r: Vec<(usize, usize)> = Vec::new();
    let ghost target = spec_tail_forward(k as int, n as int);
    if k > 0 {
        let m: usize = if (k as i128) < (n as i128) { k as usize } else { n };
        let start: usize = if (k as i128) < (n as i128) { n - m - 1 } else { 0 };
        let mut i: usize = 0;
        while i < m
            invariant
                i <= m,
                m <= n,
                target == spec_tail_forward(k as int, n as int),
                target.len() == m,
                start + m <= n,
                forall|j: int| 0 <= j < m ==> #[trigger] target[j] == ((n - m + j) as int, (start + 1 + j) as int),
                pairs_view(r@) == target.subrange(0, i as int),
            decreases m - i,
        {
            let ghost before = pairs_view(r@);
            r.push((n - m + i, start + 1 + i));
            assert(pairs_view(r@) =~= before.push(target[i as int]));
            assert(target.subrange(0, i + 1) =~= target.subrange(0, i as int).push(target[i as int]));
            i = i + 1;
        }
        assert(target.subrange(0, m as int) =~= target);
    } else if k < 0 {
        if (-(k as i128)) <= (n as i128) {
            let s: usize = (-(k as i128)) as usize;
            let count: usize = n - s + 1;
            let mut i: usize = 0;
            while i < count
                invariant
                    i <= count,
                    1 <= s <= n,
                    count == n - s + 1,
                    s as int == -k,
                    target == spec_tail_forward(k as int, n as int),
                    target.len() == count,
                    pairs_view(r@) == target.subrange(0, i as int),
                decreases count - i,
            {
                let ghost before = pairs_view(r@);
                r.push((s - 1 + i, s + i));
                assert(pairs_view(r@) =~= before.push(target[i as int]));
                assert(target.subrange(0, i + 1) =~= target.subrange(0, i as int).push(target[i as int]));
                i = i + 1;
            }
            assert(target.subrange(0, count as int) =~= target);
        } else {
            assert(target =~= Seq::<(int, int)>::empty());
        }
    } else {
        assert(target =~= Seq::<(int, int)>::empty());
    }
    r
}

/// The verbose line before the stream is read.
pub open spec fn spec_counting(k: int) -> Seq<char> {
    if k > 0 {
        "Counting last "@ + spec_int_text(k) + " transducers...\n"@
    } else {
        "Skipping "@ + spec_int_text(-k) + " transducers...\n"@
    }
}

/// The verbose line before the stream is read; none for a count of 0.
pub fn counting(k: i64) -> (s: Option<String>)
    requires
        k != i64::MIN,
    ensures
        s is Some <==> k != 0,
        s matches Some(t) ==> t@ == spec_counting(k as int),
{
    if k > 0 {
        Some(concat3("Counting last ", int_text(k).as_str(), " transducers...\n"))
    } else if k < 0 {
        Some(concat3("Skipping ", int_text(-k).as_str(), " transducers...\n"))
    } else {
        None
    }
}

// ---------------------------------------------------------------------------
// The command line
// ---------------------------------------------------------------------------

/// The option table: the shared options and `-n`.
pub open spec fn spec_table() -> Seq<SpecLongOpt> {
    spec_unary_table().push(SpecLongOpt { name: "n-last"@, has_arg: HasArg::Required, val: 'n' })
}

fn table() -> (t: Vec<LongOpt>)
    ensures
        table_view(t@) == spec_table(),
{
    let mut t = unary_table();
    let ghost before = table_view(t@);
    t.push(crate::common::opt("n-last", HasArg::Required, 'n'));
    assert(table_view(t@) =~= before.push(SpecLongOpt { name: "n-last"@, has_arg: HasArg::Required, val: 'n' }));
    t
}

/// The usage text of hfst-tail.
pub open spec fn spec_usage(program_name: Seq<char>) -> Seq<char> {
    spec_unary_usage(
        program_name,
        "Get last transducers from an archive"@,
        "Archive options:\n  -n, --n-last=[+]K   Print the last K transducers;\n                      use +K to print transducers starting from the Kth\n"@,
        "K must be an integer, as parsed by strtoul base 10, and not 0.\nif K is omitted, it defaults to +1 (all except the first)\n"@,
    )
}

/// The usage text of hfst-tail.
pub fn print_usage(common: &CommonOptions) -> (s: String)
    ensures
        s@ == spec_usage(common.program_name@),
{
    unary_usage(
        common,
        "Get last transducers from an archive",
        "Archive options:\n  -n, --n-last=[+]K   Print the last K transducers;\n                      use +K to print transducers starting from the Kth\n",
        "K must be an integer, as parsed by strtoul base 10, and not 0.\nif K is omitted, it defaults to +1 (all except the first)\n",
    )
}

/// The version hfst-tail reports.
pub open spec fn tool_version() -> Seq<char> {
    "0.2"@
}

/// Where the option reading stops.
pub enum SpecPause {
    /// All events read; these are the settings.
    Done(SpecCommon),
    /// The tool ends with this report.
    End(SpecReport),
    /// The event at `at` is `-n` with this argument, for the caller to read
    /// as a number, and whether it starts with `+`; the settings read before
    /// it are these.
    Count { at: int, text: Seq<char>, plus: bool, common: SpecCommon },
}

/// Reads the events from `i` on: the shared options first, then `-n`.
pub open spec fn spec_read(c: SpecCommon, evs: Seq<SpecEvent>, i: int) -> SpecPause
    decreases evs.len() - i,
{
    if i < 0 || i >= evs.len() {
        SpecPause::Done(c)
    } else {
        match spec_common_case(c, evs[i]) {
            CommonCase::Handled(n) => spec_read(n, evs, i + 1),
            CommonCase::Help => SpecPause::End(spec_help_report(spec_usage(c.program_name))),
            CommonCase::Version => SpecPause::End(SpecReport {
                code: 0,
                messages: seq![(Channel::Stdout, spec_version_text(c.program_name, tool_version()))],
            }),
            CommonCase::NotHandled => match spec_unary_case(c, evs[i]) {
                Some(n) => spec_read(n, evs, i + 1),
                None => match evs[i] {
                    SpecEvent::Opt { val, arg } => if val == 'n' {
                        let a = arg.unwrap_or(Seq::empty());
                        SpecPause::Count { at: i, text: a, plus: spec_has_prefix(a, "+"@), common: c }
                    } else {
                        SpecPause::End(spec_error_case(c, evs[i]))
                    },
                    _ => SpecPause::End(spec_error_case(c, evs[i])),
                },
            },
        }
    }
}

/// The exec counterpart of [`SpecPause`]; the settings read so far are in
/// those the reading was given.
pub enum Pause {
    Done,
    End(Report),
    Count { at: usize, text: String, plus: bool },
}

/// Reads the option events from `from` on into `c`, up to the end, the end
/// of the tool, or the next `-n`; the caller reads its number, and the
/// count is then [`tail_count`] of it.
pub fn read_options(c: &mut CommonOptions, evs: &Vec<OptEvent>, from: usize) -> (r: Pause)
    ensures
        match spec_read(old(c)@, events_view(evs@), from as int) {
            SpecPause::Done(x) => r is Done && final(c)@ == x,
            SpecPause::End(x) => r matches Pause::End(y) && y@ == x,
            SpecPause::Count { at, text, plus, common } => r matches Pause::Count { at: a2, text: t2, plus: p2 }
                && a2 == at && t2@ == text && p2 == plus && final(c)@ == common,
        },
{
    let ghost ev = events_view(evs@);
    let mut i: usize = from;
    while i < evs.len()
        invariant
            ev == events_view(evs@),
            from <= i,
            spec_read(old(c)@, ev, from as int) == spec_read(c@, ev, i as int),
        decreases evs@.len() - i,
    {
        assert(ev[i as int] == evs@[i as int]@);
        match common_case(c, &evs[i]) {
            CommonStep::Handled => {},
            CommonStep::Help => {
                return Pause::End(end_with(0, to_stdout(print_usage(c))));
            },
            CommonStep::Version => {
                return Pause::End(end_with(0, to_stdout(version_text(c, "0.2"))));
            },
            CommonStep::NotHandled => {
                if !unary_case(c, &evs[i]) {
                    match &evs[i] {
                        OptEvent::Opt { val, arg } => {
                            if *val == 'n' {
                                let a = match arg {
                                    Some(s) => s.clone(),
                                    None => String::new(),
                                };
                                let plus = starts_with(a.as_str(), "+");
                                return Pause::Count { at: i, text: a, plus };
                            } else {
                                return Pause::End(error_case(c, &evs[i]));
                            }
                        },
                        _ => {
                            return Pause::End(error_case(c, &evs[i]));
                        },
                    }
                }
            },
        }
        i = i + 1;
    }
    Pause::Done
}

/// What the tool starts from: its settings and the scanned command line;
/// the count is -1 until `-n` is read.
pub struct Start {
    pub common: CommonOptions,
    pub events: Vec<OptEvent>,
    pub operands: Vec<String>,
}

/// Scans hfst-tail's command line (`args[0]` is the program name); the
/// options are then read with [`read_options`] from event 0, and the
/// operands checked with [`crate::common::check_unary`].
pub fn run(args: &Vec<String>) -> (r: Start)
    ensures
        r.common@ == spec_initial_common(spec_argv0(args_view(args@))),
        events_view(r.events@) == spec_scan(args_view(args@), spec_table()).0,
        args_view(r.operands@) == spec_scan(args_view(args@), spec_table()).1,
{
    let name = argv0(args);
    let common = initial_common(name.as_str());
    let t = table();
    let sc = scan(args, &t);
    Start { common, events: sc.events, operands: sc.operands }
}

// ---------------------------------------------------------------------------
// Laws
// ---------------------------------------------------------------------------

/// A positive count `k` forwards the last `k` transducers of the stream
/// (all when it is shorter), in order; `+K` forwards the transducers from
/// the `K`th on.
pub proof fn lemma_tail_keeps_a_suffix(k: int, n: int)
    requires
        n >= 0,
    ensures
        k > 0 ==> spec_tail_forward(k, n).len() == (if k < n { k } else { n }),
        k > 0 ==> forall|i: int| 0 <= i < spec_tail_forward(k, n).len()
            ==> #[trigger] spec_tail_forward(k, n)[i].0 == n - spec_tail_forward(k, n).len() + i,
        k < 0 ==> forall|i: int| 0 <= i < spec_tail_forward(k, n).len()
            ==> #[trigger] spec_tail_forward(k, n)[i].0 == -k - 1 + i,
        k < 0 && -k <= n ==> spec_tail_forward(k, n).len() == n + k + 1,
{
}

} // verus!
