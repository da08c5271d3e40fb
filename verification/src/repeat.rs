//! hfst-repeat: repeat the transducers of a stream between two bounds.
//! The options (the bounds, numbers as `strtod` reads them, are read by the
//! caller, which resumes the reading), the checks on the bounds, the
//! repetition chosen and what the tool says stand here.

use vstd::prelude::*;
use crate::common::{
    CommonOptions, Report, SpecCommon, SpecReport, argv0, error_case, fail_with, initial_common,
    spec_argv0, spec_error_case, spec_fail_report, spec_initial_common,
};
use crate::getopt::{HasArg, LongOpt, OptEvent, SpecEvent, SpecLongOpt, args_view, events_view, scan, spec_scan, table_view};
use crate::text::{concat3, decimal, spec_decimal};
use crate::unary::{Shared, SpecShared, shared_step, spec_shared_step, spec_unary_table, spec_unary_usage, unary_table, unary_usage};

verus! {

/// The bounds: at least `at_least` times (or infinitely often), at most
/// `at_most` times (or without limit).
#[derive(Clone, Copy, PartialEq, Eq, Structural, Debug)]
pub struct Bounds {
    pub at_least: u64,
    pub at_most: u64,
    pub from_infinity: bool,
    pub to_infinity: bool,
}

/// The bounds before any option: from 0, without limit.
pub open spec fn spec_default_bounds() -> Bounds {
    Bounds { at_least: 0, at_most: 0xffff_ffff, from_infinity: false, to_infinity: true }
}

/// The bounds before any option.
pub fn default_bounds() -> (b: Bounds)
    ensures
        b == spec_default_bounds(),
{
    Bounds { at_least: 0, at_most: 0xffff_ffff, from_infinity: false, to_infinity: true }
}

/// The option table: the shared options, `-f` and `-t`.
pub open spec fn spec_table() -> Seq<SpecLongOpt> {
    spec_unary_table() + seq![
        SpecLongOpt { name: "from"@, has_arg: HasArg::Required, val: 'f' },
        SpecLongOpt { name: "to"@, has_arg: HasArg::Required, val: 't' },
    ]
}

fn table() -> (t: Vec<LongOpt>)
    ensures
        table_view(t@) == spec_table(),
{
    let mut t = unary_table();
    t.push(crate::common::opt("from", HasArg::Required, 'f'));
    t.push(crate::common::opt("to", HasArg::Required, 't'));
    assert(table_view(t@) =~= spec_table());
    t
}

/// The usage text of hfst-repeat.
pub open spec fn spec_usage(program_name: Seq<char>) -> Seq<char> {
    spec_unary_usage(
        program_name,
        "Repeat transducer"@,
        "Repetition options:\n  -f, --from=FNUM   repeat at least FNUM times\n  -t, --to=TNUM     repeat at most TNUM times\n"@,
        "FNUM and TNUM must be positive integers or infinities as parsed by strtod(3)\nif FNUM is omitted it defaults to 0, if TNUM is omitted it defaults to Inf\nFNUM must be less than TNUM\n"@,
    )
}

/// The usage text of hfst-repeat.
pub fn print_usage(common: &CommonOptions) -> (s: String)
    ensures
        s@ == spec_usage(common.program_name@),
{
    unary_usage(
        common,
        "Repeat transducer",
        "Repetition options:\n  -f, --from=FNUM   repeat at least FNUM times\n  -t, --to=TNUM     repeat at most TNUM times\n",
        "FNUM and TNUM must be positive integers or infinities as parsed by strtod(3)\nif FNUM is omitted it defaults to 0, if TNUM is omitted it defaults to Inf\nFNUM must be less than TNUM\n",
    )
}

/// Which bound an option sets.
#[derive(Clone, Copy, PartialEq, Eq, Structural, Debug)]
pub enum Bound {
    /// `-f`.
    From,
    /// `-t`.
    To,
}

/// Where the option reading stops.
pub enum SpecPause {
    /// All events read; these are the settings.
    Done(SpecCommon),
    /// The tool ends with this report.
    End(SpecReport),
    /// The event at `at` is `-f` or `-t` with this argument, for the caller
    /// to read as a number; the settings read before it are these.
    Number { at: int, bound: Bound, text: Seq<char>, common: SpecCommon },
}

/// Reads the events from `i` on: the shared options first, then `-f` and
/// `-t`.
pub open spec fn spec_read(c: SpecCommon, evs: Seq<SpecEvent>, i: int) -> SpecPause
    decreases evs.len() - i,
{
    if i < 0 || i >= evs.len() {
        SpecPause::Done(c)
    } else {
        match spec_shared_step(c, evs[i], spec_usage(c.program_name)) {
            SpecShared::Continue(n) => spec_read(n, evs, i + 1),
            SpecShared::Stop(r) => SpecPause::End(r),
            SpecShared::Own => match evs[i] {
                SpecEvent::Opt { val, arg } => if val == 'f' {
                    SpecPause::Number { at: i, bound: Bound::From, text: arg.unwrap_or(Seq::empty()), common: c }
                } else if val == 't' {
                    SpecPause::Number { at: i, bound: Bound::To, text: arg.unwrap_or(Seq::empty()), common: c }
                } else {
                    SpecPause::End(spec_error_case(c, evs[i]))
                },
                _ => SpecPause::End(spec_error_case(c, evs[i])),
            },
        }
    }
}

/// The exec counterpart of [`SpecPause`]; the settings read so far are in
/// those the reading was given.
pub enum Pause {
    Done,
    End(Report),
    Number { at: usize, bound: Bound, text: String },
}

/// Reads the option events from `from` on into `c`, up to the end, the end
/// of the tool, or the next bound.
pub fn read_options(c: &mut CommonOptions, evs: &Vec<OptEvent>, from: usize) -> (r: Pause)
    ensures
        match spec_read(old(c)@, events_view(evs@), from as int) {
            SpecPause::Done(x) => r is Done && final(c)@ == x,
            SpecPause::End(x) => r matches Pause::End(y) && y@ == x,
            SpecPause::Number { at, bound, text, common } => r matches Pause::Number { at: a2, bound: b2, text: t2 }
                && a2 == at && b2 == bound && t2@ == text && final(c)@ == common,
        },
{
    let ghost ev = events_view(evs@);
    let mut i: usize = from;
    while i < evs.len()
        invariant
            ev == events_view(evs@),
            from <= i,
            spec_read(old(c)@, ev, from as int) == spec_read(c@, ev, i as int),
        decreases evs@.len() - i,
    {
        assert(ev[i as int] == evs@[i as int]@);
        let usage = print_usage(c);
        match shared_step(c, &evs[i], usage.as_str()) {
            Shared::Continue => {},
            Shared::Stop(r) => {
                return Pause::End(r);
            },
            Shared::Own => {
                match &evs[i] {
                    OptEvent::Opt { val, arg } => {
                        let a = match arg {
                            Some(s) => s.clone(),
                            None => String::new(),
                        };
                        if *val == 'f' {
                            return Pause::Number { at: i, bound: Bound::From, text: a };
                        } else if *val == 't' {
                            return Pause::Number { at: i, bound: Bound::To, text: a };
                        } else {
                            return Pause::End(error_case(c, &evs[i]));
                        }
                    },
                    _ => {
                        return Pause::End(error_case(c, &evs[i]));
                    },
                }
            },
        }
        i = i + 1;
    }
    Pause::Done
}

/// What the bounds become when `bound` reads as `value`, infinite or not.
pub open spec fn spec_set_bound(b: Bounds, bound: Bound, value: u64, infinite: bool) -> Bounds {
    match bound {
        Bound::From => Bounds { at_least: value, from_infinity: infinite, ..b },
        Bound::To => Bounds { at_most: value, to_infinity: infinite, ..b },
    }
}

/// Records a bound the caller read.
pub fn set_bound(b: &mut Bounds, bound: Bound, value: u64, infinite: bool)
    ensures
        *final(b) == spec_set_bound(*old(b), bound, value, infinite),
{
    match bound {
        Bound::From => {
            b.at_least = value;
            b.from_infinity = infinite;
        },
        Bound::To => {
            b.at_most = value;
            b.to_infinity = infinite;
        },
    }
}

/// The repetition the bounds choose.
#[derive(Clone, Copy, PartialEq, Eq, Structural, Debug)]
pub enum Repetition {
    /// From `n` to `k` times.
    Range(u64, u64),
    /// Any number of times.
    Star,
    /// `n` times or more.
    AtLeast(u64),
}

/// The checks on the bounds, after the operands: the lower bound may not
/// exceed the upper, nor be infinite under a finite upper bound. Then the
/// repetition they choose.
pub open spec fn spec_resolve(program_name: Seq<char>, b: Bounds) -> Result<Repetition, SpecReport> {
    if b.at_least > b.at_most {
        Err(spec_fail_report(
            program_name,
            "Cannot repeat from "@ + spec_decimal(b.at_least as nat) + " to "@ + spec_decimal(b.at_most as nat)
                + " times\n"@,
        ))
    } else if b.from_infinity && !b.to_infinity {
        Err(spec_fail_report(
            program_name,
            "Cannot repeat from infinity to "@ + spec_decimal(b.at_most as nat) + " times\n"@,
        ))
    } else if !b.from_infinity && !b.to_infinity {
        Ok(Repetition::Range(b.at_least, b.at_most))
    } else if b.from_infinity {
        Ok(Repetition::Star)
    } else {
        Ok(Repetition::AtLeast(b.at_least))
    }
}

/// Applies the checks on the bounds.
pub fn resolve(c: &CommonOptions, b: &Bounds) -> (r: Result<Repetition, Report>)
    ensures
        match (r, spec_resolve(c.program_name@, *b)) {
            (Ok(x), Ok(y)) => x == y,
            (Err(x), Err(y)) => x@ == y,
            _ => false,
        },
{
    if b.at_least > b.at_most {
        let mut t = concat3("Cannot repeat from ", decimal(b.at_least as u128).as_str(), " to ");
        t.append(decimal(b.at_most as u128).as_str());
        t.append(" times\n");
        Err(fail_with(c, t.as_str()))
    } else if b.from_infinity && !b.to_infinity {
        let t = concat3("Cannot repeat from infinity to ", decimal(b.at_most as u128).as_str(), " times\n");
        Err(fail_with(c, t.as_str()))
    } else if !b.from_infinity && !b.to_infinity {
        Ok(Repetition::Range(b.at_least, b.at_most))
    } else if b.from_infinity {
        Ok(Repetition::Star)
    } else {
        Ok(Repetition::AtLeast(b.at_least))
    }
}

/// The verbose line announcing the repetition, before the stream is read.
pub open spec fn spec_plan_line(r: Repetition) -> Seq<char> {
    match r {
        Repetition::Range(n, k) => "Repeating from "@ + spec_decimal(n as nat) + " to "@ + spec_decimal(k as nat)
            + " times\n"@,
        Repetition::Star => "Repeating star infinitely\n"@,
        Repetition::AtLeast(n) => "Repeating from "@ + spec_decimal(n as nat) + " to infinite times\n"@,
    }
}

/// The verbose line announcing the repetition.
pub fn plan_line(r: Repetition) -> (s: String)
    ensures
        s@ == spec_plan_line(r),
{
    match r {
        Repetition::Range(n, k) => {
            let mut s = concat3("Repeating from ", decimal(n as u128).as_str(), " to ");
            s.append(decimal(k as u128).as_str());
            s.append(" times\n");
            s
        },
        Repetition::Star => "Repeating star infinitely\n".to_owned(),
        Repetition::AtLeast(n) => concat3("Repeating from ", decimal(n as u128).as_str(), " to infinite times\n"),
    }
}

/// The verbose line announcing the `n`th transducer (from 1), named
/// `name`.
pub open spec fn spec_repeating(r: Repetition, name: Seq<char>, n: int) -> Seq<char> {
    let head = match r {
        Repetition::Range(a, b) => "Repeating ["@ + spec_decimal(a as nat) + ".."@ + spec_decimal(b as nat) + "] "@ + name
            + "..."@,
        Repetition::Star => "Repeating star "@ + name + "..."@,
        Repetition::AtLeast(a) => "Repeating ["@ + spec_decimal(a as nat) + "..*] "@ + name + "..."@,
    };
    if n == 1 { head + "\n"@ } else { head + " "@ + spec_decimal(n as nat) + "\n"@ }
}

/// The verbose line announcing the `n`th transducer.
pub fn repeating(r: Repetition, name: &str, n: u64) -> (s: String)
    requires
        n >= 1,
    ensures
        s@ == spec_repeating(r, name@, n as int),
{
    let mut s = match r {
        Repetition::Range(a, b) => {
            let mut h = concat3("Repeating [", decimal(a as u128).as_str(), "..");
            h.append(decimal(b as u128).as_str());
            h.append("] ");
            h.append(name);
            h.append("...");
            h
        },
        Repetition::Star => concat3("Repeating star ", name, "..."),
        Repetition::AtLeast(a) => {
            let mut h = concat3("Repeating [", decimal(a as u128).as_str(), "..*] ");
            h.append(name);
            h.append("...");
            h
        },
    };
    if n == 1 {
        s.append("\n");
    } else {
        s.append(" ");
        s.append(decimal(n as u128).as_str());
        s.append("\n");
    }
    s
}

/// The operation name and formula the result is given.
pub open spec fn spec_result_label(r: Repetition) -> (Seq<char>, Seq<char>) {
    match r {
        Repetition::Range(a, b) => (
            "repeat-"@ + spec_decimal(a as nat) + "-to-"@ + spec_decimal(b as nat),
            "_"@ + spec_decimal(a as nat) + "^"@ + spec_decimal(b as nat),
        ),
        Repetition::Star => ("repeat-star"@, "\u{22c6}"@),
        Repetition::AtLeast(a) => ("repeat-"@ + spec_decimal(a as nat) + "-plus"@, "_"@ + spec_decimal(a as nat) + "^\u{221e}"@),
    }
}

/// The operation name and formula the result is given.
pub fn result_label(r: Repetition) -> (l: (String, String))
    ensures
        l.0@ == spec_result_label(r).0,
        l.1@ == spec_result_label(r).1,
{
    match r {
        Repetition::Range(a, b) => {
            let mut name = concat3("repeat-", decimal(a as u128).as_str(), "-to-");
            name.append(decimal(b as u128).as_str());
            let mut formula = concat3("_", decimal(a as u128).as_str(), "^");
            formula.append(decimal(b as u128).as_str());
            (name, formula)
        },
        Repetition::Star => ("repeat-star".to_owned(), "\u{22c6}".to_owned()),
        Repetition::AtLeast(a) => (
            concat3("repeat-", decimal(a as u128).as_str(), "-plus"),
            concat3("_", decimal(a as u128).as_str(), "^\u{221e}"),
        ),
    }
}

/// What the tool starts from: its settings, the bounds before any is read,
/// and the scanned command line.
pub struct Start {
    pub common: CommonOptions,
    pub bounds: Bounds,
    pub events: Vec<OptEvent>,
    pub operands: Vec<String>,
}

/// Scans hfst-repeat's command line (`args[0]` is the program name); the
/// options are then read with [`read_options`] from event 0, the operands
/// checked with [`crate::common::check_unary`] and the bounds with
/// [`resolve`].
pub fn run(args: &Vec<String>) -> (r: Start)
    ensures
        r.common@ == spec_initial_common(spec_argv0(args_view(args@))),
        r.bounds == spec_default_bounds(),
        events_view(r.events@) == spec_scan(args_view(args@), spec_table()).0,
        args_view(r.operands@) == spec_scan(args_view(args@), spec_table()).1,
{
    let name = argv0(args);
    let common = initial_common(name.as_str());
    let t = table();
    let sc = scan(args, &t);
    Start { common, bounds: default_bounds(), events: sc.events, operands: sc.operands }
}

// ---------------------------------------------------------------------------
// Laws
// ---------------------------------------------------------------------------

/// Bounds that pass the checks never ask for more repetitions at least than
/// at most.
pub proof fn lemma_resolved_range_ordered(program_name: Seq<char>, b: Bounds)
    requires
        spec_resolve(program_name, b) is Ok,
    ensures
        spec_resolve(program_name, b) matches Ok(Repetition::Range(n, k)) ==> n <= k,
        !b.to_infinity ==> spec_resolve(program_name, b) matches Ok(Repetition::Range(_, _)),
{
}

} // verus!
