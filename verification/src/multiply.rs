//! hfst-multiply: write each transducer of a stream several times. The
//! options (the count, read as `strtoul` reads it, is read by the caller,
//! which resumes the reading) and what the tool says stand here.

use vstd::prelude::*;
use crate::common::{
    CommonOptions, Report, SpecCommon, SpecReport, argv0, error_case, initial_common, spec_argv0,
    spec_error_case, spec_initial_common,
};
use crate::getopt::{HasArg, LongOpt, OptEvent, SpecEvent, SpecLongOpt, args_view, events_view, scan, spec_scan, table_view};
use crate::text::{concat3, decimal, spec_decimal};
use crate::unary::{Shared, SpecShared, shared_step, spec_shared_step, spec_unary_table, spec_unary_usage, unary_table, unary_usage};

verus! {

/// The option table: the shared options and `-n`.
pub open spec fn spec_table() -> Seq<SpecLongOpt> {
    spec_unary_table().push(SpecLongOpt { name: "n-times"@, has_arg: HasArg::Required, val: 'n' })
}

fn table() -> (t: Vec<LongOpt>)
    ensures
        table_view(t@) == spec_table(),
{
    let mut t = unary_table();
    let ghost before = table_view(t@);
    t.push(crate::common::opt("n-times", HasArg::Required, 'n'));
    assert(table_view(t@) =~= before.push(SpecLongOpt { name: "n-times"@, has_arg: HasArg::Required, val: 'n' }));
    t
}

/// The usage text of hfst-multiply.
pub open spec fn spec_usage(program_name: Seq<char>) -> Seq<char> {
    spec_unary_usage(
        program_name,
        "Use first transducer of an archive repeatedly"@,
        "Archive options:\n  -n, --n-last=NUMBER   Duplicate each transducer NUMBER times\n"@,
        "NUMBER must be a positive integer as parsed by strtoul base 10\n"@,
    )
}

/// The usage text of hfst-multiply.
pub fn print_usage(common: &CommonOptions) -> (s: String)
    ensures
        s@ == spec_usage(common.program_name@),
{
    unary_usage(
        common,
        "Use first transducer of an archive repeatedly",
        "Archive options:\n  -n, --n-last=NUMBER   Duplicate each transducer NUMBER times\n",
        "NUMBER must be a positive integer as parsed by strtoul base 10\n",
    )
}

/// Where the option reading stops.
pub enum SpecPause {
    /// All events read; these are the settings.
    Done(SpecCommon),
    /// The tool ends with this report.
    End(SpecReport),
    /// The event at `at` is `-n` with this argument, for the caller to read
    /// as a number; the settings read before it are these.
    Count { at: int, text: Seq<char>, common: SpecCommon },
}

/// Reads the events from `i` on: the shared options first, then `-n`.
pub open spec fn spec_read(c: SpecCommon, evs: Seq<SpecEvent>, i: int) -> SpecPause
    decreases evs.len() - i,
{
    if i < 0 || i >= evs.len() {
        SpecPause::Done(c)
    } else {
        match spec_shared_step(c, evs[i], spec_usage(c.program_name)) {
            SpecShared::Continue(n) => spec_read(n, evs, i + 1),
            SpecShared::Stop(r) => SpecPause::End(r),
            SpecShared::Own => match evs[i] {
                SpecEvent::Opt { val, arg } => if val == 'n' {
                    SpecPause::Count { at: i, text: arg.unwrap_or(Seq::empty()), common: c }
                } else {
                    SpecPause::End(spec_error_case(c, evs[i]))
                },
                _ => SpecPause::End(spec_error_case(c, evs[i])),
            },
        }
    }
}

/// The exec counterpart of [`SpecPause`]; the settings read so far are in
/// those the reading was given.
pub enum Pause {
    Done,
    End(Report),
    Count { at: usize, text: String },
}

/// Reads the option events from `from` on into `c`, up to the end, the end
/// of the tool, or the next `-n`.
pub fn read_options(c: &mut CommonOptions, evs: &Vec<OptEvent>, from: usize) -> (r: Pause)
    ensures
        match spec_read(old(c)@, events_view(evs@), from as int) {
            SpecPause::Done(x) => r is Done && final(c)@ == x,
            SpecPause::End(x) => r matches Pause::End(y) && y@ == x,
            SpecPause::Count { at, text, common } => r matches Pause::Count { at: a2, text: t2 } && a2 == at
                && t2@ == text && final(c)@ == common,
        },
{
    let ghost ev = events_view(evs@);
    let mut i: usize = from;
    while i < evs.len()
        invariant
            ev == events_view(evs@),
            from <= i,
            spec_read(old(c)@, ev, from as int) == spec_read(c@, ev, i as int),
        decreases evs@.len() - i,
    {
        assert(ev[i as int] == evs@[i as int]@);
        let usage = print_usage(c);
        match shared_step(c, &evs[i], usage.as_str()) {
            Shared::Continue => {},
            Shared::Stop(r) => {
                return Pause::End(r);
            },
            Shared::Own => {
                match &evs[i] {
                    OptEvent::Opt { val, arg } => {
                        if *val == 'n' {
                            let a = match arg {
                                Some(s) => s.clone(),
                                None => String::new(),
                            };
                            return Pause::Count { at: i, text: a };
                        } else {
                            return Pause::End(error_case(c, &evs[i]));
                        }
                    },
                    _ => {
                        return Pause::End(error_case(c, &evs[i]));
                    },
                }
            },
        }
        i = i + 1;
    }
    Pause::Done
}

/// What the tool starts from: its settings, the count before `-n` (1), and
/// the scanned command line.
pub struct Start {
    pub common: CommonOptions,
    pub dupe_count: u64,
    pub events: Vec<OptEvent>,
    pub operands: Vec<String>,
}

/// Scans hfst-multiply's command line (`args[0]` is the program name); the
/// options are then read with [`read_options`] from event 0, and the
/// operands checked with [`crate::common::check_unary`].
pub fn run(args: &Vec<String>) -> (r: Start)
    ensures
        r.common@ == spec_initial_common(spec_argv0(args_view(args@))),
        r.dupe_count == 1,
        events_view(r.events@) == spec_scan(args_view(args@), spec_table()).0,
        args_view(r.operands@) == spec_scan(args_view(args@), spec_table()).1,
{
    let name = argv0(args);
    let common = initial_common(name.as_str());
    let t = table();
    let sc = scan(args, &t);
    Start { common, dupe_count: 1, events: sc.events, operands: sc.operands }
}

/// The verbose line announcing the `n`th transducer (from 1), named
/// `name`, before it is written `count` times.
pub open spec fn spec_duplicating(name: Seq<char>, count: u64, n: int) -> Seq<char> {
    "Duplicate "@ + name + " times "@ + spec_decimal(count as nat) + "..."@ + spec_decimal(n as nat) + "\n"@
}

/// The verbose line announcing the `n`th transducer.
pub fn duplicating(name: &str, count: u64, n: u64) -> (s: String)
    ensures
        s@ == spec_duplicating(name@, count, n as int),
{
    let mut s = concat3("Duplicate ", name, " times ");
    s.append(decimal(count as u128).as_str());
    s.append("...");
    s.append(decimal(n as u128).as_str());
    s.append("\n");
    s
}

} // verus!
