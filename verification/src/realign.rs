//! hfst-realign: push the labels of each transducer of a stream to its
//! start. The table offers `-b SYM`, which the option handling does not
//! take up: it is refused like an unknown option, and the boundary symbol
//! stays `>`.

use vstd::prelude::*;
use crate::common::{
    CommonOptions, Report, SpecCommon, SpecReport, argv0, error_case, initial_common,
    outcome_is, spec_argv0, spec_check_unary, spec_error_case,
    spec_initial_common, check_unary,
};
use crate::getopt::{
    HasArg, LongOpt, OptEvent, SpecEvent, SpecLongOpt, args_view, events_view, scan, spec_scan,
    table_view,
};
use crate::text::concat2;
use crate::unary::{
    Shared, SpecShared, shared_step, spec_shared_step, spec_unary_table, spec_unary_usage,
    unary_table, unary_usage,
};

verus! {

/// The code of `>`, the boundary symbol hfst-realign uses.
pub const BOUNDARY: u8 = 62;

/// The option table: the shared options and `-b`.
pub open spec fn spec_table() -> Seq<SpecLongOpt> {
    spec_unary_table().push(SpecLongOpt { name: "boundary"@, has_arg: HasArg::Required, val: 'b' })
}

fn table() -> (t: Vec<LongOpt>)
    ensures
        table_view(t@) == spec_table(),
{
    let mut t = unary_table();
    let ghost before = table_view(t@);
    t.push(crate::common::opt("boundary", HasArg::Required, 'b'));
    assert(table_view(t@) =~= before.push(SpecLongOpt { name: "boundary"@, has_arg: HasArg::Required, val: 'b' }));
    t
}

/// The usage text of hfst-realign.
pub open spec fn spec_usage(program_name: Seq<char>) -> Seq<char> {
    spec_unary_usage(
        program_name,
        "Realign a transducer by pushing labels to the start"@,
        "Options:\n  -b, --boundary=SYM   treat SYM as a boundary symbol\n"@,
        "SYM must be in the alphabet\n"@,
    )
}

/// The usage text of hfst-realign.
pub fn print_usage(common: &CommonOptions) -> (s: String)
    ensures
        s@ == spec_usage(common.program_name@),
{
    unary_usage(
        common,
        "Realign a transducer by pushing labels to the start",
        "Options:\n  -b, --boundary=SYM   treat SYM as a boundary symbol\n",
        "SYM must be in the alphabet\n",
    )
}

/// What the tool's own options do: `-p` sets the boundary symbol to `>`;
/// anything else ends the tool with the option error.
pub open spec fn spec_own(c: SpecCommon, e: SpecEvent) -> Result<u8, SpecReport> {
    match e {
        SpecEvent::Opt { val, arg } => if val == 'p' {
            Ok(BOUNDARY)
        } else {
            Err(spec_error_case(c, e))
        },
        _ => Err(spec_error_case(c, e)),
    }
}

/// The settings and the boundary symbol after the events `evs`, or the report the tool
/// ends with.
pub open spec fn spec_parse(c: SpecCommon, boundary: u8, evs: Seq<SpecEvent>, usage: Seq<char>) -> Result<
    (SpecCommon, u8),
    SpecReport,
>
    decreases evs.len(),
{
    if evs.len() == 0 {
        Ok((c, boundary))
    } else {
        match spec_shared_step(c, evs[0], usage) {
            SpecShared::Continue(n) => spec_parse(n, boundary, evs.drop_first(), usage),
            SpecShared::Stop(r) => Err(r),
            SpecShared::Own => match spec_own(c, evs[0]) {
                Ok(i) => spec_parse(c, i, evs.drop_first(), usage),
                Err(r) => Err(r),
            },
        }
    }
}

fn own(c: &CommonOptions, e: &OptEvent) -> (r: Result<u8, Report>)
    ensures
        match (r, spec_own(c@, e@)) {
            (Ok(x), Ok(y)) => x == y,
            (Err(x), Err(y)) => x@ == y,
            _ => false,
        },
{
    match e {
        OptEvent::Opt { val, arg: _ } => {
            if *val == 'p' {
                Ok(BOUNDARY)
            } else {
                Err(error_case(c, e))
            }
        },
        _ => Err(error_case(c, e)),
    }
}

fn read_options(c: &mut CommonOptions, boundary: &mut u8, evs: &Vec<OptEvent>, usage: &str) -> (r: Option<Report>)
    ensures
        match spec_parse(old(c)@, *old(boundary), events_view(evs@), usage@) {
            Ok(y) => r is None && final(c)@ == y.0 && *final(boundary) == y.1,
            Err(y) => r matches Some(x) && x@ == y,
        },
{
    let ghost ev = events_view(evs@);
    let mut i: usize = 0;
    assert(ev.subrange(0, ev.len() as int) =~= ev);
    while i < evs.len()
        invariant
            ev == events_view(evs@),
            i <= evs@.len(),
            spec_parse(old(c)@, *old(boundary), ev, usage@) == spec_parse(
                c@,
                *boundary,
                ev.subrange(i as int, ev.len() as int),
                usage@,
            ),
        decreases evs@.len() - i,
    {
        let ghost rest = ev.subrange(i as int, ev.len() as int);
        assert(rest[0] == evs@[i as int]@);
        assert(rest.drop_first() =~= ev.subrange(i + 1, ev.len() as int));
        match shared_step(c, &evs[i], usage) {
            Shared::Continue => {},
            Shared::Stop(r) => {
                return Some(r);
            },
            Shared::Own => {
                match own(c, &evs[i]) {
                    Ok(x) => {
                        *boundary = x;
                    },
                    Err(r) => {
                        return Some(r);
                    },
                }
            },
        }
        i = i + 1;
    }
    assert(ev.subrange(evs@.len() as int, ev.len() as int) =~= Seq::<SpecEvent>::empty());
    None
}

/// When the argument parser has read the options, `-b` is refused the way
/// an option the tool does not handle is: the hint, then the complaint.
pub fn check_boundary(common: &CommonOptions, boundary: &Option<String>) -> (r: Option<Report>)
    ensures
        match r {
            Some(x) => boundary is Some && x@ == spec_error_case(common@, SpecEvent::Opt { val: 'b', arg: crate::getopt::opt_view(*boundary) }),
            None => boundary is None,
        },
{
    match boundary {
        None => None,
        Some(b) => {
            let e = OptEvent::Opt { val: 'b', arg: Some(b.clone()) };
            Some(error_case(common, &e))
        },
    }
}

/// What hfst-realign does to each transducer: push its labels to the
/// start; `boundary_symbol` is the boundary symbol it was given.
pub struct RealignOp {
    pub boundary_symbol: u8,
}

/// The settings and the operation hfst-realign runs with.
pub struct Plan {
    pub common: CommonOptions,
    pub op: RealignOp,
}

impl View for Plan {
    type V = (SpecCommon, u8);

    open spec fn view(&self) -> (SpecCommon, u8) {
        (self.common@, self.op.boundary_symbol)
    }
}

/// The settings and boundary symbol hfst-realign runs with, or the report it
/// ends with. The boundary symbol starts as `>`.
pub open spec fn spec_run(args: Seq<Seq<char>>) -> Result<(SpecCommon, u8), SpecReport> {
    let c0 = spec_initial_common(spec_argv0(args));
    let sc = spec_scan(args, spec_table());
    match spec_parse(c0, BOUNDARY, sc.0, spec_usage(c0.program_name)) {
        Err(r) => Err(r),
        Ok((c, boundary)) => match spec_check_unary(c, sc.1) {
            Ok(c2) => Ok((c2, boundary)),
            Err(r) => Err(r),
        },
    }
}

/// Reads hfst-realign's command line (`args[0]` is the program name).
pub fn run(args: &Vec<String>) -> (r: Result<Plan, Report>)
    ensures
        outcome_is(r, spec_run(args_view(args@))),
{
    let name = argv0(args);
    let mut c = initial_common(name.as_str());
    let usage = print_usage(&c);
    let t = table();
    let sc = scan(args, &t);
    let mut boundary: u8 = BOUNDARY;
    if let Some(r) = read_options(&mut c, &mut boundary, &sc.events, usage.as_str()) {
        return Err(r);
    }
    match check_unary(c, &sc.operands) {
        Ok(c2) => Ok(Plan { common: c2, op: RealignOp { boundary_symbol: boundary } }),
        Err(r) => Err(r),
    }
}

impl RealignOp {
    /// The verbose line announcing one transducer.
    pub fn verbose_begin(&self, inputname: &str) -> (s: String)
        ensures
            s@ == (if self.boundary_symbol != 0 { "Pushing towards start "@ } else { "Pushing towards end "@ })
                + inputname@,
    {
        if self.boundary_symbol != 0 {
            concat2("Pushing towards start ", inputname)
        } else {
            concat2("Pushing towards end ", inputname)
        }
    }

    /// What follows the verbose line.
    pub fn verbose_sep(&self) -> (s: &'static str)
        ensures
            s@ == " "@,
    {
        " "
    }

    /// The operation's name in the result's name.
    pub fn name_op(&self) -> (s: &'static str)
        ensures
            s@ == "realign"@,
    {
        "realign"
    }

    /// The operation's symbol in the result's formula.
    pub fn formula(&self) -> (s: &'static str)
        ensures
            s@ == "Id"@,
    {
        "Id"
    }
}

} // verus!
