//! hfst-project: keep one tape of each transducer of a stream. The tape is
//! chosen with `-p`; everything decided before the stream work is here.

use vstd::prelude::*;
use crate::common::{
    CommonOptions, Report, SpecCommon, SpecReport, argv0, error_case, fail_with, initial_common,
    outcome_is, spec_argv0, spec_check_unary, spec_error_case, spec_fail_report,
    spec_initial_common, check_unary,
};
use crate::getopt::{
    HasArg, LongOpt, OptEvent, SpecEvent, SpecLongOpt, args_view, events_view, scan, spec_scan,
    table_view,
};
use crate::text::{concat2, concat3, first_char_matches, spec_first_char_matches};
use crate::unary::{
    Shared, SpecShared, shared_step, spec_shared_step, spec_unary_table, spec_unary_usage,
    unary_table, unary_usage,
};

verus! {

/// The option table: the shared options and `-p`.
pub open spec fn spec_table() -> Seq<SpecLongOpt> {
    spec_unary_table().push(SpecLongOpt { name: "project"@, has_arg: HasArg::Required, val: 'p' })
}

fn table() -> (t: Vec<LongOpt>)
    ensures
        table_view(t@) == spec_table(),
{
    let mut t = unary_table();
    let ghost before = table_view(t@);
    t.push(crate::common::opt("project", HasArg::Required, 'p'));
    assert(table_view(t@) =~= before.push(SpecLongOpt { name: "project"@, has_arg: HasArg::Required, val: 'p' }));
    t
}

/// The usage text of hfst-project.
pub open spec fn spec_usage(program_name: Seq<char>) -> Seq<char> {
    spec_unary_usage(
        program_name,
        "Project (extract a level) transducer"@,
        "Projection options:\n  -p, --project=LEVEL   project extracting tape LEVEL\n"@,
        "LEVEL must be one of upper, input, first, analysis or lower, output, second, generation\n"@,
    )
}

/// The usage text of hfst-project.
pub fn print_usage(common: &CommonOptions) -> (s: String)
    ensures
        s@ == spec_usage(common.program_name@),
{
    unary_usage(
        common,
        "Project (extract a level) transducer",
        "Projection options:\n  -p, --project=LEVEL   project extracting tape LEVEL\n",
        "LEVEL must be one of upper, input, first, analysis or lower, output, second, generation\n",
    )
}

/// Whether a `-p` argument names the input tape: its first character is
/// that of upper, input, first or analysis, in either case.
pub open spec fn names_input(a: Seq<char>) -> bool {
    spec_first_char_matches(a, "upper"@) || spec_first_char_matches(a, "input"@)
        || spec_first_char_matches(a, "first"@) || spec_first_char_matches(a, "analysis"@)
}

/// Whether a `-p` argument names the output tape: its first character is
/// that of lower, output, second or generation, in either case.
pub open spec fn names_output(a: Seq<char>) -> bool {
    spec_first_char_matches(a, "lower"@) || spec_first_char_matches(a, "output"@)
        || spec_first_char_matches(a, "second"@) || spec_first_char_matches(a, "generation"@)
}

/// The refusal of a `-p` argument that names no tape.
pub open spec fn spec_unknown_direction(a: Seq<char>) -> Seq<char> {
    "unknown project direction "@ + a
        + "\nshould be one of upper, input, analysis, first, lower, output, second or generation\n"@
}

/// What the tool's own option does: the tape to keep, or the report the
/// tool ends with.
pub open spec fn spec_own(c: SpecCommon, e: SpecEvent) -> Result<bool, SpecReport> {
    match e {
        SpecEvent::Opt { val, arg } => if val == 'p' {
            let a = arg.unwrap_or(Seq::empty());
            if names_input(a) {
                Ok(true)
            } else if names_output(a) {
                Ok(false)
            } else {
                Err(spec_fail_report(c.program_name, spec_unknown_direction(a)))
            }
        } else {
            Err(spec_error_case(c, e))
        },
        _ => Err(spec_error_case(c, e)),
    }
}

/// The settings and the tape after the events `evs`, or the report the tool
/// ends with.
pub open spec fn spec_parse(c: SpecCommon, input: bool, evs: Seq<SpecEvent>, usage: Seq<char>) -> Result<
    (SpecCommon, bool),
    SpecReport,
>
    decreases evs.len(),
{
    if evs.len() == 0 {
        Ok((c, input))
    } else {
        match spec_shared_step(c, evs[0], usage) {
            SpecShared::Continue(n) => spec_parse(n, input, evs.drop_first(), usage),
            SpecShared::Stop(r) => Err(r),
            SpecShared::Own => match spec_own(c, evs[0]) {
                Ok(i) => spec_parse(c, i, evs.drop_first(), usage),
                Err(r) => Err(r),
            },
        }
    }
}

fn own(c: &CommonOptions, e: &OptEvent) -> (r: Result<bool, Report>)
    ensures
        match (r, spec_own(c@, e@)) {
            (Ok(x), Ok(y)) => x == y,
            (Err(x), Err(y)) => x@ == y,
            _ => false,
        },
{
    match e {
        OptEvent::Opt { val, arg } => {
            if *val == 'p' {
                let a = match arg {
                    Some(s) => s.clone(),
                    None => String::new(),
                };
                let s = a.as_str();
                if first_char_matches(s, "upper") || first_char_matches(s, "input")
                    || first_char_matches(s, "first") || first_char_matches(s, "analysis") {
                    Ok(true)
                } else if first_char_matches(s, "lower") || first_char_matches(s, "output")
                    || first_char_matches(s, "second") || first_char_matches(s, "generation") {
                    Ok(false)
                } else {
                    let text = concat3(
                        "unknown project direction ",
                        s,
                        "\nshould be one of upper, input, analysis, first, lower, output, second or generation\n",
                    );
                    Err(fail_with(c, text.as_str()))
                }
            } else {
                Err(error_case(c, e))
            }
        },
        _ => Err(error_case(c, e)),
    }
}

fn read_options(c: &mut CommonOptions, input: &mut bool, evs: &Vec<OptEvent>, usage: &str) -> (r: Option<Report>)
    ensures
        match spec_parse(old(c)@, *old(input), events_view(evs@), usage@) {
            Ok(y) => r is None && final(c)@ == y.0 && *final(input) == y.1,
            Err(y) => r matches Some(x) && x@ == y,
        },
{
    let ghost ev = events_view(evs@);
    let mut i: usize = 0;
    assert(ev.subrange(0, ev.len() as int) =~= ev);
    while i < evs.len()
        invariant
            ev == events_view(evs@),
            i <= evs@.len(),
            spec_parse(old(c)@, *old(input), ev, usage@) == spec_parse(
                c@,
                *input,
                ev.subrange(i as int, ev.len() as int),
                usage@,
            ),
        decreases evs@.len() - i,
    {
        let ghost rest = ev.subrange(i as int, ev.len() as int);
        assert(rest[0] == evs@[i as int]@);
        assert(rest.drop_first() =~= ev.subrange(i + 1, ev.len() as int));
        match shared_step(c, &evs[i], usage) {
            Shared::Continue => {},
            Shared::Stop(r) => {
                return Some(r);
            },
            Shared::Own => {
                match own(c, &evs[i]) {
                    Ok(x) => {
                        *input = x;
                    },
                    Err(r) => {
                        return Some(r);
                    },
                }
            },
        }
        i = i + 1;
    }
    assert(ev.subrange(evs@.len() as int, ev.len() as int) =~= Seq::<SpecEvent>::empty());
    None
}

/// The tape `-p LEVEL` chooses when the argument parser has read the
/// options: the output tape without `-p`; an unknown level ends the tool.
pub open spec fn spec_project_input(program_name: Seq<char>, level: Option<Seq<char>>) -> Result<bool, SpecReport> {
    match level {
        None => Ok(false),
        Some(a) => if names_input(a) {
            Ok(true)
        } else if names_output(a) {
            Ok(false)
        } else {
            Err(spec_fail_report(program_name, spec_unknown_direction(a)))
        },
    }
}

/// The tape `-p LEVEL` chooses.
pub fn project_input(common: &CommonOptions, level: &Option<String>) -> (r: Result<bool, Report>)
    ensures
        match (r, spec_project_input(common.program_name@, crate::getopt::opt_view(*level))) {
            (Ok(x), Ok(y)) => x == y,
            (Err(x), Err(y)) => x@ == y,
            _ => false,
        },
{
    match level {
        None => Ok(false),
        Some(a) => {
            let e = OptEvent::Opt { val: 'p', arg: Some(a.clone()) };
            own(common, &e)
        },
    }
}

/// What hfst-project does to each transducer: keep the input tape when
/// `project_input`, else the output tape.
pub struct ProjectOp {
    pub project_input: bool,
}

/// The settings and the operation hfst-project runs with.
pub struct Plan {
    pub common: CommonOptions,
    pub op: ProjectOp,
}

impl View for Plan {
    type V = (SpecCommon, bool);

    open spec fn view(&self) -> (SpecCommon, bool) {
        (self.common@, self.op.project_input)
    }
}

/// The settings and tape hfst-project runs with, or the report it ends
/// with. Without `-p` the output tape is kept.
pub open spec fn spec_run(args: Seq<Seq<char>>) -> Result<(SpecCommon, bool), SpecReport> {
    let c0 = spec_initial_common(spec_argv0(args));
    let sc = spec_scan(args, spec_table());
    match spec_parse(c0, false, sc.0, spec_usage(c0.program_name)) {
        Err(r) => Err(r),
        Ok((c, input)) => match spec_check_unary(c, sc.1) {
            Ok(c2) => Ok((c2, input)),
            Err(r) => Err(r),
        },
    }
}

/// Reads hfst-project's command line (`args[0]` is the program name).
pub fn run(args: &Vec<String>) -> (r: Result<Plan, Report>)
    ensures
        outcome_is(r, spec_run(args_view(args@))),
{
    let name = argv0(args);
    let mut c = initial_common(name.as_str());
    let usage = print_usage(&c);
    let t = table();
    let sc = scan(args, &t);
    let mut input = false;
    if let Some(r) = read_options(&mut c, &mut input, &sc.events, usage.as_str()) {
        return Err(r);
    }
    match check_unary(c, &sc.operands) {
        Ok(c2) => Ok(Plan { common: c2, op: ProjectOp { project_input: input } }),
        Err(r) => Err(r),
    }
}

impl ProjectOp {
    /// The verbose line announcing one transducer.
    pub fn verbose_begin(&self, inputname: &str) -> (s: String)
        ensures
            s@ == (if self.project_input { "Projecting first "@ } else { "Projecting second "@ }) + inputname@,
    {
        if self.project_input {
            concat2("Projecting first ", inputname)
        } else {
            concat2("Projecting second ", inputname)
        }
    }

    /// What follows the verbose line.
    pub fn verbose_sep(&self) -> (s: &'static str)
        ensures
            s@ == " "@,
    {
        " "
    }

    /// The operation's name in the result's name.
    pub fn name_op(&self) -> (s: &'static str)
        ensures
            s@ == (if self.project_input { "project-1st"@ } else { "project-2nd"@ }),
    {
        if self.project_input {
            "project-1st"
        } else {
            "project-2nd"
        }
    }

    /// The operation's symbol in the result's formula.
    pub fn formula(&self) -> (s: &'static str)
        ensures
            s@ == (if self.project_input { "\u{00b9}"@ } else { "\u{00b2}"@ }),
    {
        if self.project_input {
            "\u{00b9}"
        } else {
            "\u{00b2}"
        }
    }
}

} // verus!
