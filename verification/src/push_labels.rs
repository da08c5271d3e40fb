//! hfst-push-labels: push the labels of each transducer of a stream towards
//! its start or its end, as `-p` chooses; everything decided before the
//! stream work is here.

use vstd::prelude::*;
use crate::common::{
    CommonOptions, Report, SpecCommon, SpecReport, argv0, error_case, fail_with, initial_common,
    outcome_is, spec_argv0, spec_check_unary, spec_error_case, spec_fail_report,
    spec_initial_common, check_unary,
};
use crate::getopt::{
    HasArg, LongOpt, OptEvent, SpecEvent, SpecLongOpt, args_view, events_view, scan, spec_scan,
    table_view,
};
use crate::text::{concat2, concat3, first_char_matches, spec_first_char_matches};
use crate::unary::{
    Shared, SpecShared, shared_step, spec_shared_step, spec_unary_table, spec_unary_usage,
    unary_table, unary_usage,
};

verus! {

/// The option table: the shared options and `-p`.
pub open spec fn spec_table() -> Seq<SpecLongOpt> {
    spec_unary_table().push(SpecLongOpt { name: "push"@, has_arg: HasArg::Required, val: 'p' })
}

fn table() -> (t: Vec<LongOpt>)
    ensures
        table_view(t@) == spec_table(),
{
    let mut t = unary_table();
    let ghost before = table_view(t@);
    t.push(crate::common::opt("push", HasArg::Required, 'p'));
    assert(table_view(t@) =~= before.push(SpecLongOpt { name: "push"@, has_arg: HasArg::Required, val: 'p' }));
    t
}

/// The usage text of hfst-push-labels.
pub open spec fn spec_usage(program_name: Seq<char>) -> Seq<char> {
    spec_unary_usage(
        program_name,
        "Push labels of transducer"@,
        "Push options:\n  -p, --push=DIRECTION   push to DIRECTION\n"@,
        "DIRECTION must be one of start, initial, begin or end, final\n"@,
    )
}

/// The usage text of hfst-push-labels.
pub fn print_usage(common: &CommonOptions) -> (s: String)
    ensures
        s@ == spec_usage(common.program_name@),
{
    unary_usage(
        common,
        "Push labels of transducer",
        "Push options:\n  -p, --push=DIRECTION   push to DIRECTION\n",
        "DIRECTION must be one of start, initial, begin or end, final\n",
    )
}

/// Whether a `-p` argument names the start: it begins with s, i or b, in
/// either case.
pub open spec fn names_start(a: Seq<char>) -> bool {
    spec_first_char_matches(a, "s"@) || spec_first_char_matches(a, "i"@) || spec_first_char_matches(a, "b"@)
}

/// Whether a `-p` argument names the end: it begins with e or f, in either
/// case.
pub open spec fn names_end(a: Seq<char>) -> bool {
    spec_first_char_matches(a, "e"@) || spec_first_char_matches(a, "f"@)
}

/// The refusal of a `-p` argument that names no direction.
pub open spec fn spec_unknown_direction(a: Seq<char>) -> Seq<char> {
    "unknown push direction "@ + a + "\nshould be one of start, initial, begin, end or final.\n"@
}

/// What the tool's own option does: whether to push to the start, or the report the
/// tool ends with.
pub open spec fn spec_own(c: SpecCommon, e: SpecEvent) -> Result<bool, SpecReport> {
    match e {
        SpecEvent::Opt { val, arg } => if val == 'p' {
            let a = arg.unwrap_or(Seq::empty());
            if names_start(a) {
                Ok(true)
            } else if names_end(a) {
                Ok(false)
            } else {
                Err(spec_fail_report(c.program_name, spec_unknown_direction(a)))
            }
        } else {
            Err(spec_error_case(c, e))
        },
        _ => Err(spec_error_case(c, e)),
    }
}

/// The settings and the direction after the events `evs`, or the report the tool
/// ends with.
pub open spec fn spec_parse(c: SpecCommon, initial: bool, evs: Seq<SpecEvent>, usage: Seq<char>) -> Result<
    (SpecCommon, bool),
    SpecReport,
>
    decreases evs.len(),
{
    if evs.len() == 0 {
        Ok((c, initial))
    } else {
        match spec_shared_step(c, evs[0], usage) {
            SpecShared::Continue(n) => spec_parse(n, initial, evs.drop_first(), usage),
            SpecShared::Stop(r) => Err(r),
            SpecShared::Own => match spec_own(c, evs[0]) {
                Ok(i) => spec_parse(c, i, evs.drop_first(), usage),
                Err(r) => Err(r),
            },
        }
    }
}

fn own(c: &CommonOptions, e: &OptEvent) -> (r: Result<bool, Report>)
    ensures
        match (r, spec_own(c@, e@)) {
            (Ok(x), Ok(y)) => x == y,
            (Err(x), Err(y)) => x@ == y,
            _ => false,
        },
{
    match e {
        OptEvent::Opt { val, arg } => {
            if *val == 'p' {
                let a = match arg {
                    Some(s) => s.clone(),
                    None => String::new(),
                };
                let s = a.as_str();
                if first_char_matches(s, "s") || first_char_matches(s, "i") || first_char_matches(s, "b") {
                    Ok(true)
                } else if first_char_matches(s, "e") || first_char_matches(s, "f") {
                    Ok(false)
                } else {
                    let text = concat3(
                        "unknown push direction ",
                        s,
                        "\nshould be one of start, initial, begin, end or final.\n",
                    );
                    Err(fail_with(c, text.as_str()))
                }
            } else {
                Err(error_case(c, e))
            }
        },
        _ => Err(error_case(c, e)),
    }
}

fn read_options(c: &mut CommonOptions, initial: &mut bool, evs: &Vec<OptEvent>, usage: &str) -> (r: Option<Report>)
    ensures
        match spec_parse(old(c)@, *old(initial), events_view(evs@), usage@) {
            Ok(y) => r is None && final(c)@ == y.0 && *final(initial) == y.1,
            Err(y) => r matches Some(x) && x@ == y,
        },
{
    let ghost ev = events_view(evs@);
    let mut i: usize = 0;
    assert(ev.subrange(0, ev.len() as int) =~= ev);
    while i < evs.len()
        invariant
            ev == events_view(evs@),
            i <= evs@.len(),
            spec_parse(old(c)@, *old(initial), ev, usage@) == spec_parse(
                c@,
                *initial,
                ev.subrange(i as int, ev.len() as int),
                usage@,
            ),
        decreases evs@.len() - i,
    {
        let ghost rest = ev.subrange(i as int, ev.len() as int);
        assert(rest[0] == evs@[i as int]@);
        assert(rest.drop_first() =~= ev.subrange(i + 1, ev.len() as int));
        match shared_step(c, &evs[i], usage) {
            Shared::Continue => {},
            Shared::Stop(r) => {
                return Some(r);
            },
            Shared::Own => {
                match own(c, &evs[i]) {
                    Ok(x) => {
                        *initial = x;
                    },
                    Err(r) => {
                        return Some(r);
                    },
                }
            },
        }
        i = i + 1;
    }
    assert(ev.subrange(evs@.len() as int, ev.len() as int) =~= Seq::<SpecEvent>::empty());
    None
}

/// The direction `-p DIRECTION` chooses when the argument parser has read
/// the options: towards the end without `-p`; an unknown direction ends the
/// tool.
pub open spec fn spec_push_initial(program_name: Seq<char>, direction: Option<Seq<char>>) -> Result<bool, SpecReport> {
    match direction {
        None => Ok(false),
        Some(a) => if names_start(a) {
            Ok(true)
        } else if names_end(a) {
            Ok(false)
        } else {
            Err(spec_fail_report(program_name, spec_unknown_direction(a)))
        },
    }
}

/// The direction `-p DIRECTION` chooses.
pub fn push_initial(common: &CommonOptions, direction: &Option<String>) -> (r: Result<bool, Report>)
    ensures
        match (r, spec_push_initial(common.program_name@, crate::getopt::opt_view(*direction))) {
            (Ok(x), Ok(y)) => x == y,
            (Err(x), Err(y)) => x@ == y,
            _ => false,
        },
{
    match direction {
        None => Ok(false),
        Some(a) => {
            let e = OptEvent::Opt { val: 'p', arg: Some(a.clone()) };
            own(common, &e)
        },
    }
}

/// What hfst-push-labels does to each transducer: push its labels towards
/// the start when `push_initial`, else towards the end.
pub struct PushLabelsOp {
    pub push_initial: bool,
}

/// The settings and the operation hfst-push-labels runs with.
pub struct Plan {
    pub common: CommonOptions,
    pub op: PushLabelsOp,
}

impl View for Plan {
    type V = (SpecCommon, bool);

    open spec fn view(&self) -> (SpecCommon, bool) {
        (self.common@, self.op.push_initial)
    }
}

/// The settings and direction hfst-push-labels runs with, or the report it
/// ends with. Without `-p` the labels go to the end.
pub open spec fn spec_run(args: Seq<Seq<char>>) -> Result<(SpecCommon, bool), SpecReport> {
    let c0 = spec_initial_common(spec_argv0(args));
    let sc = spec_scan(args, spec_table());
    match spec_parse(c0, false, sc.0, spec_usage(c0.program_name)) {
        Err(r) => Err(r),
        Ok((c, initial)) => match spec_check_unary(c, sc.1) {
            Ok(c2) => Ok((c2, initial)),
            Err(r) => Err(r),
        },
    }
}

/// Reads hfst-push-labels's command line (`args[0]` is the program name).
pub fn run(args: &Vec<String>) -> (r: Result<Plan, Report>)
    ensures
        outcome_is(r, spec_run(args_view(args@))),
{
    let name = argv0(args);
    let mut c = initial_common(name.as_str());
    let usage = print_usage(&c);
    let t = table();
    let sc = scan(args, &t);
    let mut initial = false;
    if let Some(r) = read_options(&mut c, &mut initial, &sc.events, usage.as_str()) {
        return Err(r);
    }
    match check_unary(c, &sc.operands) {
        Ok(c2) => Ok(Plan { common: c2, op: PushLabelsOp { push_initial: initial } }),
        Err(r) => Err(r),
    }
}

impl PushLabelsOp {
    /// The verbose line announcing one transducer.
    pub fn verbose_begin(&self, inputname: &str) -> (s: String)
        ensures
            s@ == (if self.push_initial { "Pushing towards start "@ } else { "Pushing towards end "@ }) + inputname@,
    {
        if self.push_initial {
            concat2("Pushing towards start ", inputname)
        } else {
            concat2("Pushing towards end ", inputname)
        }
    }

    /// What follows the verbose line.
    pub fn verbose_sep(&self) -> (s: &'static str)
        ensures
            s@ == " "@,
    {
        " "
    }

    /// The operation's name in the result's name.
    pub fn name_op(&self) -> (s: &'static str)
        ensures
            s@ == (if self.push_initial { "push-labels-i"@ } else { "push-labels-f"@ }),
    {
        if self.push_initial {
            "push-labels-i"
        } else {
            "push-labels-f"
        }
    }

    /// The operation's symbol in the result's formula.
    pub fn formula(&self) -> (s: &'static str)
        ensures
            s@ == "Id"@,
    {
        "Id"
    }
}

} // verus!
