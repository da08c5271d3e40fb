//! hfst-prune-alphabet: drop the symbols a transducer's arcs do not use from
//! its alphabet. `-f` forces the pruning, `-S` (the default) prunes only
//! where no unknown or identity symbol is used.

use vstd::prelude::*;
use crate::common::{
    CommonOptions, Report, SpecCommon, SpecReport, argv0, error_case, initial_common,
    outcome_is, spec_argv0, spec_check_unary, spec_error_case,
    spec_initial_common, check_unary,
};
use crate::getopt::{
    HasArg, LongOpt, OptEvent, SpecEvent, SpecLongOpt, args_view, events_view, scan, spec_scan,
    table_view,
};
use crate::text::concat2;
use crate::unary::{
    Shared, SpecShared, shared_step, spec_shared_step, spec_unary_table, spec_unary_usage,
    unary_table, unary_usage,
};

verus! {

/// The option table: the shared options, `-f` and `-S`.
pub open spec fn spec_table() -> Seq<SpecLongOpt> {
    spec_unary_table().push(SpecLongOpt { name: "force"@, has_arg: HasArg::No, val: 'f' }).push(
        SpecLongOpt { name: "safe"@, has_arg: HasArg::No, val: 'S' },
    )
}

fn table() -> (t: Vec<LongOpt>)
    ensures
        table_view(t@) == spec_table(),
{
    let mut t = unary_table();
    let ghost before = table_view(t@);
    t.push(crate::common::opt("force", HasArg::No, 'f'));
    t.push(crate::common::opt("safe", HasArg::No, 'S'));
    assert(table_view(t@) =~= before.push(SpecLongOpt { name: "force"@, has_arg: HasArg::No, val: 'f' }).push(
        SpecLongOpt { name: "safe"@, has_arg: HasArg::No, val: 'S' },
    ));
    t
}

/// The usage text of hfst-prune-alphabet.
pub open spec fn spec_usage(program_name: Seq<char>) -> Seq<char> {
    spec_unary_usage(
        program_name,
        "Prune the alphabet of a transducer"@,
        "Alphabet pruning options:\n  -f, --force            force pruning\n  -S, --safe             prune only if no unknown or identity symbols\n                         are used in the transducer (default)"@,
        ""@,
    )
}

/// The usage text of hfst-prune-alphabet.
pub fn print_usage(common: &CommonOptions) -> (s: String)
    ensures
        s@ == spec_usage(common.program_name@),
{
    unary_usage(
        common,
        "Prune the alphabet of a transducer",
        "Alphabet pruning options:\n  -f, --force            force pruning\n  -S, --safe             prune only if no unknown or identity symbols\n                         are used in the transducer (default)",
        "",
    )
}

/// What the tool's own options do: whether pruning is forced, or the
/// report the tool ends with.
pub open spec fn spec_own(c: SpecCommon, e: SpecEvent) -> Result<bool, SpecReport> {
    match e {
        SpecEvent::Opt { val, arg } => if val == 'f' {
            Ok(true)
        } else if val == 'S' {
            Ok(false)
        } else {
            Err(spec_error_case(c, e))
        },
        _ => Err(spec_error_case(c, e)),
    }
}

/// The settings and the forcing after the events `evs`, or the report the tool
/// ends with.
pub open spec fn spec_parse(c: SpecCommon, force: bool, evs: Seq<SpecEvent>, usage: Seq<char>) -> Result<
    (SpecCommon, bool),
    SpecReport,
>
    decreases evs.len(),
{
    if evs.len() == 0 {
        Ok((c, force))
    } else {
        match spec_shared_step(c, evs[0], usage) {
            SpecShared::Continue(n) => spec_parse(n, force, evs.drop_first(), usage),
            SpecShared::Stop(r) => Err(r),
            SpecShared::Own => match spec_own(c, evs[0]) {
                Ok(i) => spec_parse(c, i, evs.drop_first(), usage),
                Err(r) => Err(r),
            },
        }
    }
}

fn own(c: &CommonOptions, e: &OptEvent) -> (r: Result<bool, Report>)
    ensures
        match (r, spec_own(c@, e@)) {
            (Ok(x), Ok(y)) => x == y,
            (Err(x), Err(y)) => x@ == y,
            _ => false,
        },
{
    match e {
        OptEvent::Opt { val, arg: _ } => {
            if *val == 'f' {
                Ok(true)
            } else if *val == 'S' {
                Ok(false)
            } else {
                Err(error_case(c, e))
            }
        },
        _ => Err(error_case(c, e)),
    }
}

fn read_options(c: &mut CommonOptions, force: &mut bool, evs: &Vec<OptEvent>, usage: &str) -> (r: Option<Report>)
    ensures
        match spec_parse(old(c)@, *old(force), events_view(evs@), usage@) {
            Ok(y) => r is None && final(c)@ == y.0 && *final(force) == y.1,
            Err(y) => r matches Some(x) && x@ == y,
        },
{
    let ghost ev = events_view(evs@);
    let mut i: usize = 0;
    assert(ev.subrange(0, ev.len() as int) =~= ev);
    while i < evs.len()
        invariant
            ev == events_view(evs@),
            i <= evs@.len(),
            spec_parse(old(c)@, *old(force), ev, usage@) == spec_parse(
                c@,
                *force,
                ev.subrange(i as int, ev.len() as int),
                usage@,
            ),
        decreases evs@.len() - i,
    {
        let ghost rest = ev.subrange(i as int, ev.len() as int);
        assert(rest[0] == evs@[i as int]@);
        assert(rest.drop_first() =~= ev.subrange(i + 1, ev.len() as int));
        match shared_step(c, &evs[i], usage) {
            Shared::Continue => {},
            Shared::Stop(r) => {
                return Some(r);
            },
            Shared::Own => {
                match own(c, &evs[i]) {
                    Ok(x) => {
                        *force = x;
                    },
                    Err(r) => {
                        return Some(r);
                    },
                }
            },
        }
        i = i + 1;
    }
    assert(ev.subrange(evs@.len() as int, ev.len() as int) =~= Seq::<SpecEvent>::empty());
    None
}

/// What hfst-prune-alphabet does to each transducer: prune its alphabet,
/// forced when `force_pruning`.
pub struct PruneAlphabetOp {
    pub force_pruning: bool,
}

/// The settings and the operation hfst-prune-alphabet runs with.
pub struct Plan {
    pub common: CommonOptions,
    pub op: PruneAlphabetOp,
}

impl View for Plan {
    type V = (SpecCommon, bool);

    open spec fn view(&self) -> (SpecCommon, bool) {
        (self.common@, self.op.force_pruning)
    }
}

/// The settings and forcing hfst-prune-alphabet runs with, or the report it
/// ends with. Without `-f` the pruning is safe.
pub open spec fn spec_run(args: Seq<Seq<char>>) -> Result<(SpecCommon, bool), SpecReport> {
    let c0 = spec_initial_common(spec_argv0(args));
    let sc = spec_scan(args, spec_table());
    match spec_parse(c0, false, sc.0, spec_usage(c0.program_name)) {
        Err(r) => Err(r),
        Ok((c, force)) => match spec_check_unary(c, sc.1) {
            Ok(c2) => Ok((c2, force)),
            Err(r) => Err(r),
        },
    }
}

/// Reads hfst-prune-alphabet's command line (`args[0]` is the program name).
pub fn run(args: &Vec<String>) -> (r: Result<Plan, Report>)
    ensures
        outcome_is(r, spec_run(args_view(args@))),
{
    let name = argv0(args);
    let mut c = initial_common(name.as_str());
    let usage = print_usage(&c);
    let t = table();
    let sc = scan(args, &t);
    let mut force = false;
    if let Some(r) = read_options(&mut c, &mut force, &sc.events, usage.as_str()) {
        return Err(r);
    }
    match check_unary(c, &sc.operands) {
        Ok(c2) => Ok(Plan { common: c2, op: PruneAlphabetOp { force_pruning: force } }),
        Err(r) => Err(r),
    }
}

impl PruneAlphabetOp {
    /// The verbose line announcing one transducer.
    pub fn verbose_begin(&self, inputname: &str) -> (s: String)
        ensures
            s@ == "Pruning "@ + inputname@,
    {
        concat2("Pruning ", inputname)
    }

    /// What follows the verbose line.
    pub fn verbose_sep(&self) -> (s: &'static str)
        ensures
            s@ == " "@,
    {
        " "
    }

    /// The operation's name in the result's name.
    pub fn name_op(&self) -> (s: &'static str)
        ensures
            s@ == "prune-alphabet"@,
    {
        "prune-alphabet"
    }
}

} // verus!
