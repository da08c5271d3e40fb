//! hfst-invert: swap the input and output sides of each transducer of a
//! stream. The tool has no options of its own; what it decides before the
//! stream work, and what it says of each transducer, stand here.

use vstd::prelude::*;
use crate::common::{
    CommonOptions, Report, SpecCommon, SpecReport, argv0, initial_common, outcome_is, spec_argv0,
    spec_check_unary, spec_initial_common,
};
use crate::getopt::{args_view, scan, spec_scan};
use crate::text::{concat3, decimal, spec_decimal};
use crate::unary::{parse_plain, spec_parse_plain, spec_unary_table, spec_unary_usage, unary_table, unary_usage};

verus! {

/// The usage text of hfst-invert.
pub open spec fn spec_usage(program_name: Seq<char>) -> Seq<char> {
    spec_unary_usage(program_name, "Invert a transducer"@, ""@, ""@)
}

/// The usage text of hfst-invert.
pub fn print_usage(common: &CommonOptions) -> (s: String)
    ensures
        s@ == spec_usage(common.program_name@),
{
    unary_usage(common, "Invert a transducer", "", "")
}

/// The settings hfst-invert runs with, or the report it ends with.
pub open spec fn spec_run(args: Seq<Seq<char>>) -> Result<SpecCommon, SpecReport> {
    let c0 = spec_initial_common(spec_argv0(args));
    let sc = spec_scan(args, spec_unary_table());
    match spec_parse_plain(c0, sc.0, spec_usage(c0.program_name)) {
        Err(r) => Err(r),
        Ok(c) => spec_check_unary(c, sc.1),
    }
}

/// Reads hfst-invert's command line (`args[0]` is the program name).
pub fn run(args: &Vec<String>) -> (r: Result<CommonOptions, Report>)
    ensures
        outcome_is(r, spec_run(args_view(args@))),
{
    let name = argv0(args);
    let c = initial_common(name.as_str());
    let usage = print_usage(&c);
    let table = unary_table();
    let sc = scan(args, &table);
    parse_plain(c, &sc.events, &sc.operands, usage.as_str())
}

/// What hfst-invert does to each transducer.
pub struct InvertOp;

impl InvertOp {
    /// The verbose line announcing the `n`th transducer (from 1), named
    /// `name`.
    pub fn verbose_line(&self, name: &str, n: u64) -> (s: String)
        requires
            n >= 1,
        ensures
            s@ == "Inverting "@ + name@ + "..."@ + (if n == 1 { Seq::empty() } else { spec_decimal(n as nat) }) + "\n"@,
    {
        let mut s = concat3("Inverting ", name, "...");
        if n != 1 {
            s.append(decimal(n as u128).as_str());
        }
        s.append("\n");
        s
    }

    /// The operation's name in the result's name.
    pub fn name_op(&self) -> (s: &'static str)
        ensures
            s@ == "invert"@,
    {
        "invert"
    }

    /// The operation's symbol in the result's formula.
    pub fn formula(&self) -> (s: &'static str)
        ensures
            s@ == "\u{207b}\u{00b9}"@,
    {
        "\u{207b}\u{00b9}"
    }
}

} // verus!
