//! hfst-reverse: reverse the transducers of a stream. The tool has no
//! options of its own; what it decides before the stream work is stated
//! here, the stream work itself is the backend's.

use vstd::prelude::*;
use crate::common::{
    CommonOptions, Report, SpecCommon, SpecReport, argv0, initial_common, outcome_is, spec_argv0,
    spec_check_unary, spec_initial_common,
};
use crate::getopt::{args_view, scan, spec_scan};
use crate::text::concat2;
use crate::unary::{parse_plain, spec_parse_plain, spec_unary_table, spec_unary_usage, unary_table, unary_usage};

verus! {

/// The usage text of hfst-reverse.
pub open spec fn spec_usage(program_name: Seq<char>) -> Seq<char> {
    spec_unary_usage(program_name, "Reverse a transducer"@, ""@, ""@)
}

/// The usage text of hfst-reverse.
pub fn print_usage(common: &CommonOptions) -> (s: String)
    ensures
        s@ == spec_usage(common.program_name@),
{
    unary_usage(common, "Reverse a transducer", "", "")
}

/// The settings hfst-reverse runs with, or the report it ends with.
pub open spec fn spec_run(args: Seq<Seq<char>>) -> Result<SpecCommon, SpecReport> {
    let c0 = spec_initial_common(spec_argv0(args));
    let sc = spec_scan(args, spec_unary_table());
    match spec_parse_plain(c0, sc.0, spec_usage(c0.program_name)) {
        Err(r) => Err(r),
        Ok(c) => spec_check_unary(c, sc.1),
    }
}

/// Reads hfst-reverse's command line (`args[0]` is the program name).
pub fn run(args: &Vec<String>) -> (r: Result<CommonOptions, Report>)
    ensures
        outcome_is(r, spec_run(args_view(args@))),
{
    let name = argv0(args);
    let c = initial_common(name.as_str());
    let usage = print_usage(&c);
    let table = unary_table();
    let sc = scan(args, &table);
    parse_plain(c, &sc.events, &sc.operands, usage.as_str())
}

/// What hfst-reverse does to each transducer.
pub struct ReverseOp;

impl ReverseOp {
    /// The verbose line announcing one transducer.
    pub fn verbose_begin(&self, inputname: &str) -> (s: String)
        ensures
            s@ == "Reversing "@ + inputname@,
    {
        concat2("Reversing ", inputname)
    }

    /// The operation's name in the result's name.
    pub fn name_op(&self) -> (s: &'static str)
        ensures
            s@ == "reverse"@,
    {
        "reverse"
    }

    /// The operation's symbol in the result's formula.
    pub fn formula(&self) -> (s: &'static str)
        ensures
            s@ == "\u{21c6}"@,
    {
        "\u{21c6}"
    }
}

} // verus!
