//! hfst-strip-header: remove the HFST3 headers of a stream. The tool has no
//! options of its own; what it decides before the stream work is stated
//! here; the stream work itself is done on bytes by the backend.

use vstd::prelude::*;
use crate::common::{
    CommonOptions, Report, SpecCommon, SpecReport, argv0, initial_common, outcome_is, spec_argv0,
    spec_check_unary, spec_initial_common,
};
use crate::getopt::{args_view, scan, spec_scan};
use crate::unary::{parse_plain, spec_parse_plain, spec_unary_table, spec_unary_usage, unary_table, unary_usage};

verus! {

/// The usage text of hfst-strip-header.
pub open spec fn spec_usage(program_name: Seq<char>) -> Seq<char> {
    spec_unary_usage(program_name, "Remove any HFST3 headers"@, ""@, ""@)
}

/// The usage text of hfst-strip-header.
pub fn print_usage(common: &CommonOptions) -> (s: String)
    ensures
        s@ == spec_usage(common.program_name@),
{
    unary_usage(common, "Remove any HFST3 headers", "", "")
}

/// The settings hfst-strip-header runs with, or the report it ends with.
pub open spec fn spec_run(args: Seq<Seq<char>>) -> Result<SpecCommon, SpecReport> {
    let c0 = spec_initial_common(spec_argv0(args));
    let sc = spec_scan(args, spec_unary_table());
    match spec_parse_plain(c0, sc.0, spec_usage(c0.program_name)) {
        Err(r) => Err(r),
        Ok(c) => spec_check_unary(c, sc.1),
    }
}

/// Reads hfst-strip-header's command line (`args[0]` is the program name).
pub fn run(args: &Vec<String>) -> (r: Result<CommonOptions, Report>)
    ensures
        outcome_is(r, spec_run(args_view(args@))),
{
    let name = argv0(args);
    let c = initial_common(name.as_str());
    let usage = print_usage(&c);
    let table = unary_table();
    let sc = scan(args, &table);
    parse_plain(c, &sc.events, &sc.operands, usage.as_str())
}

} // verus!
