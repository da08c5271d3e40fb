//! The command line of the one-input tools: the shared options, `-i` and
//! `-o`, the usage text they share, and the operand check that ends the
//! option reading.

use vstd::prelude::*;
use crate::common::{
    Channel, CommonCase, CommonOptions, CommonStep, Report, SpecCommon, SpecReport, check_unary,
    common_case, common_long, common_options_help, end_with, error_case, spec_check_unary,
    spec_common_case, spec_common_options_help, spec_error_case, spec_unary_case,
    spec_unary_instructions, spec_unary_options_help, spec_version_text, to_stdout, unary_case,
    unary_instructions, unary_long, unary_options_help, version_text,
};
use crate::getopt::{HasArg, LongOpt, OptEvent, SpecEvent, SpecLongOpt, events_view, table_view};
use crate::text::concat3;

verus! {

/// The version every one-input tool reports.
pub open spec fn tool_version() -> Seq<char> {
    "0.1"@
}

/// The usage text of a one-input tool: the synopsis, the one-line summary,
/// the shared option help, the tool's own option help and closing notes.
pub open spec fn spec_unary_usage(
    program_name: Seq<char>,
    summary: Seq<char>,
    own: Seq<char>,
    notes: Seq<char>,
) -> Seq<char> {
    "Usage: "@ + program_name + " [OPTIONS...] [INFILE]\n"@ + summary + "\n\n"@ + spec_common_options_help()
        + spec_unary_options_help() + own + "\n"@ + spec_unary_instructions() + notes + "\n"@
}

/// The usage text of a one-input tool.
pub fn unary_usage(common: &CommonOptions, summary: &str, own: &str, notes: &str) -> (s: String)
    ensures
        s@ == spec_unary_usage(common.program_name@, summary@, own@, notes@),
{
    let mut s = concat3("Usage: ", common.program_name.as_str(), " [OPTIONS...] [INFILE]\n");
    s.append(summary);
    s.append("\n\n");
    s.append(common_options_help().as_str());
    s.append(unary_options_help().as_str());
    s.append(own);
    s.append("\n");
    s.append(unary_instructions().as_str());
    s.append(notes);
    s.append("\n");
    s
}

/// The shared and the `-i/-o` entries of an option table.
pub open spec fn spec_unary_table() -> Seq<SpecLongOpt> {
    seq![
        SpecLongOpt { name: "debug"@, has_arg: HasArg::No, val: 'd' },
        SpecLongOpt { name: "help"@, has_arg: HasArg::No, val: 'h' },
        SpecLongOpt { name: "version"@, has_arg: HasArg::No, val: 'V' },
        SpecLongOpt { name: "verbose"@, has_arg: HasArg::No, val: 'v' },
        SpecLongOpt { name: "quiet"@, has_arg: HasArg::No, val: 'q' },
        SpecLongOpt { name: "silent"@, has_arg: HasArg::No, val: 's' },
        SpecLongOpt { name: "input"@, has_arg: HasArg::Required, val: 'i' },
        SpecLongOpt { name: "output"@, has_arg: HasArg::Required, val: 'o' },
    ]
}

/// The option table of a one-input tool without options of its own.
pub fn unary_table() -> (t: Vec<LongOpt>)
    ensures
        table_view(t@) == spec_unary_table(),
{
    let mut t: Vec<LongOpt> = Vec::new();
    assert(table_view(t@) =~= Seq::<SpecLongOpt>::empty());
    common_long(&mut t);
    unary_long(&mut t);
    assert(table_view(t@) =~= spec_unary_table());
    t
}

/// What an option does to a one-input tool before its own options are
/// consulted.
pub enum SpecShared {
    /// A shared or `-i/-o` option: the settings are now these.
    Continue(SpecCommon),
    /// `-h` or `-V`: the tool ends with this report.
    Stop(SpecReport),
    /// Not an option the tools share.
    Own,
}

/// The report of `-h`: the usage on the standard output, success.
pub open spec fn spec_help_report(usage: Seq<char>) -> SpecReport {
    SpecReport { code: 0, messages: seq![(Channel::Stdout, usage)] }
}

/// The report of `-V`: the version banner on the standard output, success.
pub open spec fn spec_version_report(program_name: Seq<char>) -> SpecReport {
    SpecReport { code: 0, messages: seq![(Channel::Stdout, spec_version_text(program_name, tool_version()))] }
}

/// The shared handling of one option event.
pub open spec fn spec_shared_step(c: SpecCommon, e: SpecEvent, usage: Seq<char>) -> SpecShared {
    match spec_common_case(c, e) {
        CommonCase::Handled(n) => SpecShared::Continue(n),
        CommonCase::Help => SpecShared::Stop(spec_help_report(usage)),
        CommonCase::Version => SpecShared::Stop(spec_version_report(c.program_name)),
        CommonCase::NotHandled => match spec_unary_case(c, e) {
            Some(n) => SpecShared::Continue(n),
            None => SpecShared::Own,
        },
    }
}

/// The exec counterpart of [`SpecShared`].
pub enum Shared {
    Continue,
    Stop(Report),
    Own,
}

/// Applies the shared handling of one option event to `c`.
pub fn shared_step(c: &mut CommonOptions, e: &OptEvent, usage: &str) -> (r: Shared)
    ensures
        final(c)@.program_name == old(c)@.program_name,
        match spec_shared_step(old(c)@, e@, usage@) {
            SpecShared::Continue(n) => r is Continue && final(c)@ == n,
            SpecShared::Stop(x) => r matches Shared::Stop(y) && y@ == x,
            SpecShared::Own => r is Own && final(c)@ == old(c)@,
        },
{
    match common_case(c, e) {
        CommonStep::Handled => Shared::Continue,
        CommonStep::Help => Shared::Stop(end_with(0, to_stdout(usage.to_owned()))),
        CommonStep::Version => Shared::Stop(end_with(0, to_stdout(version_text(c, "0.1")))),
        CommonStep::NotHandled => {
            if unary_case(c, e) {
                Shared::Continue
            } else {
                Shared::Own
            }
        },
    }
}

/// The settings after the events `evs` of a tool without options of its
/// own, or the report it ends with.
pub open spec fn spec_parse_plain(c: SpecCommon, evs: Seq<SpecEvent>, usage: Seq<char>) -> Result<SpecCommon, SpecReport>
    decreases evs.len(),
{
    if evs.len() == 0 {
        Ok(c)
    } else {
        match spec_shared_step(c, evs[0], usage) {
            SpecShared::Continue(n) => spec_parse_plain(n, evs.drop_first(), usage),
            SpecShared::Stop(r) => Err(r),
            SpecShared::Own => Err(spec_error_case(c, evs[0])),
        }
    }
}

/// Reads the events of a tool without options of its own into `c`; `Some`
/// is the report the tool ends with.
fn read_plain(c: &mut CommonOptions, evs: &Vec<OptEvent>, usage: &str) -> (r: Option<Report>)
    ensures
        match spec_parse_plain(old(c)@, events_view(evs@), usage@) {
            Ok(y) => r is None && final(c)@ == y,
            Err(y) => r matches Some(x) && x@ == y,
        },
{
    let ghost ev = events_view(evs@);
    let mut i: usize = 0;
    assert(ev.subrange(0, ev.len() as int) =~= ev);
    while i < evs.len()
        invariant
            ev == events_view(evs@),
            i <= evs@.len(),
            spec_parse_plain(old(c)@, ev, usage@) == spec_parse_plain(c@, ev.subrange(i as int, ev.len() as int), usage@),
        decreases evs@.len() - i,
    {
        let ghost rest = ev.subrange(i as int, ev.len() as int);
        assert(rest[0] == evs@[i as int]@);
        assert(rest.drop_first() =~= ev.subrange(i + 1, ev.len() as int));
        match shared_step(c, &evs[i], usage) {
            Shared::Continue => {},
            Shared::Stop(r) => {
                return Some(r);
            },
            Shared::Own => {
                return Some(error_case(c, &evs[i]));
            },
        }
        i = i + 1;
    }
    assert(ev.subrange(evs@.len() as int, ev.len() as int) =~= Seq::<SpecEvent>::empty());
    None
}

/// Reads the options of a tool without options of its own, then checks its
/// operands.
pub fn parse_plain(c: CommonOptions, evs: &Vec<OptEvent>, operands: &Vec<String>, usage: &str) -> (r: Result<
    CommonOptions,
    Report,
>)
    ensures
        match (r, spec_parse_plain(c@, events_view(evs@), usage@)) {
            (Ok(x), Ok(y)) => spec_check_unary(y, crate::getopt::args_view(operands@)) == Ok::<SpecCommon, SpecReport>(x@),
            (Err(x), Ok(y)) => spec_check_unary(y, crate::getopt::args_view(operands@)) == Err::<SpecCommon, SpecReport>(x@),
            (Err(x), Err(y)) => x@ == y,
            _ => false,
        },
{
    let mut c = c;
    match read_plain(&mut c, evs, usage) {
        Some(r) => Err(r),
        None => check_unary(c, operands),
    }
}

/// The verbose line a one-input tool prints before it opens its streams.
pub open spec fn spec_reading_line(c: SpecCommon) -> Seq<char> {
    "Reading from "@ + c.input_filename + ", writing to "@ + c.output_filename + "\n"@
}

/// The verbose line a one-input tool prints before it opens its streams.
pub fn reading_line(c: &CommonOptions) -> (s: String)
    ensures
        s@ == spec_reading_line(c@),
{
    let mut s = concat3("Reading from ", c.input_filename.as_str(), ", writing to ");
    s.append(c.output_filename.as_str());
    s.append("\n");
    s
}

} // verus!
