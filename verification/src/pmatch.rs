//! hfst-pmatch: match the text of the standard input against a pmatch
//! transducer. The options (the two cutoffs, floating-point numbers, are
//! read by the caller, which resumes the reading), the transducer file, the
//! records the input is cut into and the framing of the output stand here;
//! the matching is the backend's.

use vstd::prelude::*;
use crate::common::{
    Channel, CommonOptions, Report, SpecCommon, SpecReport, argv0, end_with, error_case, initial_common,
    spec_argv0, spec_common_options_help, spec_error_case, spec_initial_common, spec_unary_options_help,
    to_stderr, common_options_help, unary_options_help,
};
use crate::getopt::{HasArg, LongOpt, OptEvent, SpecEvent, SpecLongOpt, args_view, events_view, scan, spec_scan, table_view};
use crate::numbers::{parse_i32, spec_parse_i32};
use crate::text::{concat3, spec_trim, str_eq, trim};
use crate::unary::{Shared, SpecShared, shared_step, spec_shared_step, spec_unary_table, unary_table};

verus! {

/// A setting that is on, off, or left to the transducer.
#[derive(Clone, Copy, PartialEq, Eq, Structural, Debug)]
pub enum VarVal {
    On,
    Off,
    NotDefined,
}

/// The tool's own settings, but for the two cutoffs.
#[derive(Clone, Copy, PartialEq, Eq, Structural, Debug)]
pub struct Options {
    /// Cleared by `-n`: records are separated by blank lines.
    pub blankline_separated: bool,
    pub count_patterns: VarVal,
    pub delete_patterns: VarVal,
    pub extract_patterns: VarVal,
    pub locate_mode: VarVal,
    pub print_weights: VarVal,
    pub mark_patterns: VarVal,
    /// `--max-recursion`; -1 when not given.
    pub max_recursion: i32,
    /// `--max-context`; -1 when not given.
    pub max_context: i32,
    pub profile: bool,
}

/// The settings before any option.
pub open spec fn spec_default_options() -> Options {
    Options {
        blankline_separated: true,
        count_patterns: VarVal::NotDefined,
        delete_patterns: VarVal::NotDefined,
        extract_patterns: VarVal::NotDefined,
        locate_mode: VarVal::NotDefined,
        print_weights: VarVal::NotDefined,
        mark_patterns: VarVal::NotDefined,
        max_recursion: -1i32,
        max_context: -1i32,
        profile: false,
    }
}

/// The settings before any option.
pub fn default_options() -> (o: Options)
    ensures
        o == spec_default_options(),
{
    Options {
        blankline_separated: true,
        count_patterns: VarVal::NotDefined,
        delete_patterns: VarVal::NotDefined,
        extract_patterns: VarVal::NotDefined,
        locate_mode: VarVal::NotDefined,
        print_weights: VarVal::NotDefined,
        mark_patterns: VarVal::NotDefined,
        max_recursion: -1,
        max_context: -1,
        profile: false,
    }
}

/// The option table: the shared options, then the tool's own.
pub open spec fn spec_table() -> Seq<SpecLongOpt> {
    spec_unary_table() + seq![
        SpecLongOpt { name: "newline"@, has_arg: HasArg::No, val: 'n' },
        SpecLongOpt { name: "extract-patterns"@, has_arg: HasArg::No, val: 'x' },
        SpecLongOpt { name: "locate"@, has_arg: HasArg::No, val: 'l' },
        SpecLongOpt { name: "print-weights"@, has_arg: HasArg::No, val: 'w' },
        SpecLongOpt { name: "count-patterns"@, has_arg: HasArg::No, val: 'c' },
        SpecLongOpt { name: "delete-patterns"@, has_arg: HasArg::No, val: 'z' },
        SpecLongOpt { name: "no-mark-patterns"@, has_arg: HasArg::No, val: 'm' },
        SpecLongOpt { name: "max-context"@, has_arg: HasArg::Required, val: 'b' },
        SpecLongOpt { name: "max-recursion"@, has_arg: HasArg::Required, val: 'r' },
        SpecLongOpt { name: "weight-cutoff"@, has_arg: HasArg::Required, val: 'W' },
        SpecLongOpt { name: "time-cutoff"@, has_arg: HasArg::Required, val: 't' },
        SpecLongOpt { name: "profile"@, has_arg: HasArg::No, val: 'p' },
    ]
}

fn table() -> (t: Vec<LongOpt>)
    ensures
        table_view(t@) == spec_table(),
{
    let mut t = unary_table();
    t.push(crate::common::opt("newline", HasArg::No, 'n'));
    t.push(crate::common::opt("extract-patterns", HasArg::No, 'x'));
    t.push(crate::common::opt("locate", HasArg::No, 'l'));
    t.push(crate::common::opt("print-weights", HasArg::No, 'w'));
    t.push(crate::common::opt("count-patterns", HasArg::No, 'c'));
    t.push(crate::common::opt("delete-patterns", HasArg::No, 'z'));
    t.push(crate::common::opt("no-mark-patterns", HasArg::No, 'm'));
    t.push(crate::common::opt("max-context", HasArg::Required, 'b'));
    t.push(crate::common::opt("max-recursion", HasArg::Required, 'r'));
    t.push(crate::common::opt("weight-cutoff", HasArg::Required, 'W'));
    t.push(crate::common::opt("time-cutoff", HasArg::Required, 't'));
    t.push(crate::common::opt("profile", HasArg::No, 'p'));
    assert(table_view(t@) =~= spec_table());
    t
}

/// The help of the tool's own options.
pub open spec fn own_help() -> Seq<char> {
    "Pmatch options:\n  -n  --newline           Newline as input separator (default is blank line)\n  -x  --extract-patterns  Only print tagged parts in output\n  -l  --locate            Only print locations of matches\n  -w  --print-weights     In locate mode, include weights of the matches\n  -c  --count-patterns    Print the total number of matches when done\n      --delete-patterns   Replace matches with opening tags\n      --no-mark-patterns  Don't tag matched patterns\n      --max-context       Upper limit to context length allowed\n      --max-recursion     Upper limit for recursion\n      --weight-cutoff=W   Upper limit for allowed weight\n  -t, --time-cutoff=S     Limit search after having used S seconds per input\n  -p  --profile           Produce profiling data\n"@
}

/// The usage text of hfst-pmatch.
pub open spec fn spec_usage(program_name: Seq<char>) -> Seq<char> {
    "Usage: "@ + program_name + " [OPTIONS...] TRANSDUCER\nperform matching/lookup on text streams\n\n"@
        + spec_common_options_help() + spec_unary_options_help() + own_help()
        + "Use standard streams for input and output.\n\n\n"@
}

/// The usage text of hfst-pmatch.
pub fn print_usage(common: &CommonOptions) -> (s: String)
    ensures
        s@ == spec_usage(common.program_name@),
{
    let mut s = concat3(
        "Usage: ",
        common.program_name.as_str(),
        " [OPTIONS...] TRANSDUCER\nperform matching/lookup on text streams\n\n",
    );
    s.append(common_options_help().as_str());
    s.append(unary_options_help().as_str());
    s.append(
        "Pmatch options:\n  -n  --newline           Newline as input separator (default is blank line)\n  -x  --extract-patterns  Only print tagged parts in output\n  -l  --locate            Only print locations of matches\n  -w  --print-weights     In locate mode, include weights of the matches\n  -c  --count-patterns    Print the total number of matches when done\n      --delete-patterns   Replace matches with opening tags\n      --no-mark-patterns  Don't tag matched patterns\n      --max-context       Upper limit to context length allowed\n      --max-recursion     Upper limit for recursion\n      --weight-cutoff=W   Upper limit for allowed weight\n  -t, --time-cutoff=S     Limit search after having used S seconds per input\n  -p  --profile           Produce profiling data\n",
    );
    s.append("Use standard streams for input and output.\n\n\n");
    s
}

/// A cutoff option, whose floating-point argument the caller reads.
#[derive(Clone, Copy, PartialEq, Eq, Structural, Debug)]
pub enum Cutoff {
    /// `--weight-cutoff`, which sets the time cutoff too.
    Weight,
    /// `-t`, `--time-cutoff`.
    Time,
}

/// The number a `--max-context` or `--max-recursion` argument gives: the
/// integer it holds around white space, else 0.
pub open spec fn spec_limit(a: Seq<char>) -> i32 {
    match spec_parse_i32(spec_trim(a)) {
        Some(n) => n,
        None => 0,
    }
}

/// The refusal of a negative limit or cutoff.
pub open spec fn spec_invalid(option: Seq<char>) -> SpecReport {
    SpecReport { code: 1, messages: seq![(Channel::Stderr, "Invalid argument for --"@ + option + "\n"@)] }
}

/// What one of the tool's own options does.
pub enum SpecOwn {
    Next(Options),
    End(SpecReport),
    Cutoff(Cutoff, Seq<char>),
}

/// What one of the tool's own options does to `o`.
pub open spec fn spec_own(c: SpecCommon, o: Options, e: SpecEvent) -> SpecOwn {
    match e {
        SpecEvent::Opt { val, arg } => {
            let a = arg.unwrap_or(Seq::empty());
            if val == 'n' {
                SpecOwn::Next(Options { blankline_separated: false, ..o })
            } else if val == 'x' {
                SpecOwn::Next(Options { extract_patterns: VarVal::On, ..o })
            } else if val == 'l' {
                SpecOwn::Next(Options { locate_mode: VarVal::On, ..o })
            } else if val == 'w' {
                SpecOwn::Next(Options { print_weights: VarVal::On, ..o })
            } else if val == 'c' {
                SpecOwn::Next(Options { count_patterns: VarVal::On, ..o })
            } else if val == 'z' {
                SpecOwn::Next(Options { delete_patterns: VarVal::On, ..o })
            } else if val == 'm' {
                SpecOwn::Next(Options { mark_patterns: VarVal::Off, ..o })
            } else if val == 'b' {
                if spec_limit(a) < 0 {
                    SpecOwn::End(spec_invalid("max-context"@))
                } else {
                    SpecOwn::Next(Options { max_context: spec_limit(a), ..o })
                }
            } else if val == 'r' {
                if spec_limit(a) < 0 {
                    SpecOwn::End(spec_invalid("max-recursion"@))
                } else {
                    SpecOwn::Next(Options { max_recursion: spec_limit(a), ..o })
                }
            } else if val == 'W' {
                SpecOwn::Cutoff(Cutoff::Weight, a)
            } else if val == 't' {
                SpecOwn::Cutoff(Cutoff::Time, a)
            } else if val == 'p' {
                SpecOwn::Next(Options { profile: true, ..o })
            } else {
                SpecOwn::End(spec_error_case(c, e))
            }
        },
        _ => SpecOwn::End(spec_error_case(c, e)),
    }
}

/// Where the option reading stops.
pub enum SpecPause {
    Done(SpecCommon, Options),
    End(SpecReport),
    /// The event at `at` is a cutoff with this argument, for the caller to
    /// read; the settings read before it are these.
    Cutoff { at: int, cutoff: Cutoff, text: Seq<char>, common: SpecCommon, options: Options },
}

/// Reads the events from `i` on: the shared options first, then the
/// tool's own.
pub open spec fn spec_read(c: SpecCommon, o: Options, evs: Seq<SpecEvent>, i: int) -> SpecPause
    decreases evs.len() - i,
{
    if i < 0 || i >= evs.len() {
        SpecPause::Done(c, o)
    } else {
        match spec_shared_step(c, evs[i], spec_usage(c.program_name)) {
            SpecShared::Continue(n) => spec_read(n, o, evs, i + 1),
            SpecShared::Stop(r) => SpecPause::End(r),
            SpecShared::Own => match spec_own(c, o, evs[i]) {
                SpecOwn::Next(n) => spec_read(c, n, evs, i + 1),
                SpecOwn::End(r) => SpecPause::End(r),
                SpecOwn::Cutoff(k, t) => SpecPause::Cutoff { at: i, cutoff: k, text: t, common: c, options: o },
            },
        }
    }
}

/// The exec counterpart of [`SpecPause`]; the settings read so far are in
/// those the reading was given.
pub enum Pause {
    Done,
    End(Report),
    Cutoff { at: usize, cutoff: Cutoff, text: String },
}

fn limit(a: &str) -> (n: i32)
    ensures
        n == spec_limit(a@),
{
    let t = trim(a);
    match parse_i32(t.as_str()) {
        Some(n) => n,
        None => 0,
    }
}

fn invalid(option: &str) -> (r: Report)
    ensures
        r@ == spec_invalid(option@),
{
    end_with(1, to_stderr(concat3("Invalid argument for --", option, "\n")))
}

fn own(c: &CommonOptions, o: &mut Options, e: &OptEvent) -> (r: Option<Pause>)
    ensures
        match spec_own(c@, *old(o), e@) {
            SpecOwn::Next(n) => r is None && *final(o) == n,
            SpecOwn::End(x) => r matches Some(Pause::End(y)) && y@ == x,
            SpecOwn::Cutoff(k, t) => r matches Some(Pause::Cutoff { at, cutoff, text }) && cutoff == k && text@ == t
                && *final(o) == *old(o),
        },
{
    match e {
        OptEvent::Opt { val, arg } => {
            let v = *val;
            let a = match arg {
                Some(s) => s.clone(),
                None => String::new(),
            };
            if v == 'n' {
                o.blankline_separated = false;
            } else if v == 'x' {
                o.extract_patterns = VarVal::On;
            } else if v == 'l' {
                o.locate_mode = VarVal::On;
            } else if v == 'w' {
                o.print_weights = VarVal::On;
            } else if v == 'c' {
                o.count_patterns = VarVal::On;
            } else if v == 'z' {
                o.delete_patterns = VarVal::On;
            } else if v == 'm' {
                o.mark_patterns = VarVal::Off;
            } else if v == 'b' {
                let n = limit(a.as_str());
                if n < 0 {
                    return Some(Pause::End(invalid("max-context")));
                }
                o.max_context = n;
            } else if v == 'r' {
                let n = limit(a.as_str());
                if n < 0 {
                    return Some(Pause::End(invalid("max-recursion")));
                }
                o.max_recursion = n;
            } else if v == 'W' {
                return Some(Pause::Cutoff { at: 0, cutoff: Cutoff::Weight, text: a });
            } else if v == 't' {
                return Some(Pause::Cutoff { at: 0, cutoff: Cutoff::Time, text: a });
            } else if v == 'p' {
                o.profile = true;
            } else {
                return Some(Pause::End(error_case(c, e)));
            }
            None
        },
        _ => Some(Pause::End(error_case(c, e))),
    }
}

/// Reads the option events from `from` on into `c` and `o`, up to the end,
/// the end of the tool, or the next cutoff.
pub fn read_options(c: &mut CommonOptions, o: &mut Options, evs: &Vec<OptEvent>, from: usize) -> (r: Pause)
    ensures
        match spec_read(old(c)@, *old(o), events_view(evs@), from as int) {
            SpecPause::Done(x, y) => r is Done && final(c)@ == x && *final(o) == y,
            SpecPause::End(x) => r matches Pause::End(y) && y@ == x,
            SpecPause::Cutoff { at, cutoff, text, common, options } => r matches Pause::Cutoff {
                at: a2,
                cutoff: k2,
                text: t2,
            } && a2 == at && k2 == cutoff && t2@ == text && final(c)@ == common && *final(o) == options,
        },
{
    let ghost ev = events_view(evs@);
    let mut i: usize = from;
    while i < evs.len()
        invariant
            ev == events_view(evs@),
            from <= i,
            spec_read(old(c)@, *old(o), ev, from as int) == spec_read(c@, *o, ev, i as int),
        decreases evs@.len() - i,
    {
        assert(ev[i as int] == evs@[i as int]@);
        let usage = print_usage(c);
        match shared_step(c, &evs[i], usage.as_str()) {
            Shared::Continue => {},
            Shared::Stop(r) => {
                return Pause::End(r);
            },
            Shared::Own => {
                match own(c, o, &evs[i]) {
                    None => {},
                    Some(Pause::Cutoff { at: _, cutoff, text }) => {
                        return Pause::Cutoff { at: i, cutoff, text };
                    },
                    Some(p) => {
                        return p;
                    },
                }
            },
        }
        i = i + 1;
    }
    Pause::Done
}

/// The refusal of a negative cutoff: `--weight-cutoff` names itself, `-t`
/// the time cutoff. `negative` is whether the argument reads as a negative
/// number.
pub fn cutoff_refusal(cutoff: Cutoff, negative: bool) -> (r: Option<Report>)
    ensures
        r is Some <==> negative,
        r matches Some(x) ==> x@ == spec_invalid(match cutoff {
            Cutoff::Weight => "weight-cutoff"@,
            Cutoff::Time => "time-cutoff"@,
        }),
{
    if !negative {
        None
    } else {
        match cutoff {
            Cutoff::Weight => Some(invalid("weight-cutoff")),
            Cutoff::Time => Some(invalid("time-cutoff")),
        }
    }
}

/// The refusal when more than the one transducer file is named.
pub open spec fn more_than_one() -> SpecReport {
    SpecReport { code: 1, messages: seq![(Channel::Stderr, "More than one input file given\n"@)] }
}

/// The transducer file, from the operands: one operand names it (`-` the
/// standard input), unless `-i` did; more are refused, and so is none when
/// `-i` did not name it.
pub open spec fn spec_input(c: SpecCommon, operands: Seq<Seq<char>>) -> Result<SpecCommon, SpecReport> {
    if operands.len() > 1 {
        Err(more_than_one())
    } else if operands.len() == 1 {
        if c.input_named {
            Err(more_than_one())
        } else {
            Ok(SpecCommon {
                input_filename: if operands[0] == "-"@ { "<stdin>"@ } else { operands[0] },
                input_named: true,
                ..c
            })
        }
    } else if !c.input_named {
        Err(SpecReport { code: 1, messages: seq![(Channel::Stderr, "No input file given\n"@)] })
    } else {
        Ok(c)
    }
}

/// The transducer file, from the operands.
pub fn input(c: CommonOptions, operands: &Vec<String>) -> (r: Result<CommonOptions, Report>)
    ensures
        match (r, spec_input(c@, args_view(operands@))) {
            (Ok(x), Ok(y)) => x@ == y,
            (Err(x), Err(y)) => x@ == y,
            _ => false,
        },
{
    if operands.len() > 1 {
        Err(end_with(1, to_stderr("More than one input file given\n".to_owned())))
    } else if operands.len() == 1 {
        if c.input_named {
            Err(end_with(1, to_stderr("More than one input file given\n".to_owned())))
        } else {
            assert(args_view(operands@)[0] == operands@[0]@);
            let name = if str_eq(operands[0].as_str(), "-") { "<stdin>".to_owned() } else { operands[0].clone() };
            Ok(CommonOptions { input_filename: name, input_named: true, ..c })
        }
    } else if !c.input_named {
        Err(end_with(1, to_stderr("No input file given\n".to_owned())))
    } else {
        Ok(c)
    }
}

/// The refusal when the transducer file does not open.
pub fn could_not_open(name: &str) -> (r: Report)
    ensures
        r@ == (SpecReport { code: 1, messages: seq![(Channel::Stderr, "Could not open file "@ + name@ + "\n"@)] }),
{
    end_with(1, to_stderr(concat3("Could not open file ", name, "\n")))
}

/// What the tool starts from: its settings, the options before any is read,
/// and the scanned command line.
pub struct Start {
    pub common: CommonOptions,
    pub options: Options,
    pub events: Vec<OptEvent>,
    pub operands: Vec<String>,
}

/// Scans hfst-pmatch's command line (`args[0]` is the program name); the
/// options are then read with [`read_options`] from event 0, and the
/// transducer file found with [`input`].
pub fn run(args: &Vec<String>) -> (r: Start)
    ensures
        r.common@ == spec_initial_common(spec_argv0(args_view(args@))),
        r.options == spec_default_options(),
        events_view(r.events@) == spec_scan(args_view(args@), spec_table()).0,
        args_view(r.operands@) == spec_scan(args_view(args@), spec_table()).1,
{
    let name = argv0(args);
    let common = initial_common(name.as_str());
    let t = table();
    let sc = scan(args, &t);
    Start { common, options: default_options(), events: sc.events, operands: sc.operands }
}

// ---------------------------------------------------------------------------
// The settings handed to the matcher
// ---------------------------------------------------------------------------

/// What the matcher is told: each switch given on the command line, the
/// limits that were given, and whether to profile.
#[derive(Clone, Copy, PartialEq, Eq, Structural, Debug)]
pub struct Settings {
    pub extract_patterns: Option<bool>,
    pub locate_mode: Option<bool>,
    pub count_patterns: Option<bool>,
    pub delete_patterns: Option<bool>,
    pub mark_patterns: Option<bool>,
    pub max_context: Option<u32>,
    pub max_recursion: Option<u32>,
    pub profile: bool,
}

/// A switch as the matcher is told it: not at all when left undefined.
pub open spec fn spec_switch(v: VarVal) -> Option<bool> {
    match v {
        VarVal::NotDefined => None,
        VarVal::On => Some(true),
        VarVal::Off => Some(false),
    }
}

/// A limit as the matcher is told it: not at all when negative.
pub open spec fn spec_limit_setting(n: i32) -> Option<u32> {
    if n >= 0 { Some(n as u32) } else { None }
}

/// What the matcher is told.
pub open spec fn spec_settings(o: Options) -> Settings {
    Settings {
        extract_patterns: spec_switch(o.extract_patterns),
        locate_mode: spec_switch(o.locate_mode),
        count_patterns: spec_switch(o.count_patterns),
        delete_patterns: spec_switch(o.delete_patterns),
        mark_patterns: spec_switch(o.mark_patterns),
        max_context: spec_limit_setting(o.max_context),
        max_recursion: spec_limit_setting(o.max_recursion),
        profile: o.profile,
    }
}

fn switch(v: VarVal) -> (r: Option<bool>)
    ensures
        r == spec_switch(v),
{
    match v {
        VarVal::NotDefined => None,
        VarVal::On => Some(true),
        VarVal::Off => Some(false),
    }
}

fn limit_setting(n: i32) -> (r: Option<u32>)
    ensures
        r == spec_limit_setting(n),
{
    if n >= 0 {
        Some(n as u32)
    } else {
        None
    }
}

/// What the matcher is told.
pub fn settings(o: &Options) -> (s: Settings)
    ensures
        s == spec_settings(*o),
{
    Settings {
        extract_patterns: switch(o.extract_patterns),
        locate_mode: switch(o.locate_mode),
        count_patterns: switch(o.count_patterns),
        delete_patterns: switch(o.delete_patterns),
        mark_patterns: switch(o.mark_patterns),
        max_context: limit_setting(o.max_context),
        max_recursion: limit_setting(o.max_recursion),
        profile: o.profile,
    }
}

// ---------------------------------------------------------------------------
// The input and the output
// ---------------------------------------------------------------------------

/// `s` without one final newline.
pub open spec fn spec_chomp(s: Seq<char>) -> Seq<char> {
    if s.len() > 0 && s.last() == '\n' { s.drop_last() } else { s }
}

/// The input cut into records: the record read so far, and how records
/// are separated.
pub struct Records {
    pub pending: String,
    pub blankline_separated: bool,
}

/// What reading `line` (with its newline, if any) gives: with newline
/// separation, the line is a record; otherwise a blank line ends the
/// record read so far (even an empty one), and other lines add to it. A
/// record is matched without its final newline.
pub open spec fn spec_on_line(pending: Seq<char>, blankline: bool, line: Seq<char>) -> (Seq<char>, Option<Seq<char>>) {
    if !blankline {
        (pending, Some(spec_chomp(line)))
    } else if line.len() == 0 || line[0] == '\n' {
        (Seq::empty(), Some(spec_chomp(pending)))
    } else {
        (pending + line, None)
    }
}

fn chomp(s: &str) -> (r: String)
    ensures
        r@ == spec_chomp(s@),
{
    let v = crate::text::chars_of(s);
    if v.len() > 0 && v[v.len() - 1] == '\n' {
        crate::text::string_of_range(&v, 0, v.len() - 1)
    } else {
        assert(v@.subrange(0, v@.len() as int) =~= v@);
        crate::text::string_of_range(&v, 0, v.len())
    }
}

impl Records {
    /// No record read yet.
    pub fn new(blankline_separated: bool) -> (r: Records)
        ensures
            r.pending@ == Seq::<char>::empty(),
            r.blankline_separated == blankline_separated,
    {
        Records { pending: String::new(), blankline_separated }
    }

    /// Reads one line; the record to match, if one is complete.
    pub fn on_line(&mut self, line: &str) -> (r: Option<String>)
        ensures
            final(self).blankline_separated == old(self).blankline_separated,
            final(self).pending@ == spec_on_line(old(self).pending@, old(self).blankline_separated, line@).0,
            crate::getopt::opt_view(r) == spec_on_line(old(self).pending@, old(self).blankline_separated, line@).1,
    {
        if !self.blankline_separated {
            Some(chomp(line))
        } else if line.unicode_len() == 0 || line.get_char(0) == '\n' {
            let r = chomp(self.pending.as_str());
            self.pending = String::new();
            Some(r)
        } else {
            self.pending.append(line);
            None
        }
    }

    /// The record left when the input ends: the one read so far, if blank
    /// lines separate records and it is not empty.
    pub fn at_end(&self) -> (r: Option<String>)
        ensures
            crate::getopt::opt_view(r) == (if self.blankline_separated && self.pending@.len() > 0 {
                Some(spec_chomp(self.pending@))
            } else {
                None
            }),
    {
        if self.blankline_separated && self.pending.as_str().unicode_len() > 0 {
            Some(chomp(self.pending.as_str()))
        } else {
            None
        }
    }
}

/// What follows a match's output: a newline, and a blank line when blank
/// lines separate records.
pub fn after_match(blankline_separated: bool) -> (s: &'static str)
    ensures
        s@ == (if blankline_separated { "\n\n"@ } else { "\n"@ }),
{
    if blankline_separated {
        "\n\n"
    } else {
        "\n"
    }
}

/// Whether located matches are printed with their weights: the setting is
/// tested as the number the on/off/undefined value stands for, where on is
/// 0; so weights are printed unless `-w` was given.
pub fn locate_weights(print_weights: VarVal) -> (r: bool)
    ensures
        r == (print_weights != VarVal::On),
{
    match print_weights {
        VarVal::On => false,
        _ => true,
    }
}

/// What ends the output: the pattern counts with `-c` and the profile with
/// `-p`, each between newlines.
pub open spec fn spec_closing(o: Options, counts: Seq<char>, profile: Seq<char>) -> Seq<char> {
    (if o.count_patterns == VarVal::On { "\n"@ + counts + "\n"@ } else { Seq::empty() }) + (if o.profile {
        "\n"@ + profile + "\n"@
    } else {
        Seq::empty()
    })
}

/// What ends the output.
pub fn closing(o: &Options, counts: &str, profile: &str) -> (s: String)
    ensures
        s@ == spec_closing(*o, counts@, profile@),
{
    let mut s = if o.count_patterns == VarVal::On { concat3("\n", counts, "\n") } else { String::new() };
    if o.profile {
        s.append("\n");
        s.append(profile);
        s.append("\n");
    }
    assert(s@ =~= spec_closing(*o, counts@, profile@));
    s
}

// ---------------------------------------------------------------------------
// Laws
// ---------------------------------------------------------------------------

/// With newline separation every line is a record of its own, matched
/// without its newline, and nothing is held back.
pub proof fn lemma_newline_records(pending: Seq<char>, line: Seq<char>)
    ensures
        spec_on_line(pending, false, line) == (pending, Some(spec_chomp(line))),
{
}

/// With blank-line separation the lines of a record are kept, in order,
/// until a blank line hands them over.
pub proof fn lemma_blankline_records(pending: Seq<char>, line: Seq<char>, blank: Seq<char>)
    requires
        line.len() > 0,
        line[0] != '\n',
        blank.len() > 0,
        blank[0] == '\n',
    ensures
        spec_on_line(spec_on_line(pending, true, line).0, true, blank) == (Seq::<char>::empty(), Some(
            spec_chomp(pending + line),
        )),
{
}

} // verus!
