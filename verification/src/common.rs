//! What every HFST tool shares: the `-h/-V/-v/-q/-s/-d` options, the
//! `-i/-o` options and operand of the one-input tools, the messages a tool
//! prints and the exit report it ends with.

use vstd::prelude::*;
use crate::getopt::{HasArg, LongOpt, OptEvent, SpecEvent, SpecLongOpt, table_view};
use crate::text::{concat2, concat3, str_eq};

verus! {

/// Where a message is written.
#[derive(Clone, Copy, PartialEq, Eq, Structural, Debug)]
pub enum Channel {
    Stdout,
    Stderr,
}

/// One piece of text a tool writes.
#[derive(Debug)]
pub struct Message {
    pub channel: Channel,
    pub text: String,
}

impl View for Message {
    type V = (Channel, Seq<char>);

    open spec fn view(&self) -> (Channel, Seq<char>) {
        (self.channel, self.text@)
    }
}

pub open spec fn messages_view(m: Seq<Message>) -> Seq<(Channel, Seq<char>)> {
    m.map_values(|x: Message| x@)
}

/// How a tool ends when it ends before its transducer work: the exit code
/// and what it wrote, in order.
#[derive(Debug)]
pub struct Report {
    pub code: i32,
    pub messages: Vec<Message>,
}

/// The model of a [`Report`].
pub struct SpecReport {
    pub code: i32,
    pub messages: Seq<(Channel, Seq<char>)>,
}

impl View for Report {
    type V = SpecReport;

    open spec fn view(&self) -> SpecReport {
        SpecReport { code: self.code, messages: messages_view(self.messages@) }
    }
}

/// The state shared by the tools (the `-v/-q/-i/-o` settings).
#[derive(Debug)]
pub struct CommonOptions {
    pub program_name: String,
    pub verbose: bool,
    pub silent: bool,
    pub debug: bool,
    pub input_filename: String,
    pub output_filename: String,
    pub input_named: bool,
    pub output_named: bool,
}

/// The model of [`CommonOptions`].
pub struct SpecCommon {
    pub program_name: Seq<char>,
    pub verbose: bool,
    pub silent: bool,
    pub debug: bool,
    pub input_filename: Seq<char>,
    pub output_filename: Seq<char>,
    pub input_named: bool,
    pub output_named: bool,
}

impl View for CommonOptions {
    type V = SpecCommon;

    open spec fn view(&self) -> SpecCommon {
        SpecCommon {
            program_name: self.program_name@,
            verbose: self.verbose,
            silent: self.silent,
            debug: self.debug,
            input_filename: self.input_filename@,
            output_filename: self.output_filename@,
            input_named: self.input_named,
            output_named: self.output_named,
        }
    }
}

/// The name standing for the standard input.
pub open spec fn stdin_name() -> Seq<char> {
    "<stdin>"@
}

/// The name standing for the standard output.
pub open spec fn stdout_name() -> Seq<char> {
    "<stdout>"@
}

/// The settings a tool starts from: quiet neither way, standard streams.
pub open spec fn spec_initial_common(program_name: Seq<char>) -> SpecCommon {
    SpecCommon {
        program_name,
        verbose: false,
        silent: false,
        debug: false,
        input_filename: stdin_name(),
        output_filename: stdout_name(),
        input_named: false,
        output_named: false,
    }
}

/// The settings a tool starts from, named after `argv0`.
pub fn initial_common(argv0: &str) -> (c: CommonOptions)
    ensures
        c@ == spec_initial_common(argv0@),
{
    CommonOptions {
        program_name: argv0.to_owned(),
        verbose: false,
        silent: false,
        debug: false,
        input_filename: "<stdin>".to_owned(),
        output_filename: "<stdout>".to_owned(),
        input_named: false,
        output_named: false,
    }
}

/// The program name a command line gives: its first word, empty when there
/// is none.
pub open spec fn spec_argv0(args: Seq<Seq<char>>) -> Seq<char> {
    if args.len() > 0 { args[0] } else { Seq::empty() }
}

/// The first word of a command line, empty when there is none.
pub fn argv0(args: &Vec<String>) -> (s: String)
    ensures
        s@ == spec_argv0(crate::getopt::args_view(args@)),
{
    if args.len() > 0 {
        args[0].clone()
    } else {
        String::new()
    }
}

// ---------------------------------------------------------------------------
// Messages
// ---------------------------------------------------------------------------

/// A message on the standard error.
pub fn to_stderr(text: String) -> (m: Message)
    ensures
        m@ == (Channel::Stderr, text@),
{
    Message { channel: Channel::Stderr, text }
}

/// A message on the standard output.
pub fn to_stdout(text: String) -> (m: Message)
    ensures
        m@ == (Channel::Stdout, text@),
{
    Message { channel: Channel::Stdout, text }
}

/// The text of a fatal or non-fatal diagnostic: `PROGRAM: TEXT` and a newline.
pub open spec fn spec_diagnostic(program_name: Seq<char>, text: Seq<char>) -> Seq<char> {
    program_name + ": "@ + text + "\n"@
}

/// A diagnostic naming the program, on the standard error.
pub fn diagnostic(common: &CommonOptions, text: &str) -> (m: Message)
    ensures
        m@ == (Channel::Stderr, spec_diagnostic(common.program_name@, text@)),
{
    let mut s = concat3(common.program_name.as_str(), ": ", text);
    s.append("\n");
    to_stderr(s)
}

/// The report of a tool that fails with a diagnostic.
pub open spec fn spec_fail_report(program_name: Seq<char>, text: Seq<char>) -> SpecReport {
    SpecReport { code: 1, messages: seq![(Channel::Stderr, spec_diagnostic(program_name, text))] }
}

/// Whether an outcome is the one its model gives: both `Ok` with the same
/// view, or both `Err` with the same report.
pub open spec fn outcome_is<T: View>(r: Result<T, Report>, s: Result<T::V, SpecReport>) -> bool {
    match (r, s) {
        (Ok(x), Ok(y)) => x@ == y,
        (Err(x), Err(y)) => x@ == y,
        _ => false,
    }
}

/// The report of a tool that fails with a diagnostic.
pub fn fail_with(common: &CommonOptions, text: &str) -> (r: Report)
    ensures
        r@ == spec_fail_report(common.program_name@, text@),
{
    let mut messages: Vec<Message> = Vec::new();
    let m = diagnostic(common, text);
    messages.push(m);
    let r = Report { code: 1, messages };
    assert(r@.messages =~= seq![(Channel::Stderr, spec_diagnostic(common.program_name@, text@))]);
    r
}

/// The report of a tool that ends with a message and an exit code.
pub fn end_with(code: i32, m: Message) -> (r: Report)
    ensures
        r@ == (SpecReport { code, messages: seq![m@] }),
{
    let ghost mv = m@;
    let mut messages: Vec<Message> = Vec::new();
    messages.push(m);
    let r = Report { code, messages };
    assert(r@.messages =~= seq![mv]);
    r
}

/// Appends `text` to the standard error when the tool is verbose.
pub fn verbose_print(common: &CommonOptions, log: &mut Vec<Message>, text: String)
    ensures
        messages_view(final(log)@) == messages_view(old(log)@) + (if common.verbose {
            seq![(Channel::Stderr, text@)]
        } else {
            seq![]
        }),
{
    let ghost before = messages_view(log@);
    if common.verbose {
        let ghost t = text@;
        log.push(to_stderr(text));
        assert(messages_view(log@) =~= before + seq![(Channel::Stderr, t)]);
    } else {
        assert(messages_view(log@) =~= before + Seq::<(Channel, Seq<char>)>::empty());
    }
}

/// The hint that follows a command-line error.
pub open spec fn spec_short_help(program_name: Seq<char>) -> Seq<char> {
    "Try ``"@ + program_name + " --help'' for more information.\n"@
}

/// The hint that follows a command-line error.
pub fn short_help(common: &CommonOptions) -> (s: String)
    ensures
        s@ == spec_short_help(common.program_name@),
{
    concat3("Try ``", common.program_name.as_str(), " --help'' for more information.\n")
}

/// The version banner: the program name and the tool's version.
pub open spec fn spec_version_text(program_name: Seq<char>, version: Seq<char>) -> Seq<char> {
    program_name + " "@ + version + "\n"@
}

/// The version banner: the program name and the tool's version.
pub fn version_text(common: &CommonOptions, version: &str) -> (s: String)
    ensures
        s@ == spec_version_text(common.program_name@, version@),
{
    let mut s = concat3(common.program_name.as_str(), " ", version);
    s.append("\n");
    s
}

/// The help text of the shared options.
pub open spec fn spec_common_options_help() -> Seq<char> {
    "Common options:\n  -h, --help             Print help message\n  -V, --version          Print version info\n  -v, --verbose          Print verbosely while processing\n  -q, --quiet            Only print fatal erros and requested output\n  -s, --silent           Alias of --quiet\n"@
}

/// The help text of the shared options.
pub fn common_options_help() -> (s: String)
    ensures
        s@ == spec_common_options_help(),
{
    "Common options:\n  -h, --help             Print help message\n  -V, --version          Print version info\n  -v, --verbose          Print verbosely while processing\n  -q, --quiet            Only print fatal erros and requested output\n  -s, --silent           Alias of --quiet\n".to_owned()
}

/// The help text of `-i` and `-o`.
pub open spec fn spec_unary_options_help() -> Seq<char> {
    "Input/Output options:\n  -i, --input=INFILE     Read input transducer from INFILE\n  -o, --output=OUTFILE   Write output transducer to OUTFILE\n"@
}

/// The help text of `-i` and `-o`.
pub fn unary_options_help() -> (s: String)
    ensures
        s@ == spec_unary_options_help(),
{
    "Input/Output options:\n  -i, --input=INFILE     Read input transducer from INFILE\n  -o, --output=OUTFILE   Write output transducer to OUTFILE\n".to_owned()
}

/// How the one-input tools treat missing file names.
pub open spec fn spec_unary_instructions() -> Seq<char> {
    "If OUTFILE or INFILE is missing or -, standard streams will be used.\nFormat of result depends on format of INFILE\n"@
}

/// How the one-input tools treat missing file names.
pub fn unary_instructions() -> (s: String)
    ensures
        s@ == spec_unary_instructions(),
{
    "If OUTFILE or INFILE is missing or -, standard streams will be used.\nFormat of result depends on format of INFILE\n".to_owned()
}

// ---------------------------------------------------------------------------
// The shared options
// ---------------------------------------------------------------------------

/// An entry of an option table.
pub fn opt(name: &str, has_arg: HasArg, val: char) -> (o: LongOpt)
    ensures
        o@.name == name@,
        o@.has_arg == has_arg,
        o@.val == val,
{
    LongOpt { name: name.to_owned(), has_arg, val }
}

/// The shared entries of every option table.
pub open spec fn spec_common_table() -> Seq<SpecLongOpt> {
    seq![
        SpecLongOpt { name: "debug"@, has_arg: HasArg::No, val: 'd' },
        SpecLongOpt { name: "help"@, has_arg: HasArg::No, val: 'h' },
        SpecLongOpt { name: "version"@, has_arg: HasArg::No, val: 'V' },
        SpecLongOpt { name: "verbose"@, has_arg: HasArg::No, val: 'v' },
        SpecLongOpt { name: "quiet"@, has_arg: HasArg::No, val: 'q' },
        SpecLongOpt { name: "silent"@, has_arg: HasArg::No, val: 's' },
    ]
}

/// `--debug`, `--help`, `--version`, `--verbose`, `--quiet`, `--silent`.
pub fn common_long(t: &mut Vec<LongOpt>)
    ensures
        table_view(final(t)@) == table_view(old(t)@) + spec_common_table(),
{
    let ghost before = table_view(t@);
    t.push(opt("debug", HasArg::No, 'd'));
    t.push(opt("help", HasArg::No, 'h'));
    t.push(opt("version", HasArg::No, 'V'));
    t.push(opt("verbose", HasArg::No, 'v'));
    t.push(opt("quiet", HasArg::No, 'q'));
    t.push(opt("silent", HasArg::No, 's'));
    assert(table_view(t@) =~= before + spec_common_table());
}

/// `--input=INFILE`, `--output=OUTFILE`.
pub fn unary_long(t: &mut Vec<LongOpt>)
    ensures
        table_view(final(t)@) == table_view(old(t)@) + seq![
            SpecLongOpt { name: "input"@, has_arg: HasArg::Required, val: 'i' },
            SpecLongOpt { name: "output"@, has_arg: HasArg::Required, val: 'o' },
        ],
{
    let ghost before = table_view(t@);
    t.push(opt("input", HasArg::Required, 'i'));
    t.push(opt("output", HasArg::Required, 'o'));
    assert(table_view(t@) =~= before + seq![
        SpecLongOpt { name: "input"@, has_arg: HasArg::Required, val: 'i' },
        SpecLongOpt { name: "output"@, has_arg: HasArg::Required, val: 'o' },
    ]);
}

/// What a shared option does.
pub enum CommonCase {
    /// The option was handled; the settings are now these.
    Handled(SpecCommon),
    /// `-h`: print the usage and succeed.
    Help,
    /// `-V`: print the version and succeed.
    Version,
    /// Not a shared option.
    NotHandled,
}

/// What a shared option does to the settings.
pub open spec fn spec_common_case(c: SpecCommon, e: SpecEvent) -> CommonCase {
    match e {
        SpecEvent::Opt { val, arg } => if val == 'd' {
            CommonCase::Handled(SpecCommon { debug: true, ..c })
        } else if val == 'h' {
            CommonCase::Help
        } else if val == 'V' {
            CommonCase::Version
        } else if val == 'v' {
            CommonCase::Handled(SpecCommon { verbose: true, silent: false, ..c })
        } else if val == 'q' || val == 's' {
            CommonCase::Handled(SpecCommon { verbose: false, silent: true, ..c })
        } else {
            CommonCase::NotHandled
        },
        _ => CommonCase::NotHandled,
    }
}

/// The exec counterpart of [`CommonCase`].
pub enum CommonStep {
    Handled,
    Help,
    Version,
    NotHandled,
}

/// Applies a shared option to `c`.
pub fn common_case(c: &mut CommonOptions, e: &OptEvent) -> (r: CommonStep)
    ensures
        match spec_common_case(old(c)@, e@) {
            CommonCase::Handled(n) => r is Handled && final(c)@ == n,
            CommonCase::Help => r is Help && final(c)@ == old(c)@,
            CommonCase::Version => r is Version && final(c)@ == old(c)@,
            CommonCase::NotHandled => r is NotHandled && final(c)@ == old(c)@,
        },
{
    match e {
        OptEvent::Opt { val, arg: _ } => {
            let v = *val;
            if v == 'd' {
                c.debug = true;
                CommonStep::Handled
            } else if v == 'h' {
                CommonStep::Help
            } else if v == 'V' {
                CommonStep::Version
            } else if v == 'v' {
                c.verbose = true;
                c.silent = false;
                CommonStep::Handled
            } else if v == 'q' || v == 's' {
                c.verbose = false;
                c.silent = true;
                CommonStep::Handled
            } else {
                CommonStep::NotHandled
            }
        },
        _ => CommonStep::NotHandled,
    }
}

/// A file name given on the command line: `-` stands for the standard
/// stream named `std`.
pub open spec fn spec_file_name(given: Seq<char>, std: Seq<char>) -> Seq<char> {
    if given == "-"@ { std } else { given }
}

/// What `-i` and `-o` do to the settings; `None` for other options.
pub open spec fn spec_unary_case(c: SpecCommon, e: SpecEvent) -> Option<SpecCommon> {
    match e {
        SpecEvent::Opt { val, arg } => if val == 'i' {
            Some(
                SpecCommon {
                    input_filename: spec_file_name(arg.unwrap_or(Seq::empty()), stdin_name()),
                    input_named: true,
                    ..c
                },
            )
        } else if val == 'o' {
            Some(
                SpecCommon {
                    output_filename: spec_file_name(arg.unwrap_or(Seq::empty()), stdout_name()),
                    output_named: true,
                    ..c
                },
            )
        } else {
            None
        },
        _ => None,
    }
}

/// The file name `given`, or `std` for `-`.
pub fn file_name(given: &str, std: &str) -> (s: String)
    ensures
        s@ == spec_file_name(given@, std@),
{
    if str_eq(given, "-") {
        std.to_owned()
    } else {
        given.to_owned()
    }
}

/// Applies `-i` or `-o` to `c`; false for other options.
pub fn unary_case(c: &mut CommonOptions, e: &OptEvent) -> (handled: bool)
    ensures
        match spec_unary_case(old(c)@, e@) {
            Some(n) => handled && final(c)@ == n,
            None => !handled && final(c)@ == old(c)@,
        },
{
    match e {
        OptEvent::Opt { val, arg } => {
            let given = match arg {
                Some(a) => a.clone(),
                None => String::new(),
            };
            if *val == 'i' {
                c.input_filename = file_name(given.as_str(), "<stdin>");
                c.input_named = true;
                true
            } else if *val == 'o' {
                c.output_filename = file_name(given.as_str(), "<stdout>");
                c.output_named = true;
                true
            } else {
                false
            }
        },
        _ => false,
    }
}

/// The diagnostic for a command-line error getopt reports.
pub open spec fn spec_error_text(e: SpecEvent) -> Seq<char> {
    match e {
        SpecEvent::UnknownShort { c } => "invalid option -- '"@ + seq![c] + "'"@,
        SpecEvent::UnknownLong { name } => "unrecognized option '--"@ + name + "'"@,
        SpecEvent::AmbiguousLong { name } => "option '--"@ + name + "' is ambiguous"@,
        SpecEvent::MissingArg { val } => "option requires an argument -- '"@ + seq![val] + "'"@,
        SpecEvent::UnexpectedArg { val } => "option '-"@ + seq![val] + "' doesn't allow an argument"@,
        SpecEvent::Opt { val, arg } => "invalid option -"@ + seq![val],
    }
}

/// The report for an option no case handled. For an error getopt reports,
/// its complaint and then the hint; for an option the table has but the
/// tool does not handle, the hint and then the complaint.
pub open spec fn spec_error_case(c: SpecCommon, e: SpecEvent) -> SpecReport {
    SpecReport {
        code: 1,
        messages: if e is Opt {
            seq![
                (Channel::Stderr, spec_short_help(c.program_name)),
                (Channel::Stderr, spec_diagnostic(c.program_name, spec_error_text(e))),
            ]
        } else {
            seq![
                (Channel::Stderr, spec_diagnostic(c.program_name, spec_error_text(e))),
                (Channel::Stderr, spec_short_help(c.program_name)),
            ]
        },
    }
}

/// A one-character string.
pub fn char_string(ch: char) -> (s: String)
    ensures
        s@ == seq![ch],
{
    let mut s = String::new();
    s.push(ch);
    assert(s@ =~= seq![ch]);
    s
}

/// The text of a getopt error.
pub fn error_text(e: &OptEvent) -> (s: String)
    ensures
        s@ == spec_error_text(e@),
{
    match e {
        OptEvent::UnknownShort { c } => concat3("invalid option -- '", char_string(*c).as_str(), "'"),
        OptEvent::UnknownLong { name } => concat3("unrecognized option '--", name.as_str(), "'"),
        OptEvent::AmbiguousLong { name } => concat3("option '--", name.as_str(), "' is ambiguous"),
        OptEvent::MissingArg { val } => concat3(
            "option requires an argument -- '",
            char_string(*val).as_str(),
            "'",
        ),
        OptEvent::UnexpectedArg { val } => concat3(
            "option '-",
            char_string(*val).as_str(),
            "' doesn't allow an argument",
        ),
        OptEvent::Opt { val, arg: _ } => concat2("invalid option -", char_string(*val).as_str()),
    }
}

/// The report for an option no case handled.
pub fn error_case(c: &CommonOptions, e: &OptEvent) -> (r: Report)
    ensures
        r@ == spec_error_case(c@, e@),
{
    let mut messages: Vec<Message> = Vec::new();
    let t = error_text(e);
    if let OptEvent::Opt { val: _, arg: _ } = e {
        messages.push(to_stderr(short_help(c)));
        messages.push(diagnostic(c, t.as_str()));
    } else {
        messages.push(diagnostic(c, t.as_str()));
        messages.push(to_stderr(short_help(c)));
    }
    let r = Report { code: 1, messages };
    assert(r@.messages =~= spec_error_case(c@, e@).messages);
    r
}

/// More operands than the one input file.
pub open spec fn more_than_one_input() -> Seq<char> {
    "More than one input file given"@
}

/// An operand besides `-i`.
pub open spec fn input_given_twice() -> Seq<char> {
    "no more than one input file may be given"@
}

/// The one-input tools' operand check: a sole operand names the input
/// unless `-i` did; more are an error.
pub open spec fn spec_check_unary(c: SpecCommon, operands: Seq<Seq<char>>) -> Result<SpecCommon, SpecReport> {
    if !c.input_named {
        if operands.len() == 1 {
            Ok(SpecCommon { input_filename: spec_file_name(operands[0], stdin_name()), input_named: true, ..c })
        } else if operands.len() > 1 {
            Err(SpecReport { code: 1, messages: seq![(Channel::Stderr, spec_diagnostic(c.program_name, more_than_one_input()))] })
        } else {
            Ok(c)
        }
    } else if operands.len() > 0 {
        Err(SpecReport { code: 1, messages: seq![(Channel::Stderr, spec_diagnostic(c.program_name, input_given_twice()))] })
    } else {
        Ok(c)
    }
}

/// Applies the one-input tools' operand check.
pub fn check_unary(c: CommonOptions, operands: &Vec<String>) -> (r: Result<CommonOptions, Report>)
    ensures
        match (r, spec_check_unary(c@, crate::getopt::args_view(operands@))) {
            (Ok(x), Ok(y)) => x@ == y,
            (Err(x), Err(y)) => x@ == y,
            _ => false,
        },
{
    let ghost ov = crate::getopt::args_view(operands@);
    if !c.input_named {
        if operands.len() == 1 {
            assert(ov[0] == operands@[0]@);
            let name = file_name(operands[0].as_str(), "<stdin>");
            Ok(CommonOptions { input_filename: name, input_named: true, ..c })
        } else if operands.len() > 1 {
            Err(fail_with(&c, "More than one input file given"))
        } else {
            Ok(c)
        }
    } else if operands.len() > 0 {
        Err(fail_with(&c, "no more than one input file may be given"))
    } else {
        Ok(c)
    }
}

} // verus!
