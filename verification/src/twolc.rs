//! hfst-twolc: compile a two-level grammar. Its command line is read by an
//! option parser of its own, with texts and errors of its own; all of that,
//! and what the tool announces before it reads the grammar, is decided here.

use vstd::prelude::*;
use crate::common::{Channel, Message, Report, SpecReport, messages_view, outcome_is, to_stderr};
use crate::getopt::{
    HasArg, LongOpt, OptEvent, SpecEvent, SpecLongOpt, args_view, events_view, opt_view, scan,
    spec_scan, table_view,
};
use crate::text::{concat3, str_eq};
use crate::common::char_string;

verus! {

/// The transducer format the compiled grammar is stored in.
#[derive(Clone, Copy, PartialEq, Eq, Structural)]
pub enum Format {
    TropicalOpenfst,
    LogOpenfst,
    Sfst,
    Foma,
}

/// The option table. `--resolve` and `--resolve-left` both stand for `-R`.
pub open spec fn spec_table() -> Seq<SpecLongOpt> {
    seq![
        SpecLongOpt { name: "help"@, has_arg: HasArg::No, val: 'h' },
        SpecLongOpt { name: "version"@, has_arg: HasArg::No, val: 'V' },
        SpecLongOpt { name: "verbose"@, has_arg: HasArg::No, val: 'v' },
        SpecLongOpt { name: "quiet"@, has_arg: HasArg::No, val: 'q' },
        SpecLongOpt { name: "silent"@, has_arg: HasArg::No, val: 's' },
        SpecLongOpt { name: "usage"@, has_arg: HasArg::No, val: 'u' },
        SpecLongOpt { name: "input"@, has_arg: HasArg::Required, val: 'i' },
        SpecLongOpt { name: "output"@, has_arg: HasArg::Required, val: 'o' },
        SpecLongOpt { name: "resolve"@, has_arg: HasArg::No, val: 'R' },
        SpecLongOpt { name: "resolve-left"@, has_arg: HasArg::No, val: 'R' },
        SpecLongOpt { name: "dont-resolve-right"@, has_arg: HasArg::No, val: 'D' },
        SpecLongOpt { name: "debug_file"@, has_arg: HasArg::Required, val: 'd' },
        SpecLongOpt { name: "format"@, has_arg: HasArg::Required, val: 'f' },
    ]
}

fn table() -> (t: Vec<LongOpt>)
    ensures
        table_view(t@) == spec_table(),
{
    let mut t: Vec<LongOpt> = Vec::new();
    t.push(crate::common::opt("help", HasArg::No, 'h'));
    t.push(crate::common::opt("version", HasArg::No, 'V'));
    t.push(crate::common::opt("verbose", HasArg::No, 'v'));
    t.push(crate::common::opt("quiet", HasArg::No, 'q'));
    t.push(crate::common::opt("silent", HasArg::No, 's'));
    t.push(crate::common::opt("usage", HasArg::No, 'u'));
    t.push(crate::common::opt("input", HasArg::Required, 'i'));
    t.push(crate::common::opt("output", HasArg::Required, 'o'));
    t.push(crate::common::opt("resolve", HasArg::No, 'R'));
    t.push(crate::common::opt("resolve-left", HasArg::No, 'R'));
    t.push(crate::common::opt("dont-resolve-right", HasArg::No, 'D'));
    t.push(crate::common::opt("debug_file", HasArg::Required, 'd'));
    t.push(crate::common::opt("format", HasArg::Required, 'f'));
    assert(table_view(t@) =~= spec_table());
    t
}

// ---------------------------------------------------------------------------
// Texts
// ---------------------------------------------------------------------------

/// The version text; it names the program `hfst-twolc` whatever `argv[0]` is.
pub open spec fn spec_version_text() -> Seq<char> {
    "\nhfst-twolc 0 ()\nCopyright (C) 2010 University of Helsinki,\nLicense GPLv3: GNU GPL version 3 \n<http://gnu.org/licenses/gpl.html>\nThis is free software: you are free to change and \nredistribute it.\nThere is NO WARRANTY, to the extent permitted by law.\n\n"@
}

/// The version text.
pub fn print_version() -> (s: String)
    ensures
        s@ == spec_version_text(),
{
    "\nhfst-twolc 0 ()\nCopyright (C) 2010 University of Helsinki,\nLicense GPLv3: GNU GPL version 3 \n<http://gnu.org/licenses/gpl.html>\nThis is free software: you are free to change and \nredistribute it.\nThere is NO WARRANTY, to the extent permitted by law.\n\n".to_owned()
}

/// The usage text.
pub open spec fn spec_usage_text() -> Seq<char> {
    "\nUsage: hfst-twolc [OPTIONS...] INFILE\nUsage: hfst-twolc [OPTIONS...] -i INFILE\nUsage: hfst-twolc [OPTIONS...] --input=INFILE\nUsage: cat INFILE | hfst-twolc [OPTIONS...]\nAn input file has to be given either using the option -i or\n--input, as the last commandline argument or from STDIN.\n\n"@
}

/// The usage text.
pub fn print_usage() -> (s: String)
    ensures
        s@ == spec_usage_text(),
{
    "\nUsage: hfst-twolc [OPTIONS...] INFILE\nUsage: hfst-twolc [OPTIONS...] -i INFILE\nUsage: hfst-twolc [OPTIONS...] --input=INFILE\nUsage: cat INFILE | hfst-twolc [OPTIONS...]\nAn input file has to be given either using the option -i or\n--input, as the last commandline argument or from STDIN.\n\n".to_owned()
}

/// What the help text adds to the usage text.
pub open spec fn spec_help_body() -> Seq<char> {
    "\nRead a twolc grammar, compile it and store it. If INFILE is \nmissing, the grammar is read from STDIN. If there is no output\nfile given using -o or --output, the compiled grammar is\nwritten to STDOUT.\n\nCommon options:\n  -h, --help               Print help message\n  -V, --version            Print version info\n  -u, --usage              Print usage\n  -v, --verbose            Print verbosely while processing\n  -q, --quiet              Do not print output\n  -s, --silent             Alias of --quiet\nInput/Output options:\n  -i, --input=INFILE       Read input transducer from INFILE\n  -o, --output=OUTFILE     Write output transducer to OUTFILE\nTwolC grammar options:\n  -R, --resolve            Resolve left-arrow conflicts.\n  -D, --dont-resolve-right Don't resolve right-arrow conflicts.\n  -f, --format=FORMAT      Store result in format FORMAT.\n\nFormat may be one of openfst-log, openfst-tropical, foma or sfst.\n\nBy default format is openfst-tropical. By default right arrow \nconflicts are resolved and left arrow conflicts are not resolved.\n\n"@
}

/// The help text: the usage, then the description of the options.
pub open spec fn spec_help_text() -> Seq<char> {
    spec_usage_text() + spec_help_body()
}

/// The help text.
pub fn print_help() -> (s: String)
    ensures
        s@ == spec_help_text(),
{
    let mut s = print_usage();
    s.append("\nRead a twolc grammar, compile it and store it. If INFILE is \nmissing, the grammar is read from STDIN. If there is no output\nfile given using -o or --output, the compiled grammar is\nwritten to STDOUT.\n\nCommon options:\n  -h, --help               Print help message\n  -V, --version            Print version info\n  -u, --usage              Print usage\n  -v, --verbose            Print verbosely while processing\n  -q, --quiet              Do not print output\n  -s, --silent             Alias of --quiet\nInput/Output options:\n  -i, --input=INFILE       Read input transducer from INFILE\n  -o, --output=OUTFILE     Write output transducer to OUTFILE\nTwolC grammar options:\n  -R, --resolve            Resolve left-arrow conflicts.\n  -D, --dont-resolve-right Don't resolve right-arrow conflicts.\n  -f, --format=FORMAT      Store result in format FORMAT.\n\nFormat may be one of openfst-log, openfst-tropical, foma or sfst.\n\nBy default format is openfst-tropical. By default right arrow \nconflicts are resolved and left arrow conflicts are not resolved.\n\n");
    s
}

// ---------------------------------------------------------------------------
// Reading the options
// ---------------------------------------------------------------------------

/// The format a `-f` argument names. Only the names of this list are
/// accepted: `tropical` and `tropical-weight` are refused.
pub open spec fn spec_format_name(a: Seq<char>) -> Option<Format> {
    if a == "log"@ {
        Some(Format::LogOpenfst)
    } else if a == "tropical-openfst"@ {
        Some(Format::TropicalOpenfst)
    } else if a == "openfst-tropical"@ {
        Some(Format::TropicalOpenfst)
    } else if a == "log-weight"@ {
        Some(Format::LogOpenfst)
    } else if a == "log-openfst"@ {
        Some(Format::LogOpenfst)
    } else if a == "openfst-log"@ {
        Some(Format::LogOpenfst)
    } else if a == "openfst"@ {
        Some(Format::TropicalOpenfst)
    } else if a == "weighted"@ {
        Some(Format::TropicalOpenfst)
    } else if a == "weight"@ {
        Some(Format::TropicalOpenfst)
    } else if a == "sfst"@ {
        Some(Format::Sfst)
    } else if a == "foma"@ {
        Some(Format::Foma)
    } else if a == "unweighted"@ {
        Some(Format::Foma)
    } else {
        None
    }
}

/// The format a `-f` argument names.
pub fn format_name(a: &str) -> (r: Option<Format>)
    ensures
        r == spec_format_name(a@),
{
    if str_eq(a, "log") {
        Some(Format::LogOpenfst)
    } else if str_eq(a, "tropical-openfst") {
        Some(Format::TropicalOpenfst)
    } else if str_eq(a, "openfst-tropical") {
        Some(Format::TropicalOpenfst)
    } else if str_eq(a, "log-weight") {
        Some(Format::LogOpenfst)
    } else if str_eq(a, "log-openfst") {
        Some(Format::LogOpenfst)
    } else if str_eq(a, "openfst-log") {
        Some(Format::LogOpenfst)
    } else if str_eq(a, "openfst") {
        Some(Format::TropicalOpenfst)
    } else if str_eq(a, "weighted") {
        Some(Format::TropicalOpenfst)
    } else if str_eq(a, "weight") {
        Some(Format::TropicalOpenfst)
    } else if str_eq(a, "sfst") {
        Some(Format::Sfst)
    } else if str_eq(a, "foma") {
        Some(Format::Foma)
    } else if str_eq(a, "unweighted") {
        Some(Format::Foma)
    } else {
        None
    }
}

/// What the option reading has gathered so far.
pub struct Gathered {
    pub resolve_left: bool,
    pub resolve_right: bool,
    pub verbose: bool,
    pub silent: bool,
    pub outfilename: Option<String>,
    pub output_named: bool,
    pub input_named: bool,
    pub is_debug: bool,
    pub infilename: Option<String>,
    pub debug_file_name: Option<String>,
    pub form: Format,
    pub help: bool,
    pub version: bool,
    pub usage: bool,
}

/// The model of [`Gathered`].
pub struct SpecGathered {
    pub resolve_left: bool,
    pub resolve_right: bool,
    pub verbose: bool,
    pub silent: bool,
    pub outfilename: Option<Seq<char>>,
    pub output_named: bool,
    pub input_named: bool,
    pub is_debug: bool,
    pub infilename: Option<Seq<char>>,
    pub debug_file_name: Option<Seq<char>>,
    pub form: Format,
    pub help: bool,
    pub version: bool,
    pub usage: bool,
}

impl View for Gathered {
    type V = SpecGathered;

    open spec fn view(&self) -> SpecGathered {
        SpecGathered {
            resolve_left: self.resolve_left,
            resolve_right: self.resolve_right,
            verbose: self.verbose,
            silent: self.silent,
            outfilename: opt_view(self.outfilename),
            output_named: self.output_named,
            input_named: self.input_named,
            is_debug: self.is_debug,
            infilename: opt_view(self.infilename),
            debug_file_name: opt_view(self.debug_file_name),
            form: self.form,
            help: self.help,
            version: self.version,
            usage: self.usage,
        }
    }
}

/// Where the option reading starts: right-arrow conflicts resolved, the
/// tropical OpenFst format, nothing named.
pub open spec fn spec_start() -> SpecGathered {
    SpecGathered {
        resolve_left: false,
        resolve_right: true,
        verbose: false,
        silent: false,
        outfilename: None,
        output_named: false,
        input_named: false,
        is_debug: false,
        infilename: None,
        debug_file_name: None,
        form: Format::TropicalOpenfst,
        help: false,
        version: false,
        usage: false,
    }
}

fn start() -> (g: Gathered)
    ensures
        g@ == spec_start(),
{
    Gathered {
        resolve_left: false,
        resolve_right: true,
        verbose: false,
        silent: false,
        outfilename: None,
        output_named: false,
        input_named: false,
        is_debug: false,
        infilename: None,
        debug_file_name: None,
        form: Format::TropicalOpenfst,
        help: false,
        version: false,
        usage: false,
    }
}

/// A failure of the option reading: one line on the standard error, exit 1.
pub open spec fn spec_failure(text: Seq<char>) -> SpecReport {
    SpecReport { code: 1, messages: seq![(Channel::Stderr, text + "\n"@)] }
}

fn failure(text: String) -> (r: Report)
    ensures
        r@ == spec_failure(text@),
{
    let mut t = text;
    t.append("\n");
    let m = to_stderr(t);
    crate::common::end_with(1, m)
}

/// The refusal of an unknown `-f` argument.
pub open spec fn spec_unknown_format(a: Seq<char>) -> Seq<char> {
    "Unknown format \""@ + a + "\".Try running with option -h or --help."@
}

/// The refusal of an option without its argument.
pub open spec fn spec_missing_argument(c: char) -> Seq<char> {
    "Missing argument for -"@ + seq![c] + ". Try using --help."@
}

/// The refusal of an option getopt does not know. The character is getopt's
/// `optopt`: the option's own letter, or NUL where getopt names none (an
/// unknown or ambiguous long name).
pub open spec fn spec_unknown_option(c: char) -> Seq<char> {
    "Unknown commandline option: -"@ + seq![c] + ". Try using --help."@
}

/// What one option event does.
pub open spec fn spec_step(g: SpecGathered, e: SpecEvent) -> Result<SpecGathered, SpecReport> {
    match e {
        SpecEvent::Opt { val, arg } => {
            let a = arg.unwrap_or(Seq::empty());
            if val == 'h' {
                Ok(SpecGathered { help: true, ..g })
            } else if val == 'V' {
                Ok(SpecGathered { version: true, ..g })
            } else if val == 'u' {
                Ok(SpecGathered { usage: true, ..g })
            } else if val == 'v' {
                Ok(SpecGathered { verbose: true, ..g })
            } else if val == 'q' || val == 's' {
                Ok(SpecGathered { silent: true, ..g })
            } else if val == 'R' {
                Ok(SpecGathered { resolve_left: true, ..g })
            } else if val == 'D' {
                Ok(SpecGathered { resolve_right: false, ..g })
            } else if val == 'i' {
                Ok(SpecGathered { input_named: true, infilename: Some(a), ..g })
            } else if val == 'd' {
                Ok(SpecGathered { is_debug: true, debug_file_name: Some(a), ..g })
            } else if val == 'o' {
                Ok(SpecGathered { output_named: true, outfilename: Some(a), ..g })
            } else if val == 'f' {
                match spec_format_name(a) {
                    Some(f) => Ok(SpecGathered { form: f, ..g }),
                    None => Err(spec_failure(spec_unknown_format(a))),
                }
            } else {
                Err(spec_failure(spec_unknown_option(val)))
            }
        },
        SpecEvent::MissingArg { val } => Err(spec_failure(spec_missing_argument(val))),
        SpecEvent::UnknownShort { c } => Err(spec_failure(spec_unknown_option(c))),
        SpecEvent::UnexpectedArg { val } => Err(spec_failure(spec_unknown_option(val))),
        SpecEvent::UnknownLong { name } => Err(spec_failure(spec_unknown_option('\0'))),
        SpecEvent::AmbiguousLong { name } => Err(spec_failure(spec_unknown_option('\0'))),
    }
}

/// What the events `evs` gather, or the report the tool ends with.
pub open spec fn spec_gather(g: SpecGathered, evs: Seq<SpecEvent>) -> Result<SpecGathered, SpecReport>
    decreases evs.len(),
{
    if evs.len() == 0 {
        Ok(g)
    } else {
        match spec_step(g, evs[0]) {
            Ok(n) => spec_gather(n, evs.drop_first()),
            Err(r) => Err(r),
        }
    }
}

fn unknown_option(c: char) -> (r: Report)
    ensures
        r@ == spec_failure(spec_unknown_option(c)),
{
    failure(concat3("Unknown commandline option: -", char_string(c).as_str(), ". Try using --help."))
}

#[verifier::rlimit(60)]
fn step(g: &mut Gathered, e: &OptEvent) -> (r: Option<Report>)
    ensures
        match spec_step(old(g)@, e@) {
            Ok(n) => r is None && final(g)@ == n,
            Err(x) => r matches Some(y) && y@ == x,
        },
{
    match e {
        OptEvent::Opt { val, arg } => {
            let a = match arg {
                Some(s) => s.clone(),
                None => String::new(),
            };
            let v = *val;
            if v == 'h' {
                g.help = true;
            } else if v == 'V' {
                g.version = true;
            } else if v == 'u' {
                g.usage = true;
            } else if v == 'v' {
                g.verbose = true;
            } else if v == 'q' || v == 's' {
                g.silent = true;
            } else if v == 'R' {
                g.resolve_left = true;
            } else if v == 'D' {
                g.resolve_right = false;
            } else if v == 'i' {
                g.input_named = true;
                g.infilename = Some(a);
            } else if v == 'd' {
                g.is_debug = true;
                g.debug_file_name = Some(a);
            } else if v == 'o' {
                g.output_named = true;
                g.outfilename = Some(a);
            } else if v == 'f' {
                match format_name(a.as_str()) {
                    Some(f) => {
                        g.form = f;
                    },
                    None => {
                        return Some(failure(concat3("Unknown format \"", a.as_str(), "\".Try running with option -h or --help.")));
                    },
                }
            } else {
                return Some(unknown_option(v));
            }
            None
        },
        OptEvent::MissingArg { val } => Some(
            failure(concat3("Missing argument for -", char_string(*val).as_str(), ". Try using --help.")),
        ),
        OptEvent::UnknownShort { c } => Some(unknown_option(*c)),
        OptEvent::UnexpectedArg { val } => Some(unknown_option(*val)),
        OptEvent::UnknownLong { name: _ } => Some(unknown_option('\0')),
        OptEvent::AmbiguousLong { name: _ } => Some(unknown_option('\0')),
    }
}

fn gather(g: &mut Gathered, evs: &Vec<OptEvent>) -> (r: Option<Report>)
    ensures
        match spec_gather(old(g)@, events_view(evs@)) {
            Ok(n) => r is None && final(g)@ == n,
            Err(x) => r matches Some(y) && y@ == x,
        },
{
    let ghost ev = events_view(evs@);
    let mut i: usize = 0;
    assert(ev.subrange(0, ev.len() as int) =~= ev);
    while i < evs.len()
        invariant
            ev == events_view(evs@),
            i <= evs@.len(),
            spec_gather(old(g)@, ev) == spec_gather(g@, ev.subrange(i as int, ev.len() as int)),
        decreases evs@.len() - i,
    {
        let ghost rest = ev.subrange(i as int, ev.len() as int);
        assert(rest[0] == evs@[i as int]@);
        assert(rest.drop_first() =~= ev.subrange(i + 1, ev.len() as int));
        if let Some(r) = step(g, &evs[i]) {
            return Some(r);
        }
        i = i + 1;
    }
    assert(ev.subrange(evs@.len() as int, ev.len() as int) =~= Seq::<SpecEvent>::empty());
    None
}

// ---------------------------------------------------------------------------
// The command line
// ---------------------------------------------------------------------------

/// The settings the grammar is compiled with.
pub struct CommandLine {
    pub be_verbose: bool,
    pub be_quiet: bool,
    pub has_input_file: bool,
    pub input_file_name: String,
    pub has_output_file: bool,
    pub output_file_name: String,
    pub resolve_left_conflicts: bool,
    pub resolve_right_conflicts: bool,
    pub help: bool,
    pub version: bool,
    pub usage: bool,
    pub has_debug_file: bool,
    pub format: Format,
}

/// The model of [`CommandLine`].
pub struct SpecCommandLine {
    pub be_verbose: bool,
    pub be_quiet: bool,
    pub has_input_file: bool,
    pub input_file_name: Seq<char>,
    pub has_output_file: bool,
    pub output_file_name: Seq<char>,
    pub resolve_left_conflicts: bool,
    pub resolve_right_conflicts: bool,
    pub help: bool,
    pub version: bool,
    pub usage: bool,
    pub has_debug_file: bool,
    pub format: Format,
}

impl View for CommandLine {
    type V = SpecCommandLine;

    open spec fn view(&self) -> SpecCommandLine {
        SpecCommandLine {
            be_verbose: self.be_verbose,
            be_quiet: self.be_quiet,
            has_input_file: self.has_input_file,
            input_file_name: self.input_file_name@,
            has_output_file: self.has_output_file,
            output_file_name: self.output_file_name@,
            resolve_left_conflicts: self.resolve_left_conflicts,
            resolve_right_conflicts: self.resolve_right_conflicts,
            help: self.help,
            version: self.version,
            usage: self.usage,
            has_debug_file: self.has_debug_file,
            format: self.format,
        }
    }
}

/// The refusal of a second input.
pub open spec fn too_many_inputs() -> Seq<char> {
    "no more than one input rule file may be given"@
}

/// The command line the gathered options and the operands make: a sole
/// operand names the input unless `-i` did; more are an error; `-d` names
/// the input in place of both.
pub open spec fn spec_finish(g: SpecGathered, operands: Seq<Seq<char>>) -> Result<SpecCommandLine, SpecReport> {
    if (!g.input_named && operands.len() > 1) || (g.input_named && operands.len() > 0) {
        Err(spec_failure(too_many_inputs()))
    } else {
        let input_named = g.input_named || operands.len() == 1;
        let infilename = if !g.input_named && operands.len() == 1 { Some(operands[0]) } else { g.infilename };
        Ok(
            SpecCommandLine {
                be_verbose: g.verbose,
                be_quiet: g.silent,
                has_input_file: input_named || g.is_debug,
                input_file_name: if g.is_debug {
                    g.debug_file_name.unwrap_or(Seq::empty())
                } else if input_named {
                    infilename.unwrap_or(Seq::empty())
                } else {
                    Seq::empty()
                },
                has_output_file: g.output_named,
                output_file_name: if g.output_named { g.outfilename.unwrap_or(Seq::empty()) } else { Seq::empty() },
                resolve_left_conflicts: g.resolve_left,
                resolve_right_conflicts: g.resolve_right,
                help: g.help,
                version: g.version,
                usage: g.usage,
                has_debug_file: g.is_debug,
                format: g.form,
            },
        )
    }
}

fn unwrap_or_empty(o: Option<String>) -> (s: String)
    ensures
        s@ == opt_view(o).unwrap_or(Seq::empty()),
{
    match o {
        Some(s) => s,
        None => String::new(),
    }
}

fn finish(g: Gathered, operands: &Vec<String>) -> (r: Result<CommandLine, Report>)
    ensures
        outcome_is(r, spec_finish(g@, args_view(operands@))),
{
    let ghost ov = args_view(operands@);
    let mut input_named = g.input_named;
    let mut infilename = g.infilename;
    if !input_named {
        if operands.len() == 1 {
            input_named = true;
            infilename = Some(operands[0].clone());
            assert(ov[0] == operands@[0]@);
        } else if operands.len() > 1 {
            return Err(failure("no more than one input rule file may be given".to_owned()));
        }
    } else if operands.len() > 0 {
        return Err(failure("no more than one input rule file may be given".to_owned()));
    }
    let mut cl = CommandLine {
        be_verbose: g.verbose,
        be_quiet: g.silent,
        has_input_file: input_named,
        input_file_name: String::new(),
        has_output_file: g.output_named,
        output_file_name: String::new(),
        resolve_left_conflicts: g.resolve_left,
        resolve_right_conflicts: g.resolve_right,
        help: g.help,
        version: g.version,
        usage: g.usage,
        has_debug_file: false,
        format: g.form,
    };
    if cl.has_input_file {
        cl.input_file_name = unwrap_or_empty(infilename);
    }
    if cl.has_output_file {
        cl.output_file_name = unwrap_or_empty(g.outfilename);
    }
    if g.is_debug {
        cl.has_debug_file = true;
        cl.has_input_file = true;
        cl.input_file_name = unwrap_or_empty(g.debug_file_name);
    }
    Ok(cl)
}

// ---------------------------------------------------------------------------
// The run
// ---------------------------------------------------------------------------

/// What the tool prints before it reads the grammar: where it reads and
/// writes (unless quiet), and whether it is verbose.
pub open spec fn spec_announcements(cl: SpecCommandLine) -> Seq<(Channel, Seq<char>)> {
    (if !cl.be_quiet {
        seq![
            (Channel::Stderr, if !cl.has_input_file { "Reading input from STDIN.\n"@ } else {
                "Reading input from "@ + cl.input_file_name + ".\n"@
            }),
            (Channel::Stderr, if !cl.has_output_file { "Writing output to STDOUT.\n"@ } else {
                "Writing output to "@ + cl.output_file_name + ".\n"@
            }),
        ]
    } else {
        seq![]
    }) + (if cl.be_verbose { seq![(Channel::Stderr, "Verbose mode.\n"@)] } else { seq![] })
}

/// The grammar's name in diagnostics: the input file, or `<twolc>` for the
/// standard input.
pub open spec fn spec_source_name(cl: SpecCommandLine) -> Seq<char> {
    if cl.has_input_file { cl.input_file_name } else { "<twolc>"@ }
}

/// The grammar's name in diagnostics.
pub fn source_name(cl: &CommandLine) -> (s: String)
    ensures
        s@ == spec_source_name(cl@),
{
    if cl.has_input_file {
        cl.input_file_name.clone()
    } else {
        "<twolc>".to_owned()
    }
}

/// The command line hfst-twolc compiles with and what it prints first.
pub struct Plan {
    pub command_line: CommandLine,
    pub messages: Vec<Message>,
}

impl View for Plan {
    type V = (SpecCommandLine, Seq<(Channel, Seq<char>)>);

    open spec fn view(&self) -> (SpecCommandLine, Seq<(Channel, Seq<char>)>) {
        (self.command_line@, messages_view(self.messages@))
    }
}

/// What hfst-twolc does with a command line before it reads the grammar:
/// `-V` and `-h` print their texts (the version first) and succeed, `-u`
/// prints the usage and succeeds; otherwise it goes on with the command line
/// after its announcements.
pub open spec fn spec_run(args: Seq<Seq<char>>) -> Result<(SpecCommandLine, Seq<(Channel, Seq<char>)>), SpecReport> {
    let sc = spec_scan(args, spec_table());
    match spec_gather(spec_start(), sc.0) {
        Err(r) => Err(r),
        Ok(g) => match spec_finish(g, sc.1) {
            Err(r) => Err(r),
            Ok(cl) => if cl.help || cl.version {
                Err(SpecReport {
                    code: 0,
                    messages: (if cl.version { seq![(Channel::Stderr, spec_version_text())] } else { seq![] }) + (
                    if cl.help { seq![(Channel::Stderr, spec_help_text())] } else { seq![] }),
                })
            } else if cl.usage {
                Err(SpecReport { code: 0, messages: seq![(Channel::Stderr, spec_usage_text())] })
            } else {
                Ok((cl, spec_announcements(cl)))
            },
        },
    }
}

fn push_message(log: &mut Vec<Message>, m: Message)
    ensures
        messages_view(final(log)@) == messages_view(old(log)@).push(m@),
{
    let ghost before = messages_view(log@);
    let ghost mv = m@;
    log.push(m);
    assert(messages_view(log@) =~= before.push(mv));
}

/// Reads hfst-twolc's command line (`args[0]` is the program name).
pub fn run(args: &Vec<String>) -> (r: Result<Plan, Report>)
    ensures
        outcome_is(r, spec_run(args_view(args@))),
{
    let t = table();
    let sc = scan(args, &t);
    let mut g = start();
    if let Some(r) = gather(&mut g, &sc.events) {
        return Err(r);
    }
    let cl = match finish(g, &sc.operands) {
        Ok(cl) => cl,
        Err(r) => {
            return Err(r);
        },
    };
    let mut log: Vec<Message> = Vec::new();
    assert(messages_view(log@) =~= Seq::<(Channel, Seq<char>)>::empty());
    if cl.help || cl.version {
        if cl.version {
            push_message(&mut log, to_stderr(print_version()));
        }
        if cl.help {
            push_message(&mut log, to_stderr(print_help()));
        }
        let r = Report { code: 0, messages: log };
        assert(r@.messages =~= (if cl.version { seq![(Channel::Stderr, spec_version_text())] } else { seq![] }) + (
        if cl.help { seq![(Channel::Stderr, spec_help_text())] } else { seq![] }));
        return Err(r);
    }
    if cl.usage {
        push_message(&mut log, to_stderr(print_usage()));
        return Err(Report { code: 0, messages: log });
    }
    if !cl.be_quiet {
        if !cl.has_input_file {
            push_message(&mut log, to_stderr("Reading input from STDIN.\n".to_owned()));
        } else {
            push_message(&mut log, to_stderr(concat3("Reading input from ", cl.input_file_name.as_str(), ".\n")));
        }
        if !cl.has_output_file {
            push_message(&mut log, to_stderr("Writing output to STDOUT.\n".to_owned()));
        } else {
            push_message(&mut log, to_stderr(concat3("Writing output to ", cl.output_file_name.as_str(), ".\n")));
        }
    }
    if cl.be_verbose {
        push_message(&mut log, to_stderr("Verbose mode.\n".to_owned()));
    }
    assert(messages_view(log@) =~= spec_announcements(cl@));
    Ok(Plan { command_line: cl, messages: log })
}

} // verus!
