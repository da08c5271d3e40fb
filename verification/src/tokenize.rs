//! hfst-tokenize: tokenize the text of the standard input with a pmatch
//! ruleset or a dictionary. The options (the beam and the time cutoff,
//! floating-point numbers, are read by the caller, which resumes the
//! reading), the ruleset file and the choices made about it stand here;
//! the tokenizing is the backend's.

use vstd::prelude::*;
use crate::common::{
    Channel, CommonCase, CommonOptions, CommonStep, Report, SpecCommon, SpecReport, argv0, common_case,
    common_long, common_options_help, end_with, error_case, initial_common, spec_argv0, spec_common_case,
    spec_common_options_help, spec_common_table, spec_error_case, spec_initial_common, to_stderr, to_stdout,
    version_text,
};
use crate::getopt::{HasArg, LongOpt, OptEvent, SpecEvent, SpecLongOpt, args_view, events_view, scan, spec_scan, table_view};
use crate::numbers::{parse_i32, spec_parse_i32};
use crate::text::{concat3, spec_trim, str_eq, trim};
use crate::unary::{spec_help_report, spec_version_report};

verus! {

/// How the tokens are written.
#[derive(Clone, Copy, PartialEq, Eq, Structural, Debug)]
pub enum OutputFormat {
    Tokenize,
    SpaceSeparated,
    Xerox,
    Cg,
    Conllu,
    Giellacg,
    Visl,
    Finnpos,
}

/// The tokenizer's settings the options touch; it starts from its own
/// defaults, which the caller gives.
#[derive(Clone, Copy, PartialEq, Eq, Structural, Debug)]
pub struct Settings {
    pub print_all: bool,
    pub print_weights: bool,
    pub tokenize_multichar: bool,
    pub dedupe: bool,
    pub hack_uncompose: bool,
    pub verbose: bool,
    pub max_weight_classes: i32,
    pub output_format: OutputFormat,
}

/// The tool's own settings.
#[derive(Clone, Copy, PartialEq, Eq, Structural, Debug)]
pub struct Options {
    /// `-S`: ignore what unescaped brackets hold.
    pub superblanks: bool,
    /// Cleared by `-n` and `-k`: records are separated by blank lines.
    pub blankline_separated: bool,
    /// `-k`: keep newlines.
    pub keep_newlines: bool,
    pub settings: Settings,
}

/// The option table: the shared options, then the tool's own (`-g` has two
/// long names).
pub open spec fn spec_table() -> Seq<SpecLongOpt> {
    spec_common_table() + seq![
        SpecLongOpt { name: "newline"@, has_arg: HasArg::No, val: 'n' },
        SpecLongOpt { name: "keep-newline"@, has_arg: HasArg::No, val: 'k' },
        SpecLongOpt { name: "print-all"@, has_arg: HasArg::No, val: 'a' },
        SpecLongOpt { name: "print-weights"@, has_arg: HasArg::No, val: 'w' },
        SpecLongOpt { name: "no-weights"@, has_arg: HasArg::No, val: 'W' },
        SpecLongOpt { name: "tokenize-multichar"@, has_arg: HasArg::No, val: 'm' },
        SpecLongOpt { name: "beam"@, has_arg: HasArg::Required, val: 'b' },
        SpecLongOpt { name: "time-cutoff"@, has_arg: HasArg::Required, val: 't' },
        SpecLongOpt { name: "weight-classes"@, has_arg: HasArg::Required, val: 'l' },
        SpecLongOpt { name: "unique"@, has_arg: HasArg::No, val: 'u' },
        SpecLongOpt { name: "segment"@, has_arg: HasArg::No, val: 'z' },
        SpecLongOpt { name: "space-separated"@, has_arg: HasArg::No, val: 'i' },
        SpecLongOpt { name: "xerox"@, has_arg: HasArg::No, val: 'x' },
        SpecLongOpt { name: "cg"@, has_arg: HasArg::No, val: 'c' },
        SpecLongOpt { name: "superblanks"@, has_arg: HasArg::No, val: 'S' },
        SpecLongOpt { name: "giella-cg"@, has_arg: HasArg::No, val: 'g' },
        SpecLongOpt { name: "gtd"@, has_arg: HasArg::No, val: 'g' },
        SpecLongOpt { name: "conllu"@, has_arg: HasArg::No, val: 'C' },
        SpecLongOpt { name: "finnpos"@, has_arg: HasArg::No, val: 'f' },
        SpecLongOpt { name: "visl"@, has_arg: HasArg::No, val: 'L' },
    ]
}

fn table() -> (t: Vec<LongOpt>)
    ensures
        table_view(t@) == spec_table(),
{
    let mut t: Vec<LongOpt> = Vec::new();
    assert(table_view(t@) =~= Seq::<SpecLongOpt>::empty());
    common_long(&mut t);
    t.push(crate::common::opt("newline", HasArg::No, 'n'));
    t.push(crate::common::opt("keep-newline", HasArg::No, 'k'));
    t.push(crate::common::opt("print-all", HasArg::No, 'a'));
    t.push(crate::common::opt("print-weights", HasArg::No, 'w'));
    t.push(crate::common::opt("no-weights", HasArg::No, 'W'));
    t.push(crate::common::opt("tokenize-multichar", HasArg::No, 'm'));
    t.push(crate::common::opt("beam", HasArg::Required, 'b'));
    t.push(crate::common::opt("time-cutoff", HasArg::Required, 't'));
    t.push(crate::common::opt("weight-classes", HasArg::Required, 'l'));
    t.push(crate::common::opt("unique", HasArg::No, 'u'));
    t.push(crate::common::opt("segment", HasArg::No, 'z'));
    t.push(crate::common::opt("space-separated", HasArg::No, 'i'));
    t.push(crate::common::opt("xerox", HasArg::No, 'x'));
    t.push(crate::common::opt("cg", HasArg::No, 'c'));
    t.push(crate::common::opt("superblanks", HasArg::No, 'S'));
    t.push(crate::common::opt("giella-cg", HasArg::No, 'g'));
    t.push(crate::common::opt("gtd", HasArg::No, 'g'));
    t.push(crate::common::opt("conllu", HasArg::No, 'C'));
    t.push(crate::common::opt("finnpos", HasArg::No, 'f'));
    t.push(crate::common::opt("visl", HasArg::No, 'L'));
    assert(table_view(t@) =~= spec_table());
    t
}

/// The help of the tool's own options.
pub open spec fn own_help() -> Seq<char> {
    "  -n, --newline            Newline as input separator (default is blank line)\n  -a, --print-all          Print nonmatching text\n  -w, --print-weight       Print weights (overrides earlier -W option)\n  -W, --no-weights         Don't print weights (default; overrides earlier -w, or -w implied by -g, options)\n  -m, --tokenize-multichar Tokenize multicharacter symbols\n                           (by default only one grapheme is tokenized at a time\n                           regardless of what is present in the alphabet)\n  -b, --beam=B             Output only analyses whose weight is within B from best result\n  -tS, --time-cutoff=S     Limit search after having used S seconds per input\n  -lN, --weight-classes=N  Output no more than N best weight classes\n                           (where analyses with equal weight constitute a class\n  -u, --unique             Remove duplicate analyses\n  -z, --segment            Segmenting / tokenization mode (default)\n  -i, --space-separated    Tokenization with one sentence per line, space-separated tokens\n  -x, --xerox              Xerox output\n  -c, --cg                 Constraint Grammar output\n  -S, --superblanks        Ignore contents of unescaped [] (cf. apertium-destxt); flush on NUL\n  -g, --giella-cg          CG format used in Giella infrastructure (implies -w and -l2,\n                           treats @PMATCH_INPUT_MARK@ as subreading separator,\n                           expects tags to be Multichar_symbols, flush on NUL)\n  -C  --conllu             CoNLL-U format\n  -f, --finnpos            FinnPos output\n  -L, --visl               VISL input and output (implies -W, handles <s> as blocks and <STYLE> inline)\n"@
}

/// The usage text of hfst-tokenize.
pub open spec fn spec_usage(program_name: Seq<char>) -> Seq<char> {
    "Usage: "@ + program_name
        + " [--segment | --xerox | --cg | --giella-cg] [OPTIONS...] RULESET\nperform matching/lookup on text streams\n\n"@
        + spec_common_options_help() + own_help() + "Use standard streams for input and output (for now).\n\n\n"@
}

/// The usage text of hfst-tokenize.
pub fn print_usage(common: &CommonOptions) -> (s: String)
    ensures
        s@ == spec_usage(common.program_name@),
{
    let mut s = concat3(
        "Usage: ",
        common.program_name.as_str(),
        " [--segment | --xerox | --cg | --giella-cg] [OPTIONS...] RULESET\nperform matching/lookup on text streams\n\n",
    );
    s.append(common_options_help().as_str());
    s.append("  -n, --newline            Newline as input separator (default is blank line)\n  -a, --print-all          Print nonmatching text\n  -w, --print-weight       Print weights (overrides earlier -W option)\n  -W, --no-weights         Don't print weights (default; overrides earlier -w, or -w implied by -g, options)\n  -m, --tokenize-multichar Tokenize multicharacter symbols\n                           (by default only one grapheme is tokenized at a time\n                           regardless of what is present in the alphabet)\n  -b, --beam=B             Output only analyses whose weight is within B from best result\n  -tS, --time-cutoff=S     Limit search after having used S seconds per input\n  -lN, --weight-classes=N  Output no more than N best weight classes\n                           (where analyses with equal weight constitute a class\n  -u, --unique             Remove duplicate analyses\n  -z, --segment            Segmenting / tokenization mode (default)\n  -i, --space-separated    Tokenization with one sentence per line, space-separated tokens\n  -x, --xerox              Xerox output\n  -c, --cg                 Constraint Grammar output\n  -S, --superblanks        Ignore contents of unescaped [] (cf. apertium-destxt); flush on NUL\n  -g, --giella-cg          CG format used in Giella infrastructure (implies -w and -l2,\n                           treats @PMATCH_INPUT_MARK@ as subreading separator,\n                           expects tags to be Multichar_symbols, flush on NUL)\n  -C  --conllu             CoNLL-U format\n  -f, --finnpos            FinnPos output\n  -L, --visl               VISL input and output (implies -W, handles <s> as blocks and <STYLE> inline)\n");
    s.append("Use standard streams for input and output (for now).\n\n\n");
    s
}

/// A floating-point option, whose argument the caller reads.
#[derive(Clone, Copy, PartialEq, Eq, Structural, Debug)]
pub enum FloatOption {
    /// `-b`, `--beam`.
    Beam,
    /// `-t`, `--time-cutoff`.
    TimeCutoff,
}

/// The count a `-l` argument gives: the integer it holds around white
/// space, else 0.
pub open spec fn spec_classes(a: Seq<char>) -> i32 {
    match spec_parse_i32(spec_trim(a)) {
        Some(n) => n,
        None => 0,
    }
}

/// The refusal of a `-l` count below 1.
pub open spec fn spec_bad_classes() -> SpecReport {
    SpecReport { code: 1, messages: seq![(Channel::Stderr, "Invalid or no argument --weight-classes count\n"@)] }
}

/// What one of the tool's own options does.
pub enum SpecOwn {
    Next(Options),
    End(SpecReport),
    Float(FloatOption, Seq<char>),
}

/// What `-g` does to the settings: Giella CG output, with weights, all
/// text, no duplicates, subreadings split, not verbose, and two weight
/// classes unless a count was given.
pub open spec fn spec_giella(s: Settings) -> Settings {
    Settings {
        output_format: OutputFormat::Giellacg,
        print_weights: true,
        print_all: true,
        dedupe: true,
        hack_uncompose: true,
        verbose: false,
        max_weight_classes: if s.max_weight_classes == i32::MAX { 2 } else { s.max_weight_classes },
        ..s
    }
}

/// What one of the tool's own options does to `o`, before the verbose
/// setting is carried over.
pub open spec fn spec_own(c: SpecCommon, o: Options, e: SpecEvent) -> SpecOwn {
    let s = o.settings;
    match e {
        SpecEvent::Opt { val, arg } => {
            let a = arg.unwrap_or(Seq::empty());
            if val == 'k' {
                SpecOwn::Next(Options { keep_newlines: true, blankline_separated: false, ..o })
            } else if val == 'n' {
                SpecOwn::Next(Options { blankline_separated: false, ..o })
            } else if val == 'a' {
                SpecOwn::Next(Options { settings: Settings { print_all: true, ..s }, ..o })
            } else if val == 'w' {
                SpecOwn::Next(Options { settings: Settings { print_weights: true, ..s }, ..o })
            } else if val == 'W' {
                SpecOwn::Next(Options { settings: Settings { print_weights: false, ..s }, ..o })
            } else if val == 'm' {
                SpecOwn::Next(Options { settings: Settings { tokenize_multichar: true, ..s }, ..o })
            } else if val == 't' {
                SpecOwn::Float(FloatOption::TimeCutoff, a)
            } else if val == 'u' {
                SpecOwn::Next(Options { settings: Settings { dedupe: true, ..s }, ..o })
            } else if val == 'b' {
                SpecOwn::Float(FloatOption::Beam, a)
            } else if val == 'l' {
                if spec_classes(a) < 1 {
                    SpecOwn::End(spec_bad_classes())
                } else {
                    SpecOwn::Next(Options { settings: Settings { max_weight_classes: spec_classes(a), ..s }, ..o })
                }
            } else if val == 'z' {
                SpecOwn::Next(Options { settings: Settings { output_format: OutputFormat::Tokenize, ..s }, ..o })
            } else if val == 'i' {
                SpecOwn::Next(Options { settings: Settings { output_format: OutputFormat::SpaceSeparated, ..s }, ..o })
            } else if val == 'x' {
                SpecOwn::Next(Options { settings: Settings { output_format: OutputFormat::Xerox, ..s }, ..o })
            } else if val == 'c' {
                SpecOwn::Next(Options { settings: Settings { output_format: OutputFormat::Cg, ..s }, ..o })
            } else if val == 'C' {
                SpecOwn::Next(Options { settings: Settings { output_format: OutputFormat::Conllu, ..s }, ..o })
            } else if val == 'S' {
                SpecOwn::Next(Options { superblanks: true, ..o })
            } else if val == 'g' {
                SpecOwn::Next(Options { settings: spec_giella(s), ..o })
            } else if val == 'L' {
                SpecOwn::Next(Options {
                    settings: Settings {
                        output_format: OutputFormat::Visl,
                        print_weights: false,
                        print_all: true,
                        dedupe: true,
                        verbose: false,
                        ..s
                    },
                    ..o
                })
            } else if val == 'f' {
                SpecOwn::Next(Options { settings: Settings { output_format: OutputFormat::Finnpos, ..s }, ..o })
            } else {
                SpecOwn::End(spec_error_case(c, e))
            }
        },
        _ => SpecOwn::End(spec_error_case(c, e)),
    }
}

/// After one of the tool's own options, the tokenizer is made verbose when
/// `-v` was given before it.
pub open spec fn spec_carry_verbose(c: SpecCommon, o: Options) -> Options {
    if c.verbose { Options { settings: Settings { verbose: true, ..o.settings }, ..o } } else { o }
}

/// Where the option reading stops.
pub enum SpecPause {
    Done(SpecCommon, Options),
    End(SpecReport),
    /// The event at `at` is `-b` or `-t` with this argument, for the caller
    /// to read; the settings read before it are these. The caller resumes
    /// with [`carry_verbose`].
    Float { at: int, option: FloatOption, text: Seq<char>, common: SpecCommon, options: Options },
}

/// Reads the events from `i` on: the shared options first, then the
/// tool's own.
pub open spec fn spec_read(c: SpecCommon, o: Options, evs: Seq<SpecEvent>, i: int) -> SpecPause
    decreases evs.len() - i,
{
    if i < 0 || i >= evs.len() {
        SpecPause::Done(c, o)
    } else {
        match spec_common_case(c, evs[i]) {
            CommonCase::Handled(n) => spec_read(n, o, evs, i + 1),
            CommonCase::Help => SpecPause::End(spec_help_report(spec_usage(c.program_name))),
            CommonCase::Version => SpecPause::End(spec_version_report(c.program_name)),
            CommonCase::NotHandled => match spec_own(c, o, evs[i]) {
                SpecOwn::Next(n) => spec_read(c, spec_carry_verbose(c, n), evs, i + 1),
                SpecOwn::End(r) => SpecPause::End(r),
                SpecOwn::Float(f, t) => SpecPause::Float { at: i, option: f, text: t, common: c, options: o },
            },
        }
    }
}

/// The exec counterpart of [`SpecPause`]; the settings read so far are in
/// those the reading was given.
pub enum Pause {
    Done,
    End(Report),
    Float { at: usize, option: FloatOption, text: String },
}

fn classes(a: &str) -> (n: i32)
    ensures
        n == spec_classes(a@),
{
    let t = trim(a);
    match parse_i32(t.as_str()) {
        Some(n) => n,
        None => 0,
    }
}

#[verifier::rlimit(40)]
fn own(c: &CommonOptions, o: &mut Options, e: &OptEvent) -> (r: Option<Pause>)
    ensures
        match spec_own(c@, *old(o), e@) {
            SpecOwn::Next(n) => r is None && *final(o) == n,
            SpecOwn::End(x) => r matches Some(Pause::End(y)) && y@ == x,
            SpecOwn::Float(f, t) => r matches Some(Pause::Float { at, option, text }) && option == f && text@ == t
                && *final(o) == *old(o),
        },
{
    match e {
        OptEvent::Opt { val, arg } => {
            let v = *val;
            let a = match arg {
                Some(s) => s.clone(),
                None => String::new(),
            };
            if v == 'k' {
                o.keep_newlines = true;
                o.blankline_separated = false;
            } else if v == 'n' {
                o.blankline_separated = false;
            } else if v == 'a' {
                o.settings.print_all = true;
            } else if v == 'w' {
                o.settings.print_weights = true;
            } else if v == 'W' {
                o.settings.print_weights = false;
            } else if v == 'm' {
                o.settings.tokenize_multichar = true;
            } else if v == 't' {
                return Some(Pause::Float { at: 0, option: FloatOption::TimeCutoff, text: a });
            } else if v == 'u' {
                o.settings.dedupe = true;
            } else if v == 'b' {
                return Some(Pause::Float { at: 0, option: FloatOption::Beam, text: a });
            } else if v == 'l' {
                let n = classes(a.as_str());
                if n < 1 {
                    return Some(Pause::End(end_with(
                        1,
                        to_stderr("Invalid or no argument --weight-classes count\n".to_owned()),
                    )));
                }
                o.settings.max_weight_classes = n;
            } else if v == 'z' {
                o.settings.output_format = OutputFormat::Tokenize;
            } else if v == 'i' {
                o.settings.output_format = OutputFormat::SpaceSeparated;
            } else if v == 'x' {
                o.settings.output_format = OutputFormat::Xerox;
            } else if v == 'c' {
                o.settings.output_format = OutputFormat::Cg;
            } else if v == 'C' {
                o.settings.output_format = OutputFormat::Conllu;
            } else if v == 'S' {
                o.superblanks = true;
            } else if v == 'g' {
                o.settings.output_format = OutputFormat::Giellacg;
                o.settings.print_weights = true;
                o.settings.print_all = true;
                o.settings.dedupe = true;
                o.settings.hack_uncompose = true;
                o.settings.verbose = false;
                if o.settings.max_weight_classes == i32::MAX {
                    o.settings.max_weight_classes = 2;
                }
            } else if v == 'L' {
                o.settings.output_format = OutputFormat::Visl;
                o.settings.print_weights = false;
                o.settings.print_all = true;
                o.settings.dedupe = true;
                o.settings.verbose = false;
            } else if v == 'f' {
                o.settings.output_format = OutputFormat::Finnpos;
            } else {
                return Some(Pause::End(error_case(c, e)));
            }
            None
        },
        _ => Some(Pause::End(error_case(c, e))),
    }
}

/// Carries the verbose setting over after one of the tool's own options
/// (the caller calls it after reading a floating-point option too).
pub fn carry_verbose(c: &CommonOptions, o: &mut Options)
    ensures
        *final(o) == spec_carry_verbose(c@, *old(o)),
{
    if c.verbose {
        o.settings.verbose = true;
    }
}

/// Reads the option events from `from` on into `c` and `o`, up to the end,
/// the end of the tool, or the next floating-point option.
pub fn read_options(c: &mut CommonOptions, o: &mut Options, evs: &Vec<OptEvent>, from: usize) -> (r: Pause)
    ensures
        match spec_read(old(c)@, *old(o), events_view(evs@), from as int) {
            SpecPause::Done(x, y) => r is Done && final(c)@ == x && *final(o) == y,
            SpecPause::End(x) => r matches Pause::End(y) && y@ == x,
            SpecPause::Float { at, option, text, common, options } => r matches Pause::Float {
                at: a2,
                option: o2,
                text: t2,
            } && a2 == at && o2 == option && t2@ == text && final(c)@ == common && *final(o) == options,
        },
{
    let ghost ev = events_view(evs@);
    let mut i: usize = from;
    while i < evs.len()
        invariant
            ev == events_view(evs@),
            from <= i,
            spec_read(old(c)@, *old(o), ev, from as int) == spec_read(c@, *o, ev, i as int),
        decreases evs@.len() - i,
    {
        assert(ev[i as int] == evs@[i as int]@);
        match common_case(c, &evs[i]) {
            CommonStep::Handled => {},
            CommonStep::Help => {
                return Pause::End(end_with(0, to_stdout(print_usage(c))));
            },
            CommonStep::Version => {
                return Pause::End(end_with(0, to_stdout(version_text(c, "0.1"))));
            },
            CommonStep::NotHandled => {
                match own(c, o, &evs[i]) {
                    None => {
                        carry_verbose(c, o);
                    },
                    Some(Pause::Float { at: _, option, text }) => {
                        return Pause::Float { at: i, option, text };
                    },
                    Some(p) => {
                        return p;
                    },
                }
            },
        }
        i = i + 1;
    }
    Pause::Done
}

/// The refusal of a negative beam or time cutoff; `negative` is whether
/// the argument reads as a negative number.
pub fn float_refusal(option: FloatOption, negative: bool) -> (r: Option<Report>)
    ensures
        r is Some <==> negative,
        r matches Some(x) ==> x@ == (SpecReport {
            code: 1,
            messages: seq![(Channel::Stderr, match option {
                FloatOption::Beam => "Invalid argument for --beam\n"@,
                FloatOption::TimeCutoff => "Invalid argument for --time-cutoff\n"@,
            })],
        }),
{
    if !negative {
        None
    } else {
        match option {
            FloatOption::Beam => Some(end_with(1, to_stderr("Invalid argument for --beam\n".to_owned()))),
            FloatOption::TimeCutoff => Some(end_with(1, to_stderr("Invalid argument for --time-cutoff\n".to_owned()))),
        }
    }
}

/// The ruleset file, the one operand.
pub open spec fn spec_ruleset(operands: Seq<Seq<char>>) -> Result<Seq<char>, SpecReport> {
    if operands.len() > 1 {
        Err(SpecReport { code: 1, messages: seq![(Channel::Stderr, "More than one input file given\n"@)] })
    } else if operands.len() == 1 {
        Ok(operands[0])
    } else {
        Err(SpecReport { code: 1, messages: seq![(Channel::Stderr, "No input file given\n"@)] })
    }
}

/// The ruleset file, the one operand.
pub fn ruleset(operands: &Vec<String>) -> (r: Result<String, Report>)
    ensures
        match (r, spec_ruleset(args_view(operands@))) {
            (Ok(x), Ok(y)) => x@ == y,
            (Err(x), Err(y)) => x@ == y,
            _ => false,
        },
{
    if operands.len() > 1 {
        Err(end_with(1, to_stderr("More than one input file given\n".to_owned())))
    } else if operands.len() == 1 {
        assert(args_view(operands@)[0] == operands@[0]@);
        Ok(operands[0].clone())
    } else {
        Err(end_with(1, to_stderr("No input file given\n".to_owned())))
    }
}

/// What the tool starts from: its settings, the scanned command line, and
/// the options, which start from the tokenizer's defaults `defaults`.
pub struct Start {
    pub common: CommonOptions,
    pub options: Options,
    pub events: Vec<OptEvent>,
    pub operands: Vec<String>,
}

/// Scans hfst-tokenize's command line (`args[0]` is the program name); the
/// options are then read with [`read_options`] from event 0, and the
/// ruleset found with [`ruleset`].
pub fn run(args: &Vec<String>, defaults: Settings) -> (r: Start)
    ensures
        r.common@ == spec_initial_common(spec_argv0(args_view(args@))),
        r.options == (Options { superblanks: false, blankline_separated: true, keep_newlines: false, settings: defaults }),
        events_view(r.events@) == spec_scan(args_view(args@), spec_table()).0,
        args_view(r.operands@) == spec_scan(args_view(args@), spec_table()).1,
{
    let name = argv0(args);
    let common = initial_common(name.as_str());
    let t = table();
    let sc = scan(args, &t);
    Start {
        common,
        options: Options { superblanks: false, blankline_separated: true, keep_newlines: false, settings: defaults },
        events: sc.events,
        operands: sc.operands,
    }
}

/// The verbose line naming the ruleset and the output.
pub fn reading(c: &CommonOptions, ruleset: &str) -> (s: String)
    ensures
        s@ == "Reading from "@ + ruleset@ + ", writing to "@ + c.output_filename@ + "\n"@,
{
    let mut s = concat3("Reading from ", ruleset, ", writing to ");
    s.append(c.output_filename.as_str());
    s.append("\n");
    s
}

/// Whether the ruleset is a pmatch script: its first transducer is named
/// `TOP`; otherwise it is a dictionary made into a naive tokenizer. The
/// verbose line says which.
pub fn ruleset_kind(first_name: &Option<String>) -> (r: (bool, &'static str))
    ensures
        r.0 == (crate::getopt::opt_view(*first_name) == Some("TOP"@)),
        r.1@ == (if r.0 {
            "TOP automaton seen, treating as pmatch script...\n"@
        } else {
            "No TOP automaton found, using naive tokeniser?\n"@
        }),
{
    let top = match first_name {
        Some(n) => str_eq(n.as_str(), "TOP"),
        None => false,
    };
    if top {
        (true, "TOP automaton seen, treating as pmatch script...\n")
    } else {
        (false, "No TOP automaton found, using naive tokeniser?\n")
    }
}

/// Whether one code point is tokenized at a time: not under `-m`, nor
/// when the transducer has multicharacter input symbols.
pub fn single_codepoint(tokenize_multichar: bool, has_multichar_symbols: bool) -> (r: bool)
    ensures
        r == (!tokenize_multichar && !has_multichar_symbols),
{
    if tokenize_multichar {
        false
    } else {
        !has_multichar_symbols
    }
}

// ---------------------------------------------------------------------------
// Laws
// ---------------------------------------------------------------------------

/// `-g` keeps a weight-class count given before it, and sets two classes
/// otherwise; it always turns weights on.
pub proof fn lemma_giella_classes(s: Settings)
    ensures
        s.max_weight_classes != i32::MAX ==> spec_giella(s).max_weight_classes == s.max_weight_classes,
        s.max_weight_classes == i32::MAX ==> spec_giella(s).max_weight_classes == 2,
        spec_giella(s).print_weights,
{
}

} // verus!
