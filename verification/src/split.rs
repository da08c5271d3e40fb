//! hfst-split: write each transducer of a stream to a file of its own,
//! named by a prefix, its number and an extension. The options (the input
//! file `-i` names is opened by the caller, which resumes the reading) and
//! the file names and messages stand here.

use vstd::prelude::*;
use crate::common::{
    Channel, CommonCase, CommonOptions, CommonStep, Report, SpecCommon, SpecReport, argv0, check_unary, common_case,
    common_long, common_options_help, end_with, error_case, initial_common, short_help, spec_argv0,
    spec_common_case, spec_common_options_help, spec_common_table, spec_diagnostic, spec_error_case,
    spec_fail_report, spec_initial_common, spec_short_help, to_stderr, to_stdout, version_text, diagnostic,
    fail_with,
};
use crate::getopt::{HasArg, LongOpt, OptEvent, SpecEvent, SpecLongOpt, args_view, events_view, scan, spec_scan, table_view};
use crate::text::{concat3, digit_char, int_text, spec_decimal, spec_int_text, str_eq};
use crate::unary::{spec_help_report, spec_version_report};

verus! {

/// The tool's own settings.
#[derive(Debug)]
pub struct Options {
    /// `-p`: what the file names start with.
    pub prefix: String,
    /// `-e`: what the file names end with.
    pub extension: String,
}

/// The model of [`Options`].
pub struct SpecOptions {
    pub prefix: Seq<char>,
    pub extension: Seq<char>,
}

impl View for Options {
    type V = SpecOptions;

    open spec fn view(&self) -> SpecOptions {
        SpecOptions { prefix: self.prefix@, extension: self.extension@ }
    }
}

/// The settings before any option: no prefix, the extension `.hfst`.
pub open spec fn spec_default_options() -> SpecOptions {
    SpecOptions { prefix: Seq::empty(), extension: ".hfst"@ }
}

/// The settings before any option.
pub fn default_options() -> (o: Options)
    ensures
        o@ == spec_default_options(),
{
    Options { prefix: String::new(), extension: ".hfst".to_owned() }
}

/// The option table: the shared options, then `-i`, `-p` and `-e`; there
/// is no `-o`, as the tool names its own output files.
pub open spec fn spec_table() -> Seq<SpecLongOpt> {
    spec_common_table() + seq![
        SpecLongOpt { name: "input"@, has_arg: HasArg::Required, val: 'i' },
        SpecLongOpt { name: "prefix"@, has_arg: HasArg::Required, val: 'p' },
        SpecLongOpt { name: "extension"@, has_arg: HasArg::Required, val: 'e' },
    ]
}

fn table() -> (t: Vec<LongOpt>)
    ensures
        table_view(t@) == spec_table(),
{
    let mut t: Vec<LongOpt> = Vec::new();
    assert(table_view(t@) =~= Seq::<SpecLongOpt>::empty());
    common_long(&mut t);
    t.push(crate::common::opt("input", HasArg::Required, 'i'));
    t.push(crate::common::opt("prefix", HasArg::Required, 'p'));
    t.push(crate::common::opt("extension", HasArg::Required, 'e'));
    assert(table_view(t@) =~= spec_table());
    t
}

/// The help of the tool's own options.
pub open spec fn own_help() -> Seq<char> {
    "Input/Output options:\n  -i, --input=INFILE    Read input transducer from INFILE\n  -p, --prefix=PRE      Use the prefix PRE in naming output files\n  -e, --extension=EXT   Use the extension EXT in naming output files\n"@
}

/// How the files are named, with an example.
pub open spec fn notes() -> Seq<char> {
    "If INFILE is omitted or -, stdin is used.\nIf PRE is omitted, no prefix is used.\nIf EXT is omitted, .hfst is used.\nThe extracted files are named \"PRE\" + N + \"EXT\",\nwhere N is the number of the transducer in the archive.\n\nAn example:\n   cat transducer_a transducer_b | hfst-split -p \"rule\" -e \".tr\"\n\nThis command creates files \"rule1.tr\" (equivalent to transducer_a)\nand \"rule2.tr\" (equivalent to transducer_b). \n"@
}

/// The usage text of hfst-split.
pub open spec fn spec_usage(program_name: Seq<char>) -> Seq<char> {
    "Usage: "@ + program_name + " [OPTIONS...] [INFILE]\nExtract transducers from archive with systematic file names\n\n"@
        + spec_common_options_help() + own_help() + "\n"@ + notes() + "\n"@
}

/// The usage text of hfst-split.
pub fn print_usage(common: &CommonOptions) -> (s: String)
    ensures
        s@ == spec_usage(common.program_name@),
{
    let mut s = concat3(
        "Usage: ",
        common.program_name.as_str(),
        " [OPTIONS...] [INFILE]\nExtract transducers from archive with systematic file names\n\n",
    );
    s.append(common_options_help().as_str());
    s.append(
        "Input/Output options:\n  -i, --input=INFILE    Read input transducer from INFILE\n  -p, --prefix=PRE      Use the prefix PRE in naming output files\n  -e, --extension=EXT   Use the extension EXT in naming output files\n",
    );
    s.append("\n");
    s.append(
        "If INFILE is omitted or -, stdin is used.\nIf PRE is omitted, no prefix is used.\nIf EXT is omitted, .hfst is used.\nThe extracted files are named \"PRE\" + N + \"EXT\",\nwhere N is the number of the transducer in the archive.\n\nAn example:\n   cat transducer_a transducer_b | hfst-split -p \"rule\" -e \".tr\"\n\nThis command creates files \"rule1.tr\" (equivalent to transducer_a)\nand \"rule2.tr\" (equivalent to transducer_b). \n",
    );
    s.append("\n");
    s
}

/// Where the option reading stops.
pub enum SpecPause {
    /// All events read; these are the settings.
    Done(SpecCommon, SpecOptions),
    /// The tool ends with this report.
    End(SpecReport),
    /// The event at `at` is `-i` naming a file for the caller to open; the
    /// settings read before it are these.
    Open { at: int, name: Seq<char>, common: SpecCommon, options: SpecOptions },
}

/// Reads the events from `i` on: the shared options first, then `-i`,
/// `-p` and `-e`. `-i -` reads the standard input.
pub open spec fn spec_read(c: SpecCommon, o: SpecOptions, evs: Seq<SpecEvent>, i: int) -> SpecPause
    decreases evs.len() - i,
{
    if i < 0 || i >= evs.len() {
        SpecPause::Done(c, o)
    } else {
        match spec_common_case(c, evs[i]) {
            CommonCase::Handled(n) => spec_read(n, o, evs, i + 1),
            CommonCase::Help => SpecPause::End(spec_help_report(spec_usage(c.program_name))),
            CommonCase::Version => SpecPause::End(spec_version_report(c.program_name)),
            CommonCase::NotHandled => match evs[i] {
                SpecEvent::Opt { val, arg } => {
                    let a = arg.unwrap_or(Seq::empty());
                    if val == 'i' {
                        if a == "-"@ {
                            spec_read(SpecCommon { input_filename: "<stdin>"@, input_named: true, ..c }, o, evs, i + 1)
                        } else {
                            SpecPause::Open { at: i, name: a, common: c, options: o }
                        }
                    } else if val == 'p' {
                        spec_read(c, SpecOptions { prefix: a, ..o }, evs, i + 1)
                    } else if val == 'e' {
                        spec_read(c, SpecOptions { extension: a, ..o }, evs, i + 1)
                    } else {
                        SpecPause::End(spec_error_case(c, evs[i]))
                    }
                },
                _ => SpecPause::End(spec_error_case(c, evs[i])),
            },
        }
    }
}

/// The exec counterpart of [`SpecPause`]; the settings read so far are in
/// those the reading was given.
pub enum Pause {
    Done,
    End(Report),
    Open { at: usize, name: String },
}

/// Reads the option events from `from` on into `c` and `o`, up to the end,
/// the end of the tool, or the next file to open.
pub fn read_options(c: &mut CommonOptions, o: &mut Options, evs: &Vec<OptEvent>, from: usize) -> (r: Pause)
    ensures
        match spec_read(old(c)@, old(o)@, events_view(evs@), from as int) {
            SpecPause::Done(x, y) => r is Done && final(c)@ == x && final(o)@ == y,
            SpecPause::End(x) => r matches Pause::End(y) && y@ == x,
            SpecPause::Open { at, name, common, options } => r matches Pause::Open { at: a2, name: n2 } && a2 == at
                && n2@ == name && final(c)@ == common && final(o)@ == options,
        },
{
    let ghost ev = events_view(evs@);
    let mut i: usize = from;
    while i < evs.len()
        invariant
            ev == events_view(evs@),
            from <= i,
            spec_read(old(c)@, old(o)@, ev, from as int) == spec_read(c@, o@, ev, i as int),
        decreases evs@.len() - i,
    {
        assert(ev[i as int] == evs@[i as int]@);
        match common_case(c, &evs[i]) {
            CommonStep::Handled => {},
            CommonStep::Help => {
                return Pause::End(end_with(0, to_stdout(print_usage(c))));
            },
            CommonStep::Version => {
                return Pause::End(end_with(0, to_stdout(version_text(c, "0.1"))));
            },
            CommonStep::NotHandled => {
                match &evs[i] {
                    OptEvent::Opt { val, arg } => {
                        let a = match arg {
                            Some(s) => s.clone(),
                            None => String::new(),
                        };
                        if *val == 'i' {
                            if str_eq(a.as_str(), "-") {
                                c.input_filename = "<stdin>".to_owned();
                                c.input_named = true;
                            } else {
                                return Pause::Open { at: i, name: a };
                            }
                        } else if *val == 'p' {
                            o.prefix = a;
                        } else if *val == 'e' {
                            o.extension = a;
                        } else {
                            return Pause::End(error_case(c, &evs[i]));
                        }
                    },
                    _ => {
                        return Pause::End(error_case(c, &evs[i]));
                    },
                }
            },
        }
        i = i + 1;
    }
    Pause::Done
}

/// The refusal when the file `-i` names does not open.
pub open spec fn spec_could_not_open(program_name: Seq<char>, name: Seq<char>) -> SpecReport {
    spec_fail_report(program_name, "Could not open '"@ + name + "'. "@)
}

/// The refusal when the file `-i` names does not open.
pub fn could_not_open(c: &CommonOptions, name: &str) -> (r: Report)
    ensures
        r@ == spec_could_not_open(c.program_name@, name@),
{
    let text = concat3("Could not open '", name, "'. ");
    fail_with(c, text.as_str())
}

/// Records the file `-i` names, once it opened.
pub fn opened(c: &mut CommonOptions, name: String)
    ensures
        final(c)@ == (SpecCommon { input_filename: name@, input_named: true, ..old(c)@ }),
{
    c.input_filename = name;
    c.input_named = true;
}

/// What the tool starts from: its settings, the options before any is read,
/// and the scanned command line.
pub struct Start {
    pub common: CommonOptions,
    pub options: Options,
    pub events: Vec<OptEvent>,
    pub operands: Vec<String>,
}

/// Scans hfst-split's command line (`args[0]` is the program name); the
/// options are then read with [`read_options`] from event 0, and the
/// operands checked with [`crate::common::check_unary`].
pub fn run(args: &Vec<String>) -> (r: Start)
    ensures
        r.common@ == spec_initial_common(spec_argv0(args_view(args@))),
        r.options@ == spec_default_options(),
        events_view(r.events@) == spec_scan(args_view(args@), spec_table()).0,
        args_view(r.operands@) == spec_scan(args_view(args@), spec_table()).1,
{
    let name = argv0(args);
    let common = initial_common(name.as_str());
    let t = table();
    let sc = scan(args, &t);
    Start { common, options: default_options(), events: sc.events, operands: sc.operands }
}

/// The refusal of `-o`, which the tool does not take: the hint, then the
/// complaint.
pub open spec fn spec_output_refused(program_name: Seq<char>) -> SpecReport {
    SpecReport {
        code: 1,
        messages: seq![
            (Channel::Stderr, spec_short_help(program_name)),
            (Channel::Stderr, spec_diagnostic(program_name, "Unknown option `-o'.\n"@)),
        ],
    }
}

/// The refusal of `-o`.
pub fn output_refused(c: &CommonOptions) -> (r: Report)
    ensures
        r@ == spec_output_refused(c.program_name@),
{
    let mut messages = Vec::new();
    messages.push(to_stderr(short_help(c)));
    messages.push(diagnostic(c, "Unknown option `-o'.\n"));
    let r = Report { code: 1, messages };
    assert(r@.messages =~= spec_output_refused(c.program_name@).messages);
    r
}

// ---------------------------------------------------------------------------
// The stream work
// ---------------------------------------------------------------------------

/// The verbose line before the stream is read.
pub open spec fn spec_reading(c: SpecCommon, o: SpecOptions) -> Seq<char> {
    "Reading from "@ + c.input_filename + ", writing to "@ + o.prefix + "..."@ + o.extension + "\n"@
}

/// The verbose line before the stream is read.
pub fn reading(c: &CommonOptions, o: &Options) -> (s: String)
    ensures
        s@ == spec_reading(c@, o@),
{
    let mut s = concat3("Reading from ", c.input_filename.as_str(), ", writing to ");
    s.append(o.prefix.as_str());
    s.append("...");
    s.append(o.extension.as_str());
    s.append("\n");
    s
}

/// The file the `n`th transducer (from 1) is written to.
pub open spec fn spec_file_name(o: SpecOptions, n: int) -> Seq<char> {
    o.prefix + spec_int_text(n) + o.extension
}

/// The file the `n`th transducer is written to.
pub fn file_name(o: &Options, n: u64) -> (s: String)
    requires
        n <= i64::MAX,
    ensures
        s@ == spec_file_name(o@, n as int),
{
    concat3(o.prefix.as_str(), int_text(n as i64).as_str(), o.extension.as_str())
}

/// The verbose line before the `n`th transducer is written.
pub open spec fn spec_writing(c: SpecCommon, o: SpecOptions, n: int) -> Seq<char> {
    "Writing "@ + spec_int_text(n) + " of "@ + c.input_filename + " to "@ + spec_file_name(o, n) + "...\n"@
}

/// The verbose line before the `n`th transducer is written.
pub fn writing(c: &CommonOptions, o: &Options, n: u64) -> (s: String)
    requires
        n <= i64::MAX,
    ensures
        s@ == spec_writing(c@, o@, n as int),
{
    let mut s = concat3("Writing ", int_text(n as i64).as_str(), " of ");
    s.append(c.input_filename.as_str());
    s.append(" to ");
    s.append(file_name(o, n).as_str());
    s.append("...\n");
    s
}


// ---------------------------------------------------------------------------
// Laws
// ---------------------------------------------------------------------------

proof fn lemma_decimal_len(n: nat)
    ensures
        spec_decimal(n).len() >= 1,
        n >= 10 ==> spec_decimal(n).len() >= 2,
    decreases n,
{
    if n >= 10 {
        lemma_decimal_len(n / 10);
    }
}

proof fn lemma_digit_char_injective(a: nat, b: nat)
    requires
        a < 10,
        b < 10,
        digit_char(a) == digit_char(b),
    ensures
        a == b,
{
}

proof fn lemma_decimal_injective(a: nat, b: nat)
    requires
        spec_decimal(a) == spec_decimal(b),
    ensures
        a == b,
    decreases a + b,
{
    lemma_decimal_len(a);
    lemma_decimal_len(b);
    if a >= 10 && b >= 10 {
        let da = spec_decimal(a);
        assert(da.drop_last() =~= spec_decimal(a / 10));
        assert(spec_decimal(b).drop_last() =~= spec_decimal(b / 10));
        assert(da.last() == digit_char(a % 10));
        assert(spec_decimal(b).last() == digit_char(b % 10));
        lemma_digit_char_injective(a % 10, b % 10);
        lemma_decimal_injective(a / 10, b / 10);
        assert(a == 10 * (a / 10) + a % 10);
        assert(b == 10 * (b / 10) + b % 10);
    } else if a < 10 && b < 10 {
        assert(spec_decimal(a)[0] == digit_char(a));
        assert(spec_decimal(b)[0] == digit_char(b));
        lemma_digit_char_injective(a, b);
    }
}

/// The transducers of a stream go to files of their own: distinct numbers
/// give distinct file names.
pub proof fn lemma_file_names_distinct(o: SpecOptions, m: nat, n: nat)
    requires
        m != n,
    ensures
        spec_file_name(o, m as int) != spec_file_name(o, n as int),
{
    if spec_file_name(o, m as int) == spec_file_name(o, n as int) {
        let f = spec_file_name(o, m as int);
        let p = o.prefix.len();
        let dm = spec_decimal(m);
        let dn = spec_decimal(n);
        assert(f.len() == p + dm.len() + o.extension.len());
        assert(f.len() == p + dn.len() + o.extension.len());
        assert(f.subrange(p as int, (p + dm.len()) as int) =~= dm);
        assert(spec_file_name(o, n as int).subrange(p as int, (p + dn.len()) as int) =~= dn);
        lemma_decimal_injective(m, n);
    }
}
} // verus!
