//! hfst-substitute: relabel the arcs of each transducer of a stream. What
//! the tool decides stands here: its options (the files `-F` and `-T` name
//! are opened by the caller, which resumes the reading), the relabeling
//! file's lines, the verbose lines, the type check of the replacement
//! transducer and the name the result is given.

use vstd::prelude::*;
use crate::common::{
    Channel, CommonOptions, Report, SpecCommon, SpecReport, argv0, check_unary, error_case, fail_with,
    initial_common, spec_check_unary, spec_error_case, spec_fail_report, spec_initial_common, spec_argv0, to_stderr,
};
use crate::getopt::{
    HasArg, LongOpt, OptEvent, SpecEvent, SpecLongOpt, args_view, events_view, opt_view, scan,
    spec_scan, table_view,
};
use crate::text::{concat2, concat3, find_char, find_char_from, chars_of, str_eq, string_of_range, int_text, spec_int_text};
use crate::unary::{
    Shared, SpecShared, shared_step, spec_shared_step, spec_unary_table, spec_unary_usage, unary_table,
    unary_usage,
};

verus! {

/// The name the transducers give the epsilon symbol.
pub open spec fn internal_epsilon() -> Seq<char> {
    "@_EPSILON_SYMBOL_@"@
}

/// The tool's own settings.
#[derive(Debug)]
pub struct Options {
    /// `-f`: the label to replace.
    pub from_label: Option<String>,
    /// `-F`: the relabeling file, once it opened.
    pub from_file_name: Option<String>,
    /// `-t`: the replacing label.
    pub to_label: Option<String>,
    /// `-T`: the replacing transducer's file, once it opened.
    pub to_transducer_filename: Option<String>,
    /// `-R`: keep the order of the file's replacements.
    pub in_order: bool,
    /// `-9`: compose substitutions when possible.
    pub compose: bool,
    /// Cleared by `-C`: convert the replacing transducer to the input's type.
    pub convert: bool,
}

/// The model of [`Options`].
pub struct SpecOptions {
    pub from_label: Option<Seq<char>>,
    pub from_file_name: Option<Seq<char>>,
    pub to_label: Option<Seq<char>>,
    pub to_transducer_filename: Option<Seq<char>>,
    pub in_order: bool,
    pub compose: bool,
    pub convert: bool,
}

impl View for Options {
    type V = SpecOptions;

    open spec fn view(&self) -> SpecOptions {
        SpecOptions {
            from_label: opt_view(self.from_label),
            from_file_name: opt_view(self.from_file_name),
            to_label: opt_view(self.to_label),
            to_transducer_filename: opt_view(self.to_transducer_filename),
            in_order: self.in_order,
            compose: self.compose,
            convert: self.convert,
        }
    }
}

/// The settings before any option: nothing to replace, conversion allowed.
pub open spec fn spec_default_options() -> SpecOptions {
    SpecOptions {
        from_label: None,
        from_file_name: None,
        to_label: None,
        to_transducer_filename: None,
        in_order: false,
        compose: false,
        convert: true,
    }
}

/// The settings before any option.
pub fn default_options() -> (o: Options)
    ensures
        o@ == spec_default_options(),
{
    Options {
        from_label: None,
        from_file_name: None,
        to_label: None,
        to_transducer_filename: None,
        in_order: false,
        compose: false,
        convert: true,
    }
}

/// The option table: the shared options, then the tool's own.
pub open spec fn spec_table() -> Seq<SpecLongOpt> {
    spec_unary_table() + seq![
        SpecLongOpt { name: "from-label"@, has_arg: HasArg::Required, val: 'f' },
        SpecLongOpt { name: "from-file"@, has_arg: HasArg::Required, val: 'F' },
        SpecLongOpt { name: "to-label"@, has_arg: HasArg::Required, val: 't' },
        SpecLongOpt { name: "to-transducer"@, has_arg: HasArg::Required, val: 'T' },
        SpecLongOpt { name: "in-order"@, has_arg: HasArg::No, val: 'R' },
        SpecLongOpt { name: "compose"@, has_arg: HasArg::No, val: '9' },
        SpecLongOpt { name: "do-not-convert"@, has_arg: HasArg::No, val: 'C' },
    ]
}

fn table() -> (t: Vec<LongOpt>)
    ensures
        table_view(t@) == spec_table(),
{
    let mut t = unary_table();
    let ghost before = table_view(t@);
    t.push(crate::common::opt("from-label", HasArg::Required, 'f'));
    t.push(crate::common::opt("from-file", HasArg::Required, 'F'));
    t.push(crate::common::opt("to-label", HasArg::Required, 't'));
    t.push(crate::common::opt("to-transducer", HasArg::Required, 'T'));
    t.push(crate::common::opt("in-order", HasArg::No, 'R'));
    t.push(crate::common::opt("compose", HasArg::No, '9'));
    t.push(crate::common::opt("do-not-convert", HasArg::No, 'C'));
    assert(table_view(t@) =~= spec_table());
    t
}

/// The help of the tool's own options.
pub open spec fn own_help() -> Seq<char> {
    "Relabeling options:\n  -f, --from-label=FLABEL      replace FLABEL\n  -t, --to-label=TLABEL        replace with TLABEL\n  -T, --to-transducer=TFILE    replace with transducer read from TFILE\n  -F, --from-file=LABELFILE    read replacements from LABELFILE\n  -R, --in-order               keep the order of the replacements\n                               (with -F)\nInput options:\n  -C, --do-not-convert         require that transducers in TFILE and INFILE\n                               have the same type\nTransient optimisation schemes:\n  -9, --compose                compose substitutions when possible\n"@
}

/// What the labels and the relabeling file must look like, then examples.
pub open spec fn notes(program_name: Seq<char>) -> Seq<char> {
    "LABEL must be a symbol name in single arc in transducer,\nor colon separated pair defining an arc.\nIf TFILE is specified, FLABEL must be a pair.\nLABELFILE is a 2 column tsv file where col 1 is FLABEL\nand col 2 gives TLABEL specifications.\n\nExamples:\n  "@
        + program_name + " -i tr.hfst -o tr_relabeled.hfst -f 'a' -t 'A'\n      relabel all symbols 'a' with 'A'\n  "@
        + program_name + " -i tr.hfst -o tr_relabeled.hfst -f 'a:b' -t 'A:B'\n      relabel all arcs 'a:b' with 'A:B'\n  "@
        + program_name + " -i tr.hfst -o tr_relabeled.hfst -f 'a:b' -T repl.hfst\n      replace all arcs 'a:b' with transducer repl.hfst\n"@
}

/// The usage text of hfst-substitute.
pub open spec fn spec_usage(program_name: Seq<char>) -> Seq<char> {
    spec_unary_usage(program_name, "Relabel transducer arcs"@, own_help(), notes(program_name))
}

/// The usage text of hfst-substitute.
pub fn print_usage(common: &CommonOptions) -> (s: String)
    ensures
        s@ == spec_usage(common.program_name@),
{
    let pn = common.program_name.as_str();
    let mut n = concat3(
        "LABEL must be a symbol name in single arc in transducer,\nor colon separated pair defining an arc.\nIf TFILE is specified, FLABEL must be a pair.\nLABELFILE is a 2 column tsv file where col 1 is FLABEL\nand col 2 gives TLABEL specifications.\n\nExamples:\n  ",
        pn,
        " -i tr.hfst -o tr_relabeled.hfst -f 'a' -t 'A'\n      relabel all symbols 'a' with 'A'\n  ",
    );
    n.append(pn);
    n.append(" -i tr.hfst -o tr_relabeled.hfst -f 'a:b' -t 'A:B'\n      relabel all arcs 'a:b' with 'A:B'\n  ");
    n.append(pn);
    n.append(" -i tr.hfst -o tr_relabeled.hfst -f 'a:b' -T repl.hfst\n      replace all arcs 'a:b' with transducer repl.hfst\n");
    assert(n@ == notes(common.program_name@));
    unary_usage(
        common,
        "Relabel transducer arcs",
        "Relabeling options:\n  -f, --from-label=FLABEL      replace FLABEL\n  -t, --to-label=TLABEL        replace with TLABEL\n  -T, --to-transducer=TFILE    replace with transducer read from TFILE\n  -F, --from-file=LABELFILE    read replacements from LABELFILE\n  -R, --in-order               keep the order of the replacements\n                               (with -F)\nInput options:\n  -C, --do-not-convert         require that transducers in TFILE and INFILE\n                               have the same type\nTransient optimisation schemes:\n  -9, --compose                compose substitutions when possible\n",
        n.as_str(),
    )
}

/// The refusal of an empty `-f` argument.
pub open spec fn empty_source() -> Seq<char> {
    "argument of source label option is empty;\nif you REALLY want to replace epsilons with something, use @0@ or "@
        + internal_epsilon()
}

/// The refusal of an empty `-t` argument.
pub open spec fn empty_target() -> Seq<char> {
    "argument of target label option is empty;\nif you want to substitute something with epsilons, use @0@ or "@
        + internal_epsilon()
}

/// A label argument as the tool keeps it: `@0@` stands for the epsilon
/// symbol.
pub open spec fn spec_label(a: Seq<char>) -> Seq<char> {
    if a == "@0@"@ { internal_epsilon() } else { a }
}

/// A file a `-F` or `-T` argument names, which the caller opens.
#[derive(Clone, Copy, PartialEq, Eq, Structural, Debug)]
pub enum FileOption {
    /// `-F`: the relabeling file.
    From,
    /// `-T`: the replacing transducer.
    To,
}

/// What one of the tool's own options does.
pub enum SpecOwn {
    /// The settings are now these.
    Next(SpecOptions),
    /// The tool ends with this report.
    End(SpecReport),
    /// A file for the caller to open.
    Open(FileOption, Seq<char>),
}

/// What one of the tool's own options does to `o`.
pub open spec fn spec_own(c: SpecCommon, o: SpecOptions, e: SpecEvent) -> SpecOwn {
    match e {
        SpecEvent::Opt { val, arg } => {
            let a = arg.unwrap_or(Seq::empty());
            if val == 'f' {
                if spec_label(a).len() == 0 {
                    SpecOwn::End(spec_fail_report(c.program_name, empty_source()))
                } else {
                    SpecOwn::Next(SpecOptions { from_label: Some(spec_label(a)), ..o })
                }
            } else if val == 'F' {
                SpecOwn::Open(FileOption::From, a)
            } else if val == 't' {
                if spec_label(a).len() == 0 {
                    SpecOwn::End(spec_fail_report(c.program_name, empty_target()))
                } else {
                    SpecOwn::Next(SpecOptions { to_label: Some(spec_label(a)), ..o })
                }
            } else if val == 'T' {
                SpecOwn::Open(FileOption::To, a)
            } else if val == 'R' {
                SpecOwn::Next(SpecOptions { in_order: true, ..o })
            } else if val == '9' {
                SpecOwn::Next(SpecOptions { compose: true, ..o })
            } else if val == 'C' {
                SpecOwn::Next(SpecOptions { convert: false, ..o })
            } else {
                SpecOwn::End(spec_error_case(c, e))
            }
        },
        _ => SpecOwn::End(spec_error_case(c, e)),
    }
}

/// Where the option reading stops.
pub enum SpecPause {
    /// All events read; these are the settings.
    Done(SpecCommon, SpecOptions),
    /// The tool ends with this report.
    End(SpecReport),
    /// The event at `at` names a file for the caller to open; the settings
    /// read before it are these.
    Open { at: int, option: FileOption, name: Seq<char>, common: SpecCommon, options: SpecOptions },
}

/// Reads the events from `i` on: the shared options first, then the tool's
/// own.
pub open spec fn spec_read(c: SpecCommon, o: SpecOptions, evs: Seq<SpecEvent>, i: int) -> SpecPause
    decreases evs.len() - i,
{
    if i < 0 || i >= evs.len() {
        SpecPause::Done(c, o)
    } else {
        match spec_shared_step(c, evs[i], spec_usage(c.program_name)) {
            SpecShared::Continue(n) => spec_read(n, o, evs, i + 1),
            SpecShared::Stop(r) => SpecPause::End(r),
            SpecShared::Own => match spec_own(c, o, evs[i]) {
                SpecOwn::Next(n) => spec_read(c, n, evs, i + 1),
                SpecOwn::End(r) => SpecPause::End(r),
                SpecOwn::Open(f, name) => SpecPause::Open { at: i, option: f, name, common: c, options: o },
            },
        }
    }
}

/// The exec counterpart of [`SpecPause`]; the settings read so far are in
/// those the reading was given.
pub enum Pause {
    Done,
    End(Report),
    Open { at: usize, option: FileOption, name: String },
}

fn label(a: &str) -> (s: String)
    ensures
        s@ == spec_label(a@),
{
    if str_eq(a, "@0@") {
        "@_EPSILON_SYMBOL_@".to_owned()
    } else {
        a.to_owned()
    }
}

fn own(c: &CommonOptions, o: &mut Options, e: &OptEvent) -> (r: Option<Pause>)
    ensures
        match spec_own(c@, old(o)@, e@) {
            SpecOwn::Next(n) => r is None && final(o)@ == n,
            SpecOwn::End(x) => r matches Some(Pause::End(y)) && y@ == x,
            SpecOwn::Open(f, name) => r matches Some(Pause::Open { at, option, name: n2 }) && option == f
                && n2@ == name && final(o)@ == old(o)@,
        },
{
    match e {
        OptEvent::Opt { val, arg } => {
            let v = *val;
            let a = match arg {
                Some(s) => s.clone(),
                None => String::new(),
            };
            if v == 'f' || v == 't' {
                let l = label(a.as_str());
                if l.as_str().unicode_len() == 0 {
                    if v == 'f' {
                        let text = concat2(
                            "argument of source label option is empty;\nif you REALLY want to replace epsilons with something, use @0@ or ",
                            "@_EPSILON_SYMBOL_@",
                        );
                        return Some(Pause::End(fail_with(c, text.as_str())));
                    } else {
                        let text = concat2(
                            "argument of target label option is empty;\nif you want to substitute something with epsilons, use @0@ or ",
                            "@_EPSILON_SYMBOL_@",
                        );
                        return Some(Pause::End(fail_with(c, text.as_str())));
                    }
                }
                if v == 'f' {
                    o.from_label = Some(l);
                } else {
                    o.to_label = Some(l);
                }
                None
            } else if v == 'F' {
                Some(Pause::Open { at: 0, option: FileOption::From, name: a })
            } else if v == 'T' {
                Some(Pause::Open { at: 0, option: FileOption::To, name: a })
            } else if v == 'R' {
                o.in_order = true;
                None
            } else if v == '9' {
                o.compose = true;
                None
            } else if v == 'C' {
                o.convert = false;
                None
            } else {
                Some(Pause::End(error_case(c, e)))
            }
        },
        _ => Some(Pause::End(error_case(c, e))),
    }
}

/// Reads the option events from `from` on into `c` and `o`, up to the end,
/// the end of the tool, or the next file to open.
pub fn read_options(c: &mut CommonOptions, o: &mut Options, evs: &Vec<OptEvent>, from: usize) -> (r: Pause)
    ensures
        match spec_read(old(c)@, old(o)@, events_view(evs@), from as int) {
            SpecPause::Done(x, y) => r is Done && final(c)@ == x && final(o)@ == y,
            SpecPause::End(x) => r matches Pause::End(y) && y@ == x,
            SpecPause::Open { at, option, name, common, options } => r matches Pause::Open {
                at: a2,
                option: o2,
                name: n2,
            } && a2 == at && o2 == option && n2@ == name && final(c)@ == common && final(o)@ == options,
        },
{
    let ghost ev = events_view(evs@);
    let mut i: usize = from;
    while i < evs.len()
        invariant
            ev == events_view(evs@),
            from <= i,
            spec_read(old(c)@, old(o)@, ev, from as int) == spec_read(c@, o@, ev, i as int),
        decreases evs@.len() - i,
    {
        assert(ev[i as int] == evs@[i as int]@);
        let usage = print_usage(c);
        match shared_step(c, &evs[i], usage.as_str()) {
            Shared::Continue => {},
            Shared::Stop(r) => {
                return Pause::End(r);
            },
            Shared::Own => {
                match own(c, o, &evs[i]) {
                    None => {},
                    Some(Pause::Open { at: _, option, name }) => {
                        return Pause::Open { at: i, option, name };
                    },
                    Some(p) => {
                        return p;
                    },
                }
            },
        }
        i = i + 1;
    }
    Pause::Done
}

/// The refusal when a file named by `-F` or `-T` does not open.
pub open spec fn spec_could_not_open(program_name: Seq<char>, name: Seq<char>) -> SpecReport {
    spec_fail_report(program_name, "Could not open '"@ + name + "'"@)
}

/// The refusal when a file named by `-F` or `-T` does not open.
pub fn could_not_open(c: &CommonOptions, name: &str) -> (r: Report)
    ensures
        r@ == spec_could_not_open(c.program_name@, name@),
{
    let text = concat3("Could not open '", name, "'");
    fail_with(c, text.as_str())
}

/// Records a file named by `-F` or `-T` that opened.
pub fn opened(o: &mut Options, option: FileOption, name: String)
    ensures
        final(o)@ == (match option {
            FileOption::From => SpecOptions { from_file_name: Some(name@), ..old(o)@ },
            FileOption::To => SpecOptions { to_transducer_filename: Some(name@), ..old(o)@ },
        }),
{
    match option {
        FileOption::From => {
            o.from_file_name = Some(name);
        },
        FileOption::To => {
            o.to_transducer_filename = Some(name);
        },
    }
}


/// The refusal when nothing names the labels to replace.
pub open spec fn no_source() -> Seq<char> {
    "Must state name of labels to rewrite with -f or -F"@
}

/// The refusal when nothing names what replaces them.
pub open spec fn no_target() -> Seq<char> {
    "Must give target labels with -t, -T or -F"@
}

/// The checks after the options: something to replace and something to
/// replace it with, then the operand check of the one-input tools.
pub open spec fn spec_finish(c: SpecCommon, o: SpecOptions, operands: Seq<Seq<char>>) -> Result<SpecCommon, SpecReport> {
    if o.from_label is None && o.from_file_name is None {
        Err(spec_fail_report(c.program_name, no_source()))
    } else if o.to_label is None && o.to_transducer_filename is None && o.from_file_name is None {
        Err(spec_fail_report(c.program_name, no_target()))
    } else {
        spec_check_unary(c, operands)
    }
}

/// Applies the checks after the options. When they pass, a relabeling
/// file or a label to replace was given.
pub fn finish(c: CommonOptions, o: &Options, operands: &Vec<String>) -> (r: Result<CommonOptions, Report>)
    ensures
        match (r, spec_finish(c@, o@, args_view(operands@))) {
            (Ok(x), Ok(y)) => x@ == y,
            (Err(x), Err(y)) => x@ == y,
            _ => false,
        },
        r is Ok ==> o.from_file_name is Some || o.from_label is Some,
{
    if o.from_label.is_none() && o.from_file_name.is_none() {
        Err(fail_with(&c, "Must state name of labels to rewrite with -f or -F"))
    } else if o.to_label.is_none() && o.to_transducer_filename.is_none() && o.from_file_name.is_none() {
        Err(fail_with(&c, "Must give target labels with -t, -T or -F"))
    } else {
        check_unary(c, operands)
    }
}

/// What the tool starts from: its settings, the options before any is read,
/// and the scanned command line.
pub struct Start {
    pub common: CommonOptions,
    pub options: Options,
    pub events: Vec<OptEvent>,
    pub operands: Vec<String>,
}

/// Scans hfst-substitute's command line (`args[0]` is the program name);
/// the options are then read with [`read_options`] from event 0, and
/// checked with [`finish`].
pub fn run(args: &Vec<String>) -> (r: Start)
    ensures
        r.common@ == spec_initial_common(spec_argv0(args_view(args@))),
        r.options@ == spec_default_options(),
        events_view(r.events@) == spec_scan(args_view(args@), spec_table()).0,
        args_view(r.operands@) == spec_scan(args_view(args@), spec_table()).1,
{
    let name = argv0(args);
    let common = initial_common(name.as_str());
    let t = table();
    let sc = scan(args, &t);
    Start { common, options: default_options(), events: sc.events, operands: sc.operands }
}

// ---------------------------------------------------------------------------
// The stream work
// ---------------------------------------------------------------------------

/// The verbose line announcing the `n`th transducer (counted from 1).
pub open spec fn spec_performing(inputname: Seq<char>, n: int) -> Seq<char> {
    if n == 1 {
        "performing substitutions in "@ + inputname + "...\n"@
    } else {
        "performing substitutions in "@ + inputname + "... "@ + spec_int_text(n) + "\n"@
    }
}

/// The verbose line announcing the `n`th transducer.
pub fn performing(inputname: &str, n: u32) -> (s: String)
    ensures
        s@ == spec_performing(inputname@, n as int),
{
    if n == 1 {
        concat3("performing substitutions in ", inputname, "...\n")
    } else {
        let mut s = concat3("performing substitutions in ", inputname, "... ");
        s.append(int_text(n as i64).as_str());
        s.append("\n");
        s
    }
}

/// The verbose line before the relabeling file is read.
pub open spec fn spec_reading_substitutions(file: Seq<char>) -> Seq<char> {
    "reading substitutions from "@ + file + "...\n"@
}

/// The verbose line before the relabeling file is read.
pub fn reading_substitutions(file: &str) -> (s: String)
    ensures
        s@ == spec_reading_substitutions(file@),
{
    concat3("reading substitutions from ", file, "...\n")
}

/// The refusal of a line without a tab.
pub open spec fn no_tab() -> Seq<char> {
    "At least one tab required per line"@
}

/// The refusal of a line whose first field is empty.
pub open spec fn first_empty() -> Seq<char> {
    "First field is empty;\nif you REALLY want to replace epsilons withsomething, use @0@ or "@ + internal_epsilon()
}

/// The refusal of a line whose second field is empty.
pub open spec fn second_empty() -> Seq<char> {
    "Second field seems empty;\nif you want to substitute something with epsilons, use @0@ or "@ + internal_epsilon()
}

/// What a line of the relabeling file is.
pub enum SpecRelabelLine {
    /// An empty line, or a comment without a tab.
    Skip,
    /// The label to replace and its replacement.
    Entry(Seq<char>, Seq<char>),
    /// A line the tool refuses, with the reason.
    Refused(Seq<char>),
}

/// What a line (with its newline, if any) of the relabeling file is: the
/// first field precedes the first tab, the second follows it up to the
/// newline. A line starting with a newline is skipped, and so is one
/// starting with `#` that has no tab.
pub open spec fn spec_relabel_line(line: Seq<char>) -> SpecRelabelLine {
    if line.len() > 0 && line[0] == '\n' {
        SpecRelabelLine::Skip
    } else {
        match find_char(line, '\t', 0) {
            None => if line.len() > 0 && line[0] == '#' {
                SpecRelabelLine::Skip
            } else {
                SpecRelabelLine::Refused(no_tab())
            },
            Some(tab) => {
                let end = match find_char(line, '\n', tab + 1) {
                    Some(e) => e,
                    None => line.len() as int,
                };
                let from = line.subrange(0, tab);
                let to = line.subrange(tab + 1, end);
                if from.len() == 0 {
                    SpecRelabelLine::Refused(first_empty())
                } else if to.len() == 0 {
                    SpecRelabelLine::Refused(second_empty())
                } else {
                    SpecRelabelLine::Entry(from, to)
                }
            },
        }
    }
}

/// The report for a refused line: the program, the file and the line
/// number, then the reason.
pub open spec fn spec_line_report(program_name: Seq<char>, file: Seq<char>, line_n: int, text: Seq<char>) -> SpecReport {
    SpecReport {
        code: 1,
        messages: seq![(Channel::Stderr, program_name + ":"@ + file + ":"@ + spec_int_text(line_n) + ": "@ + text + "\n"@)],
    }
}

/// The exec counterpart of [`SpecRelabelLine`]; a refused line comes with
/// the report the tool ends with.
pub enum RelabelLine {
    Skip,
    Entry { from: String, to: String },
    Refused(Report),
}

fn line_report(c: &CommonOptions, file: &str, line_n: u32, text: &str) -> (r: Report)
    ensures
        r@ == spec_line_report(c.program_name@, file@, line_n as int, text@),
{
    let mut s = concat3(c.program_name.as_str(), ":", file);
    s.append(":");
    s.append(int_text(line_n as i64).as_str());
    s.append(": ");
    s.append(text);
    s.append("\n");
    crate::common::end_with(1, to_stderr(s))
}

/// Reads the `line_n`th line (counted from 1) of the relabeling file `file`.
pub fn relabel_line(c: &CommonOptions, file: &str, line_n: u32, line: &str) -> (r: RelabelLine)
    ensures
        match spec_relabel_line(line@) {
            SpecRelabelLine::Skip => r is Skip,
            SpecRelabelLine::Entry(f, t) => r matches RelabelLine::Entry { from, to } && from@ == f && to@ == t,
            SpecRelabelLine::Refused(text) => r matches RelabelLine::Refused(x)
                && x@ == spec_line_report(c.program_name@, file@, line_n as int, text),
        },
{
    let v = chars_of(line);
    if v.len() > 0 && v[0] == '\n' {
        return RelabelLine::Skip;
    }
    let tab = match find_char_from(&v, '\t', 0) {
        None => {
            if v.len() > 0 && v[0] == '#' {
                return RelabelLine::Skip;
            }
            return RelabelLine::Refused(line_report(c, file, line_n, "At least one tab required per line"));
        },
        Some(t) => t,
    };
    let end = match find_char_from(&v, '\n', tab + 1) {
        Some(e) => e,
        None => v.len(),
    };
    if tab == 0 {
        let text = concat2(
            "First field is empty;\nif you REALLY want to replace epsilons withsomething, use @0@ or ",
            "@_EPSILON_SYMBOL_@",
        );
        return RelabelLine::Refused(line_report(c, file, line_n, text.as_str()));
    }
    if end == tab + 1 {
        let text = concat2(
            "Second field seems empty;\nif you want to substitute something with epsilons, use @0@ or ",
            "@_EPSILON_SYMBOL_@",
        );
        return RelabelLine::Refused(line_report(c, file, line_n, text.as_str()));
    }
    RelabelLine::Entry { from: string_of_range(&v, 0, tab), to: string_of_range(&v, tab + 1, end) }
}

/// The warning or refusal when the replacing transducer and the input
/// differ in type. `conversion` is how the two types convert: 1 keeps the
/// input's type, 2 the replacing transducer's, -1 the input's with possible
/// loss; `in_format` and `to_format` name the two types.
pub enum SpecMismatch {
    /// Convert, after this warning, to the input's type (`true`) or the
    /// replacing transducer's.
    Warn(Seq<char>, bool),
    /// The tool ends with this report.
    End(SpecReport),
}

/// How a type mismatch is met: converted unless `-C` was given.
pub open spec fn spec_mismatch(
    c: SpecCommon,
    o: SpecOptions,
    to_file: Seq<char>,
    conversion: i32,
    in_format: Seq<char>,
    to_format: Seq<char>,
) -> SpecMismatch {
    let head = "Transducer type mismatch in "@ + c.input_filename + " and "@ + to_file + "; "@;
    if o.convert {
        if conversion == 1 {
            SpecMismatch::Warn(head + "using former type as output"@, true)
        } else if conversion == 2 {
            SpecMismatch::Warn(head + "using latter type as output"@, false)
        } else {
            SpecMismatch::Warn(head + "using former type as output, loss of information is possible"@, true)
        }
    } else {
        SpecMismatch::End(spec_fail_report(
            c.program_name,
            head + "formats "@ + in_format + " and "@ + to_format
                + " are not compatible for substitution (--do-not-convert was requested)"@,
        ))
    }
}

/// The exec counterpart of [`SpecMismatch`].
pub enum Mismatch {
    Warn { text: String, keep_input_type: bool },
    End(Report),
}

/// Meets a type mismatch between the input and the replacing transducer.
pub fn mismatch(
    c: &CommonOptions,
    o: &Options,
    to_file: &str,
    conversion: i32,
    in_format: &str,
    to_format: &str,
) -> (r: Mismatch)
    requires
        o.convert ==> conversion == 1 || conversion == 2 || conversion == -1,
    ensures
        match spec_mismatch(c@, o@, to_file@, conversion, in_format@, to_format@) {
            SpecMismatch::Warn(t, k) => r matches Mismatch::Warn { text, keep_input_type } && text@ == t
                && keep_input_type == k,
            SpecMismatch::End(x) => r matches Mismatch::End(y) && y@ == x,
        },
{
    let mut head = concat3("Transducer type mismatch in ", c.input_filename.as_str(), " and ");
    head.append(to_file);
    head.append("; ");
    if o.convert {
        if conversion == 1 {
            head.append("using former type as output");
            Mismatch::Warn { text: head, keep_input_type: true }
        } else if conversion == 2 {
            head.append("using latter type as output");
            Mismatch::Warn { text: head, keep_input_type: false }
        } else {
            head.append("using former type as output, loss of information is possible");
            Mismatch::Warn { text: head, keep_input_type: true }
        }
    } else {
        head.append("formats ");
        head.append(in_format);
        head.append(" and ");
        head.append(to_format);
        head.append(" are not compatible for substitution (--do-not-convert was requested)");
        Mismatch::End(fail_with(c, head.as_str()))
    }
}

/// The operation name and formula the result is given: after the
/// relabeling file `F`, `substitute-from-F` and `♲F`; after `-f L -t M`,
/// `substitute-L-with-M` and `L ♲ M`; after `-f L -T N`,
/// `substitute-L-with-net-N` and `L ♲ N`.
pub open spec fn spec_result_label(o: SpecOptions) -> Option<(Seq<char>, Seq<char>)> {
    match o.from_file_name {
        Some(f) => Some(("substitute-from-"@ + f, "\u{2672}"@ + f)),
        None => match (o.from_label, o.to_label, o.to_transducer_filename) {
            (Some(l), Some(m), _) => Some(("substitute-"@ + l + "-with-"@ + m, l + " \u{2672} "@ + m)),
            (Some(l), None, Some(n)) => Some(("substitute-"@ + l + "-with-net-"@ + n, l + " \u{2672} "@ + n)),
            _ => None,
        },
    }
}

/// The operation name and formula the result is given, for settings that
/// passed [`finish`].
pub fn result_label(o: &Options) -> (r: Option<(String, String)>)
    requires
        o.from_file_name is Some || o.from_label is Some,
    ensures
        match (r, spec_result_label(o@)) {
            (Some(x), Some(y)) => x.0@ == y.0 && x.1@ == y.1,
            (None, None) => true,
            _ => false,
        },
{
    match &o.from_file_name {
        Some(f) => Some((concat2("substitute-from-", f.as_str()), concat2("\u{2672}", f.as_str()))),
        None => match (&o.from_label, &o.to_label, &o.to_transducer_filename) {
            (Some(l), Some(m), _) => {
                let mut name = concat3("substitute-", l.as_str(), "-with-");
                name.append(m.as_str());
                Some((name, concat3(l.as_str(), " \u{2672} ", m.as_str())))
            },
            (Some(l), None, Some(n)) => {
                let mut name = concat3("substitute-", l.as_str(), "-with-net-");
                name.append(n.as_str());
                Some((name, concat3(l.as_str(), " \u{2672} ", n.as_str())))
            },
            _ => None,
        },
    }
}

// ---------------------------------------------------------------------------
// Laws
// ---------------------------------------------------------------------------

/// Every setting that passes the checks after the options gives the result
/// a name: a relabeling file, or a label with a replacing label or
/// transducer, was given.
pub proof fn lemma_finished_settings_name_the_result(c: SpecCommon, o: SpecOptions, operands: Seq<Seq<char>>)
    requires
        spec_finish(c, o, operands) is Ok,
    ensures
        spec_result_label(o) is Some,
{
}
} // verus!
