//! hfst-optimized-lookup: look up each line of the standard input in an
//! optimized-lookup transducer and print the analyses in Xerox format.
//!
//! The options are read here. `-b` and `-t` take floating-point arguments,
//! which are read and checked by the caller: the option reading pauses at
//! each of them and resumes after it. The analyses are laid out here too;
//! for the weighted ones the caller works out, from the floating-point
//! weights, each weight's rank among the input's and whether it is within
//! the beam.

use vstd::prelude::*;
use crate::common::{Channel, CommonOptions, Message, Report, SpecReport, to_stderr, to_stdout};
use crate::getopt::{
    HasArg, LongOpt, OptEvent, SpecEvent, SpecLongOpt, args_view, events_view, scan, spec_scan,
    table_view,
};
use crate::ranked::{
    insert_by_rank, lemma_sort_len, lemma_sorted_by_rank_ordered, rank_ordered, sort_by_rank, sorted_by_rank,
};
use crate::sorted::{lemma_ordered_set, ordered_set, spec_ordered_set, strings_view};
use crate::text::{chars_of, concat2, concat3, str_eq, string_of_range};
use crate::version::{digit_run, digits_value, parse_u64_prefix};

verus! {

/// The version hfst-optimized-lookup reports.
pub open spec fn tool_version() -> Seq<char> {
    "1.2"@
}

// ---------------------------------------------------------------------------
// Numbers
// ---------------------------------------------------------------------------

/// Whether `c` is white space in Unicode's sense (`char::is_whitespace`).
pub open spec fn is_space(c: char) -> bool {
    ('\u{9}' <= c && c <= '\u{d}') || c == ' ' || c == '\u{85}' || c == '\u{a0}' || c == '\u{1680}'
        || ('\u{2000}' <= c && c <= '\u{200a}') || c == '\u{2028}' || c == '\u{2029}' || c == '\u{202f}'
        || c == '\u{205f}' || c == '\u{3000}'
}

/// Whether `c` is white space in Unicode's sense.
pub fn is_space_exec(c: char) -> (r: bool)
    ensures
        r == is_space(c),
{
    ('\u{9}' <= c && c <= '\u{d}') || c == ' ' || c == '\u{85}' || c == '\u{a0}' || c == '\u{1680}'
        || ('\u{2000}' <= c && c <= '\u{200a}') || c == '\u{2028}' || c == '\u{2029}' || c == '\u{202f}'
        || c == '\u{205f}' || c == '\u{3000}'
}

/// The number of white-space characters `s` begins with.
pub open spec fn space_run(s: Seq<char>) -> nat
    decreases s.len(),
{
    if s.len() == 0 || !is_space(s[0]) {
        0
    } else {
        1 + space_run(s.drop_first())
    }
}

proof fn lemma_space_run_of(s: Seq<char>, n: int)
    requires
        0 <= n <= s.len(),
        forall|k: int| 0 <= k < n ==> is_space(#[trigger] s[k]),
        n == s.len() || !is_space(s[n]),
    ensures
        space_run(s) == n,
    decreases n,
{
    if n > 0 {
        assert forall|k: int| 0 <= k < n - 1 implies is_space(#[trigger] s.drop_first()[k]) by {
            assert(s.drop_first()[k] == s[k + 1]);
        }
        if n < s.len() {
            assert(s.drop_first()[n - 1] == s[n]);
        }
        lemma_space_run_of(s.drop_first(), n - 1);
    }
}

/// What `-n` reads from its argument: leading white space skipped, an
/// optional sign and the digits that follow read as an `i32`; 0 when there
/// is no digit or the number does not fit.
pub open spec fn spec_parse_leading_i32(s: Seq<char>) -> i32 {
    let t = s.subrange(space_run(s) as int, s.len() as int);
    let signed = t.len() > 0 && (t[0] == '+' || t[0] == '-');
    let u = if signed { t.drop_first() } else { t };
    let d = u.subrange(0, digit_run(u) as int);
    if d.len() == 0 {
        0
    } else if signed && t[0] == '-' {
        if digits_value(d) <= 2147483648 { (-(digits_value(d) as int)) as i32 } else { 0 }
    } else {
        if digits_value(d) <= 2147483647 { digits_value(d) as i32 } else { 0 }
    }
}

/// What `-n` reads from its argument.
pub fn parse_leading_i32(s: &str) -> (r: i32)
    ensures
        r == spec_parse_leading_i32(s@),
{
    let v = chars_of(s);
    let mut k: usize = 0;
    while k < v.len() && is_space_exec(v[k])
        invariant
            v@ == s@,
            k <= v@.len(),
            forall|j: int| 0 <= j < k ==> is_space(#[trigger] v@[j]),
        decreases v@.len() - k,
    {
        k = k + 1;
    }
    proof {
        lemma_space_run_of(s@, k as int);
    }
    let ghost t = s@.subrange(k as int, s@.len() as int);
    let signed = k < v.len() && (v[k] == '+' || v[k] == '-');
    let negative = signed && v[k] == '-';
    let from: usize = if signed { k + 1 } else { k };
    let u = string_of_range(&v, from, v.len());
    proof {
        if signed {
            assert(u@ =~= t.drop_first());
        } else {
            assert(u@ =~= t);
        }
    }
    let (value, rest) = parse_u64_prefix(u.as_str());
    let ghost n = digit_run(u@) as int;
    proof {
        crate::version::lemma_digit_run_bound(u@);
    }
    if rest.unicode_len() == u.unicode_len() {
        assert(n == 0);
        return 0;
    }
    let ghost d = u@.subrange(0, n);
    assert(value == crate::version::spec_u64_or_zero(d));
    if negative {
        if value <= 2147483648 {
            if value == 0 {
                assert(digits_value(d) == 0 || digits_value(d) > u64::MAX);
                return 0;
            }
            let x: i64 = value as i64;
            (-x) as i32
        } else {
            0
        }
    } else {
        if value <= 2147483647 {
            if value == 0 {
                assert(digits_value(d) == 0 || digits_value(d) > u64::MAX);
            }
            value as i32
        } else {
            0
        }
    }
}

/// The number of `0`s that `s` ends with.
pub open spec fn zero_tail(s: Seq<char>) -> nat
    decreases s.len(),
{
    if s.len() == 0 || s.last() != '0' {
        0
    } else {
        1 + zero_tail(s.drop_last())
    }
}

/// A decimal numeral without the zeros that end its fraction, and without
/// the point when nothing is left after it; unchanged without a point.
pub open spec fn spec_strip_trailing_zeros(s: Seq<char>) -> Seq<char> {
    if !s.contains('.') {
        s
    } else {
        let t = s.subrange(0, s.len() - zero_tail(s));
        if t.len() > 0 && t.last() == '.' { t.drop_last() } else { t }
    }
}

proof fn lemma_zero_tail_of(s: Seq<char>, n: int)
    requires
        0 <= n <= s.len(),
        forall|k: int| s.len() - n <= k < s.len() ==> #[trigger] s[k] == '0',
        n == s.len() || s[s.len() - n - 1] != '0',
    ensures
        zero_tail(s) == n,
    decreases n,
{
    if n > 0 {
        let p = s.drop_last();
        assert forall|k: int| p.len() - (n - 1) <= k < p.len() implies #[trigger] p[k] == '0' by {
            assert(p[k] == s[k]);
        }
        if n < s.len() {
            assert(p[p.len() - (n - 1) - 1] == s[s.len() - n - 1]);
        }
        lemma_zero_tail_of(p, n - 1);
    }
}

proof fn lemma_zero_tail(s: Seq<char>)
    ensures
        zero_tail(s) <= s.len(),
        forall|k: int| s.len() - zero_tail(s) <= k < s.len() ==> #[trigger] s[k] == '0',
    decreases s.len(),
{
    if s.len() > 0 && s.last() == '0' {
        let p = s.drop_last();
        lemma_zero_tail(p);
        assert forall|k: int| s.len() - zero_tail(s) <= k < s.len() implies #[trigger] s[k] == '0' by {
            if k < s.len() - 1 {
                assert(s[k] == p[k]);
            }
        }
    }
}

/// Stripping a numeral: without a point it is unchanged; with one, what is
/// kept is a prefix holding every character up to each point, and what is
/// dropped is zeros, after at most the point itself; a kept `0` or `.` at
/// the end is one that stood just before a dropped point.
pub proof fn lemma_strip_keeps_integer_part(s: Seq<char>)
    ensures
        !s.contains('.') ==> spec_strip_trailing_zeros(s) == s,
        spec_strip_trailing_zeros(s).len() <= s.len(),
        spec_strip_trailing_zeros(s) == s.subrange(0, spec_strip_trailing_zeros(s).len() as int),
        forall|j: int| 0 <= j < s.len() && s[j] == '.' ==> j <= spec_strip_trailing_zeros(s).len(),
        forall|k: int|
            spec_strip_trailing_zeros(s).len() <= k < s.len() ==> #[trigger] s[k] == '0' || (k
                == spec_strip_trailing_zeros(s).len() && s[k] == '.'),
        s.contains('.') && spec_strip_trailing_zeros(s).len() > 0 && spec_strip_trailing_zeros(s).last() == '0'
            ==> spec_strip_trailing_zeros(s).len() < s.len() && s[spec_strip_trailing_zeros(s).len() as int] == '.',
        s.contains('.') && spec_strip_trailing_zeros(s).len() > 0 && spec_strip_trailing_zeros(s).last() == '.'
            ==> spec_strip_trailing_zeros(s).len() < s.len() && s[spec_strip_trailing_zeros(s).len() as int] == '.',
{
    let r = spec_strip_trailing_zeros(s);
    if s.contains('.') {
        lemma_zero_tail(s);
        let n = s.len() - zero_tail(s);
        let t = s.subrange(0, n);
        assert forall|j: int| 0 <= j < s.len() && s[j] == '.' implies j <= r.len() by {
            if j >= n {
                assert(s[j] == '0');
            }
        }
        if t.len() > 0 && t.last() == '.' {
            assert(r =~= s.subrange(0, n - 1));
        } else {
            assert(r =~= t);
            // the character before the tail of zeros is no zero
            lemma_zero_tail_max(s);
            assert(r.len() > 0 ==> r.last() == s[n - 1]);
        }
    } else {
        assert(r == s);
    }
}

proof fn lemma_zero_tail_max(s: Seq<char>)
    ensures
        zero_tail(s) < s.len() ==> s[s.len() - zero_tail(s) - 1] != '0',
    decreases s.len(),
{
    if s.len() > 0 && s.last() == '0' {
        let p = s.drop_last();
        lemma_zero_tail_max(p);
        if zero_tail(s) < s.len() {
            assert(s[s.len() - zero_tail(s) - 1] == p[p.len() - zero_tail(p) - 1]);
        }
    }
}

/// Strips the zeros that end the fraction of a decimal numeral.
pub fn strip_trailing_zeros(s: &str) -> (r: String)
    ensures
        r@ == spec_strip_trailing_zeros(s@),
{
    let v = chars_of(s);
    let mut has_point = false;
    let mut i: usize = 0;
    while i < v.len()
        invariant
            v@ == s@,
            i <= v@.len(),
            has_point <==> exists|j: int| 0 <= j < i && v@[j] == '.',
        decreases v@.len() - i,
    {
        if v[i] == '.' {
            has_point = true;
        }
        i = i + 1;
    }
    if !has_point {
        assert(!s@.contains('.'));
        return s.to_owned();
    }
    let mut end: usize = v.len();
    while end > 0 && v[end - 1] == '0'
        invariant
            v@ == s@,
            end <= v@.len(),
            forall|k: int| end <= k < v@.len() ==> #[trigger] v@[k] == '0',
        decreases end,
    {
        end = end - 1;
    }
    proof {
        lemma_zero_tail_of(s@, v@.len() - end);
    }
    if end > 0 && v[end - 1] == '.' {
        let r = string_of_range(&v, 0, end - 1);
        assert(r@ =~= s@.subrange(0, end as int).drop_last());
        r
    } else {
        string_of_range(&v, 0, end)
    }
}

// ---------------------------------------------------------------------------
// Options
// ---------------------------------------------------------------------------

/// How analyses are written. Only the Xerox layout is ever chosen.
#[derive(Clone, Copy, PartialEq, Eq, Structural)]
pub enum OutputType {
    Hfst,
    Xerox,
}

/// The options other than the floating-point ones (`-b`, `-t`).
pub struct Options {
    pub output_type: OutputType,
    pub verbose_flag: bool,
    pub display_weights_flag: bool,
    pub display_unique_flag: bool,
    pub echo_inputs_flag: bool,
    pub be_fast: bool,
    pub max_analyses: i32,
    pub pipe_input: bool,
    pub pipe_output: bool,
}

/// The model of [`Options`].
pub struct SpecOptions {
    pub output_type: OutputType,
    pub verbose_flag: bool,
    pub display_weights_flag: bool,
    pub display_unique_flag: bool,
    pub echo_inputs_flag: bool,
    pub be_fast: bool,
    pub max_analyses: i32,
    pub pipe_input: bool,
    pub pipe_output: bool,
}

impl View for Options {
    type V = SpecOptions;

    open spec fn view(&self) -> SpecOptions {
        SpecOptions {
            output_type: self.output_type,
            verbose_flag: self.verbose_flag,
            display_weights_flag: self.display_weights_flag,
            display_unique_flag: self.display_unique_flag,
            echo_inputs_flag: self.echo_inputs_flag,
            be_fast: self.be_fast,
            max_analyses: self.max_analyses,
            pipe_input: self.pipe_input,
            pipe_output: self.pipe_output,
        }
    }
}

/// The options before any is read: Xerox output, at most `i32::MAX`
/// analyses, nothing else set.
pub open spec fn spec_default_options() -> SpecOptions {
    SpecOptions {
        output_type: OutputType::Xerox,
        verbose_flag: false,
        display_weights_flag: false,
        display_unique_flag: false,
        echo_inputs_flag: false,
        be_fast: false,
        max_analyses: i32::MAX,
        pipe_input: false,
        pipe_output: false,
    }
}

/// The options before any is read.
pub fn default_options() -> (o: Options)
    ensures
        o@ == spec_default_options(),
{
    Options {
        output_type: OutputType::Xerox,
        verbose_flag: false,
        display_weights_flag: false,
        display_unique_flag: false,
        echo_inputs_flag: false,
        be_fast: false,
        max_analyses: i32::MAX,
        pipe_input: false,
        pipe_output: false,
    }
}

/// The option table; `--pipe-mode` takes an optional argument.
pub open spec fn spec_table() -> Seq<SpecLongOpt> {
    seq![
        SpecLongOpt { name: "help"@, has_arg: HasArg::No, val: 'h' },
        SpecLongOpt { name: "version"@, has_arg: HasArg::No, val: 'V' },
        SpecLongOpt { name: "verbose"@, has_arg: HasArg::No, val: 'v' },
        SpecLongOpt { name: "quiet"@, has_arg: HasArg::No, val: 'q' },
        SpecLongOpt { name: "silent"@, has_arg: HasArg::No, val: 's' },
        SpecLongOpt { name: "echo-inputs"@, has_arg: HasArg::No, val: 'e' },
        SpecLongOpt { name: "show-weights"@, has_arg: HasArg::No, val: 'w' },
        SpecLongOpt { name: "beam"@, has_arg: HasArg::Required, val: 'b' },
        SpecLongOpt { name: "time-cutoff"@, has_arg: HasArg::Required, val: 't' },
        SpecLongOpt { name: "unique"@, has_arg: HasArg::No, val: 'u' },
        SpecLongOpt { name: "xerox"@, has_arg: HasArg::No, val: 'x' },
        SpecLongOpt { name: "fast"@, has_arg: HasArg::No, val: 'f' },
        SpecLongOpt { name: "pipe-mode"@, has_arg: HasArg::Optional, val: 'p' },
        SpecLongOpt { name: "analyses"@, has_arg: HasArg::Required, val: 'n' },
    ]
}

fn opt_def(name: &str, has_arg: HasArg, val: char) -> (o: LongOpt)
    ensures
        o@ == (SpecLongOpt { name: name@, has_arg, val }),
{
    crate::common::opt(name, has_arg, val)
}

fn table() -> (t: Vec<LongOpt>)
    ensures
        table_view(t@) == spec_table(),
{
    let mut t: Vec<LongOpt> = Vec::new();
    t.push(opt_def("help", HasArg::No, 'h'));
    t.push(opt_def("version", HasArg::No, 'V'));
    t.push(opt_def("verbose", HasArg::No, 'v'));
    t.push(opt_def("quiet", HasArg::No, 'q'));
    t.push(opt_def("silent", HasArg::No, 's'));
    t.push(opt_def("echo-inputs", HasArg::No, 'e'));
    t.push(opt_def("show-weights", HasArg::No, 'w'));
    t.push(opt_def("beam", HasArg::Required, 'b'));
    t.push(opt_def("time-cutoff", HasArg::Required, 't'));
    t.push(opt_def("unique", HasArg::No, 'u'));
    t.push(opt_def("xerox", HasArg::No, 'x'));
    t.push(opt_def("fast", HasArg::No, 'f'));
    t.push(opt_def("pipe-mode", HasArg::Optional, 'p'));
    t.push(opt_def("analyses", HasArg::Required, 'n'));
    assert(table_view(t@) =~= spec_table());
    t
}

/// The usage text.
pub open spec fn spec_usage(program_name: Seq<char>) -> Seq<char> {
    "\nUsage: "@ + program_name + " [OPTIONS] TRANSDUCER\nRun a transducer on standard input (one word per line) and print analyses\nNOTE: hfst-optimized-lookup does lookup from left to right as opposed to xfst\n      and foma lookup which is carried out from right to left. In order to do\n      lookup in a similar way as xfst and foma, invert the transducer first.\n\n  -h, --help                  Print this help message\n  -V, --version               Print version information\n  -v, --verbose               Be verbose\n  -q, --quiet                 Don't be verbose (default)\n  -s, --silent                Same as quiet\n  -e, --echo                  Echo inputs\n                              (useful if redirecting lots of output to a file)\n  -w, --show-weights          Print final analysis weights (if any)\n  -u, --unique                Suppress duplicate analyses\n  -n N, --analyses=N          Output no more than N analyses\n                              (if the transducer is weighted, the N best analyses)\n  -b, --beam=B                Output only analyses whose weight is within B from\n                              the best analysis\n  -t, --time-cutoff=S         Limit search after having used S seconds per input\n  -x, --xerox                 Xerox output format (default)\n  -f, --fast                  Be as fast as possible.\n                              (with this option enabled -u and -n don't work and\n                              output won't be ordered by weight).\n  -p, --pipe-mode[=STREAM]    Control input and output streams.\n\nN must be a positive integer. B must be a non-negative float.\nS must be a non-negative float. The default, 0.0, indicates no cutoff.\nOptions -n and -b are combined with AND, i.e. they both restrict the output.\n\nSTREAM can be { input, output, both }. If not given, defaults to {both}.\nInput is read interactively line by line from the user. If you redirect input\nfrom a file, use --pipe-mode=input. --pipe-mode=output is ignored on non-windows\nplatforms.\n\n"@
}

/// The usage text.
pub fn print_usage(common: &CommonOptions) -> (s: String)
    ensures
        s@ == spec_usage(common.program_name@),
{
    concat3("\nUsage: ", common.program_name.as_str(), " [OPTIONS] TRANSDUCER\nRun a transducer on standard input (one word per line) and print analyses\nNOTE: hfst-optimized-lookup does lookup from left to right as opposed to xfst\n      and foma lookup which is carried out from right to left. In order to do\n      lookup in a similar way as xfst and foma, invert the transducer first.\n\n  -h, --help                  Print this help message\n  -V, --version               Print version information\n  -v, --verbose               Be verbose\n  -q, --quiet                 Don't be verbose (default)\n  -s, --silent                Same as quiet\n  -e, --echo                  Echo inputs\n                              (useful if redirecting lots of output to a file)\n  -w, --show-weights          Print final analysis weights (if any)\n  -u, --unique                Suppress duplicate analyses\n  -n N, --analyses=N          Output no more than N analyses\n                              (if the transducer is weighted, the N best analyses)\n  -b, --beam=B                Output only analyses whose weight is within B from\n                              the best analysis\n  -t, --time-cutoff=S         Limit search after having used S seconds per input\n  -x, --xerox                 Xerox output format (default)\n  -f, --fast                  Be as fast as possible.\n                              (with this option enabled -u and -n don't work and\n                              output won't be ordered by weight).\n  -p, --pipe-mode[=STREAM]    Control input and output streams.\n\nN must be a positive integer. B must be a non-negative float.\nS must be a non-negative float. The default, 0.0, indicates no cutoff.\nOptions -n and -b are combined with AND, i.e. they both restrict the output.\n\nSTREAM can be { input, output, both }. If not given, defaults to {both}.\nInput is read interactively line by line from the user. If you redirect input\nfrom a file, use --pipe-mode=input. --pipe-mode=output is ignored on non-windows\nplatforms.\n\n")
}

/// The version text: a blank line, then the program name and version.
pub open spec fn spec_version(program_name: Seq<char>) -> Seq<char> {
    "\n"@ + crate::common::spec_version_text(program_name, tool_version())
}

/// The version text.
pub fn print_version(common: &CommonOptions) -> (s: String)
    ensures
        s@ == spec_version(common.program_name@),
{
    concat2("\n", crate::common::version_text(common, "1.2").as_str())
}

/// The floating-point options, whose arguments the caller reads.
#[derive(Clone, Copy, PartialEq, Eq, Structural)]
pub enum FloatOption {
    /// `-b`, `--beam`.
    Beam,
    /// `-t`, `--time-cutoff`.
    TimeCutoff,
}

/// What one option event does.
pub enum SpecStep {
    /// The options are now these.
    Next(SpecOptions),
    /// The tool ends with this report.
    End(SpecReport),
    /// A floating-point option with this argument, for the caller to read.
    Float(FloatOption, Seq<char>),
}

/// The refusal of an unknown `--pipe-mode` argument.
pub open spec fn spec_pipe_refusal(a: Seq<char>) -> Seq<char> {
    "--pipe-mode argument "@ + a + " unrecognised\n\n"@
}

/// The report for an option the tool does not take: the complaint, then
/// the usage.
pub open spec fn spec_invalid_option(program_name: Seq<char>) -> SpecReport {
    SpecReport {
        code: 1,
        messages: seq![(Channel::Stderr, "Invalid option\n\n"@), (Channel::Stdout, spec_usage(program_name))],
    }
}

/// What one option event does to the options.
pub open spec fn spec_step(program_name: Seq<char>, o: SpecOptions, e: SpecEvent) -> SpecStep {
    match e {
        SpecEvent::Opt { val, arg } => {
            let a = arg.unwrap_or(Seq::empty());
            if val == 'h' {
                SpecStep::End(SpecReport { code: 0, messages: seq![(Channel::Stdout, spec_usage(program_name))] })
            } else if val == 'V' {
                SpecStep::End(SpecReport { code: 0, messages: seq![(Channel::Stdout, spec_version(program_name))] })
            } else if val == 'v' {
                SpecStep::Next(SpecOptions { verbose_flag: true, ..o })
            } else if val == 'q' || val == 's' {
                SpecStep::Next(SpecOptions { verbose_flag: false, display_weights_flag: true, ..o })
            } else if val == 'e' {
                SpecStep::Next(SpecOptions { echo_inputs_flag: true, ..o })
            } else if val == 'w' {
                SpecStep::Next(SpecOptions { display_weights_flag: true, ..o })
            } else if val == 'u' {
                SpecStep::Next(SpecOptions { display_unique_flag: true, ..o })
            } else if val == 'b' {
                SpecStep::Float(FloatOption::Beam, a)
            } else if val == 't' {
                SpecStep::Float(FloatOption::TimeCutoff, a)
            } else if val == 'n' {
                let n = spec_parse_leading_i32(a);
                if n < 1 {
                    SpecStep::End(SpecReport {
                        code: 1,
                        messages: seq![(Channel::Stderr, "Invalid or no argument for analyses count\n"@)],
                    })
                } else {
                    SpecStep::Next(SpecOptions { max_analyses: n, ..o })
                }
            } else if val == 'x' {
                SpecStep::Next(SpecOptions { output_type: OutputType::Xerox, ..o })
            } else if val == 'f' {
                SpecStep::Next(SpecOptions { be_fast: true, ..o })
            } else if val == 'p' {
                match arg {
                    None => SpecStep::Next(SpecOptions { pipe_input: true, pipe_output: true, ..o }),
                    Some(a) => if a == "both"@ || a == "BOTH"@ {
                        SpecStep::Next(SpecOptions { pipe_input: true, pipe_output: true, ..o })
                    } else if a == "input"@ || a == "INPUT"@ || a == "in"@ || a == "IN"@ {
                        SpecStep::Next(SpecOptions { pipe_input: true, ..o })
                    } else if a == "output"@ || a == "OUTPUT"@ || a == "out"@ || a == "OUT"@ {
                        SpecStep::Next(SpecOptions { pipe_output: true, ..o })
                    } else {
                        SpecStep::End(SpecReport { code: 1, messages: seq![(Channel::Stderr, spec_pipe_refusal(a))] })
                    },
                }
            } else {
                SpecStep::End(spec_invalid_option(program_name))
            }
        },
        _ => SpecStep::End(spec_invalid_option(program_name)),
    }
}

/// Where the option reading stops.
pub enum SpecPause {
    /// All events read; these are the options.
    Done(SpecOptions),
    /// The tool ends with this report.
    End(SpecReport),
    /// The event at `at` is a floating-point option with this argument; the
    /// options read before it are these.
    Float { at: int, option: FloatOption, arg: Seq<char>, options: SpecOptions },
}

/// Reads the events from `i` on.
pub open spec fn spec_read(program_name: Seq<char>, o: SpecOptions, evs: Seq<SpecEvent>, i: int) -> SpecPause
    decreases evs.len() - i,
{
    if i < 0 || i >= evs.len() {
        SpecPause::Done(o)
    } else {
        match spec_step(program_name, o, evs[i]) {
            SpecStep::Next(n) => spec_read(program_name, n, evs, i + 1),
            SpecStep::End(r) => SpecPause::End(r),
            SpecStep::Float(f, a) => SpecPause::Float { at: i, option: f, arg: a, options: o },
        }
    }
}

/// The exec counterpart of [`SpecPause`]; the options read so far are in
/// the `Options` the reading was given.
pub enum Pause {
    Done,
    End(Report),
    Float { at: usize, option: FloatOption, arg: String },
}

fn step(common: &CommonOptions, o: &mut Options, e: &OptEvent) -> (r: Option<Pause>)
    ensures
        match spec_step(common.program_name@, old(o)@, e@) {
            SpecStep::Next(n) => r is None && final(o)@ == n,
            SpecStep::End(x) => r matches Some(Pause::End(y)) && y@ == x,
            SpecStep::Float(f, a) => r matches Some(Pause::Float { at, option, arg }) && option == f && arg@ == a
                && final(o)@ == old(o)@,
        },
{
    match e {
        OptEvent::Opt { val, arg } => {
            let v = *val;
            if v == 'h' {
                Some(Pause::End(crate::common::end_with(0, to_stdout(print_usage(common)))))
            } else if v == 'V' {
                Some(Pause::End(crate::common::end_with(0, to_stdout(print_version(common)))))
            } else if v == 'v' {
                o.verbose_flag = true;
                None
            } else if v == 'q' || v == 's' {
                o.verbose_flag = false;
                o.display_weights_flag = true;
                None
            } else if v == 'e' {
                o.echo_inputs_flag = true;
                None
            } else if v == 'w' {
                o.display_weights_flag = true;
                None
            } else if v == 'u' {
                o.display_unique_flag = true;
                None
            } else if v == 'b' || v == 't' {
                let a = match arg {
                    Some(s) => s.clone(),
                    None => String::new(),
                };
                let option = if v == 'b' { FloatOption::Beam } else { FloatOption::TimeCutoff };
                Some(Pause::Float { at: 0, option, arg: a })
            } else if v == 'n' {
                let a = match arg {
                    Some(s) => s.clone(),
                    None => String::new(),
                };
                let n = parse_leading_i32(a.as_str());
                if n < 1 {
                    Some(Pause::End(crate::common::end_with(1, to_stderr("Invalid or no argument for analyses count\n".to_owned()))))
                } else {
                    o.max_analyses = n;
                    None
                }
            } else if v == 'x' {
                o.output_type = OutputType::Xerox;
                None
            } else if v == 'f' {
                o.be_fast = true;
                None
            } else if v == 'p' {
                match arg {
                    None => {
                        o.pipe_input = true;
                        o.pipe_output = true;
                        None
                    },
                    Some(a) => {
                        let s = a.as_str();
                        if str_eq(s, "both") || str_eq(s, "BOTH") {
                            o.pipe_input = true;
                            o.pipe_output = true;
                            None
                        } else if str_eq(s, "input") || str_eq(s, "INPUT") || str_eq(s, "in") || str_eq(s, "IN") {
                            o.pipe_input = true;
                            None
                        } else if str_eq(s, "output") || str_eq(s, "OUTPUT") || str_eq(s, "out") || str_eq(s, "OUT") {
                            o.pipe_output = true;
                            None
                        } else {
                            let text = concat3("--pipe-mode argument ", s, " unrecognised\n\n");
                            Some(Pause::End(crate::common::end_with(1, to_stderr(text))))
                        }
                    },
                }
            } else {
                Some(Pause::End(invalid_option(common)))
            }
        },
        _ => Some(Pause::End(invalid_option(common))),
    }
}

fn invalid_option(common: &CommonOptions) -> (r: Report)
    ensures
        r@ == spec_invalid_option(common.program_name@),
{
    let mut messages: Vec<Message> = Vec::new();
    messages.push(to_stderr("Invalid option\n\n".to_owned()));
    messages.push(to_stdout(print_usage(common)));
    let r = Report { code: 1, messages };
    assert(r@.messages =~= spec_invalid_option(common.program_name@).messages);
    r
}

/// Reads the option events from `from` on into `o`, up to the end, the end
/// of the tool, or the next floating-point option.
pub fn read_options(common: &CommonOptions, o: &mut Options, evs: &Vec<OptEvent>, from: usize) -> (r: Pause)
    ensures
        match spec_read(common.program_name@, old(o)@, events_view(evs@), from as int) {
            SpecPause::Done(n) => r is Done && final(o)@ == n,
            SpecPause::End(x) => r matches Pause::End(y) && y@ == x,
            SpecPause::Float { at, option, arg, options } => r matches Pause::Float { at: a2, option: o2, arg: g2 }
                && a2 == at && o2 == option && g2@ == arg && final(o)@ == options,
        },
{
    let ghost ev = events_view(evs@);
    let mut i: usize = from;
    while i < evs.len()
        invariant
            ev == events_view(evs@),
            from <= i,
            spec_read(common.program_name@, old(o)@, ev, from as int) == spec_read(
                common.program_name@,
                o@,
                ev,
                i as int,
            ),
        decreases evs@.len() - i,
    {
        assert(ev[i as int] == evs@[i as int]@);
        match step(common, o, &evs[i]) {
            None => {},
            Some(Pause::Float { at: _, option, arg }) => {
                return Pause::Float { at: i, option, arg };
            },
            Some(p) => {
                return p;
            },
        }
        i = i + 1;
    }
    Pause::Done
}

/// The transducer file the operands name: none, or the sole operand; more
/// than one is refused.
pub open spec fn spec_input_path(operands: Seq<Seq<char>>) -> Result<Option<Seq<char>>, SpecReport> {
    if operands.len() > 1 {
        Err(SpecReport { code: 1, messages: seq![(Channel::Stderr, "More than one input file given\n"@)] })
    } else if operands.len() == 1 {
        Ok(Some(operands[0]))
    } else {
        Ok(None)
    }
}

/// The transducer file the operands name.
pub fn input_path(operands: &Vec<String>) -> (r: Result<Option<String>, Report>)
    ensures
        match (r, spec_input_path(args_view(operands@))) {
            (Ok(x), Ok(y)) => crate::getopt::opt_view(x) == y,
            (Err(x), Err(y)) => x@ == y,
            _ => false,
        },
{
    if operands.len() > 1 {
        Err(crate::common::end_with(1, to_stderr("More than one input file given\n".to_owned())))
    } else if operands.len() == 1 {
        assert(args_view(operands@)[0] == operands@[0]@);
        Ok(Some(operands[0].clone()))
    } else {
        Ok(None)
    }
}

/// The refusal when no transducer file is named.
pub open spec fn spec_no_input() -> SpecReport {
    SpecReport { code: 1, messages: seq![(Channel::Stderr, "No input file given\n"@)] }
}

/// The transducer file to read, or the report when none is named.
pub fn require_input(path: Option<String>) -> (r: Result<String, Report>)
    ensures
        match r {
            Ok(p) => path == Some(p),
            Err(x) => path is None && x@ == spec_no_input(),
        },
{
    match path {
        Some(p) => Ok(p),
        None => Err(crate::common::end_with(1, to_stderr("No input file given\n".to_owned()))),
    }
}

/// What the tool starts from: its settings, the options before any is read,
/// and the scanned command line.
pub struct Start {
    pub common: CommonOptions,
    pub options: Options,
    pub events: Vec<OptEvent>,
    pub operands: Vec<String>,
}

/// Scans hfst-optimized-lookup's command line (`args[0]` is the program
/// name); [`command_line`] then reads it to the settings or the refusal.
pub fn run(args: &Vec<String>) -> (r: Start)
    ensures
        r.common@ == crate::common::spec_initial_common(crate::common::spec_argv0(args_view(args@))),
        r.options@ == spec_default_options(),
        events_view(r.events@) == spec_scan(args_view(args@), spec_table()).0,
        args_view(r.operands@) == spec_scan(args_view(args@), spec_table()).1,
{
    let name = crate::common::argv0(args);
    let common = crate::common::initial_common(name.as_str());
    let t = table();
    let sc = scan(args, &t);
    Start { common, options: default_options(), events: sc.events, operands: sc.operands }
}

/// The refusal of a negative `-b` or `-t` argument.
pub open spec fn spec_float_refusal(f: FloatOption) -> SpecReport {
    SpecReport {
        code: 1,
        messages: seq![
            (Channel::Stderr, match f {
                FloatOption::Beam => "Invalid argument for --beam\n"@,
                FloatOption::TimeCutoff => "Invalid argument for --time-cutoff\n"@,
            }),
        ],
    }
}

/// The refusal of a negative `-b` or `-t` argument.
pub fn float_refusal(f: FloatOption) -> (r: Report)
    ensures
        r@ == spec_float_refusal(f),
{
    match f {
        FloatOption::Beam => crate::common::end_with(1, to_stderr("Invalid argument for --beam\n".to_owned())),
        FloatOption::TimeCutoff => crate::common::end_with(
            1,
            to_stderr("Invalid argument for --time-cutoff\n".to_owned()),
        ),
    }
}

/// Whether the argument of the `i`th event reads as a negative number.
pub open spec fn negative_at(negative: Seq<bool>, i: int) -> bool {
    0 <= i < negative.len() && negative[i]
}

/// The options the events from `i` on leave, or the report the tool ends
/// with; `negative` tells of each event whether its argument reads as a
/// negative number, which refuses `-b` and `-t`.
pub open spec fn spec_settle(
    program_name: Seq<char>,
    o: SpecOptions,
    evs: Seq<SpecEvent>,
    i: int,
    negative: Seq<bool>,
) -> Result<SpecOptions, SpecReport>
    decreases evs.len() - i,
{
    if i < 0 || i >= evs.len() {
        Ok(o)
    } else {
        match spec_step(program_name, o, evs[i]) {
            SpecStep::Next(n) => spec_settle(program_name, n, evs, i + 1, negative),
            SpecStep::End(r) => Err(r),
            SpecStep::Float(f, _) => if negative_at(negative, i) {
                Err(spec_float_refusal(f))
            } else {
                spec_settle(program_name, o, evs, i + 1, negative)
            },
        }
    }
}

/// What a command line comes to: the options and the transducer file, or
/// the report the tool ends with (an option refused, a negative `-b` or
/// `-t`, more than one file, or none).
pub open spec fn spec_command_line(
    program_name: Seq<char>,
    o: SpecOptions,
    evs: Seq<SpecEvent>,
    operands: Seq<Seq<char>>,
    negative: Seq<bool>,
) -> Result<(SpecOptions, Seq<char>), SpecReport> {
    match spec_settle(program_name, o, evs, 0, negative) {
        Err(r) => Err(r),
        Ok(o2) => match spec_input_path(operands) {
            Err(r) => Err(r),
            Ok(None) => Err(spec_no_input()),
            Ok(Some(p)) => Ok((o2, p)),
        },
    }
}

/// Reads a scanned command line to the options and the transducer file, or
/// the report the tool ends with; `negative` tells of each event whether
/// its argument reads as a negative number.
pub fn command_line(start: &Start, negative: &Vec<bool>) -> (r: Result<(Options, String), Report>)
    ensures
        match (r, spec_command_line(
            start.common.program_name@,
            start.options@,
            events_view(start.events@),
            args_view(start.operands@),
            negative@,
        )) {
            (Ok((o, p)), Ok((so, sp))) => o@ == so && p@ == sp,
            (Err(x), Err(y)) => x@ == y,
            _ => false,
        },
{
    let ghost pn = start.common.program_name@;
    let ghost ev = events_view(start.events@);
    let mut o = Options {
        output_type: start.options.output_type,
        verbose_flag: start.options.verbose_flag,
        display_weights_flag: start.options.display_weights_flag,
        display_unique_flag: start.options.display_unique_flag,
        echo_inputs_flag: start.options.echo_inputs_flag,
        be_fast: start.options.be_fast,
        max_analyses: start.options.max_analyses,
        pipe_input: start.options.pipe_input,
        pipe_output: start.options.pipe_output,
    };
    let mut i: usize = 0;
    while i < start.events.len()
        invariant
            ev == events_view(start.events@),
            pn == start.common.program_name@,
            spec_settle(pn, start.options@, ev, 0, negative@) == spec_settle(pn, o@, ev, i as int, negative@),
        decreases start.events@.len() - i,
    {
        assert(ev[i as int] == start.events@[i as int]@);
        match step(&start.common, &mut o, &start.events[i]) {
            None => {},
            Some(Pause::End(r)) => {
                return Err(r);
            },
            Some(Pause::Float { at: _, option, arg: _ }) => {
                if i < negative.len() && negative[i] {
                    return Err(float_refusal(option));
                }
            },
            Some(Pause::Done) => {},
        }
        i = i + 1;
    }
    match input_path(&start.operands) {
        Err(r) => Err(r),
        Ok(p) => match require_input(p) {
            Err(r) => Err(r),
            Ok(path) => Ok((o, path)),
        },
    }
}

// ---------------------------------------------------------------------------
// Analyses
// ---------------------------------------------------------------------------

/// How the analyses of one input are collected and laid out.
#[derive(Clone, Copy, PartialEq, Eq, Structural)]
pub enum Variant {
    Plain,
    Uniq,
    WPlain,
    WUniq,
}

/// The variant a transducer and `-u` choose.
pub open spec fn spec_variant(weighted: bool, unique: bool) -> Variant {
    if !weighted {
        if !unique { Variant::Plain } else { Variant::Uniq }
    } else {
        if !unique { Variant::WPlain } else { Variant::WUniq }
    }
}

/// The variant a transducer and `-u` choose.
pub fn variant(weighted: bool, unique: bool) -> (v: Variant)
    ensures
        v == spec_variant(weighted, unique),
{
    match (weighted, unique) {
        (false, false) => Variant::Plain,
        (false, true) => Variant::Uniq,
        (true, false) => Variant::WPlain,
        (true, true) => Variant::WUniq,
    }
}

/// The concatenation of the symbols of a path.
pub open spec fn spec_path_output(symbols: Seq<Seq<char>>) -> Seq<char>
    decreases symbols.len(),
{
    if symbols.len() == 0 {
        Seq::empty()
    } else {
        spec_path_output(symbols.drop_last()) + symbols.last()
    }
}

/// The text of a path: its symbols, concatenated.
pub fn path_output(symbols: &Vec<String>) -> (s: String)
    ensures
        s@ == spec_path_output(strings_view(symbols@)),
{
    let ghost sv = strings_view(symbols@);
    let mut s = String::new();
    let mut i: usize = 0;
    while i < symbols.len()
        invariant
            sv == strings_view(symbols@),
            i <= symbols@.len(),
            s@ == spec_path_output(sv.subrange(0, i as int)),
        decreases symbols@.len() - i,
    {
        let ghost before = s@;
        s.append(symbols[i].as_str());
        assert(sv.subrange(0, i + 1).drop_last() =~= sv.subrange(0, i as int));
        assert(sv.subrange(0, i + 1).last() == symbols@[i as int]@);
        i = i + 1;
    }
    assert(sv.subrange(0, sv.len() as int) =~= sv);
    s
}

/// The lines for the first `n` analyses, each after `prepend` and a tab in
/// the Xerox layout.
pub open spec fn spec_analysis_lines(items: Seq<Seq<char>>, n: int, xerox: bool, prepend: Seq<char>) -> Seq<char>
    decreases n,
{
    if n <= 0 || items.len() == 0 {
        Seq::empty()
    } else {
        let k = if n < items.len() { n } else { items.len() as int };
        spec_analysis_lines(items, k - 1, xerox, prepend) + (if xerox { prepend + "\t"@ } else { Seq::empty() })
            + items[k - 1] + "\n"@
    }
}

/// What is printed for an input without analyses in the Xerox layout.
pub open spec fn spec_no_analysis(prepend: Seq<char>) -> Seq<char> {
    prepend + "\t"@ + prepend + "\t+?\n\n"@
}

/// What the unweighted layouts print for one input: nothing with `-f` in
/// the plain layout; the input and `+?` when there is no analysis; else at
/// most `max_analyses` analyses, one per line, and a blank line. The unique
/// layout takes the analyses in order with each once, and does not heed
/// `-f`.
pub open spec fn spec_print_unweighted(unique: bool, analyses: Seq<Seq<char>>, o: SpecOptions, prepend: Seq<char>) -> Seq<char> {
    let items = if unique { spec_ordered_set(analyses) } else { analyses };
    let xerox = o.output_type == OutputType::Xerox;
    if !unique && o.be_fast {
        Seq::empty()
    } else if xerox && items.len() == 0 {
        spec_no_analysis(prepend)
    } else {
        spec_analysis_lines(items, o.max_analyses as int, xerox, prepend) + "\n"@
    }
}

/// What the unweighted layouts print for one input, given the analyses in
/// the order they were found.
pub fn print_unweighted(unique: bool, analyses: &Vec<String>, o: &Options, prepend: &str) -> (s: String)
    ensures
        s@ == spec_print_unweighted(unique, strings_view(analyses@), o@, prepend@),
{
    let items = if unique { ordered_set(analyses) } else { clone_strings(analyses) };
    let ghost iv = strings_view(items@);
    let xerox = o.output_type == OutputType::Xerox;
    if !unique && o.be_fast {
        return String::new();
    }
    if xerox && items.len() == 0 {
        let mut s = concat3(prepend, "\t", prepend);
        s.append("\t+?\n\n");
        return s;
    }
    let mut s = String::new();
    let mut i: usize = 0;
    let limit: usize = if o.max_analyses <= 0 {
        0
    } else if (o.max_analyses as usize) < items.len() {
        o.max_analyses as usize
    } else {
        items.len()
    };
    while i < limit
        invariant
            iv == strings_view(items@),
            limit <= items@.len(),
            i <= limit,
            limit == (if o.max_analyses <= 0 { 0 } else if o.max_analyses < items@.len() { o.max_analyses as int } else { items@.len() as int }),
            s@ == spec_analysis_lines(iv, i as int, xerox, prepend@),
        decreases limit - i,
    {
        if xerox {
            s.append(prepend);
            s.append("\t");
        }
        s.append(items[i].as_str());
        s.append("\n");
        proof {
            assert(iv[i as int] == items@[i as int]@);
        }
        i = i + 1;
    }
    proof {
        lemma_lines_cap(iv, o.max_analyses as int, xerox, prepend@);
    }
    s.append("\n");
    s
}

proof fn lemma_lines_cap(items: Seq<Seq<char>>, n: int, xerox: bool, prepend: Seq<char>)
    ensures
        n > items.len() ==> spec_analysis_lines(items, n, xerox, prepend) == spec_analysis_lines(
            items,
            items.len() as int,
            xerox,
            prepend,
        ),
        n <= 0 ==> spec_analysis_lines(items, n, xerox, prepend) == Seq::<char>::empty(),
{
}

fn clone_strings(v: &Vec<String>) -> (r: Vec<String>)
    ensures
        strings_view(r@) == strings_view(v@),
{
    let mut r: Vec<String> = Vec::new();
    let mut i: usize = 0;
    while i < v.len()
        invariant
            i <= v@.len(),
            strings_view(r@) == strings_view(v@).subrange(0, i as int),
        decreases v@.len() - i,
    {
        let x = v[i].clone();
        let ghost before = strings_view(r@);
        r.push(x);
        assert(strings_view(r@) =~= before.push(v@[i as int]@));
        assert(strings_view(r@) =~= strings_view(v@).subrange(0, i + 1));
        i = i + 1;
    }
    assert(strings_view(v@).subrange(0, v@.len() as int) =~= strings_view(v@));
    r
}

// ---------------------------------------------------------------------------
// Weighted analyses
// ---------------------------------------------------------------------------

/// One weighted analysis of an input: where its weight stands among the
/// input's weights (a lower weight has a lower rank, equal weights the same
/// rank), its output, and its weight as printed.
pub struct Weighted {
    pub rank: u64,
    pub output: String,
    pub weight: String,
}

/// The model of a list of [`Weighted`] analyses.
pub open spec fn weighted_view(v: Seq<Weighted>) -> Seq<(u64, Seq<char>, Seq<char>)> {
    v.map_values(|w: Weighted| (w.rank, w.output@, w.weight@))
}

/// The outputs of the analyses.
pub open spec fn outputs_of(items: Seq<(u64, Seq<char>, Seq<char>)>) -> Seq<Seq<char>> {
    items.map_values(|x: (u64, Seq<char>, Seq<char>)| x.1)
}

/// The first position from `i` on that holds `key`, or -1.
pub open spec fn first_from(s: Seq<Seq<char>>, key: Seq<char>, i: int) -> int
    decreases s.len() - i,
{
    if i < 0 || i >= s.len() {
        -1
    } else if s[i] == key {
        i
    } else {
        first_from(s, key, i + 1)
    }
}

/// The entry of the `m`th output, in the order of the outputs: the rank
/// and position of its first analysis.
pub open spec fn unique_entry(items: Seq<(u64, Seq<char>, Seq<char>)>, m: int) -> (u64, usize) {
    let i = first_from(outputs_of(items), spec_ordered_set(outputs_of(items))[m], 0);
    (items[i].0, i as usize)
}

/// The analyses the weighted layouts order, each as its rank and position:
/// all of them, in the order they were found; with `-u` each output once,
/// at its first analysis, in the order of the outputs.
pub open spec fn spec_entries(unique: bool, items: Seq<(u64, Seq<char>, Seq<char>)>) -> Seq<(u64, usize)> {
    if !unique {
        Seq::new(items.len(), |i: int| (items[i].0, i as usize))
    } else {
        Seq::new(spec_ordered_set(outputs_of(items)).len(), |m: int| unique_entry(items, m))
    }
}

/// The analysis whose weight the beam is measured from: the best one, the
/// first of the lowest rank among the entries the layout orders (with `-u`
/// each output at the weight it was first found with). None when there is
/// no analysis.
pub open spec fn spec_beam_reference(unique: bool, items: Seq<(u64, Seq<char>, Seq<char>)>) -> Option<usize> {
    if items.len() == 0 {
        None
    } else {
        Some(sort_by_rank(spec_entries(unique, items))[0].1)
    }
}

/// The entries whose analyses are within the beam, in order.
pub open spec fn in_beam_only(s: Seq<(u64, usize)>, in_beam: Seq<bool>) -> Seq<(u64, usize)>
    decreases s.len(),
{
    if s.len() == 0 {
        Seq::empty()
    } else if in_beam[s.last().1 as int] {
        in_beam_only(s.drop_last(), in_beam).push(s.last())
    } else {
        in_beam_only(s.drop_last(), in_beam)
    }
}

/// The first `n` entries, all when there are fewer, none when `n` is not
/// positive.
pub open spec fn first_n(s: Seq<(u64, usize)>, n: int) -> Seq<(u64, usize)> {
    if n <= 0 {
        Seq::empty()
    } else if n < s.len() {
        s.subrange(0, n)
    } else {
        s
    }
}

/// The line of one analysis: after the input and a tab in the Xerox
/// layout, its output, then a tab and its weight with `-w`.
pub open spec fn spec_weighted_line(
    x: (u64, Seq<char>, Seq<char>),
    xerox: bool,
    show_weight: bool,
    prepend: Seq<char>,
) -> Seq<char> {
    (if xerox { prepend + "\t"@ } else { Seq::empty() }) + x.1 + (if show_weight { "\t"@ + x.2 } else { Seq::empty() })
        + "\n"@
}

/// The lines of the analyses at the entries' positions, in order.
pub open spec fn spec_weighted_lines(
    items: Seq<(u64, Seq<char>, Seq<char>)>,
    s: Seq<(u64, usize)>,
    xerox: bool,
    show_weight: bool,
    prepend: Seq<char>,
) -> Seq<char>
    decreases s.len(),
{
    if s.len() == 0 {
        Seq::empty()
    } else {
        spec_weighted_lines(items, s.drop_last(), xerox, show_weight, prepend) + spec_weighted_line(
            items[s.last().1 as int],
            xerox,
            show_weight,
            prepend,
        )
    }
}

/// The entries the weighted layouts print: in the plain layout the first
/// `max_analyses` by rising weight, of them those within the beam; with
/// `-u`, of the outputs within the beam the first `max_analyses` by rising
/// weight.
pub open spec fn spec_chosen(
    unique: bool,
    items: Seq<(u64, Seq<char>, Seq<char>)>,
    in_beam: Seq<bool>,
    max_analyses: int,
) -> Seq<(u64, usize)> {
    let e = spec_entries(unique, items);
    if !unique {
        in_beam_only(first_n(sort_by_rank(e), max_analyses), in_beam)
    } else {
        first_n(sort_by_rank(in_beam_only(e, in_beam)), max_analyses)
    }
}

/// What the weighted layouts print for one input; `in_beam` tells of each
/// analysis whether its weight is within the beam of the reference
/// analysis's weight: the input and `+?` when there is no analysis in the
/// Xerox layout, else the chosen analyses, one per line, and a blank line.
pub open spec fn spec_print_weighted(
    unique: bool,
    items: Seq<(u64, Seq<char>, Seq<char>)>,
    in_beam: Seq<bool>,
    o: SpecOptions,
    prepend: Seq<char>,
) -> Seq<char> {
    let xerox = o.output_type == OutputType::Xerox;
    if xerox && items.len() == 0 {
        spec_no_analysis(prepend)
    } else {
        spec_weighted_lines(
            items,
            spec_chosen(unique, items, in_beam, o.max_analyses as int),
            xerox,
            o.display_weights_flag,
            prepend,
        ) + "\n"@
    }
}

/// Whether every entry stands for a position below `n`.
pub open spec fn all_below(s: Seq<(u64, usize)>, n: int) -> bool {
    forall|k: int| 0 <= k < s.len() ==> (s[k].1 as int) < n
}

proof fn lemma_first_from(s: Seq<Seq<char>>, key: Seq<char>, i: int, p: int)
    requires
        0 <= i <= p < s.len(),
        s[p] == key,
    ensures
        i <= first_from(s, key, i) <= p,
        s[first_from(s, key, i)] == key,
    decreases p - i,
{
    if s[i] != key {
        lemma_first_from(s, key, i + 1, p);
    }
}

proof fn lemma_insert_below(sorted: Seq<(u64, usize)>, x: (u64, usize), n: int)
    requires
        all_below(sorted, n),
        (x.1 as int) < n,
    ensures
        all_below(insert_by_rank(sorted, x), n),
    decreases sorted.len(),
{
    if sorted.len() == 0 {
        assert(insert_by_rank(sorted, x) == seq![x]);
    } else if sorted.last().0 <= x.0 {
        let r = sorted.push(x);
        assert(insert_by_rank(sorted, x) == r);
        assert forall|k: int| 0 <= k < r.len() implies (r[k].1 as int) < n by {
            if k < sorted.len() {
                assert(r[k] == sorted[k]);
            }
        }
    } else {
        let d = sorted.drop_last();
        assert forall|k: int| 0 <= k < d.len() implies (d[k].1 as int) < n by {
            assert(d[k] == sorted[k]);
        }
        lemma_insert_below(d, x, n);
        let m = insert_by_rank(d, x);
        let r = m.push(sorted.last());
        assert(insert_by_rank(sorted, x) == r);
        assert forall|k: int| 0 <= k < r.len() implies (r[k].1 as int) < n by {
            if k < m.len() {
                assert(r[k] == m[k]);
            }
        }
    }
}

proof fn lemma_sort_below(s: Seq<(u64, usize)>, n: int)
    requires
        all_below(s, n),
    ensures
        all_below(sort_by_rank(s), n),
    decreases s.len(),
{
    if s.len() > 0 {
        let d = s.drop_last();
        assert forall|k: int| 0 <= k < d.len() implies (d[k].1 as int) < n by {
            assert(d[k] == s[k]);
        }
        lemma_sort_below(d, n);
        lemma_insert_below(sort_by_rank(d), s.last(), n);
    }
}

fn entries(unique: bool, items: &Vec<Weighted>) -> (r: Vec<(u64, usize)>)
    ensures
        r@ == spec_entries(unique, weighted_view(items@)),
        all_below(r@, items@.len() as int),
        items@.len() > 0 ==> r@.len() > 0,
{
    let ghost iv = weighted_view(items@);
    let mut r: Vec<(u64, usize)> = Vec::new();
    if !unique {
        let mut i: usize = 0;
        while i < items.len()
            invariant
                iv == weighted_view(items@),
                i <= items@.len(),
                r@ =~= Seq::new(i as nat, |j: int| (iv[j].0, j as usize)),
            decreases items@.len() - i,
        {
            r.push((items[i].rank, i));
            i = i + 1;
        }
        return r;
    }
    let mut outs: Vec<String> = Vec::new();
    let mut i: usize = 0;
    while i < items.len()
        invariant
            iv == weighted_view(items@),
            i <= items@.len(),
            strings_view(outs@) =~= outputs_of(iv).subrange(0, i as int),
        decreases items@.len() - i,
    {
        let x = items[i].output.clone();
        let ghost before = strings_view(outs@);
        outs.push(x);
        proof {
            assert(iv[i as int].1 == items@[i as int].output@);
            assert(strings_view(outs@) =~= before.push(items@[i as int].output@));
            assert(outputs_of(iv).subrange(0, i + 1) =~= outputs_of(iv).subrange(0, i as int).push(iv[i as int].1));
        }
        i = i + 1;
    }
    let ghost ov = outputs_of(iv);
    assert(strings_view(outs@) =~= ov);
    let keys = ordered_set(&outs);
    let ghost ks = spec_ordered_set(ov);
    proof {
        lemma_ordered_set(ov);
        if items@.len() > 0 {
            assert(ov.to_set().contains(ov[0]));
            assert(ks.to_set().contains(ov[0]));
            assert(ks.len() > 0);
        }
    }
    let mut m: usize = 0;
    while m < keys.len()
        invariant
            iv == weighted_view(items@),
            ov == outputs_of(iv),
            ks == spec_ordered_set(ov),
            ks.to_set() == ov.to_set(),
            strings_view(outs@) == ov,
            strings_view(keys@) == ks,
            m <= keys@.len(),
            r@ =~= Seq::new(m as nat, |j: int| unique_entry(iv, j)),
            all_below(r@, items@.len() as int),
        decreases keys@.len() - m,
    {
        let ghost kv = ks[m as int];
        assert(keys@[m as int]@ == kv);
        assert(ks.to_set().contains(kv));
        assert(ov.to_set().contains(kv));
        let ghost p = choose|p: int| 0 <= p < ov.len() && ov[p] == kv;
        proof {
            lemma_first_from(ov, kv, 0, p);
        }
        let mut k: usize = 0;
        while !str_eq(outs[k].as_str(), keys[m].as_str())
            invariant
                strings_view(outs@) == ov,
                strings_view(keys@) == ks,
                m < keys@.len(),
                kv == ks[m as int],
                0 <= p < ov.len(),
                ov[p] == kv,
                k <= p,
                first_from(ov, kv, 0) == first_from(ov, kv, k as int),
            decreases p - k,
        {
            assert(outs@[k as int]@ == ov[k as int]);
            assert(k != p);
            k = k + 1;
        }
        assert(outs@[k as int]@ == ov[k as int]);
        assert(first_from(ov, kv, k as int) == k);
        r.push((items[k].rank, k));
        m = m + 1;
    }
    r
}

/// The analysis whose weight the beam is measured from, if any.
pub fn beam_reference(unique: bool, items: &Vec<Weighted>) -> (r: Option<usize>)
    ensures
        r == spec_beam_reference(unique, weighted_view(items@)),
        r matches Some(k) ==> k < items@.len(),
{
    if items.len() == 0 {
        return None;
    }
    let e = entries(unique, items);
    let s = sorted_by_rank(&e);
    proof {
        lemma_sort_len(e@);
        lemma_sort_below(e@, items@.len() as int);
    }
    Some(s[0].1)
}

fn keep_in_beam(v: &Vec<(u64, usize)>, in_beam: &Vec<bool>) -> (r: Vec<(u64, usize)>)
    requires
        all_below(v@, in_beam@.len() as int),
    ensures
        r@ == in_beam_only(v@, in_beam@),
        all_below(r@, in_beam@.len() as int),
{
    let mut r: Vec<(u64, usize)> = Vec::new();
    let mut i: usize = 0;
    while i < v.len()
        invariant
            all_below(v@, in_beam@.len() as int),
            i <= v@.len(),
            r@ == in_beam_only(v@.subrange(0, i as int), in_beam@),
            all_below(r@, in_beam@.len() as int),
        decreases v@.len() - i,
    {
        let x = v[i];
        proof {
            assert(v@.subrange(0, i + 1).drop_last() =~= v@.subrange(0, i as int));
            assert(v@.subrange(0, i + 1).last() == x);
        }
        if in_beam[x.1] {
            r.push(x);
        }
        i = i + 1;
    }
    assert(v@.subrange(0, v@.len() as int) =~= v@);
    r
}

fn take_first(v: &Vec<(u64, usize)>, n: i32) -> (r: Vec<(u64, usize)>)
    ensures
        r@ == first_n(v@, n as int),
        r@.len() <= v@.len(),
        forall|k: int| 0 <= k < r@.len() ==> r@[k] == v@[k],
{
    let limit: usize = if n <= 0 {
        0
    } else if (n as usize) < v.len() {
        n as usize
    } else {
        v.len()
    };
    let mut r: Vec<(u64, usize)> = Vec::new();
    let mut i: usize = 0;
    while i < limit
        invariant
            limit <= v@.len(),
            i <= limit,
            r@ =~= v@.subrange(0, i as int),
        decreases limit - i,
    {
        r.push(v[i]);
        i = i + 1;
    }
    proof {
        if n > 0 && (n as int) >= v@.len() {
            assert(v@.subrange(0, v@.len() as int) =~= v@);
        }
    }
    r
}

fn weighted_lines(items: &Vec<Weighted>, s: &Vec<(u64, usize)>, xerox: bool, show_weight: bool, prepend: &str) -> (t: String)
    requires
        all_below(s@, items@.len() as int),
    ensures
        t@ == spec_weighted_lines(weighted_view(items@), s@, xerox, show_weight, prepend@),
{
    let ghost iv = weighted_view(items@);
    let mut t = String::new();
    let mut i: usize = 0;
    while i < s.len()
        invariant
            iv == weighted_view(items@),
            all_below(s@, items@.len() as int),
            i <= s@.len(),
            t@ == spec_weighted_lines(iv, s@.subrange(0, i as int), xerox, show_weight, prepend@),
        decreases s@.len() - i,
    {
        let k = s[i].1;
        let ghost before = t@;
        if xerox {
            t.append(prepend);
            t.append("\t");
        }
        t.append(items[k].output.as_str());
        if show_weight {
            t.append("\t");
            t.append(items[k].weight.as_str());
        }
        t.append("\n");
        proof {
            let sub = s@.subrange(0, i + 1);
            assert(sub.drop_last() =~= s@.subrange(0, i as int));
            assert(sub.last() == s@[i as int]);
            assert(iv[k as int] == (items@[k as int].rank, items@[k as int].output@, items@[k as int].weight@));
            assert(t@ =~= before + spec_weighted_line(iv[k as int], xerox, show_weight, prepend@));
        }
        i = i + 1;
    }
    assert(s@.subrange(0, s@.len() as int) =~= s@);
    t
}

/// What the weighted layouts print for one input, given its analyses in
/// the order they were found and whether each is within the beam.
pub fn print_weighted(unique: bool, items: &Vec<Weighted>, in_beam: &Vec<bool>, o: &Options, prepend: &str) -> (s: String)
    requires
        in_beam@.len() == items@.len(),
    ensures
        s@ == spec_print_weighted(unique, weighted_view(items@), in_beam@, o@, prepend@),
{
    let xerox = o.output_type == OutputType::Xerox;
    if xerox && items.len() == 0 {
        let mut s = concat3(prepend, "\t", prepend);
        s.append("\t+?\n\n");
        return s;
    }
    let n = items.len();
    let e = entries(unique, items);
    let chosen = if !unique {
        let sorted = sorted_by_rank(&e);
        proof {
            lemma_sort_below(e@, n as int);
        }
        let first = take_first(&sorted, o.max_analyses);
        keep_in_beam(&first, in_beam)
    } else {
        let kept = keep_in_beam(&e, in_beam);
        let sorted = sorted_by_rank(&kept);
        proof {
            lemma_sort_below(kept@, n as int);
        }
        take_first(&sorted, o.max_analyses)
    };
    let mut s = weighted_lines(items, &chosen, xerox, o.display_weights_flag, prepend);
    s.append("\n");
    s
}

/// Every element of the entries within the beam has a rank at most `b`
/// when every entry does.
proof fn lemma_in_beam_bounded(s: Seq<(u64, usize)>, in_beam: Seq<bool>, b: u64)
    requires
        forall|k: int| 0 <= k < s.len() ==> s[k].0 <= b,
    ensures
        forall|k: int| 0 <= k < in_beam_only(s, in_beam).len() ==> in_beam_only(s, in_beam)[k].0 <= b,
    decreases s.len(),
{
    if s.len() > 0 {
        let d = s.drop_last();
        assert forall|k: int| 0 <= k < d.len() implies d[k].0 <= b by {
            assert(d[k] == s[k]);
        }
        lemma_in_beam_bounded(d, in_beam, b);
        let r = in_beam_only(d, in_beam);
        if in_beam[s.last().1 as int] {
            let q = r.push(s.last());
            assert forall|k: int| 0 <= k < q.len() implies q[k].0 <= b by {
                if k < r.len() {
                    assert(q[k] == r[k]);
                }
            }
        }
    }
}

/// Keeping the entries within the beam keeps them in order of rank.
proof fn lemma_in_beam_ordered(s: Seq<(u64, usize)>, in_beam: Seq<bool>)
    requires
        rank_ordered(s),
    ensures
        rank_ordered(in_beam_only(s, in_beam)),
    decreases s.len(),
{
    if s.len() > 0 {
        let d = s.drop_last();
        assert(rank_ordered(d)) by {
            assert forall|i: int, j: int| 0 <= i <= j < d.len() implies d[i].0 <= d[j].0 by {
                assert(d[i] == s[i] && d[j] == s[j]);
            }
        }
        lemma_in_beam_ordered(d, in_beam);
        let r = in_beam_only(d, in_beam);
        if in_beam[s.last().1 as int] {
            assert forall|k: int| 0 <= k < d.len() implies d[k].0 <= s.last().0 by {
                assert(d[k] == s[k]);
            }
            lemma_in_beam_bounded(d, in_beam, s.last().0);
            let q = r.push(s.last());
            assert forall|i: int, j: int| 0 <= i <= j < q.len() implies q[i].0 <= q[j].0 by {
                if j < r.len() {
                    assert(q[i] == r[i] && q[j] == r[j]);
                } else if i < r.len() {
                    assert(q[i] == r[i]);
                }
            }
        }
    }
}

/// `-b` measures the beam from the best analysis: no entry the weighted
/// layouts order has a lower rank than the reference analysis.
pub proof fn lemma_beam_from_best(unique: bool, items: Seq<(u64, Seq<char>, Seq<char>)>, k: int)
    requires
        items.len() <= usize::MAX,
        0 <= k < spec_entries(unique, items).len(),
    ensures
        spec_beam_reference(unique, items) is Some,
        items[spec_beam_reference(unique, items)->0 as int].0 <= spec_entries(unique, items)[k].0,
{
    let e = spec_entries(unique, items);
    let s = sort_by_rank(e);
    if items.len() == 0 {
        if unique {
            assert(outputs_of(items) =~= Seq::<Seq<char>>::empty());
            assert(spec_ordered_set(outputs_of(items)).len() == 0);
        }
        assert(false);
    }
    lemma_sort_len(e);
    lemma_sorted_by_rank_ordered(e);
    lemma_sort_contains(e, k);
    let j = choose|j: int| 0 <= j < s.len() && s[j] == e[k];
    assert(s[0].0 <= s[j].0);
    lemma_entry_rank(unique, items, 0);
}

/// An entry's rank is the rank of the analysis it stands for.
proof fn lemma_entries_rank(unique: bool, items: Seq<(u64, Seq<char>, Seq<char>)>, i: int)
    requires
        items.len() <= usize::MAX,
        0 <= i < spec_entries(unique, items).len(),
    ensures
        0 <= spec_entries(unique, items)[i].1 < items.len(),
        spec_entries(unique, items)[i].0 == items[spec_entries(unique, items)[i].1 as int].0,
{
    if unique {
        let ov = outputs_of(items);
        let ks = spec_ordered_set(ov);
        lemma_ordered_set(ov);
        assert(ks.contains(ks[i]));
        assert(ks.to_set().contains(ks[i]));
        assert(ov.to_set().contains(ks[i]));
        assert(ov.contains(ks[i]));
        let p = choose|p: int| 0 <= p < ov.len() && ov[p] == ks[i];
        lemma_first_from(ov, ks[i], 0, p);
    }
}

/// The rank of the `j`th sorted entry is the rank of its analysis.
proof fn lemma_entry_rank(unique: bool, items: Seq<(u64, Seq<char>, Seq<char>)>, j: int)
    requires
        items.len() <= usize::MAX,
        0 <= j < sort_by_rank(spec_entries(unique, items)).len(),
    ensures
        sort_by_rank(spec_entries(unique, items))[j].0 == items[sort_by_rank(spec_entries(unique, items))[j].1 as int].0,
{
    let e = spec_entries(unique, items);
    lemma_sort_from(e, j);
    let i = choose|i: int| 0 <= i < e.len() && e[i] == sort_by_rank(e)[j];
    lemma_entries_rank(unique, items, i);
}

/// Every entry of the sorted entries is one of the entries.
proof fn lemma_sort_from(e: Seq<(u64, usize)>, j: int)
    requires
        0 <= j < sort_by_rank(e).len(),
    ensures
        exists|i: int| 0 <= i < e.len() && e[i] == sort_by_rank(e)[j],
    decreases e.len(),
{
    if e.len() == 0 {
        assert(sort_by_rank(e).len() == 0);
    } else {
        let d = e.drop_last();
        let sd = sort_by_rank(d);
        assert(sort_by_rank(e) == insert_by_rank(sd, e.last()));
        lemma_sort_len(d);
        lemma_insert_len_from(sd, e.last());
        lemma_insert_from(sd, e.last(), j);
        if sort_by_rank(e)[j] == e.last() {
            assert(e[e.len() - 1] == sort_by_rank(e)[j]);
        } else {
            let jj = choose|jj: int| 0 <= jj < sd.len() && sd[jj] == sort_by_rank(e)[j];
            lemma_sort_from(d, jj);
            let i = choose|i: int| 0 <= i < d.len() && d[i] == sd[jj];
            assert(e[i] == d[i]);
        }
    }
}

proof fn lemma_insert_from(sorted: Seq<(u64, usize)>, x: (u64, usize), j: int)
    requires
        0 <= j < sorted.len() + 1,
    ensures
        insert_by_rank(sorted, x)[j] == x || exists|jj: int| 0 <= jj < sorted.len() && sorted[jj] == insert_by_rank(sorted, x)[j],
    decreases sorted.len(),
{
    if sorted.len() == 0 {
    } else if sorted.last().0 <= x.0 {
        if j < sorted.len() {
            assert(sorted.push(x)[j] == sorted[j]);
        }
    } else {
        let d = sorted.drop_last();
        let m = insert_by_rank(d, x);
        lemma_insert_len_from(d, x);
        if j < sorted.len() {
            lemma_insert_from(d, x, j);
            assert(m.push(sorted.last())[j] == m[j]);
            if m[j] != x {
                let jj = choose|jj: int| 0 <= jj < d.len() && d[jj] == m[j];
                assert(sorted[jj] == d[jj]);
            }
        } else {
            assert(m.push(sorted.last())[j] == sorted[sorted.len() - 1]);
        }
    }
}

proof fn lemma_insert_len_from(sorted: Seq<(u64, usize)>, x: (u64, usize))
    ensures
        insert_by_rank(sorted, x).len() == sorted.len() + 1,
    decreases sorted.len(),
{
    if sorted.len() > 0 && sorted.last().0 > x.0 {
        lemma_insert_len_from(sorted.drop_last(), x);
    }
}

/// Every entry is among the sorted entries.
proof fn lemma_sort_contains(e: Seq<(u64, usize)>, k: int)
    requires
        0 <= k < e.len(),
    ensures
        exists|j: int| 0 <= j < sort_by_rank(e).len() && sort_by_rank(e)[j] == e[k],
    decreases e.len(),
{
    let d = e.drop_last();
    let sd = sort_by_rank(d);
    assert(sort_by_rank(e) == insert_by_rank(sd, e.last()));
    lemma_sort_len(d);
    if k == e.len() - 1 {
        lemma_insert_contains(sd, e.last());
    } else {
        assert(e[k] == d[k]);
        lemma_sort_contains(d, k);
        let j = choose|j: int| 0 <= j < sd.len() && sd[j] == d[k];
        lemma_insert_keeps(sd, e.last(), j);
    }
}

proof fn lemma_insert_contains(sorted: Seq<(u64, usize)>, x: (u64, usize))
    ensures
        exists|j: int| 0 <= j < insert_by_rank(sorted, x).len() && insert_by_rank(sorted, x)[j] == x,
    decreases sorted.len(),
{
    lemma_insert_len_from(sorted, x);
    if sorted.len() == 0 {
        assert(insert_by_rank(sorted, x)[0] == x);
    } else if sorted.last().0 <= x.0 {
        assert(insert_by_rank(sorted, x)[sorted.len() as int] == x);
    } else {
        let d = sorted.drop_last();
        lemma_insert_contains(d, x);
        lemma_insert_len_from(d, x);
        let m = insert_by_rank(d, x);
        let j = choose|j: int| 0 <= j < m.len() && m[j] == x;
        assert(m.push(sorted.last())[j] == x);
    }
}

proof fn lemma_insert_keeps(sorted: Seq<(u64, usize)>, x: (u64, usize), j: int)
    requires
        0 <= j < sorted.len(),
    ensures
        exists|i: int| 0 <= i < insert_by_rank(sorted, x).len() && insert_by_rank(sorted, x)[i] == sorted[j],
    decreases sorted.len(),
{
    lemma_insert_len_from(sorted, x);
    if sorted.last().0 <= x.0 {
        assert(sorted.push(x)[j] == sorted[j]);
    } else {
        let d = sorted.drop_last();
        let m = insert_by_rank(d, x);
        lemma_insert_len_from(d, x);
        if j == sorted.len() - 1 {
            assert(m.push(sorted.last())[m.len() as int] == sorted[j]);
        } else {
            assert(d[j] == sorted[j]);
            lemma_insert_keeps(d, x, j);
            let i = choose|i: int| 0 <= i < m.len() && m[i] == d[j];
            assert(m.push(sorted.last())[i] == sorted[j]);
        }
    }
}

/// The weighted layouts print the analyses by rising weight.
pub proof fn lemma_weighted_by_rising_weight(
    unique: bool,
    items: Seq<(u64, Seq<char>, Seq<char>)>,
    in_beam: Seq<bool>,
    max_analyses: int,
)
    ensures
        rank_ordered(spec_chosen(unique, items, in_beam, max_analyses)),
{
    let e = spec_entries(unique, items);
    if !unique {
        let s = sort_by_rank(e);
        lemma_sorted_by_rank_ordered(e);
        let f = first_n(s, max_analyses);
        assert(rank_ordered(f)) by {
            assert forall|i: int, j: int| 0 <= i <= j < f.len() implies f[i].0 <= f[j].0 by {
                assert(f[i] == s[i] && f[j] == s[j]);
            }
        }
        lemma_in_beam_ordered(f, in_beam);
    } else {
        let s = sort_by_rank(in_beam_only(e, in_beam));
        lemma_sorted_by_rank_ordered(in_beam_only(e, in_beam));
        let f = first_n(s, max_analyses);
        assert forall|i: int, j: int| 0 <= i <= j < f.len() implies f[i].0 <= f[j].0 by {
            assert(f[i] == s[i] && f[j] == s[j]);
        }
    }
}

/// `-n` reads a plain numeral (an optional sign and digits, as
/// `str::parse::<i32>` takes it) as its value.
pub proof fn lemma_plain_numeral(s: Seq<char>)
    requires
        crate::numbers::spec_parse_i32(s) is Some,
    ensures
        spec_parse_leading_i32(s) == crate::numbers::spec_parse_i32(s)->0,
{
    let u = crate::numbers::unsigned_part(s);
    assert(s.len() > 0);
    assert(!is_space(s[0])) by {
        if !(s[0] == '+' || s[0] == '-') {
            assert(u == s);
            assert(crate::version::is_digit(u[0]));
        }
    }
    assert(space_run(s) == 0);
    assert(s.subrange(0, s.len() as int) =~= s);
    crate::version::lemma_digit_run_of(u, u.len() as int);
    assert(u.subrange(0, u.len() as int) =~= u);
}

} // verus!
