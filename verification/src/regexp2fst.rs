//! hfst-regexp2fst: compile regular expressions into transducers. The
//! expressions are compiled by the backend's regular expression compiler;
//! how the options combine, what counts as an expression in line mode, and
//! how the tool reacts to each compilation's outcome are decided here.

use vstd::prelude::*;
use crate::common::{
    Channel, CommonOptions, Message, Report, SpecReport, messages_view, spec_fail_report, fail_with,
    to_stderr,
};
use crate::lexc_compiler::FormatType;
use crate::text::{chars_of, concat2, concat3, int_text, spec_int_text, str_eq, string_of_range};

verus! {

/// hfst-regexp2fst's arguments; `-f` carries the format its name was read
/// as, `semicolon` is whether `-S` came after any `-l`.
pub struct Args {
    pub format: Option<FormatType>,
    pub disjunct: bool,
    pub semicolon: bool,
    pub epsilon: Option<String>,
    pub xerox_composition: Option<String>,
    pub xfst: Option<String>,
    pub do_not_harmonize: bool,
    pub harmonize_flags: bool,
    pub encode_weights: bool,
    pub do_not_minimize: bool,
}

/// What hfst-regexp2fst compiles with.
#[derive(Clone, Copy, PartialEq, Eq, Structural)]
pub struct Settings {
    pub output_format: FormatType,
    pub disjunct_expressions: bool,
    pub line_separated: bool,
    pub encode_weights: bool,
    pub harmonize: bool,
    pub harmonize_flags: bool,
    pub minimize_result: bool,
    pub flag_is_epsilon: bool,
    pub xerox_composition: bool,
}

/// What `-x` sets; `None` for a value it does not take.
pub open spec fn spec_xerox(v: Option<Seq<char>>) -> Option<bool> {
    match v {
        None => Some(false),
        Some(a) => if a == "yes"@ || a == "true"@ || a == "ON"@ {
            Some(true)
        } else if a == "no"@ || a == "false"@ || a == "OFF"@ {
            Some(false)
        } else {
            None
        },
    }
}

/// What `-X` sets; `None` for a variable it does not know.
pub open spec fn spec_xfst(v: Option<Seq<char>>) -> Option<bool> {
    match v {
        None => Some(false),
        Some(a) => if a == "flag-is-epsilon"@ { Some(true) } else { None },
    }
}

/// What hfst-regexp2fst decides from its arguments: an unknown `-x` value
/// ends it, then an unknown `-X` variable; otherwise the settings, with the
/// format defaulting to tropical OpenFst (said when verbose), lines as the
/// separator unless `-S`, harmonizing and minimizing unless switched off.
pub open spec fn spec_run(c: crate::common::SpecCommon, a: &Args) -> Result<(Settings, Seq<(Channel, Seq<char>)>), SpecReport> {
    match spec_xerox(crate::getopt::opt_view(a.xerox_composition)) {
        None => Err(spec_fail_report(
            c.program_name,
            "unknown option to --xerox-composition: '"@ + crate::getopt::opt_view(a.xerox_composition)->0 + "'\n"@,
        )),
        Some(x) => match spec_xfst(crate::getopt::opt_view(a.xfst)) {
            None => Err(spec_fail_report(
                c.program_name,
                "Error: unknown option to --xfst: '"@ + crate::getopt::opt_view(a.xfst)->0 + "'\n"@,
            )),
            Some(f) => {
                let unspecified = match a.format { Some(t) => t == FormatType::Unspecified, None => true };
                Ok(
                    (
                        Settings {
                            output_format: if unspecified { FormatType::TropicalOpenfst } else { a.format->0 },
                            disjunct_expressions: a.disjunct,
                            line_separated: !a.semicolon,
                            encode_weights: a.encode_weights,
                            harmonize: !a.do_not_harmonize,
                            harmonize_flags: a.harmonize_flags,
                            minimize_result: !a.do_not_minimize,
                            flag_is_epsilon: f,
                            xerox_composition: x,
                        },
                        if unspecified && c.verbose {
                            seq![(Channel::Stderr, "Output format not specified, defaulting to openfst tropical\n"@)]
                        } else {
                            seq![]
                        },
                    ),
                )
            },
        },
    }
}

/// What hfst-regexp2fst compiles with and what it said deciding it.
pub struct Plan {
    pub settings: Settings,
    pub messages: Vec<Message>,
}

/// Decides what hfst-regexp2fst compiles with.
pub fn run(common: &CommonOptions, args: &Args) -> (r: Result<Plan, Report>)
    ensures
        match (r, spec_run(common@, args)) {
            (Ok(p), Ok((s, m))) => p.settings == s && messages_view(p.messages@) == m,
            (Err(x), Err(y)) => x@ == y,
            _ => false,
        },
{
    let x = match &args.xerox_composition {
        None => false,
        Some(a) => {
            let t = a.as_str();
            if str_eq(t, "yes") || str_eq(t, "true") || str_eq(t, "ON") {
                true
            } else if str_eq(t, "no") || str_eq(t, "false") || str_eq(t, "OFF") {
                false
            } else {
                let m = concat3("unknown option to --xerox-composition: '", t, "'\n");
                return Err(fail_with(common, m.as_str()));
            }
        },
    };
    let f = match &args.xfst {
        None => false,
        Some(a) => {
            if str_eq(a.as_str(), "flag-is-epsilon") {
                true
            } else {
                let m = concat3("Error: unknown option to --xfst: '", a.as_str(), "'\n");
                return Err(fail_with(common, m.as_str()));
            }
        },
    };
    let unspecified = match args.format {
        Some(t) => t == FormatType::Unspecified,
        None => true,
    };
    let output_format = match args.format {
        Some(t) => if unspecified { FormatType::TropicalOpenfst } else { t },
        None => FormatType::TropicalOpenfst,
    };
    let mut messages: Vec<Message> = Vec::new();
    assert(messages_view(messages@) =~= Seq::<(Channel, Seq<char>)>::empty());
    if unspecified && common.verbose {
        let m = to_stderr("Output format not specified, defaulting to openfst tropical\n".to_owned());
        let ghost mv = m@;
        messages.push(m);
        assert(messages_view(messages@) =~= seq![mv]);
    }
    Ok(Plan {
        settings: Settings {
            output_format,
            disjunct_expressions: args.disjunct,
            line_separated: !args.semicolon,
            encode_weights: args.encode_weights,
            harmonize: !args.do_not_harmonize,
            harmonize_flags: args.harmonize_flags,
            minimize_result: !args.do_not_minimize,
            flag_is_epsilon: f,
            xerox_composition: x,
        },
        messages,
    })
}

// ---------------------------------------------------------------------------
// Line-separated input
// ---------------------------------------------------------------------------

/// Whether `c` is skipped at the start of an expression line.
pub open spec fn is_lead(c: char) -> bool {
    c == '\n' || c == '\r' || c == ' '
}

/// The number of characters skipped at the start of a line.
pub open spec fn lead_run(s: Seq<char>) -> nat
    decreases s.len(),
{
    if s.len() == 0 || !is_lead(s[0]) {
        0
    } else {
        1 + lead_run(s.drop_first())
    }
}

proof fn lemma_lead_run_of(s: Seq<char>, n: int)
    requires
        0 <= n <= s.len(),
        forall|k: int| 0 <= k < n ==> is_lead(#[trigger] s[k]),
        n == s.len() || !is_lead(s[n]),
    ensures
        lead_run(s) == n,
    decreases n,
{
    if n > 0 {
        assert forall|k: int| 0 <= k < n - 1 implies is_lead(#[trigger] s.drop_first()[k]) by {
            assert(s.drop_first()[k] == s[k + 1]);
        }
        if n < s.len() {
            assert(s.drop_first()[n - 1] == s[n]);
        }
        lemma_lead_run_of(s.drop_first(), n - 1);
    }
}

/// The expression a line holds: the line without its leading newlines,
/// carriage returns and spaces.
pub open spec fn spec_expression(line: Seq<char>) -> Seq<char> {
    line.subrange(lead_run(line) as int, line.len() as int)
}

/// The expression a line holds.
pub fn expression(line: &str) -> (r: String)
    ensures
        r@ == spec_expression(line@),
{
    let v = chars_of(line);
    let mut k: usize = 0;
    while k < v.len() && (v[k] == '\n' || v[k] == '\r' || v[k] == ' ')
        invariant
            v@ == line@,
            k <= v@.len(),
            forall|j: int| 0 <= j < k ==> is_lead(#[trigger] v@[j]),
        decreases v@.len() - k,
    {
        k = k + 1;
    }
    proof {
        lemma_lead_run_of(line@, k as int);
    }
    string_of_range(&v, k, v.len())
}

/// How compiling one expression went.
#[derive(Clone, Copy, PartialEq, Eq, Structural)]
pub enum Outcome {
    /// A transducer came out.
    Compiled,
    /// Nothing came out: the expression held only comments.
    OnlyComments,
    /// Nothing came out: the expression did not parse.
    Failed,
}

/// Where the line-separated reading stands: lines read, and whether every
/// expression so far held only white space or comments.
#[derive(Clone, Copy, PartialEq, Eq, Structural)]
pub struct LineState {
    pub line_count: u32,
    pub only_whitespace_or_comments: bool,
}

/// What to do with a line.
pub enum LineAction {
    /// An empty expression: skip it, with this verbose note.
    Skip(Message),
    /// Compile this expression, after this verbose note.
    Compile(String, Message),
}

/// The reading before any line.
pub open spec fn spec_line_start() -> LineState {
    LineState { line_count: 0, only_whitespace_or_comments: true }
}

/// The reading before any line.
pub fn line_start() -> (s: LineState)
    ensures
        s == spec_line_start(),
{
    LineState { line_count: 0, only_whitespace_or_comments: true }
}

/// What a line leads to: the line is counted; an empty expression is skipped
/// with `Skipping whitespace expression #N` (no newline), another is
/// compiled after `Compiling expression N`.
pub fn next_line(s: &mut LineState, line: &str) -> (r: LineAction)
    requires
        old(s).line_count < u32::MAX,
    ensures
        final(s).line_count == old(s).line_count + 1,
        final(s).only_whitespace_or_comments == old(s).only_whitespace_or_comments,
        match r {
            LineAction::Skip(m) => spec_expression(line@).len() == 0 && m@ == (Channel::Stderr, "Skipping whitespace expression #"@
                + spec_int_text(final(s).line_count as int)),
            LineAction::Compile(e, m) => spec_expression(line@).len() > 0 && e@ == spec_expression(line@) && m@ == (
            Channel::Stderr, "Compiling expression "@ + spec_int_text(final(s).line_count as int) + "\n"@),
        },
{
    let e = expression(line);
    s.line_count = s.line_count + 1;
    let n = int_text(s.line_count as i64);
    if e.unicode_len() == 0 {
        LineAction::Skip(to_stderr(concat2("Skipping whitespace expression #", n.as_str())))
    } else {
        LineAction::Compile(e, to_stderr(concat3("Compiling expression ", n.as_str(), "\n")))
    }
}

/// What the outcome of compiling the current line leads to: a transducer
/// marks that not everything was empty; a parse failure ends the tool,
/// naming the file and the line; comments alone are passed over.
pub fn after_compile(common: &CommonOptions, s: &mut LineState, outcome: Outcome) -> (r: Option<Report>)
    ensures
        final(s).line_count == old(s).line_count,
        match outcome {
            Outcome::Compiled => r is None && !final(s).only_whitespace_or_comments,
            Outcome::OnlyComments => r is None && *final(s) == *old(s),
            Outcome::Failed => r matches Some(x) && x@ == (SpecReport {
                code: 1,
                messages: seq![
                    (Channel::Stderr, common.program_name@ + ":"@ + common.input_filename@ + ":"@ + spec_int_text(
                        old(s).line_count as int,
                    ) + ": XRE parsing failed\n\n"@),
                ],
            }),
        },
{
    match outcome {
        Outcome::Compiled => {
            s.only_whitespace_or_comments = false;
            None
        },
        Outcome::OnlyComments => None,
        Outcome::Failed => {
            let mut t = concat3(common.program_name.as_str(), ":", common.input_filename.as_str());
            t.append(":");
            t.append(int_text(s.line_count as i64).as_str());
            t.append(": XRE parsing failed\n\n");
            Some(crate::common::end_with(1, to_stderr(t)))
        },
    }
}

/// What the end of the input leads to: when every expression held only
/// white space or comments, the tool fails.
pub fn at_end(common: &CommonOptions, s: &LineState) -> (r: Option<Report>)
    ensures
        match r {
            Some(x) => s.only_whitespace_or_comments && x@ == spec_fail_report(
                common.program_name@,
                common.input_filename@ + ": XRE parsing failed: input contains only whitespace or comments"@,
            ),
            None => !s.only_whitespace_or_comments,
        },
{
    if s.only_whitespace_or_comments {
        let t = concat2(common.input_filename.as_str(), ": XRE parsing failed: input contains only whitespace or comments");
        Some(fail_with(common, t.as_str()))
    } else {
        None
    }
}

// ---------------------------------------------------------------------------
// Semicolon-separated input
// ---------------------------------------------------------------------------

/// The verbose line before the `n`-th expression of semicolon-separated
/// input.
pub fn compiling_expression(n: u32) -> (s: String)
    ensures
        s@ == "Compiling expression #"@ + spec_int_text(n as int) + "\n"@,
{
    concat3("Compiling expression #", int_text(n as i64).as_str(), "\n")
}

/// What a semicolon-separated expression that produced nothing leads to:
/// comments alone end the reading (and fail the tool when it is the first
/// expression); a parse failure fails the tool.
pub open spec fn spec_semicolon_failure(program_name: Seq<char>, file: Seq<char>, n: int, only_comments: bool) -> Option<SpecReport> {
    if only_comments {
        if n == 1 {
            Some(spec_fail_report(
                program_name,
                file + ": XRE parsing failed: expression #"@ + spec_int_text(n) + " contains only whitespace or comments"@,
            ))
        } else {
            None
        }
    } else {
        Some(spec_fail_report(
            program_name,
            file + ": XRE parsing failed in expression #"@ + spec_int_text(n) + " separated by semicolons"@,
        ))
    }
}

/// What a semicolon-separated expression that produced nothing leads to.
pub fn semicolon_failure(common: &CommonOptions, n: u32, only_comments: bool) -> (r: Option<Report>)
    ensures
        match (r, spec_semicolon_failure(common.program_name@, common.input_filename@, n as int, only_comments)) {
            (Some(x), Some(y)) => x@ == y,
            (None, None) => true,
            _ => false,
        },
{
    let num = int_text(n as i64);
    if only_comments {
        if n == 1 {
            let mut t = concat3(common.input_filename.as_str(), ": XRE parsing failed: expression #", num.as_str());
            t.append(" contains only whitespace or comments");
            Some(fail_with(common, t.as_str()))
        } else {
            None
        }
    } else {
        let mut t = concat3(common.input_filename.as_str(), ": XRE parsing failed in expression #", num.as_str());
        t.append(" separated by semicolons");
        Some(fail_with(common, t.as_str()))
    }
}

} // verus!
