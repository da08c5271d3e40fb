//! hfst-strings2fst: compile strings and pair strings into transducers. The
//! strings are tokenized and compiled by the backend and the weights are
//! floating-point numbers the caller reads; how the options combine, how
//! an input line splits into its string and its weight, how the multichar
//! symbol file is read, and what the tool says along the way are decided
//! here.

use vstd::prelude::*;
use crate::common::{
    Channel, CommonOptions, Message, Report, SpecReport, messages_view, spec_fail_report, fail_with,
    to_stderr,
};
use crate::lexc_compiler::FormatType;
use crate::sorted::strings_view;
use crate::text::{chars_of, concat2, concat3, str_eq, string_of_range};

verus! {

// ---------------------------------------------------------------------------
// Options
// ---------------------------------------------------------------------------

/// What `-W` sets: whether negative weights are warned about, and whether
/// warnings are errors.
pub open spec fn spec_warning_switches(switch: Option<Seq<char>>) -> Option<(bool, bool)> {
    match switch {
        None => Some((true, false)),
        Some(s) => if s == "error"@ {
            Some((true, true))
        } else if s == "no-error"@ {
            Some((true, false))
        } else if s == "negative-weights"@ {
            Some((true, false))
        } else if s == "no-negative-weights"@ {
            Some((false, false))
        } else {
            None
        },
    }
}

/// The refusal of an unknown `-W` switch.
pub open spec fn spec_bad_switch(s: Seq<char>) -> Seq<char> {
    "unrecognised warning option -W"@ + s
}

/// hfst-strings2fst's arguments; `-f` carries the format its name was read
/// as.
pub struct Args {
    pub format: Option<FormatType>,
    pub disjunct_strings: bool,
    pub norm: bool,
    pub log: bool,
    pub log10: bool,
    pub pairstrings: bool,
    pub has_spaces: bool,
    pub epsilon: Option<String>,
    pub multichar_symbols: Option<String>,
    pub warning: Option<String>,
}

/// What hfst-strings2fst runs with, other than the weights.
pub struct Settings {
    pub output_format: FormatType,
    pub epsilonname: String,
    pub has_spaces: bool,
    pub disjunct_strings: bool,
    pub pairstrings: bool,
    pub multichar_symbol_filename: Option<String>,
    pub normalize_weights: bool,
    pub logarithmic_weights_e: bool,
    pub logarithmic_weights_10: bool,
    pub warn_negative_weights: bool,
    pub warnings_are_errors: bool,
}

/// The settings the arguments give: the format defaults to tropical
/// OpenFst and the epsilon to `@0@`.
pub open spec fn spec_settings_of(a: &Args, warn: bool, errors: bool) -> (FormatType, Seq<char>, bool, bool) {
    (
        match a.format { Some(f) => if f == FormatType::Unspecified { FormatType::TropicalOpenfst } else { f }, None => FormatType::TropicalOpenfst },
        match a.epsilon { Some(e) => e@, None => "@0@"@ },
        warn,
        errors,
    )
}

/// What hfst-strings2fst decides from its arguments: the settings (format,
/// epsilon, warning switches) and, when verbose and no format was given,
/// the note that it defaults; or the report for an unknown `-W` switch.
pub open spec fn spec_run(c: crate::common::SpecCommon, a: &Args) -> Result<
    ((FormatType, Seq<char>, bool, bool), Seq<(Channel, Seq<char>)>),
    SpecReport,
> {
    match spec_warning_switches(crate::getopt::opt_view(a.warning)) {
        None => Err(spec_fail_report(c.program_name, spec_bad_switch(crate::getopt::opt_view(a.warning)->0))),
        Some((warn, errors)) => {
            let unspecified = match a.format { Some(f) => f == FormatType::Unspecified, None => true };
            Ok(
                (
                    spec_settings_of(a, warn, errors),
                    if unspecified && c.verbose {
                        seq![(Channel::Stderr, "Output format not specified, defaulting to openfst tropical\n"@)]
                    } else {
                        seq![]
                    },
                ),
            )
        },
    }
}

fn warning_switches(switch: &Option<String>) -> (r: Option<(bool, bool)>)
    ensures
        r == spec_warning_switches(crate::getopt::opt_view(*switch)),
{
    match switch {
        None => Some((true, false)),
        Some(s) => {
            let t = s.as_str();
            if str_eq(t, "error") {
                Some((true, true))
            } else if str_eq(t, "no-error") {
                Some((true, false))
            } else if str_eq(t, "negative-weights") {
                Some((true, false))
            } else if str_eq(t, "no-negative-weights") {
                Some((false, false))
            } else {
                None
            }
        },
    }
}

/// What hfst-strings2fst runs with and what it said deciding it.
pub struct Plan {
    pub settings: Settings,
    pub messages: Vec<Message>,
}

/// Decides what hfst-strings2fst runs with.
pub fn run(common: &CommonOptions, args: Args) -> (r: Result<Plan, Report>)
    ensures
        match (r, spec_run(common@, &args)) {
            (Ok(p), Ok((s, m))) => (p.settings.output_format, p.settings.epsilonname@, p.settings.warn_negative_weights,
                p.settings.warnings_are_errors) == s && messages_view(p.messages@) == m
                && p.settings.has_spaces == args.has_spaces && p.settings.disjunct_strings == args.disjunct_strings
                && p.settings.pairstrings == args.pairstrings && p.settings.normalize_weights == args.norm
                && p.settings.logarithmic_weights_e == args.log && p.settings.logarithmic_weights_10 == args.log10
                && crate::getopt::opt_view(p.settings.multichar_symbol_filename) == crate::getopt::opt_view(
                args.multichar_symbols,
            ),
            (Err(x), Err(y)) => x@ == y,
            _ => false,
        },
{
    let (warn, errors) = match warning_switches(&args.warning) {
        Some(x) => x,
        None => {
            let s = match &args.warning {
                Some(s) => s.clone(),
                None => String::new(),
            };
            let t = concat2("unrecognised warning option -W", s.as_str());
            return Err(fail_with(common, t.as_str()));
        },
    };
    let unspecified = match args.format {
        Some(f) => f == FormatType::Unspecified,
        None => true,
    };
    let format = if unspecified {
        FormatType::TropicalOpenfst
    } else {
        match args.format {
            Some(f) => f,
            None => FormatType::TropicalOpenfst,
        }
    };
    let mut messages: Vec<Message> = Vec::new();
    assert(messages_view(messages@) =~= Seq::<(Channel, Seq<char>)>::empty());
    if unspecified && common.verbose {
        let m = to_stderr("Output format not specified, defaulting to openfst tropical\n".to_owned());
        let ghost mv = m@;
        messages.push(m);
        assert(messages_view(messages@) =~= seq![mv]);
    }
    let epsilonname = match args.epsilon {
        Some(e) => e,
        None => "@0@".to_owned(),
    };
    Ok(Plan {
        settings: Settings {
            output_format: format,
            epsilonname,
            has_spaces: args.has_spaces,
            disjunct_strings: args.disjunct_strings,
            pairstrings: args.pairstrings,
            multichar_symbol_filename: args.multichar_symbols,
            normalize_weights: args.norm,
            logarithmic_weights_e: args.log,
            logarithmic_weights_10: args.log10,
            warn_negative_weights: warn,
            warnings_are_errors: errors,
        },
        messages,
    })
}

// ---------------------------------------------------------------------------
// Input lines
// ---------------------------------------------------------------------------

/// Whether `c` ends a line's text.
pub open spec fn is_line_end(c: char) -> bool {
    c == '\n' || c == '\r'
}

/// The first position from `k` on that ends the text, or the length.
pub open spec fn text_end(s: Seq<char>, k: int) -> int
    decreases s.len() - k,
{
    if k < 0 || k >= s.len() {
        s.len() as int
    } else if is_line_end(s[k]) {
        k
    } else {
        text_end(s, k + 1)
    }
}

/// The first tab of `s`, if any.
pub open spec fn first_tab(s: Seq<char>, k: int) -> Option<int>
    decreases s.len() - k,
{
    if k < 0 || k >= s.len() {
        None
    } else if s[k] == '\t' {
        Some(k)
    } else {
        first_tab(s, k + 1)
    }
}

/// An input line split into its string and its weight text: with a tab,
/// the string precedes the first tab and the weight follows it up to the
/// line's end; without, the string runs to the line's end.
pub open spec fn spec_split_line(line: Seq<char>) -> (Seq<char>, Option<Seq<char>>) {
    match first_tab(line, 0) {
        Some(tab) => (line.subrange(0, tab), Some(line.subrange(tab + 1, text_end(line, tab + 1)))),
        None => (line.subrange(0, text_end(line, 0)), None),
    }
}

proof fn lemma_text_end_bounds(s: Seq<char>, k: int)
    requires
        0 <= k <= s.len(),
    ensures
        k <= text_end(s, k) <= s.len(),
    decreases s.len() - k,
{
    if k < s.len() && !is_line_end(s[k]) {
        lemma_text_end_bounds(s, k + 1);
    }
}

fn text_end_exec(v: &Vec<char>, from: usize) -> (r: usize)
    requires
        from <= v@.len(),
    ensures
        r == text_end(v@, from as int),
        from <= r <= v@.len(),
{
    let mut k: usize = from;
    while k < v.len() && v[k] != '\n' && v[k] != '\r'
        invariant
            from <= k <= v@.len(),
            text_end(v@, from as int) == text_end(v@, k as int),
        decreases v@.len() - k,
    {
        k = k + 1;
    }
    k
}

/// Splits an input line into its string and its weight text.
pub fn split_line(line: &str) -> (r: (String, Option<String>))
    ensures
        (r.0@, crate::getopt::opt_view(r.1)) == spec_split_line(line@),
{
    let v = chars_of(line);
    let mut k: usize = 0;
    while k < v.len() && v[k] != '\t'
        invariant
            k <= v@.len(),
            first_tab(v@, 0) == first_tab(v@, k as int),
        decreases v@.len() - k,
    {
        k = k + 1;
    }
    if k < v.len() {
        let e = text_end_exec(&v, k + 1);
        (string_of_range(&v, 0, k), Some(string_of_range(&v, k + 1, e)))
    } else {
        let e = text_end_exec(&v, 0);
        (string_of_range(&v, 0, e), None)
    }
}

/// What a negative weight leads to.
#[derive(Clone, Copy, PartialEq, Eq, Structural)]
pub enum NegativeWeight {
    Accept,
    Warn,
    Fail,
}

/// What a weight leads to: a negative one is warned about (`-Wnegative-weights`,
/// the default) or fails the run (with `-Werror` too).
pub open spec fn spec_negative_weight(negative: bool, warn: bool, errors: bool) -> NegativeWeight {
    if negative && warn {
        if errors { NegativeWeight::Fail } else { NegativeWeight::Warn }
    } else {
        NegativeWeight::Accept
    }
}

/// What a weight leads to.
pub fn negative_weight(negative: bool, s: &Settings) -> (r: NegativeWeight)
    ensures
        r == spec_negative_weight(negative, s.warn_negative_weights, s.warnings_are_errors),
{
    if negative && s.warn_negative_weights {
        if s.warnings_are_errors { NegativeWeight::Fail } else { NegativeWeight::Warn }
    } else {
        NegativeWeight::Accept
    }
}

/// The complaint about a string with unescaped colons, pair strings or not.
pub open spec fn spec_unescaped_colons(pairstrings: bool, line: Seq<char>) -> Seq<char> {
    if pairstrings {
        "String `"@ + line + "' contains unescaped ':'-symbols,\nwhich are not pair separators. Use `\\:' for literal `:'."@
    } else {
        "String `"@ + line
            + "' contains unescaped `:'-symbols,\nwhich are not pair separators. Use `\\:' for literal `:'.\nIf you are compiling pair strings, use option -p."@
    }
}

/// The complaint about a string with unescaped colons.
pub fn unescaped_colons(pairstrings: bool, line: &str) -> (s: String)
    ensures
        s@ == spec_unescaped_colons(pairstrings, line@),
{
    if pairstrings {
        concat3("String `", line, "' contains unescaped ':'-symbols,\nwhich are not pair separators. Use `\\:' for literal `:'.")
    } else {
        concat3(
            "String `",
            line,
            "' contains unescaped `:'-symbols,\nwhich are not pair separators. Use `\\:' for literal `:'.\nIf you are compiling pair strings, use option -p.",
        )
    }
}

/// The verbose line before each input line.
pub fn parsing_line(n: u32) -> (s: String)
    ensures
        s@ == "Parsing line "@ + crate::text::spec_int_text(n as int) + "...\n"@,
{
    concat3("Parsing line ", crate::text::int_text(n as i64).as_str(), "...\n")
}

// ---------------------------------------------------------------------------
// Multichar symbols
// ---------------------------------------------------------------------------

/// The lines of a text from `start` on, as `str::lines` gives them: split
/// at `\n`, a final `\r` dropped from each, no line after a final `\n`.
pub open spec fn spec_lines_from(s: Seq<char>, start: int) -> Seq<Seq<char>>
    decreases s.len() - start,
{
    if start < 0 || start >= s.len() {
        seq![]
    } else {
        match first_newline(s, start) {
            None => seq![drop_cr(s.subrange(start, s.len() as int))],
            Some(k) => {
                proof {
                    lemma_first_newline(s, start);
                }
                seq![drop_cr(s.subrange(start, k))] + spec_lines_from(s, k + 1)
            },
        }
    }
}

/// `s` without a final `\r`.
pub open spec fn drop_cr(s: Seq<char>) -> Seq<char> {
    if s.len() > 0 && s.last() == '\r' { s.drop_last() } else { s }
}

/// The first `\n` of `s` from `k` on.
pub open spec fn first_newline(s: Seq<char>, k: int) -> Option<int>
    decreases s.len() - k,
{
    if k < 0 || k >= s.len() {
        None
    } else if s[k] == '\n' {
        Some(k)
    } else {
        first_newline(s, k + 1)
    }
}

/// The multichar symbols a file defines: its non-empty lines.
pub open spec fn spec_multichar_symbols(contents: Seq<char>) -> Seq<Seq<char>> {
    spec_lines_from(contents, 0).filter(|l: Seq<char>| l.len() > 0)
}

pub proof fn lemma_first_newline(s: Seq<char>, k: int)
    requires
        0 <= k <= s.len(),
    ensures
        match first_newline(s, k) {
            Some(j) => k <= j < s.len() && s[j] == '\n' && forall|i: int| k <= i < j ==> s[i] != '\n',
            None => forall|i: int| k <= i < s.len() ==> s[i] != '\n',
        },
    decreases s.len() - k,
{
    if k < s.len() && s[k] != '\n' {
        lemma_first_newline(s, k + 1);
    }
}

fn drop_cr_exec(v: &Vec<char>, from: usize, to: usize) -> (s: String)
    requires
        from <= to <= v@.len(),
    ensures
        s@ == drop_cr(v@.subrange(from as int, to as int)),
{
    if to > from && v[to - 1] == '\r' {
        let s = string_of_range(v, from, to - 1);
        assert(s@ =~= v@.subrange(from as int, to as int).drop_last());
        s
    } else {
        string_of_range(v, from, to)
    }
}

/// The multichar symbols a file defines, and the verbose lines announcing
/// each.
pub fn multichar_symbols(common: &CommonOptions, contents: &str) -> (r: (Vec<String>, Vec<Message>))
    ensures
        strings_view(r.0@) == spec_multichar_symbols(contents@),
        messages_view(r.1@) == (if common.verbose {
            spec_multichar_symbols(contents@).map_values(|l: Seq<char>| (Channel::Stderr, "Defining multichar symbol "@ + l + "\n"@))
        } else {
            seq![]
        }),
{
    let v = chars_of(contents);
    let ghost all = contents@;
    let mut symbols: Vec<String> = Vec::new();
    let mut messages: Vec<Message> = Vec::new();
    let mut start: usize = 0;
    let ghost f = |l: Seq<char>| l.len() > 0;
    let ghost mk = |l: Seq<char>| (Channel::Stderr, "Defining multichar symbol "@ + l + "\n"@);
    assert(strings_view(symbols@) =~= Seq::<Seq<char>>::empty());
    assert(messages_view(messages@) =~= Seq::<(Channel, Seq<char>)>::empty());
    while start < v.len()
        invariant
            v@ == all,
            start <= v@.len(),
            spec_multichar_symbols(all) == strings_view(symbols@) + spec_lines_from(all, start as int).filter(f),
            f == (|l: Seq<char>| l.len() > 0),
            mk == (|l: Seq<char>| (Channel::Stderr, "Defining multichar symbol "@ + l + "\n"@)),
            messages_view(messages@) == (if common.verbose { strings_view(symbols@).map_values(mk) } else { seq![] }),
        decreases v@.len() - start,
    {
        let mut k: usize = start;
        while k < v.len() && v[k] != '\n'
            invariant
                v@ == all,
                start <= k <= v@.len(),
                first_newline(all, start as int) == first_newline(all, k as int),
            decreases v@.len() - k,
        {
            k = k + 1;
        }
        let line = drop_cr_exec(&v, start, k);
        let next: usize = if k < v.len() { k + 1 } else { k };
        proof {
            if k < v.len() {
                assert(first_newline(all, k as int) == Some(k as int));
            } else {
                assert(first_newline(all, k as int) is None);
            }
            assert(spec_lines_from(all, start as int) == seq![line@] + spec_lines_from(all, next as int));
            Seq::filter_distributes_over_add(seq![line@], spec_lines_from(all, next as int), f);
            reveal_with_fuel(Seq::filter, 2);
            assert(seq![line@].drop_last() =~= Seq::<Seq<char>>::empty());
        }
        if line.unicode_len() > 0 {
            let ghost before_s = strings_view(symbols@);
            let ghost before_m = messages_view(messages@);
            let ghost lv = line@;
            if common.verbose {
                let m = to_stderr(concat3("Defining multichar symbol ", line.as_str(), "\n"));
                let ghost mv = m@;
                messages.push(m);
                assert(messages_view(messages@) =~= before_m.push(mv));
            }
            symbols.push(line);
            assert(strings_view(symbols@) =~= before_s.push(lv));
            assert(seq![lv].filter(f) =~= seq![lv]);
            proof {
                if common.verbose {
                    assert(strings_view(symbols@).map_values(mk) =~= before_s.map_values(mk).push(mk(lv)));
                }
            }
        } else {
            assert(seq![line@].filter(f) =~= Seq::<Seq<char>>::empty());
        }
        start = next;
        assert(strings_view(symbols@) + spec_lines_from(all, start as int).filter(f) =~= spec_multichar_symbols(all));
    }
    assert(spec_lines_from(all, start as int) =~= Seq::<Seq<char>>::empty());
    assert(Seq::<Seq<char>>::empty().filter(f) =~= Seq::<Seq<char>>::empty()) by {
        reveal_with_fuel(Seq::filter, 1);
    }
    assert(strings_view(symbols@) =~= spec_multichar_symbols(all));
    (symbols, messages)
}

} // verus!
